use pico8_bridge::bridge::classify_line;
use pico8_bridge::bridge::LineStep;
use pico8_bridge::cache::Controllers;
use pico8_bridge::encoder::encode;
use pico8_bridge::sdl::GameController;

#[test]
fn plain_line_is_forwarded_verbatim() {
    match classify_line(String::from("hello\n")) {
        LineStep::Forward(out) => assert_eq!(out, "hello\n"),
        LineStep::Poll(_) => panic!("plain output classified as a poll request"),
    }
}

#[test]
fn request_line_is_polled() {
    match classify_line(String::from("\u{2609}3\u{2609}\n")) {
        LineStep::Forward(_) => panic!("poll request classified as plain output"),
        LineStep::Poll(slot) => assert_eq!(slot, 3),
    }
}

#[test]
fn malformed_request_is_forwarded_verbatim() {
    match classify_line(String::from("\u{2609}3x\u{2609}\n")) {
        LineStep::Forward(out) => assert_eq!(out, "\u{2609}3x\u{2609}\n"),
        LineStep::Poll(_) => panic!("malformed line classified as a poll request"),
    }
}

// One read/decide/resolve/encode cycle of the bridge, exercised per line the
// way the host loop drives it; only the pipe and provider calls are stubbed
// by plain values.
fn bridge_cycle(
    cache: &mut Controllers,
    line: &str,
    opened: Option<GameController>,
) -> (Option<String>, Option<Vec<u8>>) {
    match classify_line(String::from(line)) {
        LineStep::Forward(out) => (Some(out), None),
        LineStep::Poll(slot) => {
            let resolved = cache.handle(slot, opened);
            (None, Some(encode(resolved.as_ref())))
        }
    }
}

#[test]
fn scenario_plain_output_passes_through() {
    let mut cache = Controllers::new();
    let (forwarded, payload) = bridge_cycle(&mut cache, "hello\n", None);
    assert_eq!(forwarded.as_deref(), Some("hello\n"));
    assert_eq!(payload, None);
    assert_eq!(cache.len(), 0);
}

#[test]
fn scenario_invalid_slot_still_acknowledged() {
    let mut cache = Controllers::new();
    let (forwarded, payload) = bridge_cycle(&mut cache, "\u{2609}3\u{2609}\n", None);
    assert_eq!(forwarded, None);
    let payload = payload.expect("a poll request must be answered");
    assert_eq!(payload, vec![0xff; 30]);
    assert_eq!(cache.len(), 0);
    assert_eq!(cache.get(3), None);
}

#[test]
fn scenario_same_slot_twice_reopens_in_place() {
    let mut cache = Controllers::new();
    let first = GameController { addr: 0x70 };
    let second = GameController { addr: 0x70 };
    let (_, payload) = bridge_cycle(&mut cache, "\u{2609}0\u{2609}\n", Some(first));
    assert_eq!(payload.unwrap(), vec![0xff; 30]);
    assert_eq!(cache.len(), 1);
    assert_eq!(cache.get(0), Some(first));
    let (_, payload) = bridge_cycle(&mut cache, "\u{2609}0\u{2609}\n", Some(second));
    assert_eq!(payload.unwrap(), vec![0xff; 30]);
    assert_eq!(cache.len(), 1);
    assert_eq!(cache.get(0), Some(second));
}
