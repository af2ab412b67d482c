//! Plain-value model of the controller-provider boundary.
//!
//! The provider itself (device enumeration, open/close, per-axis and
//! per-button reads) is a native capability that the host calls outside this
//! library; it hands the library plain values.  This module holds the types
//! those values travel in, and the two verified decision points `resi` and
//! `resp` that turn a provider status code or raw handle address into a
//! `Result`.

use vstd::prelude::*;

verus! {

/// Witness that the provider context was initialised.
pub struct Sdl;

/// Provider initialisation flags.
pub struct Init {
    pub flags: u32,
}

impl Init {
    /// Flags selecting the game-controller subsystem.
    pub fn gamecontroller() -> (r: Init)
        ensures
            r.flags == 0x2000,
    {
        Init { flags: 0x2000 }
    }
}

/// Provider-reported joystick instance identifier.
#[derive(Clone, Copy, PartialEq, Eq, Structural, Debug, Hash)]
pub struct JoystickId(pub i32);

/// A live controller handle, modelled by the non-null address the provider
/// returned for it.  Exactly one value stands for one open of a device slot.
#[derive(Clone, Copy, PartialEq, Eq, Structural, Debug)]
pub struct GameController {
    pub addr: usize,
}

/// A provider-reported error, carrying the provider's diagnostic message.
#[derive(Debug)]
pub struct Error {
    message: String,
}

impl View for Error {
    type V = Seq<char>;

    closed spec fn view(&self) -> Seq<char> {
        self.message@
    }
}

impl Error {
    /// Wraps a provider diagnostic message.
    pub fn new(message: String) -> (r: Error)
        ensures
            r@ == message@,
    {
        Error { message }
    }

    /// The provider's diagnostic message.
    pub fn message(&self) -> (r: &str)
        ensures
            r@ == self@,
    {
        self.message.as_str()
    }
}

/// Classifies a provider status code: zero is success, anything else fails
/// with the provider's diagnostic.
pub fn resi(status: i32, diagnostic: String) -> (r: Result<(), Error>)
    ensures
        status == 0 <==> r is Ok,
        status != 0 ==> (r matches Err(e) && e@ == diagnostic@),
{
    if status == 0 {
        Ok(())
    } else {
        Err(Error { message: diagnostic })
    }
}

/// Classifies a provider handle address: a null (zero) address means the
/// open failed with the provider's diagnostic; any other address is a live
/// handle at exactly that address.
pub fn resp(handle_addr: usize, diagnostic: String) -> (r: Result<GameController, Error>)
    ensures
        handle_addr != 0 ==> r == Result::<GameController, Error>::Ok(
            GameController { addr: handle_addr },
        ),
        handle_addr == 0 ==> (r matches Err(e) && e@ == diagnostic@),
{
    if handle_addr != 0 {
        Ok(GameController { addr: handle_addr })
    } else {
        Err(Error { message: diagnostic })
    }
}

/// A controller axis, in the provider's enumeration order.
#[derive(Clone, Copy, PartialEq, Eq, Structural, Debug)]
pub enum GameControllerAxis {
    LeftX,
    LeftY,
    RightX,
    RightY,
    TriggerLeft,
    TriggerRight,
}

impl GameControllerAxis {
    /// The wire value the provider's native interface gives this axis.
    pub open spec fn spec_code(self) -> int {
        match self {
            GameControllerAxis::LeftX => 0,
            GameControllerAxis::LeftY => 1,
            GameControllerAxis::RightX => 2,
            GameControllerAxis::RightY => 3,
            GameControllerAxis::TriggerLeft => 4,
            GameControllerAxis::TriggerRight => 5,
        }
    }

    /// The wire value the provider's native interface gives this axis.
    pub fn code(self) -> (r: u8)
        ensures
            r == self.spec_code(),
    {
        match self {
            GameControllerAxis::LeftX => 0,
            GameControllerAxis::LeftY => 1,
            GameControllerAxis::RightX => 2,
            GameControllerAxis::RightY => 3,
            GameControllerAxis::TriggerLeft => 4,
            GameControllerAxis::TriggerRight => 5,
        }
    }
}

/// A controller button, in the provider's enumeration order.
#[derive(Clone, Copy, PartialEq, Eq, Structural, Debug)]
pub enum GameControllerButton {
    A,
    B,
    X,
    Y,
    Back,
    Guide,
    Start,
    LeftStick,
    RightStick,
    LeftShoulder,
    RightShoulder,
    DpadUp,
    DpadDown,
    DpadLeft,
    DpadRight,
    _Misc1,
    _Paddle1,
    _Paddle2,
    _Paddle3,
    _Paddle4,
    _Touchpad,
}

impl GameControllerButton {
    /// The wire value the provider's native interface gives this button.
    pub open spec fn spec_code(self) -> int {
        match self {
            GameControllerButton::A => 0,
            GameControllerButton::B => 1,
            GameControllerButton::X => 2,
            GameControllerButton::Y => 3,
            GameControllerButton::Back => 4,
            GameControllerButton::Guide => 5,
            GameControllerButton::Start => 6,
            GameControllerButton::LeftStick => 7,
            GameControllerButton::RightStick => 8,
            GameControllerButton::LeftShoulder => 9,
            GameControllerButton::RightShoulder => 10,
            GameControllerButton::DpadUp => 11,
            GameControllerButton::DpadDown => 12,
            GameControllerButton::DpadLeft => 13,
            GameControllerButton::DpadRight => 14,
            GameControllerButton::_Misc1 => 15,
            GameControllerButton::_Paddle1 => 16,
            GameControllerButton::_Paddle2 => 17,
            GameControllerButton::_Paddle3 => 18,
            GameControllerButton::_Paddle4 => 19,
            GameControllerButton::_Touchpad => 20,
        }
    }

    /// The wire value the provider's native interface gives this button.
    pub fn code(self) -> (r: u8)
        ensures
            r == self.spec_code(),
    {
        match self {
            GameControllerButton::A => 0,
            GameControllerButton::B => 1,
            GameControllerButton::X => 2,
            GameControllerButton::Y => 3,
            GameControllerButton::Back => 4,
            GameControllerButton::Guide => 5,
            GameControllerButton::Start => 6,
            GameControllerButton::LeftStick => 7,
            GameControllerButton::RightStick => 8,
            GameControllerButton::LeftShoulder => 9,
            GameControllerButton::RightShoulder => 10,
            GameControllerButton::DpadUp => 11,
            GameControllerButton::DpadDown => 12,
            GameControllerButton::DpadLeft => 13,
            GameControllerButton::DpadRight => 14,
            GameControllerButton::_Misc1 => 15,
            GameControllerButton::_Paddle1 => 16,
            GameControllerButton::_Paddle2 => 17,
            GameControllerButton::_Paddle3 => 18,
            GameControllerButton::_Paddle4 => 19,
            GameControllerButton::_Touchpad => 20,
        }
    }
}

} // verus!
