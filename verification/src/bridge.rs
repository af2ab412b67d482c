//! Subprocess Bridge, decision side: what to do with one line of child
//! output.
//!
//! The bridge loop itself lives with the process and pipe handling outside
//! the library; per line it defers to [`classify_line`] and then either
//! forwards the line to the host's own output or resolves the requested
//! slot and writes the encoded payload back to the child.

use vstd::prelude::*;

use crate::framer::is_request_line;
use crate::framer::request;
use crate::framer::request_slot;

verus! {

/// The action owed for one line of child output.
pub enum LineStep {
    /// The line is not a poll request: forward exactly these bytes to the
    /// host's own output.
    Forward(String),
    /// The line is a poll request for this device slot: resolve it and
    /// answer with the encoded payload.
    Poll(usize),
}

/// Decides the action for one line of child output, terminator included.
/// A well-formed poll request whose slot fits the machine is answered; any
/// other line is handed back unchanged to be forwarded.
pub fn classify_line(line: String) -> (r: LineStep)
    ensures
        match r {
            LineStep::Forward(out) => out@ == line@ && (!is_request_line(line@) || request_slot(
                line@,
            ) > usize::MAX),
            LineStep::Poll(slot) => is_request_line(line@) && slot == request_slot(line@),
        },
{
    match request(line.as_str()) {
        Some(slot) => LineStep::Poll(slot),
        None => LineStep::Forward(line),
    }
}

} // verus!
