//! The three reply shapes the helper can emit, and the reply for an
//! unavailable device subsystem. Exactly one reply is emitted per
//! invocation; serializing it to JSON is left to the surrounding program.

use vstd::prelude::*;

verus! {

/// The reply to the `Info` command: the derived identifiers of every
/// enumerated device, in enumeration order.
pub struct InfoCommandReply {
    pub device_ids: Vec<String>,
}

/// The reply to a successful `Add` command: the matched device's primary
/// node path.
pub struct AddCommandReply {
    pub primary_node: String,
}

/// A structured failure reply: a numeric code and a message.
pub struct ErrorReply {
    pub code: i32,
    pub message: String,
}

/// The reply emitted when the device subsystem is unavailable. Both
/// commands short-circuit to it before any enumeration is attempted.
pub fn unavailable_reply() -> (r: ErrorReply)
    ensures
        r.code == 2,
        r.message@ == "DRM unavailable!"@,
{
    ErrorReply { code: 2, message: String::from_str("DRM unavailable!") }
}

} // verus!
