//! Reason codes: the one-byte status values by which the protocol client says
//! why a handshake or a publication failed.
//!
//! A code is handled here as the byte itself. Its printable name is whatever
//! `rust_mqtt` calls it; that name is obtained from `rust_mqtt` and never spelled
//! out in this crate.

use core::fmt::Write;
use rust_mqtt::packet::v5::reason_codes::ReasonCode;
use vstd::prelude::*;

use crate::text::{empty_text, text_bytes, CAPACITY};

verus! {

/// The code that stands for a failure of the transport rather than a refusal
/// by the broker.
pub const NETWORK_ERROR: u8 = 0xFF;

/// The name of the reason that `code` stands for, as `rust_mqtt` prints it
/// with `{:?}`, in UTF-8 bytes.
pub uninterp spec fn reason_name(code: u8) -> Seq<u8>;

/// `ReasonCode::from(code)` printed with `{:?}` into a `heapless::String`.
///
/// `ReasonCode` is an enum without fields whose `Debug` is derived, so the
/// name reaches the string in a single `write_str`, which `heapless` answers
/// with `push_str`: the name is appended whole when it fits the free room,
/// and otherwise the string stays as it was. The result says which.
#[verifier::external_body]
pub(crate) fn write_reason_name(out: &mut heapless::String<32>, code: u8) -> (written: bool)
    ensures
        written == (text_bytes(*old(out)).len() + reason_name(code).len() <= CAPACITY),
        written ==> text_bytes(*final(out)) == text_bytes(*old(out)) + reason_name(code),
        !written ==> text_bytes(*final(out)) == text_bytes(*old(out)),
{
    write!(out, "{:?}", ReasonCode::from(code)).is_ok()
}

/// The name of `code` as one bounded string can hold it: the whole name, or
/// nothing at all when the name by itself is longer than the capacity.
pub open spec fn rendered(code: u8) -> Seq<u8> {
    if reason_name(code).len() <= CAPACITY {
        reason_name(code)
    } else {
        Seq::empty()
    }
}

/// Renders the name of `code` into a bounded string of its own.
pub fn render(code: u8) -> (name: heapless::String<32>)
    ensures
        text_bytes(name) == rendered(code),
{
    let mut name = empty_text();
    let _written = write_reason_name(&mut name, code);
    name
}

} // verus!
