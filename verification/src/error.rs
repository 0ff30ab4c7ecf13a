//! The two kinds of failure a session reports, and how a reason code is
//! sorted into them.

use vstd::prelude::*;
use vstd::string::StringSliceAdditionalSpecFns;

use crate::reason::{render, rendered, NETWORK_ERROR};
use crate::text::{describe, described, text_bytes, text_str, CAPACITY};

verus! {

/// Why a `connect` or a `send` failed.
#[derive(Debug, PartialEq)]
pub enum MqttError {
    /// The transport failed or was closed.
    NetworkError,
    /// The protocol refused; the text names the reason, cut to the capacity
    /// of the string that holds it.
    OtherError(heapless::String<32>),
}

/// What an [`MqttError`] says, with the description as plain bytes.
pub enum Failure {
    Network,
    Other(Seq<u8>),
}

impl View for MqttError {
    type V = Failure;

    open spec fn view(&self) -> Failure {
        match self {
            MqttError::NetworkError => Failure::Network,
            MqttError::OtherError(description) => Failure::Other(text_bytes(*description)),
        }
    }
}

/// The bytes of the text that opens the description of a refused handshake.
pub open spec fn connect_prefix() -> Seq<u8> {
    "Other MQTT Error: ".spec_bytes()
}

/// How a handshake that failed with `code` is reported.
pub open spec fn connect_failure(code: u8) -> Failure {
    if code == NETWORK_ERROR {
        Failure::Network
    } else {
        Failure::Other(described(connect_prefix(), rendered(code)))
    }
}

/// How a publication that failed with `code` is reported.
pub open spec fn send_failure(code: u8) -> Failure {
    if code == NETWORK_ERROR {
        Failure::Network
    } else {
        Failure::Other(rendered(code))
    }
}

/// The prefix of a refused handshake is eighteen bytes long, so it always
/// fits a description and leaves fourteen bytes for the name.
pub proof fn lemma_connect_prefix_len()
    ensures
        connect_prefix().len() == 18,
{
    broadcast use vstd::string::is_ascii_spec_bytes;

    reveal_strlit("Other MQTT Error: ");
    assert(vstd::string::is_ascii("Other MQTT Error: "));
}

impl MqttError {
    /// A protocol failure described by `head` followed by `tail`, cut to the
    /// capacity of the description.
    pub fn other(head: &str, tail: &str) -> (error: MqttError)
        ensures
            error@ == Failure::Other(described(head.spec_bytes(), tail.spec_bytes())),
    {
        MqttError::OtherError(describe(head, tail))
    }

    /// Sorts the reason code of a failed handshake.
    pub fn connect_failed(code: u8) -> (error: MqttError)
        ensures
            error@ == connect_failure(code),
    {
        if code == NETWORK_ERROR {
            MqttError::NetworkError
        } else {
            let name = render(code);
            MqttError::other("Other MQTT Error: ", text_str(&name))
        }
    }

    /// Sorts the reason code of a failed publication.
    pub fn send_failed(code: u8) -> (error: MqttError)
        ensures
            error@ == send_failure(code),
    {
        if code == NETWORK_ERROR {
            MqttError::NetworkError
        } else {
            MqttError::OtherError(render(code))
        }
    }
}

/// A refused handshake is never reported as a network failure. Its
/// description begins with the whole prefix, so it is never empty, and it is
/// never longer than the capacity.
pub proof fn lemma_connect_failure_described(code: u8)
    requires
        code != NETWORK_ERROR,
    ensures
        connect_failure(code) matches Failure::Other(description) && 18 <= description.len()
            <= CAPACITY && description.take(18) == connect_prefix(),
{
    lemma_connect_prefix_len();
    crate::text::lemma_described_bounds(connect_prefix(), rendered(code));
    assert(described(connect_prefix(), rendered(code)).take(18) =~= connect_prefix());
}

} // verus!
