//! The session: its fixed configuration, its three states, and the decisions
//! it takes before and after each exchange with the broker.

use vstd::prelude::*;
use vstd::string::StringSliceAdditionalSpecFns;

use crate::error::{connect_failure, send_failure, Failure, MqttError};
use crate::text::{text_bytes, text_str};

verus! {

/// Revisions of the protocol a session can speak.
#[derive(Clone, Copy, Debug, PartialEq, Eq, Structural)]
pub enum MqttVersion {
    MQTTv3,
    MQTTv5,
}

/// Delivery guarantees of the protocol.
#[derive(Clone, Copy, Debug, PartialEq, Eq, Structural)]
pub enum QualityOfService {
    /// At most once: sent and forgotten.
    QoS0,
    /// At least once: acknowledged by the receiver.
    QoS1,
    /// Exactly once.
    QoS2,
}

/// Where a session stands in its life.
#[derive(Clone, Copy, Debug, PartialEq, Eq, Structural)]
pub enum SessionState {
    /// Constructed; no handshake has succeeded yet.
    Uninitialized,
    /// The handshake succeeded and no publication has failed since.
    Ready,
    /// A publication failed. The session stays here for good.
    Unusable,
}

/// Largest packet, in bytes, that the session announces to the broker.
pub const MAX_PACKET_SIZE: u32 = 100;

/// Largest number of protocol properties a session carries.
pub const MAX_PROPERTIES: usize = 5;

/// Where the counter that numbers outgoing packets starts.
pub const PACKET_ID_SEED: u64 = 20000;

/// What a session is set up with. Nothing in it changes after construction.
#[derive(Clone, Copy, Debug)]
pub struct SessionConfig<'a> {
    pub client_id: &'a str,
    pub version: MqttVersion,
    pub max_subscribe_qos: QualityOfService,
    pub max_packet_size: u32,
    pub packet_id_seed: u64,
    pub write_capacity: usize,
    pub recv_capacity: usize,
}

/// A [`SessionConfig`] as plain values.
pub struct Setup {
    pub client_id: Seq<char>,
    pub version: MqttVersion,
    pub max_subscribe_qos: QualityOfService,
    pub max_packet_size: u32,
    pub packet_id_seed: u64,
    pub write_capacity: usize,
    pub recv_capacity: usize,
}

impl<'a> View for SessionConfig<'a> {
    type V = Setup;

    open spec fn view(&self) -> Setup {
        Setup {
            client_id: self.client_id@,
            version: self.version,
            max_subscribe_qos: self.max_subscribe_qos,
            max_packet_size: self.max_packet_size,
            packet_id_seed: self.packet_id_seed,
            write_capacity: self.write_capacity,
            recv_capacity: self.recv_capacity,
        }
    }
}

/// The configuration of every session with this client identifier and these
/// buffer capacities: the latest revision of the protocol, subscriptions
/// delivered at least once at the most, and the fixed packet bound.
pub open spec fn setup_for(client_id: Seq<char>, write_capacity: usize, recv_capacity: usize) -> Setup {
    Setup {
        client_id,
        version: MqttVersion::MQTTv5,
        max_subscribe_qos: QualityOfService::QoS1,
        max_packet_size: MAX_PACKET_SIZE,
        packet_id_seed: PACKET_ID_SEED,
        write_capacity,
        recv_capacity,
    }
}

/// What a session may be constructed from: a client identifier that is not
/// empty, and for each buffer a declared capacity equal to its length.
pub open spec fn valid_setup(
    client_id: Seq<char>,
    write_len: nat,
    buffer_len: usize,
    recv_len: nat,
    recv_buffer_len: usize,
) -> bool {
    &&& client_id.len() > 0
    &&& buffer_len == write_len
    &&& recv_buffer_len == recv_len
}

/// One message for the protocol client to publish.
#[derive(Clone, Copy, Debug)]
pub struct Publish<'a> {
    pub topic: &'a str,
    pub payload: &'a [u8],
    pub qos: QualityOfService,
    pub retain: bool,
}

/// A [`Publish`] as plain values.
pub struct Publication {
    pub topic: Seq<char>,
    pub payload: Seq<u8>,
    pub qos: QualityOfService,
    pub retain: bool,
}

impl<'a> View for Publish<'a> {
    type V = Publication;

    open spec fn view(&self) -> Publication {
        Publication {
            topic: self.topic@,
            payload: self.payload@,
            qos: self.qos,
            retain: self.retain,
        }
    }
}

/// The publication of `payload` under `topic`: at most once, not retained.
pub open spec fn publication(topic: Seq<char>, payload: Seq<u8>) -> Publication {
    Publication { topic, payload, qos: QualityOfService::QoS0, retain: false }
}

/// What a session in `state` answers when asked to publish: the publication
/// when it is ready, a network failure otherwise.
pub open spec fn publish_decision(state: SessionState, topic: Seq<char>, payload: Seq<u8>) -> Result<
    Publication,
    Failure,
> {
    if state == SessionState::Ready {
        Ok(publication(topic, payload))
    } else {
        Err(Failure::Network)
    }
}

/// The state after a handshake ended with `outcome`: a session that was
/// waiting for its first handshake becomes ready when it succeeded; every
/// other state stays.
pub open spec fn after_connect(state: SessionState, outcome: Result<(), u8>) -> SessionState {
    if state == SessionState::Uninitialized && outcome is Ok {
        SessionState::Ready
    } else {
        state
    }
}

/// What `connect` reports in `state` for a handshake that ended with
/// `outcome`: a failure sorted into its kind; success, unless the session is
/// unusable, which no handshake can mend.
pub open spec fn connect_result(state: SessionState, outcome: Result<(), u8>) -> Result<
    (),
    Failure,
> {
    match outcome {
        Ok(_) => if state == SessionState::Unusable {
            Err(Failure::Network)
        } else {
            Ok(())
        },
        Err(code) => Err(connect_failure(code)),
    }
}

/// The state after a publication ended with `outcome`: a ready session that
/// failed becomes unusable; every other state stays.
pub open spec fn after_send(state: SessionState, outcome: Result<(), u8>) -> SessionState {
    if state == SessionState::Ready && outcome is Err {
        SessionState::Unusable
    } else {
        state
    }
}

/// What `send` reports in `state` for a publication that ended with `outcome`.
pub open spec fn send_result(state: SessionState, outcome: Result<(), u8>) -> Result<(), Failure> {
    if state != SessionState::Ready {
        Err(Failure::Network)
    } else {
        match outcome {
            Ok(_) => Ok(()),
            Err(code) => Err(send_failure(code)),
        }
    }
}

/// Whether `result` reports exactly `expected`.
pub open spec fn reports(result: Result<(), MqttError>, expected: Result<(), Failure>) -> bool {
    match result {
        Ok(_) => expected is Ok,
        Err(error) => expected == Err::<(), Failure>(error@),
    }
}

/// One session with a broker.
pub struct MqttWriter<'a> {
    config: SessionConfig<'a>,
    state: SessionState,
}

impl<'a> MqttWriter<'a> {
    /// Every session carries a client identifier that is not empty, and
    /// beside it and the two capacities nothing but the fixed policy.
    #[verifier::type_invariant]
    spec fn well_formed(self) -> bool {
        &&& self.config.client_id@.len() > 0
        &&& self.config@ == setup_for(
            self.config.client_id@,
            self.config.write_capacity,
            self.config.recv_capacity,
        )
    }

    /// The configuration the session was constructed with.
    pub closed spec fn setup(&self) -> Setup {
        self.config@
    }

    /// The state the session is in.
    pub closed spec fn current(&self) -> SessionState {
        self.state
    }

    /// Whether a session can be constructed from these arguments.
    pub fn accepts(
        client_id: &str,
        write_buffer: &[u8],
        buffer_len: usize,
        recv_buffer: &[u8],
        recv_buffer_len: usize,
    ) -> (accepted: bool)
        ensures
            accepted == valid_setup(
                client_id@,
                write_buffer@.len(),
                buffer_len,
                recv_buffer@.len(),
                recv_buffer_len,
            ),
    {
        !client_id.is_empty() && buffer_len == write_buffer.len() && recv_buffer_len
            == recv_buffer.len()
    }

    /// Sets a session up. Nothing is sent: the session waits for its first
    /// handshake.
    pub fn new(
        client_id: &'a str,
        write_buffer: &[u8],
        buffer_len: usize,
        recv_buffer: &[u8],
        recv_buffer_len: usize,
    ) -> (writer: MqttWriter<'a>)
        requires
            valid_setup(
                client_id@,
                write_buffer@.len(),
                buffer_len,
                recv_buffer@.len(),
                recv_buffer_len,
            ),
        ensures
            writer.setup() == setup_for(client_id@, buffer_len, recv_buffer_len),
            writer.current() == SessionState::Uninitialized,
    {
        MqttWriter {
            config: SessionConfig {
                client_id,
                version: MqttVersion::MQTTv5,
                max_subscribe_qos: QualityOfService::QoS1,
                max_packet_size: MAX_PACKET_SIZE,
                packet_id_seed: PACKET_ID_SEED,
                write_capacity: buffer_len,
                recv_capacity: recv_buffer_len,
            },
            state: SessionState::Uninitialized,
        }
    }

    /// The configuration to set the protocol client up with. Whatever
    /// happened to the session since, it is the one the session was
    /// constructed with: the policy is fixed.
    pub fn config(&self) -> (config: SessionConfig<'a>)
        ensures
            config@ == self.setup(),
            config@ == setup_for(config.client_id@, config.write_capacity, config.recv_capacity),
            config.client_id@.len() > 0,
    {
        proof {
            use_type_invariant(self);
        }
        self.config
    }

    /// The state the session is in.
    pub fn state(&self) -> (state: SessionState)
        ensures
            state == self.current(),
    {
        self.state
    }

    /// Takes the outcome of one handshake: `Ok`, or the reason code with
    /// which it failed. A first handshake that succeeded makes the session
    /// ready. A failure is sorted into its kind and leaves the state alone.
    /// An unusable session stays unusable, and reports a network failure even
    /// for a handshake that succeeded.
    pub fn connect(&mut self, outcome: Result<(), u8>) -> (result: Result<(), MqttError>)
        ensures
            reports(result, connect_result(old(self).current(), outcome)),
            final(self).current() == after_connect(old(self).current(), outcome),
            final(self).setup() == old(self).setup(),
    {
        proof {
            use_type_invariant(&*self);
        }
        match outcome {
            Ok(_) => {
                match self.state {
                    SessionState::Uninitialized => {
                        self.state = SessionState::Ready;
                        Ok(())
                    },
                    SessionState::Ready => Ok(()),
                    SessionState::Unusable => Err(MqttError::NetworkError),
                }
            },
            Err(code) => Err(MqttError::connect_failed(code)),
        }
    }

    /// Decides on a request to publish `content` under `topic`. A ready
    /// session answers with the message to hand to the protocol client; any
    /// other session refuses with a network failure, and nothing is to be
    /// sent.
    pub fn publish<'t>(&self, topic: &'t str, content: &'t heapless::String<32>) -> (result: Result<
        Publish<'t>,
        MqttError,
    >)
        ensures
            match result {
                Ok(message) => publish_decision(self.current(), topic@, text_bytes(*content))
                    == Ok::<Publication, Failure>(message@),
                Err(error) => publish_decision(self.current(), topic@, text_bytes(*content))
                    == Err::<Publication, Failure>(error@),
            },
    {
        if self.state == SessionState::Ready {
            Ok(
                Publish {
                    topic,
                    payload: text_str(content).as_bytes(),
                    qos: QualityOfService::QoS0,
                    retain: false,
                },
            )
        } else {
            Err(MqttError::NetworkError)
        }
    }

    /// Takes the outcome of one publication: `Ok`, or the reason code with
    /// which it failed. A session that is not ready reports a network
    /// failure whatever the outcome says. A ready session passes success on,
    /// and on a failure sorts it into its kind and becomes unusable.
    pub fn send(&mut self, outcome: Result<(), u8>) -> (result: Result<(), MqttError>)
        ensures
            reports(result, send_result(old(self).current(), outcome)),
            final(self).current() == after_send(old(self).current(), outcome),
            final(self).setup() == old(self).setup(),
    {
        proof {
            use_type_invariant(&*self);
        }
        if self.state != SessionState::Ready {
            return Err(MqttError::NetworkError);
        }
        match outcome {
            Ok(_) => Ok(()),
            Err(code) => {
                self.state = SessionState::Unusable;
                Err(MqttError::send_failed(code))
            },
        }
    }
}

/// A handshake that failed because the transport failed is reported as a
/// network failure and never as a described one, whatever state the session
/// is in; and it leaves that state as it was.
pub proof fn lemma_transport_failure_on_connect(state: SessionState)
    ensures
        connect_result(state, Err(crate::reason::NETWORK_ERROR)) == Err::<(), Failure>(
            Failure::Network,
        ),
        after_connect(state, Err(crate::reason::NETWORK_ERROR)) == state,
{
}

/// A handshake that the broker refused is reported, in every state, with a
/// description that is never empty and never longer than the capacity of the
/// string that holds it.
pub proof fn lemma_refusal_on_connect(state: SessionState, code: u8)
    requires
        code != crate::reason::NETWORK_ERROR,
    ensures
        connect_result(state, Err(code)) matches Err(Failure::Other(description)) && 0
            < description.len() <= crate::text::CAPACITY,
{
    crate::error::lemma_connect_failure_described(code);
}

/// `connect` reports success exactly for a handshake that succeeded on a
/// session that is not unusable, and the session is ready then.
pub proof fn lemma_connect_success(state: SessionState, outcome: Result<(), u8>)
    ensures
        connect_result(state, outcome) is Ok <==> outcome is Ok && state != SessionState::Unusable,
        connect_result(state, outcome) is Ok ==> after_connect(state, outcome)
            == SessionState::Ready,
{
}

/// A session that is not ready never publishes: asked to, it refuses with a
/// network failure; handed the outcome of a publication, it reports a network
/// failure whatever the outcome was, and stays in its state.
pub proof fn lemma_send_needs_ready(
    state: SessionState,
    topic: Seq<char>,
    payload: Seq<u8>,
    outcome: Result<(), u8>,
)
    requires
        state != SessionState::Ready,
    ensures
        publish_decision(state, topic, payload) == Err::<Publication, Failure>(Failure::Network),
        send_result(state, outcome) == Err::<(), Failure>(Failure::Network),
        after_send(state, outcome) == state,
{
}

/// Only a successful first handshake makes a session ready, and once a
/// session is unusable nothing brings it back.
pub proof fn lemma_no_recovery(state: SessionState, outcome: Result<(), u8>)
    ensures
        after_connect(state, outcome) == SessionState::Ready ==> state == SessionState::Ready
            || (state == SessionState::Uninitialized && outcome is Ok),
        after_send(state, outcome) == SessionState::Ready ==> state == SessionState::Ready
            && outcome is Ok,
        after_connect(SessionState::Unusable, outcome) == SessionState::Unusable,
        after_send(SessionState::Unusable, outcome) == SessionState::Unusable,
{
}

/// A new session whose handshake succeeded is ready: asked to publish, it
/// answers with the message, at most once and not retained; and when that
/// publication succeeds it reports success.
pub proof fn lemma_publish_after_connect(topic: Seq<char>, payload: Seq<u8>)
    ensures
        connect_result(SessionState::Uninitialized, Ok(())) == Ok::<(), Failure>(()),
        after_connect(SessionState::Uninitialized, Ok(())) == SessionState::Ready,
        publish_decision(SessionState::Ready, topic, payload) == Ok::<Publication, Failure>(
            Publication { topic, payload, qos: QualityOfService::QoS0, retain: false },
        ),
        send_result(SessionState::Ready, Ok(())) == Ok::<(), Failure>(()),
{
}

/// Publishing is not remembered: after a publication that succeeded, a ready
/// session is ready again, and asked for the same topic and content once
/// more it answers with the same message once more.
pub proof fn lemma_repeated_publish(topic: Seq<char>, payload: Seq<u8>)
    ensures
        after_send(SessionState::Ready, Ok(())) == SessionState::Ready,
        publish_decision(after_send(SessionState::Ready, Ok(())), topic, payload)
            == publish_decision(SessionState::Ready, topic, payload),
        publish_decision(SessionState::Ready, topic, payload) is Ok,
{
}

/// The message for a content carries that content and nothing else: whatever
/// was published before, the payload of the next message is exactly the next
/// content, and so is as long as it.
pub proof fn lemma_payload_is_content(topic: Seq<char>, previous: Seq<u8>, next: Seq<u8>)
    ensures
        publish_decision(SessionState::Ready, topic, previous) matches Ok(first)
            && first.payload == previous,
        publish_decision(after_send(SessionState::Ready, Ok(())), topic, next) matches Ok(second)
            && second.payload == next && second.payload.len() == next.len(),
{
}

} // verus!
