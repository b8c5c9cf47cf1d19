//! The listener's settings and the handshake that opens a session.
use crate::message::{blank, decode, encode, DataType, FrameError, Message, MessageView};
use crate::wire::{be16, be16_at, get_u16, put_bytes, put_u16};
use vstd::prelude::*;
use vstd::utf8::encode_utf8;

verus! {

/// The protocol version that this side announces.
pub const PROTO_MAJOR: u16 = 1;

pub const PROTO_MINOR: u16 = 0;

/// The smallest payload limit that a peer may propose.
pub const MIN_MESSAGE_DATA_SIZE: u16 = 1024;

/// An IPv4 address and a port.
#[derive(Debug, Clone, Copy, PartialEq, Eq)]
pub struct SocketAddress {
    pub ip: [u8; 4],
    pub port: u16,
}

/// A payload limit: never below the minimum.
#[derive(Debug, Clone, Copy)]
pub struct DataSize {
    value: u16,
}

impl View for DataSize {
    type V = u16;

    closed spec fn view(&self) -> u16 {
        self.value
    }
}

impl DataSize {
    #[verifier::type_invariant]
    spec fn inv(self) -> bool {
        self.value >= MIN_MESSAGE_DATA_SIZE
    }

    /// The largest limit that the wire can carry.
    pub fn largest() -> (r: Self)
        ensures
            r@ == 0xFFFF,
    {
        Self { value: 0xFFFF }
    }

    pub fn get(&self) -> (r: u16)
        ensures
            r == self@,
            r >= MIN_MESSAGE_DATA_SIZE,
    {
        proof {
            use_type_invariant(self);
        }
        self.value
    }

    /// The limit after a peer proposed `proposal`: the smaller of the
    /// two, or none if the proposal is below the minimum.
    pub fn lowered(self, proposal: u16) -> (r: Option<Self>)
        ensures
            proposal < MIN_MESSAGE_DATA_SIZE ==> r is None,
            proposal >= MIN_MESSAGE_DATA_SIZE ==> r is Some && r->Some_0@ == agreed_size(
                self@,
                proposal,
            ),
    {
        proof {
            use_type_invariant(self);
        }
        if proposal < MIN_MESSAGE_DATA_SIZE {
            None
        } else if proposal < self.value {
            Some(Self { value: proposal })
        } else {
            Some(self)
        }
    }
}

/// Where the handshake stands: what was last sent, and so what the peer
/// is to answer next.
#[derive(Debug, Clone, Copy, PartialEq, Eq, Structural)]
pub enum Phase {
    /// Nothing was sent yet.
    Start,
    /// The version was sent; the peer's version, four bytes, is awaited.
    Version,
    /// The payload limit was sent; the peer's proposal, two bytes, is
    /// awaited.
    DataSize,
    /// The payload limit is agreed; nothing is awaited.
    Agreed,
    /// The interactive flag was sent; one frame is awaited.
    Acknowledge,
    /// The session is set up.
    Done,
}

/// Why a handshake ended without a session.
#[derive(Debug, Clone, Copy, PartialEq, Eq, Structural)]
pub enum HandshakeError {
    /// The peer's answer is shorter than the step calls for.
    ShortRead,
    /// The peer proposed a payload limit below the minimum.
    Rejected,
    /// A frame could not be read or written.
    Frame(FrameError),
    /// The handshake was already over.
    Finished,
}

/// What one step of the handshake decides: the bytes to send now, and
/// the phase that follows.
#[derive(Debug, Clone, PartialEq, Eq)]
pub struct Step {
    pub send: Vec<u8>,
    pub next: Phase,
}

/// What the peer is to send before the next step can be taken.
#[derive(Debug, Clone, Copy, PartialEq, Eq, Structural)]
pub enum Awaited {
    /// Nothing: the next step can be taken at once, or there is none.
    Nothing,
    /// This many bytes.
    Bytes(usize),
    /// One whole frame.
    Frame,
}

impl Phase {
    /// What the peer is to send in answer to what this phase sent.
    pub open spec fn spec_awaits(&self) -> Awaited {
        match *self {
            Phase::Version => Awaited::Bytes(4),
            Phase::DataSize => Awaited::Bytes(2),
            Phase::Acknowledge => Awaited::Frame,
            _ => Awaited::Nothing,
        }
    }

    pub fn awaits(&self) -> (r: Awaited)
        ensures
            r == self.spec_awaits(),
    {
        match *self {
            Phase::Version => Awaited::Bytes(4),
            Phase::DataSize => Awaited::Bytes(2),
            Phase::Acknowledge => Awaited::Frame,
            _ => Awaited::Nothing,
        }
    }
}

/// The entries of an environment list as bytes.
pub open spec fn entry_bytes(env: Seq<String>) -> Seq<Seq<u8>> {
    Seq::new(env.len(), |i: int| encode_utf8(env[i]@))
}

/// The parts, with one space between each two.
pub open spec fn joined(parts: Seq<Seq<u8>>) -> Seq<u8>
    decreases parts.len(),
{
    if parts.len() == 0 {
        Seq::empty()
    } else if parts.len() == 1 {
        parts[0]
    } else {
        joined(parts.drop_last()) + seq![32u8] + parts.last()
    }
}

/// An `Init` frame with the given payload.
pub open spec fn init_frame(data: Seq<u8>) -> MessageView {
    MessageView { data_type: DataType::Init, data, ..blank() }
}

/// The payload limit that results from ours and the peer's proposal.
pub open spec fn agreed_size(ours: u16, theirs: u16) -> u16 {
    if theirs < ours {
        theirs
    } else {
        ours
    }
}

/// The three frames that set the remote shell up: its path, its
/// environment and the terminal's size.
pub open spec fn bootstrap(
    shell: Seq<u8>,
    env: Seq<Seq<u8>>,
    term_width: u16,
    term_height: u16,
) -> Seq<u8> {
    encode(init_frame(shell)) + encode(init_frame(joined(env))) + encode(
        init_frame(be16(term_width) + be16(term_height)),
    )
}

/// One step of the negotiation of version and payload limit, as a
/// function of our limit, the phase and the peer's answer: the bytes to
/// send, the next phase and the limit from then on. A proposal below
/// the minimum is refused.
pub open spec fn negotiate(limit: u16, phase: Phase, reply: Seq<u8>) -> Result<
    (Seq<u8>, Phase, u16),
    HandshakeError,
> {
    match phase {
        Phase::Start => Ok((be16(PROTO_MAJOR) + be16(PROTO_MINOR), Phase::Version, limit)),
        Phase::Version => if reply.len() < 4 {
            Err(HandshakeError::ShortRead)
        } else {
            Ok((be16(limit), Phase::DataSize, limit))
        },
        Phase::DataSize => if reply.len() < 2 {
            Err(HandshakeError::ShortRead)
        } else if be16_at(reply, 0) < MIN_MESSAGE_DATA_SIZE {
            Err(HandshakeError::Rejected)
        } else {
            Ok((Seq::empty(), Phase::Agreed, agreed_size(limit, be16_at(reply, 0))))
        },
        _ => Err(HandshakeError::Finished),
    }
}

/// One step of the whole handshake. The negotiation comes first; once
/// the limit is agreed the interactive flag is sent, and once the peer
/// has acknowledged it with a frame, the three frames that set the shell
/// up.
pub open spec fn handshake(
    limit: u16,
    shell: Seq<u8>,
    env: Seq<Seq<u8>>,
    phase: Phase,
    input: Seq<u8>,
    term_width: u16,
    term_height: u16,
) -> Result<(Seq<u8>, Phase, u16), HandshakeError> {
    match phase {
        Phase::Start | Phase::Version | Phase::DataSize => match negotiate(limit, phase, input) {
            Ok((send, next, agreed)) => if next == Phase::Agreed {
                Ok((send + encode(init_frame(seq![1u8])), Phase::Acknowledge, agreed))
            } else {
                Ok((send, next, agreed))
            },
            Err(e) => Err(e),
        },
        Phase::Agreed => Ok((encode(init_frame(seq![1u8])), Phase::Acknowledge, limit)),
        Phase::Acknowledge => match decode(input) {
            Err(e) => Err(HandshakeError::Frame(e)),
            Ok(_) => if shell.len() > limit || joined(env).len() > limit {
                Err(HandshakeError::Frame(FrameError::Oversize))
            } else {
                Ok((bootstrap(shell, env, term_width, term_height), Phase::Done, limit))
            },
        },
        Phase::Done => Err(HandshakeError::Finished),
    }
}

/// A proposal below the minimum ends the handshake with a rejection,
/// whatever our limit and settings are: no bytes are handed out to send.
pub proof fn lemma_small_proposal_rejected(
    limit: u16,
    shell: Seq<u8>,
    env: Seq<Seq<u8>>,
    reply: Seq<u8>,
    term_width: u16,
    term_height: u16,
)
    requires
        reply.len() >= 2,
        be16_at(reply, 0) < MIN_MESSAGE_DATA_SIZE,
    ensures
        negotiate(limit, Phase::DataSize, reply) == Err::<(Seq<u8>, Phase, u16), HandshakeError>(
            HandshakeError::Rejected,
        ),
        handshake(limit, shell, env, Phase::DataSize, reply, term_width, term_height) == Err::<
            (Seq<u8>, Phase, u16),
            HandshakeError,
        >(HandshakeError::Rejected),
{
}

/// The handshake with a peer that answers as it should runs through its
/// phases in order. What is sent is, in this order: our version; our
/// limit; the interactive flag; then the shell, the environment and the
/// terminal's size. The limit from the third step on is the smaller of
/// ours and the peer's.
pub proof fn lemma_handshake_in_order(
    limit: u16,
    shell: Seq<u8>,
    env: Seq<Seq<u8>>,
    version: Seq<u8>,
    proposal: Seq<u8>,
    acknowledgement: Seq<u8>,
    term_width: u16,
    term_height: u16,
)
    requires
        version.len() >= 4,
        proposal.len() >= 2,
        be16_at(proposal, 0) >= MIN_MESSAGE_DATA_SIZE,
        decode(acknowledgement) is Ok,
        shell.len() <= agreed_size(limit, be16_at(proposal, 0)),
        joined(env).len() <= agreed_size(limit, be16_at(proposal, 0)),
    ensures
        handshake(limit, shell, env, Phase::Start, Seq::empty(), term_width, term_height) == Ok::<
            (Seq<u8>, Phase, u16),
            HandshakeError,
        >((be16(PROTO_MAJOR) + be16(PROTO_MINOR), Phase::Version, limit)),
        handshake(limit, shell, env, Phase::Version, version, term_width, term_height) == Ok::<
            (Seq<u8>, Phase, u16),
            HandshakeError,
        >((be16(limit), Phase::DataSize, limit)),
        handshake(limit, shell, env, Phase::DataSize, proposal, term_width, term_height) == Ok::<
            (Seq<u8>, Phase, u16),
            HandshakeError,
        >(
            (
                encode(init_frame(seq![1u8])),
                Phase::Acknowledge,
                agreed_size(limit, be16_at(proposal, 0)),
            ),
        ),
        handshake(
            agreed_size(limit, be16_at(proposal, 0)),
            shell,
            env,
            Phase::Acknowledge,
            acknowledgement,
            term_width,
            term_height,
        ) == Ok::<(Seq<u8>, Phase, u16), HandshakeError>(
            (
                bootstrap(shell, env, term_width, term_height),
                Phase::Done,
                agreed_size(limit, be16_at(proposal, 0)),
            ),
        ),
{
    assert(Seq::<u8>::empty() + encode(init_frame(seq![1u8])) =~= encode(init_frame(seq![1u8])));
}

/// With what a phase awaits in hand, the step is not refused for want
/// of bytes: an answer of the awaited length is never a short read, and
/// a whole frame is never a truncated one.
pub proof fn lemma_awaited_suffices(
    limit: u16,
    shell: Seq<u8>,
    env: Seq<Seq<u8>>,
    phase: Phase,
    input: Seq<u8>,
    term_width: u16,
    term_height: u16,
)
    requires
        match phase.spec_awaits() {
            Awaited::Nothing => true,
            Awaited::Bytes(n) => input.len() >= n,
            Awaited::Frame => crate::message::wanted(input) == 0,
        },
    ensures
        handshake(limit, shell, env, phase, input, term_width, term_height) != Err::<
            (Seq<u8>, Phase, u16),
            HandshakeError,
        >(HandshakeError::ShortRead),
        handshake(limit, shell, env, phase, input, term_width, term_height) != Err::<
            (Seq<u8>, Phase, u16),
            HandshakeError,
        >(HandshakeError::Frame(FrameError::Truncated)),
{
    crate::framing::lemma_wanted(input);
}

/// A limit that was agreed is neither below the minimum nor above
/// either side's proposal, and it is one of the two.
pub proof fn lemma_agreed_size(ours: u16, theirs: u16)
    requires
        ours >= MIN_MESSAGE_DATA_SIZE,
        theirs >= MIN_MESSAGE_DATA_SIZE,
    ensures
        agreed_size(ours, theirs) >= MIN_MESSAGE_DATA_SIZE,
        agreed_size(ours, theirs) <= ours,
        agreed_size(ours, theirs) <= theirs,
        agreed_size(ours, theirs) == ours || agreed_size(ours, theirs) == theirs,
{
}

/// Every frame that the handshake hands out to send has a payload
/// within the limit that holds after the step: the interactive flag,
/// which follows the agreement, and the three frames that set the shell
/// up.
pub proof fn lemma_handshake_within_limit(
    limit: u16,
    shell: Seq<u8>,
    env: Seq<Seq<u8>>,
    phase: Phase,
    input: Seq<u8>,
    term_width: u16,
    term_height: u16,
)
    requires
        limit >= MIN_MESSAGE_DATA_SIZE,
    ensures
        match handshake(limit, shell, env, phase, input, term_width, term_height) {
            Ok((send, next, agreed)) => {
                &&& agreed >= MIN_MESSAGE_DATA_SIZE
                &&& agreed <= limit
                &&& next == Phase::Version || next == Phase::DataSize ==> agreed == limit
                &&& next == Phase::Acknowledge ==> send == encode(init_frame(seq![1u8]))
                    && init_frame(seq![1u8]).data.len() <= agreed
                &&& next == Phase::Done ==> {
                    &&& agreed == limit
                    &&& send == encode(init_frame(shell)) + encode(init_frame(joined(env)))
                        + encode(init_frame(be16(term_width) + be16(term_height)))
                    &&& init_frame(shell).data.len() <= agreed
                    &&& init_frame(joined(env)).data.len() <= agreed
                    &&& init_frame(be16(term_width) + be16(term_height)).data.len() <= agreed
                }
            },
            Err(_) => true,
        },
{
    assert(Seq::<u8>::empty() + encode(init_frame(seq![1u8])) =~= encode(init_frame(seq![1u8])));
}

/// The settings of a listener. The payload limit starts at the largest
/// value and only ever falls to what a peer proposed, never below the
/// minimum.
pub struct Control {
    message_data_size: DataSize,
    shell: String,
    env: Vec<String>,
    pub proxy_address: Option<SocketAddress>,
}

impl Control {
    pub closed spec fn spec_message_data_size(&self) -> u16 {
        self.message_data_size@
    }

    pub closed spec fn spec_proxy_address(&self) -> Option<SocketAddress> {
        self.proxy_address
    }

    pub closed spec fn spec_shell(&self) -> String {
        self.shell
    }

    pub closed spec fn spec_env(&self) -> Seq<String> {
        self.env@
    }

    /// A listener with the largest payload limit, `/bin/sh` as shell, a
    /// minimal search path as environment and no proxy.
    pub fn new() -> (c: Self)
        ensures
            c.spec_message_data_size() == 0xFFFF,
            c.spec_shell()@ == "/bin/sh"@,
            c.spec_env().len() == 1,
            c.spec_env()[0]@ == "PATH=/bin:/usr/bin/"@,
            c.spec_proxy_address() is None,
    {
        let mut env: Vec<String> = Vec::new();
        env.push("PATH=/bin:/usr/bin/".to_owned());
        Self { message_data_size: DataSize::largest(), shell: "/bin/sh".to_owned(), env, proxy_address: None }
    }

    /// The address of the local SOCKS entry point, if one is set.
    pub fn proxy_address(&self) -> (r: Option<SocketAddress>)
        ensures
            r == self.spec_proxy_address(),
    {
        self.proxy_address
    }

    /// The payload limit as it stands.
    pub fn data_size(&self) -> (r: DataSize)
        ensures
            r@ == self.spec_message_data_size(),
    {
        self.message_data_size
    }

    pub fn message_data_size(&self) -> (r: u16)
        ensures
            r == self.spec_message_data_size(),
            r >= MIN_MESSAGE_DATA_SIZE,
    {
        self.message_data_size.get()
    }

    /// Sets the shell that the remote end is asked to start.
    pub fn shell(&mut self, shell: String) -> (r: &mut Self)
        ensures
            r.spec_shell() == shell,
            r.spec_env() == old(self).spec_env(),
            r.spec_proxy_address() == old(self).spec_proxy_address(),
            r.spec_message_data_size() == old(self).spec_message_data_size(),
            *final(self) == *final(r),
    {
        self.shell = shell;
        self
    }

    /// Sets the environment that the remote shell is given.
    pub fn env(&mut self, env: Vec<String>) -> (r: &mut Self)
        ensures
            r.spec_shell() == old(self).spec_shell(),
            r.spec_env() == env@,
            r.spec_proxy_address() == old(self).spec_proxy_address(),
            r.spec_message_data_size() == old(self).spec_message_data_size(),
            *final(self) == *final(r),
    {
        self.env = env;
        self
    }

    /// Sets the address of the local SOCKS entry point, or none.
    pub fn proxy(&mut self, proxy_address: Option<SocketAddress>) -> (r: &mut Self)
        ensures
            r.spec_shell() == old(self).spec_shell(),
            r.spec_env() == old(self).spec_env(),
            r.spec_proxy_address() == proxy_address,
            r.spec_message_data_size() == old(self).spec_message_data_size(),
            *final(self) == *final(r),
    {
        self.proxy_address = proxy_address;
        self
    }

    /// The environment list as one payload: the entries with a space
    /// between each two.
    pub fn joined_env(&self) -> (out: Vec<u8>)
        ensures
            out@ == joined(entry_bytes(self.spec_env())),
    {
        let mut out: Vec<u8> = Vec::new();
        let mut i: usize = 0;
        while i < self.env.len()
            invariant
                i <= self.env.len(),
                out@ == joined(entry_bytes(self.env@).take(i as int)),
            decreases self.env.len() - i,
        {
            if i > 0 {
                out.push(32u8);
            }
            put_bytes(&mut out, self.env[i].as_str().as_bytes());
            proof {
                let parts = entry_bytes(self.env@);
                assert(parts.take(i + 1).drop_last() =~= parts.take(i as int));
                assert(parts.take(i + 1).last() == encode_utf8(self.env@[i as int]@));
                assert(out@ =~= joined(parts.take(i + 1)));
            }
            i += 1;
        }
        assert(entry_bytes(self.env@).take(i as int) =~= entry_bytes(self.env@));
        out
    }

    /// Takes one step of the negotiation of version and payload limit.
    /// `reply` is what the peer sent in answer to the step before. The
    /// limit falls to the peer's proposal if that is smaller; a proposal
    /// below the minimum is refused and leaves the listener as it was.
    pub fn negotiate_protocol(&mut self, phase: Phase, reply: &[u8]) -> (r: Result<
        Step,
        HandshakeError,
    >)
        ensures
            final(self).spec_shell() == old(self).spec_shell(),
            final(self).spec_env() == old(self).spec_env(),
            final(self).spec_proxy_address() == old(self).spec_proxy_address(),
            match negotiate(old(self).spec_message_data_size(), phase, reply@) {
                Ok((send, next, limit)) => r is Ok && r->Ok_0.send@ == send && r->Ok_0.next
                    == next && final(self).spec_message_data_size() == limit,
                Err(e) => r is Err && r->Err_0 == e && final(self).spec_message_data_size() == old(self).spec_message_data_size(),
            },
    {
        let mut send: Vec<u8> = Vec::new();
        match phase {
            Phase::Start => {
                put_u16(&mut send, PROTO_MAJOR);
                put_u16(&mut send, PROTO_MINOR);
                assert(send@ =~= be16(PROTO_MAJOR) + be16(PROTO_MINOR));
                Ok(Step { send, next: Phase::Version })
            },
            Phase::Version => {
                if reply.len() < 4 {
                    return Err(HandshakeError::ShortRead);
                }
                put_u16(&mut send, self.message_data_size.get());
                assert(send@ =~= be16(self.message_data_size@));
                Ok(Step { send, next: Phase::DataSize })
            },
            Phase::DataSize => {
                if reply.len() < 2 {
                    return Err(HandshakeError::ShortRead);
                }
                match self.message_data_size.lowered(get_u16(reply, 0)) {
                    None => Err(HandshakeError::Rejected),
                    Some(agreed) => {
                        self.message_data_size = agreed;
                        Ok(Step { send, next: Phase::Agreed })
                    },
                }
            },
            _ => Err(HandshakeError::Finished),
        }
    }

    /// Takes one step of the handshake. `input` is what the peer sent in
    /// answer to the step before: nothing at the start, the bytes that
    /// the phase awaits, or one frame as acknowledgement.
    pub fn handle_client(
        &mut self,
        phase: Phase,
        input: &[u8],
        term_width: u16,
        term_height: u16,
    ) -> (r: Result<Step, HandshakeError>)
        ensures
            final(self).spec_shell() == old(self).spec_shell(),
            final(self).spec_env() == old(self).spec_env(),
            final(self).spec_proxy_address() == old(self).spec_proxy_address(),
            match handshake(
                old(self).spec_message_data_size(),
                encode_utf8(old(self).spec_shell()@),
                entry_bytes(old(self).spec_env()),
                phase,
                input@,
                term_width,
                term_height,
            ) {
                Ok((send, next, limit)) => r is Ok && r->Ok_0.send@ == send && r->Ok_0.next
                    == next && final(self).spec_message_data_size() == limit,
                Err(e) => r is Err && r->Err_0 == e && final(self).spec_message_data_size() == old(self).spec_message_data_size(),
            },
    {
        match phase {
            Phase::Start | Phase::Version | Phase::DataSize => {
                match self.negotiate_protocol(phase, input) {
                    Ok(step) => {
                        if step.next == Phase::Agreed {
                            let mut send = step.send;
                            let _ = Self::interactive().push(&mut send, self.message_data_size.get());
                            Ok(Step { send, next: Phase::Acknowledge })
                        } else {
                            Ok(step)
                        }
                    },
                    Err(e) => Err(e),
                }
            },
            Phase::Agreed => {
                let mut send: Vec<u8> = Vec::new();
                let _ = Self::interactive().push(&mut send, self.message_data_size.get());
                assert(send@ =~= encode(init_frame(seq![1u8])));
                Ok(Step { send, next: Phase::Acknowledge })
            },
            Phase::Acknowledge => {
                let mut buffer = vstd::slice::slice_to_vec(input);
                match Message::pull(&mut buffer) {
                    Err(e) => Err(HandshakeError::Frame(e)),
                    Ok(_) => {
                        let limit = self.message_data_size.get();
                        let mut send: Vec<u8> = Vec::new();
                        let shell = vstd::slice::slice_to_vec(self.shell.as_str().as_bytes());
                        let env = self.joined_env();
                        if shell.len() > limit as usize || env.len() > limit as usize {
                            return Err(HandshakeError::Frame(FrameError::Oversize));
                        }
                        let mut size: Vec<u8> = Vec::new();
                        put_u16(&mut size, term_width);
                        put_u16(&mut size, term_height);
                        assert(size@ =~= be16(term_width) + be16(term_height));
                        let _ = Message::new().data_type(DataType::Init).data(shell).push(
                            &mut send,
                            limit,
                        );
                        let _ = Message::new().data_type(DataType::Init).data(env).push(
                            &mut send,
                            limit,
                        );
                        let _ = Message::new().data_type(DataType::Init).data(size).push(
                            &mut send,
                            limit,
                        );
                        assert(send@ =~= bootstrap(
                            encode_utf8(self.shell@),
                            entry_bytes(self.env@),
                            term_width,
                            term_height,
                        ));
                        Ok(Step { send, next: Phase::Done })
                    },
                }
            },
            Phase::Done => Err(HandshakeError::Finished),
        }
    }

    /// The frame that announces an interactive session.
    fn interactive() -> (m: Message)
        ensures
            m@ == init_frame(seq![1u8]),
    {
        let mut flag: Vec<u8> = Vec::new();
        flag.push(1u8);
        let m = Message::new().data_type(DataType::Init).data(flag);
        assert(m@.data =~= seq![1u8]);
        m
    }

} // impl

} // verus!
