//! The decisions of the session broker: what becomes of each inbound
//! frame, which frames go out, and which flows are open.
use crate::control::{Control, DataSize, SocketAddress, MIN_MESSAGE_DATA_SIZE};
use crate::framing::{decode_all, encode_all, lemma_stream_round_trip};
use crate::message::{
    blank, encode, well_formed, ConnectionHeaderType, DataType, FrameError, HeaderType, Message,
    MessageView, ProxyHeaderType, ProxyType,
};
use crate::wire::{
    be16, be16_at, decimal, get_u16, lemma_decimal_len, put_bytes, put_decimal, put_u16,
};
use std::collections::HashMap;
use vstd::prelude::*;
use vstd::utf8::encode_utf8;

verus! {

broadcast use vstd::std_specs::hash::group_hash_axioms;

/// The largest chunk that is read at once from the operator's input or
/// from a local socket.
pub const CHUNK_SIZE: usize = 1024;

/// One open flow: the handle through which its local socket is written.
pub struct ProxyConnection<W> {
    pub writer: W,
}

/// What becomes of an inbound frame.
#[derive(Debug, Clone, PartialEq, Eq)]
pub enum Inbound {
    /// Write the bytes to standard output and flush.
    Stdout(Vec<u8>),
    /// Write the bytes to standard error and flush.
    Stderr(Vec<u8>),
    /// Write the bytes to the local socket of this flow.
    Forward(u16, Vec<u8>),
    /// The remote end closed this flow; it has left the table.
    Closed(u16),
    /// Nothing is to be done.
    Ignored,
}

/// What happened on the local socket of a flow.
#[derive(Debug, Clone, PartialEq, Eq)]
pub enum FlowEvent {
    /// Bytes were read; none means the end of the stream.
    Data(Vec<u8>),
    /// The stream ended or failed.
    Closed,
    /// A second went by without bytes.
    Tick,
}

/// Why a SOCKS request is refused.
#[derive(Debug, Clone, Copy, PartialEq, Eq, Structural)]
pub enum SocksError {
    /// The request ends before its ninth byte.
    Truncated,
    /// The version is not 4.
    Version,
    /// The command is not CONNECT.
    Command,
}

/// A `Tty` frame with the given payload.
pub open spec fn tty_frame(data: Seq<u8>) -> MessageView {
    MessageView { data_type: DataType::Tty, data, ..blank() }
}

/// The frame that tells the remote end the terminal's new size.
pub open spec fn winresize_frame(rows: u16, cols: u16) -> MessageView {
    MessageView { data_type: DataType::Winresize, data: be16(rows) + be16(cols), ..blank() }
}

/// The frame that asks the remote end to open a static proxy.
pub open spec fn proxy_create_frame(data: Seq<u8>) -> MessageView {
    MessageView {
        data_type: DataType::Proxy,
        data,
        header_type: ProxyHeaderType::Create.spec_value(),
        header_proxy_type: ProxyType::Static.spec_value(),
        ..blank()
    }
}

/// The frame that opens flow `id` towards the target named in `data`.
pub open spec fn connection_create_frame(id: u16, data: Seq<u8>) -> MessageView {
    MessageView {
        data_type: DataType::Connection,
        data,
        header_type: ConnectionHeaderType::Create.spec_value(),
        header_id: id,
        ..blank()
    }
}

/// The frame that carries `data` on flow `id`.
pub open spec fn connection_data_frame(id: u16, data: Seq<u8>) -> MessageView {
    MessageView {
        data_type: DataType::Connection,
        data,
        header_type: ConnectionHeaderType::Data.spec_value(),
        header_id: id,
        ..blank()
    }
}

/// The text `:127.0.0.1:1081`: where the remote end is to send what
/// comes through the proxy.
pub open spec fn proxy_target() -> Seq<u8> {
    seq![58u8, 49u8, 50u8, 55u8, 46u8, 48u8, 46u8, 48u8, 46u8, 49u8, 58u8, 49u8, 48u8, 56u8, 49u8]
}

/// Whether a SOCKS4 request is taken: version 4, command CONNECT, and
/// nine bytes in all. The version is judged as soon as it is there, then
/// the command.
pub open spec fn socks_request(request: Seq<u8>) -> Result<(), SocksError> {
    if request.len() < 1 {
        Err(SocksError::Truncated)
    } else if request[0] != 4 {
        Err(SocksError::Version)
    } else if request.len() < 2 {
        Err(SocksError::Truncated)
    } else if request[1] != 1 {
        Err(SocksError::Command)
    } else if request.len() < 9 {
        Err(SocksError::Truncated)
    } else {
        Ok(())
    }
}

/// How many more bytes of a SOCKS4 request must be read before it can
/// be judged further: zero when it is whole or refused.
pub open spec fn socks_wanted(request: Seq<u8>) -> nat {
    if request.len() < 1 {
        1
    } else if request[0] != 4 {
        0
    } else if request.len() < 2 {
        1
    } else if request[1] != 1 {
        0
    } else if request.len() < 9 {
        (9 - request.len()) as nat
    } else {
        0
    }
}

/// The target of a SOCKS4 request as text: the four bytes of the
/// address in decimal with dots between, a colon, and the port in
/// decimal.
pub open spec fn socks_target(request: Seq<u8>) -> Seq<u8> {
    decimal(request[4] as nat) + seq![46u8] + decimal(request[5] as nat) + seq![46u8] + decimal(
        request[6] as nat,
    ) + seq![46u8] + decimal(request[7] as nat) + seq![58u8] + decimal(
        be16_at(request, 2) as nat,
    )
}

/// The answer to a SOCKS4 request that is taken: a zero byte, the code
/// for "granted", then the port and the address of the request.
pub open spec fn socks_reply(request: Seq<u8>) -> Seq<u8> {
    seq![0u8, 90u8] + request.subrange(2, 8)
}

/// The frames that carry the chunks read from the local socket of flow
/// `id`, one frame for each chunk.
pub open spec fn data_frames(id: u16, chunks: Seq<Seq<u8>>) -> Seq<MessageView> {
    Seq::new(chunks.len(), |i: int| connection_data_frame(id, chunks[i]))
}

/// What a local peer wrote arrives in order: the frames written for the
/// chunks of a flow read back as data frames of that flow, as many as
/// there were chunks, each with its chunk as payload.
pub proof fn lemma_flow_bytes_in_order(id: u16, chunks: Seq<Seq<u8>>)
    requires
        forall|i: int| 0 <= i < chunks.len() ==> (#[trigger] chunks[i]).len() <= 0xFFFF,
    ensures
        decode_all(encode_all(data_frames(id, chunks)), chunks.len()) == Some(
            data_frames(id, chunks),
        ),
        forall|i: int|
            0 <= i < chunks.len() ==> {
                &&& (#[trigger] data_frames(id, chunks)[i]).data == chunks[i]
                &&& data_frames(id, chunks)[i].header_id == id
                &&& data_frames(id, chunks)[i].data_type == DataType::Connection
                &&& data_frames(id, chunks)[i].header_type == 2
            },
{
    let ms = data_frames(id, chunks);
    assert forall|i: int| 0 <= i < ms.len() implies well_formed(#[trigger] ms[i]) by {
        assert(ms[i] == connection_data_frame(id, chunks[i]));
    }
    lemma_stream_round_trip(ms);
}

/// How many more bytes of a SOCKS4 request are to be read: none once
/// the request is whole or is refused.
pub fn socks_missing(request: &[u8]) -> (n: usize)
    ensures
        n == socks_wanted(request@),
        n > 0 <==> socks_request(request@) == Err::<(), SocksError>(SocksError::Truncated),
        request@.len() + n <= 9 || n == 0,
{
    if request.len() < 1 {
        1
    } else if request[0] != 4 {
        0
    } else if request.len() < 2 {
        1
    } else if request[1] != 1 {
        0
    } else if request.len() < 9 {
        9 - request.len()
    } else {
        0
    }
}

/// The state of a session after the handshake: the agreed payload
/// limit, which is never below the minimum, and the table of open flows.
pub struct Broker<W> {
    pub remote_address: SocketAddress,
    message_data_size: DataSize,
    proxy_address: Option<SocketAddress>,
    proxy_connections: HashMap<u16, ProxyConnection<W>>,
}

impl<W> Broker<W> {
    /// The open flows, by id.
    pub closed spec fn flows(&self) -> Map<u16, ProxyConnection<W>> {
        self.proxy_connections@
    }

    pub closed spec fn spec_message_data_size(&self) -> u16 {
        self.message_data_size@
    }

    pub closed spec fn spec_remote_address(&self) -> SocketAddress {
        self.remote_address
    }

    pub closed spec fn spec_proxy_address(&self) -> Option<SocketAddress> {
        self.proxy_address
    }

    /// What the session was set up with: all but the table of flows.
    pub open spec fn same_session(&self, other: &Self) -> bool {
        &&& self.spec_message_data_size() == other.spec_message_data_size()
        &&& self.spec_proxy_address() == other.spec_proxy_address()
        &&& self.spec_remote_address() == other.spec_remote_address()
    }

    /// The broker of a session that `control` has set up with the peer
    /// at `remote_address`: no flow is open.
    pub fn new(control: &Control, remote_address: SocketAddress) -> (b: Self)
        ensures
            b.spec_message_data_size() == control.spec_message_data_size(),
            b.spec_proxy_address() == control.spec_proxy_address(),
            b.spec_remote_address() == remote_address,
            b.flows() == Map::<u16, ProxyConnection<W>>::empty(),
    {
        Self {
            remote_address,
            message_data_size: control.data_size(),
            proxy_address: control.proxy_address(),
            proxy_connections: HashMap::new(),
        }
    }

    /// The address of the local SOCKS entry point, if there is one.
    pub fn proxy_address(&self) -> (r: Option<SocketAddress>)
        ensures
            r == self.spec_proxy_address(),
    {
        self.proxy_address
    }

    pub fn message_data_size(&self) -> (r: u16)
        ensures
            r == self.spec_message_data_size(),
            r >= MIN_MESSAGE_DATA_SIZE,
    {
        self.message_data_size.get()
    }

    /// Whether flow `id` is open.
    pub fn is_open(&self, id: u16) -> (r: bool)
        ensures
            r == self.flows().contains_key(id),
    {
        self.proxy_connections.contains_key(&id)
    }

    /// The connection of flow `id`, if it is open.
    pub fn connection(&self, id: u16) -> (r: Option<&ProxyConnection<W>>)
        ensures
            match r {
                Some(c) => self.flows().contains_key(id) && *c == self.flows()[id],
                None => !self.flows().contains_key(id),
            },
    {
        self.proxy_connections.get(&id)
    }

    /// Appends `message` to `writer` if its payload is within the
    /// session's limit.
    fn send(&self, message: Message, writer: &mut Vec<u8>) -> (r: Result<(), FrameError>)
        ensures
            message@.data.len() <= MIN_MESSAGE_DATA_SIZE ==> r is Ok,
            message@.data.len() <= self.spec_message_data_size() ==> r is Ok && final(writer)@
                == old(writer)@ + encode(message@),
            message@.data.len() > self.spec_message_data_size() ==> r == Err::<(), FrameError>(
                FrameError::Oversize,
            ) && final(writer)@ == old(writer)@,
    {
        message.push(writer, self.message_data_size.get())
    }

    /// Decides what becomes of one inbound frame. Terminal output goes
    /// to standard output; an error text to standard error, with a line
    /// end added. A `Connection` frame for an open flow is forwarded if
    /// it has a payload and closes the flow if it has none; for a flow
    /// that is not open it is dropped. Every other frame is ignored.
    /// If forwarding fails, `flow_failed` takes the flow out, and the
    /// next frame is handled as usual.
    /// Then, if the terminal was resized to `resized`, rows first, the
    /// new size is appended to `writer`.
    pub fn message_handler(
        &mut self,
        message: Message,
        resized: Option<(u16, u16)>,
        writer: &mut Vec<u8>,
    ) -> (r: Inbound)
        ensures
            final(self).same_session(old(self)),
            match message@.data_type {
                DataType::Tty => r matches Inbound::Stdout(d) && d@ == message@.data && final(self).flows() == old(self).flows(),
                DataType::Error => r matches Inbound::Stderr(d) && d@ == message@.data
                    + seq![13u8, 10u8] && final(self).flows() == old(self).flows(),
                DataType::Connection => if !old(self).flows().contains_key(message@.header_id) {
                    r is Ignored && final(self).flows() == old(self).flows()
                } else if message@.data.len() == 0 {
                    r matches Inbound::Closed(id) && id == message@.header_id && final(self).flows() == old(self).flows().remove(message@.header_id)
                } else {
                    r matches Inbound::Forward(id, d) && id == message@.header_id && d@
                        == message@.data && final(self).flows() == old(self).flows()
                },
                _ => r is Ignored && final(self).flows() == old(self).flows(),
            },
            match resized {
                Some((rows, cols)) => final(writer)@ == old(writer)@ + encode(
                    winresize_frame(rows, cols),
                ),
                None => final(writer)@ == old(writer)@,
            },
    {
        let id = message.header_id;
        let action = match message.data_type {
            DataType::Tty => Inbound::Stdout(message.data),
            DataType::Error => {
                let mut text = message.data;
                text.push(13u8);
                text.push(10u8);
                assert(text@ =~= message@.data + seq![13u8, 10u8]);
                Inbound::Stderr(text)
            },
            DataType::Connection => {
                if !self.proxy_connections.contains_key(&id) {
                    Inbound::Ignored
                } else if message.data.len() == 0 {
                    self.proxy_connections.remove(&id);
                    Inbound::Closed(id)
                } else {
                    Inbound::Forward(id, message.data)
                }
            },
            _ => Inbound::Ignored,
        };
        match resized {
            Some((rows, cols)) => {
                let mut data: Vec<u8> = Vec::new();
                put_u16(&mut data, rows);
                put_u16(&mut data, cols);
                assert(data@ =~= be16(rows) + be16(cols));
                let _ = self.send(Message::new().data_type(DataType::Winresize).data(data), writer);
            },
            None => {},
        }
        action
    }

    /// Frames one chunk of the operator's input as terminal input. An
    /// empty chunk sends nothing; one longer than the session's limit is
    /// refused.
    pub fn stdin_handler(&self, chunk: &[u8], writer: &mut Vec<u8>) -> (r: Result<(), FrameError>)
        ensures
            chunk@.len() <= CHUNK_SIZE ==> r is Ok,
            chunk@.len() == 0 ==> r is Ok && final(writer)@ == old(writer)@,
            0 < chunk@.len() <= self.spec_message_data_size() ==> r is Ok && final(writer)@ == old(writer)@ + encode(tty_frame(chunk@)),
            chunk@.len() > self.spec_message_data_size() ==> r == Err::<(), FrameError>(
                FrameError::Oversize,
            ) && final(writer)@ == old(writer)@,
    {
        if chunk.len() == 0 {
            return Ok(());
        }
        let data = vstd::slice::slice_to_vec(chunk);
        self.send(Message::new().data_type(DataType::Tty).data(data), writer)
    }

    /// Asks the remote end to open a static proxy as `proxy_string`
    /// describes. A text longer than the session's limit is refused.
    pub fn proxy_create(&self, writer: &mut Vec<u8>, proxy_string: &str) -> (r: Result<
        (),
        FrameError,
    >)
        ensures
            encode_utf8(proxy_string@).len() <= self.spec_message_data_size() ==> r is Ok && final(writer)@ == old(writer)@ + encode(proxy_create_frame(encode_utf8(proxy_string@))),
            encode_utf8(proxy_string@).len() > self.spec_message_data_size() ==> r == Err::<
                (),
                FrameError,
            >(FrameError::Oversize) && final(writer)@ == old(writer)@,
    {
        self.send_proxy_create(writer, vstd::slice::slice_to_vec(proxy_string.as_bytes()))
    }

    fn send_proxy_create(&self, writer: &mut Vec<u8>, data: Vec<u8>) -> (r: Result<(), FrameError>)
        ensures
            data@.len() <= MIN_MESSAGE_DATA_SIZE ==> r is Ok,
            data@.len() <= self.spec_message_data_size() ==> r is Ok && final(writer)@ == old(writer)@ + encode(proxy_create_frame(data@)),
            data@.len() > self.spec_message_data_size() ==> r == Err::<(), FrameError>(
                FrameError::Oversize,
            ) && final(writer)@ == old(writer)@,
    {
        self.send(
            Message::new().data_type(DataType::Proxy).header_type(
                ProxyHeaderType::Create,
            ).header_proxy_type(ProxyType::Static).data(data),
            writer,
        )
    }

    /// Opens flow `id` towards the target that `connection_string`
    /// names. A text longer than the session's limit is refused.
    pub fn connection_create(&self, writer: &mut Vec<u8>, id: u16, connection_string: &str) -> (r:
        Result<(), FrameError>)
        ensures
            encode_utf8(connection_string@).len() <= self.spec_message_data_size() ==> r is Ok
                && final(writer)@ == old(writer)@ + encode(
                connection_create_frame(id, encode_utf8(connection_string@)),
            ),
            encode_utf8(connection_string@).len() > self.spec_message_data_size() ==> r == Err::<
                (),
                FrameError,
            >(FrameError::Oversize) && final(writer)@ == old(writer)@,
    {
        self.send_connection_create(
            writer,
            id,
            vstd::slice::slice_to_vec(connection_string.as_bytes()),
        )
    }

    fn send_connection_create(&self, writer: &mut Vec<u8>, id: u16, data: Vec<u8>) -> (r: Result<
        (),
        FrameError,
    >)
        ensures
            data@.len() <= MIN_MESSAGE_DATA_SIZE ==> r is Ok,
            data@.len() <= self.spec_message_data_size() ==> r is Ok && final(writer)@ == old(writer)@ + encode(connection_create_frame(id, data@)),
            data@.len() > self.spec_message_data_size() ==> r == Err::<(), FrameError>(
                FrameError::Oversize,
            ) && final(writer)@ == old(writer)@,
    {
        self.send(
            Message::new().data_type(DataType::Connection).header_type(
                ConnectionHeaderType::Create,
            ).header_id(id).data(data),
            writer,
        )
    }

    /// Sends `data` on flow `id`. More than the session's limit is
    /// refused.
    pub fn connection_data(&self, writer: &mut Vec<u8>, id: u16, data: &[u8]) -> (r: Result<
        (),
        FrameError,
    >)
        ensures
            data@.len() <= CHUNK_SIZE ==> r is Ok,
            data@.len() <= self.spec_message_data_size() ==> r is Ok && final(writer)@ == old(writer)@ + encode(connection_data_frame(id, data@)),
            data@.len() > self.spec_message_data_size() ==> r == Err::<(), FrameError>(
                FrameError::Oversize,
            ) && final(writer)@ == old(writer)@,
    {
        self.send(
            Message::new().data_type(DataType::Connection).header_type(
                ConnectionHeaderType::Data,
            ).header_id(id).data(vstd::slice::slice_to_vec(data)),
            writer,
        )
    }

    /// Takes a SOCKS4 request from a local peer whose source port is
    /// `id`. A request that is taken opens flow `id`: the frame that
    /// opens it towards the request's target is appended to `writer`,
    /// `connection` enters the table under `id`, in place of an earlier
    /// one if there was one, and the answer for the local peer is
    /// returned. The frame is to be written first, then the answer; if
    /// either write fails, `flow_failed` takes the flow out again. A
    /// request that is refused changes nothing.
    pub fn proxy_handler(
        &mut self,
        request: &[u8],
        connection: ProxyConnection<W>,
        id: u16,
        writer: &mut Vec<u8>,
    ) -> (r: Result<Vec<u8>, SocksError>)
        ensures
            final(self).same_session(old(self)),
            match socks_request(request@) {
                Ok(_) => r is Ok && r->Ok_0@ == socks_reply(request@) && final(writer)@ == old(writer)@ + encode(connection_create_frame(id, socks_target(request@))) && final(self).flows() == old(self).flows().insert(id, connection),
                Err(e) => r is Err && r->Err_0 == e && final(writer)@ == old(writer)@ && final(self).flows() == old(self).flows(),
            },
    {
        if request.len() < 1 {
            return Err(SocksError::Truncated);
        }
        if request[0] != 4 {
            return Err(SocksError::Version);
        }
        if request.len() < 2 {
            return Err(SocksError::Truncated);
        }
        if request[1] != 1 {
            return Err(SocksError::Command);
        }
        if request.len() < 9 {
            return Err(SocksError::Truncated);
        }
        let dst_port = get_u16(request, 2);
        let mut target: Vec<u8> = Vec::new();
        put_decimal(&mut target, request[4] as u16);
        target.push(46u8);
        put_decimal(&mut target, request[5] as u16);
        target.push(46u8);
        put_decimal(&mut target, request[6] as u16);
        target.push(46u8);
        put_decimal(&mut target, request[7] as u16);
        target.push(58u8);
        put_decimal(&mut target, dst_port);
        proof {
            lemma_decimal_len(request@[4] as nat);
            lemma_decimal_len(request@[5] as nat);
            lemma_decimal_len(request@[6] as nat);
            lemma_decimal_len(request@[7] as nat);
            lemma_decimal_len(dst_port as nat);
            assert(target@ =~= socks_target(request@));
        }
        let _ = self.send_connection_create(writer, id, target);
        let mut reply: Vec<u8> = Vec::new();
        reply.push(0u8);
        reply.push(90u8);
        put_bytes(&mut reply, vstd::slice::slice_subrange(request, 2, 8));
        assert(reply@ =~= socks_reply(request@));
        self.proxy_connections.insert(id, connection);
        Ok(reply)
    }

    /// Takes flow `id` out of the table after a write for it failed: of
    /// forwarded bytes or of the answer to its local socket, or of one of
    /// its frames to the remote end. The failure concerns this flow
    /// alone; the other flows stay as they are. A flow that is not open
    /// changes nothing.
    pub fn flow_failed(&mut self, id: u16)
        ensures
            final(self).same_session(old(self)),
            final(self).flows() == old(self).flows().remove(id),
    {
        self.proxy_connections.remove(&id);
    }

    /// Decides what the reader of flow `id` does after `event`, and
    /// whether it goes on. Bytes that were read are sent on the flow. The
    /// reader stops at the end of the local stream, when a second went by
    /// and the flow is no longer open, and when bytes are refused because
    /// they exceed the session's limit. Whenever it stops, the flow is
    /// out of the table.
    pub fn proxy_reader(&mut self, id: u16, event: FlowEvent, writer: &mut Vec<u8>) -> (r: Result<
        bool,
        FrameError,
    >)
        ensures
            final(self).same_session(old(self)),
            match event {
                FlowEvent::Data(chunk) => if chunk@.len() == 0 {
                    r == Ok::<bool, FrameError>(false) && final(writer)@ == old(writer)@
                } else if chunk@.len() <= old(self).spec_message_data_size() {
                    r == Ok::<bool, FrameError>(true) && final(writer)@ == old(writer)@ + encode(
                        connection_data_frame(id, chunk@),
                    )
                } else {
                    r == Err::<bool, FrameError>(FrameError::Oversize) && final(writer)@ == old(writer)@
                },
                FlowEvent::Closed => r == Ok::<bool, FrameError>(false) && final(writer)@ == old(writer)@,
                FlowEvent::Tick => r == Ok::<bool, FrameError>(
                    old(self).flows().contains_key(id),
                ) && final(writer)@ == old(writer)@,
            },
            event matches FlowEvent::Data(chunk) && 0 < chunk@.len() <= CHUNK_SIZE ==> r == Ok::<
                bool,
                FrameError,
            >(true),
            r == Ok::<bool, FrameError>(true) ==> final(self).flows() == old(self).flows(),
            r != Ok::<bool, FrameError>(true) ==> final(self).flows() == old(self).flows().remove(
                id,
            ),
    {
        let outcome = match event {
            FlowEvent::Data(chunk) => {
                if chunk.len() == 0 {
                    Ok(false)
                } else {
                    match self.connection_data(writer, id, chunk.as_slice()) {
                        Ok(_) => Ok(true),
                        Err(e) => Err(e),
                    }
                }
            },
            FlowEvent::Closed => Ok(false),
            FlowEvent::Tick => Ok(self.proxy_connections.contains_key(&id)),
        };
        match outcome {
            Ok(true) => {},
            _ => {
                self.proxy_connections.remove(&id);
            },
        }
        outcome
    }

    /// Opens the session's traffic. With a proxy address set, the remote
    /// end is asked to open a static proxy from the address's port to
    /// its own port 1081, and the address on which to listen for local
    /// SOCKS peers is returned.
    pub fn run(&self, writer: &mut Vec<u8>) -> (r: Option<SocketAddress>)
        ensures
            r == self.spec_proxy_address(),
            match self.spec_proxy_address() {
                Some(address) => final(writer)@ == old(writer)@ + encode(
                    proxy_create_frame(decimal(address.port as nat) + proxy_target()),
                ),
                None => final(writer)@ == old(writer)@,
            },
    {
        match self.proxy_address {
            Some(address) => {
                let mut data: Vec<u8> = Vec::new();
                put_decimal(&mut data, address.port);
                let tail: Vec<u8> = vec![
                    58u8,
                    49u8,
                    50u8,
                    55u8,
                    46u8,
                    48u8,
                    46u8,
                    48u8,
                    46u8,
                    49u8,
                    58u8,
                    49u8,
                    48u8,
                    56u8,
                    49u8,
                ];
                put_bytes(&mut data, tail.as_slice());
                proof {
                    lemma_decimal_len(address.port as nat);
                    assert(tail@ =~= proxy_target());
                }
                let _ = self.send_proxy_create(writer, data);
                Some(address)
            },
            None => None,
        }
    }

} // impl

} // verus!
