//! The framed message: its fields, its wire layout and the codec
//! between the two.
use crate::wire::{be16, be16_at, get_u16, put_bytes, put_u16};
use vstd::prelude::*;
use vstd::std_specs::convert::FromSpec;

verus! {

/// A value that can stand in the `header_type` field of a frame.
pub trait HeaderType {
    /// The number that goes on the wire.
    spec fn spec_value(&self) -> u16;

    fn value(&self) -> (r: u16)
        ensures
            r == self.spec_value(),
    ;
}

/// How the remote end is asked to forward traffic.
#[derive(Debug, Clone, Copy, PartialEq, Eq, Structural)]
pub enum ProxyType {
    Static,
    Dynamic,
    Tun,
    Tap,
}

impl HeaderType for ProxyType {
    open spec fn spec_value(&self) -> u16 {
        match *self {
            ProxyType::Static => 0,
            ProxyType::Dynamic => 1,
            ProxyType::Tun => 2,
            ProxyType::Tap => 3,
        }
    }

    fn value(&self) -> (r: u16) {
        match *self {
            ProxyType::Static => 0,
            ProxyType::Dynamic => 1,
            ProxyType::Tun => 2,
            ProxyType::Tap => 3,
        }
    }
}

/// The meaning of `header_type` in a frame of type `Proxy`.
#[derive(Debug, Clone, Copy, PartialEq, Eq, Structural)]
pub enum ProxyHeaderType {
    Create,
    Destroy,
    Report,
    Unknown,
}

impl HeaderType for ProxyHeaderType {
    open spec fn spec_value(&self) -> u16 {
        match *self {
            ProxyHeaderType::Create => 0,
            ProxyHeaderType::Destroy => 1,
            ProxyHeaderType::Report => 2,
            ProxyHeaderType::Unknown => 3,
        }
    }

    fn value(&self) -> (r: u16) {
        match *self {
            ProxyHeaderType::Create => 0,
            ProxyHeaderType::Destroy => 1,
            ProxyHeaderType::Report => 2,
            ProxyHeaderType::Unknown => 3,
        }
    }
}

impl From<u16> for ProxyHeaderType {
    fn from(n: u16) -> (r: ProxyHeaderType) {
        if n == 0 {
            ProxyHeaderType::Create
        } else if n == 1 {
            ProxyHeaderType::Destroy
        } else if n == 2 {
            ProxyHeaderType::Report
        } else {
            ProxyHeaderType::Unknown
        }
    }
}

impl vstd::std_specs::convert::FromSpecImpl<u16> for ProxyHeaderType {
    open spec fn obeys_from_spec() -> bool {
        true
    }

    open spec fn from_spec(n: u16) -> ProxyHeaderType {
        if n == 0 {
            ProxyHeaderType::Create
        } else if n == 1 {
            ProxyHeaderType::Destroy
        } else if n == 2 {
            ProxyHeaderType::Report
        } else {
            ProxyHeaderType::Unknown
        }
    }
}

/// The meaning of `header_type` in a frame of type `Connection`.
#[derive(Debug, Clone, Copy, PartialEq, Eq, Structural)]
pub enum ConnectionHeaderType {
    Create,
    Destroy,
    Data,
    Dormant,
    Active,
    Unknown,
}

impl HeaderType for ConnectionHeaderType {
    open spec fn spec_value(&self) -> u16 {
        match *self {
            ConnectionHeaderType::Create => 0,
            ConnectionHeaderType::Destroy => 1,
            ConnectionHeaderType::Data => 2,
            ConnectionHeaderType::Dormant => 3,
            ConnectionHeaderType::Active => 4,
            ConnectionHeaderType::Unknown => 5,
        }
    }

    fn value(&self) -> (r: u16) {
        match *self {
            ConnectionHeaderType::Create => 0,
            ConnectionHeaderType::Destroy => 1,
            ConnectionHeaderType::Data => 2,
            ConnectionHeaderType::Dormant => 3,
            ConnectionHeaderType::Active => 4,
            ConnectionHeaderType::Unknown => 5,
        }
    }
}

impl From<u16> for ConnectionHeaderType {
    fn from(n: u16) -> (r: ConnectionHeaderType) {
        if n == 0 {
            ConnectionHeaderType::Create
        } else if n == 1 {
            ConnectionHeaderType::Destroy
        } else if n == 2 {
            ConnectionHeaderType::Data
        } else if n == 3 {
            ConnectionHeaderType::Dormant
        } else if n == 4 {
            ConnectionHeaderType::Active
        } else {
            ConnectionHeaderType::Unknown
        }
    }
}

impl vstd::std_specs::convert::FromSpecImpl<u16> for ConnectionHeaderType {
    open spec fn obeys_from_spec() -> bool {
        true
    }

    open spec fn from_spec(n: u16) -> ConnectionHeaderType {
        if n == 0 {
            ConnectionHeaderType::Create
        } else if n == 1 {
            ConnectionHeaderType::Destroy
        } else if n == 2 {
            ConnectionHeaderType::Data
        } else if n == 3 {
            ConnectionHeaderType::Dormant
        } else if n == 4 {
            ConnectionHeaderType::Active
        } else {
            ConnectionHeaderType::Unknown
        }
    }
}

/// What a frame carries.
#[derive(Debug, Clone, Copy, PartialEq, Eq, Structural)]
pub enum DataType {
    Init,
    Tty,
    Winresize,
    Proxy,
    Connection,
    Nop,
    Error,
    Unknown,
}

impl DataType {
    /// The byte that goes on the wire.
    pub open spec fn spec_value(&self) -> u8 {
        match *self {
            DataType::Init => 0,
            DataType::Tty => 1,
            DataType::Winresize => 2,
            DataType::Proxy => 3,
            DataType::Connection => 4,
            DataType::Nop => 5,
            DataType::Error => 6,
            DataType::Unknown => 7,
        }
    }

    pub fn value(&self) -> (r: u8)
        ensures
            r == self.spec_value(),
    {
        match *self {
            DataType::Init => 0,
            DataType::Tty => 1,
            DataType::Winresize => 2,
            DataType::Proxy => 3,
            DataType::Connection => 4,
            DataType::Nop => 5,
            DataType::Error => 6,
            DataType::Unknown => 7,
        }
    }
}

impl From<u8> for DataType {
    fn from(n: u8) -> (r: DataType) {
        if n == 0 {
            DataType::Init
        } else if n == 1 {
            DataType::Tty
        } else if n == 2 {
            DataType::Winresize
        } else if n == 3 {
            DataType::Proxy
        } else if n == 4 {
            DataType::Connection
        } else if n == 5 {
            DataType::Nop
        } else if n == 6 {
            DataType::Error
        } else {
            DataType::Unknown
        }
    }
}

impl vstd::std_specs::convert::FromSpecImpl<u8> for DataType {
    open spec fn obeys_from_spec() -> bool {
        true
    }

    open spec fn from_spec(n: u8) -> DataType {
        if n == 0 {
            DataType::Init
        } else if n == 1 {
            DataType::Tty
        } else if n == 2 {
            DataType::Winresize
        } else if n == 3 {
            DataType::Proxy
        } else if n == 4 {
            DataType::Connection
        } else if n == 5 {
            DataType::Nop
        } else if n == 6 {
            DataType::Error
        } else {
            DataType::Unknown
        }
    }
}

/// Why a frame could not be written or read.
#[derive(Debug, Clone, Copy, PartialEq, Eq, Structural)]
pub enum FrameError {
    /// The payload is longer than the limit in force.
    Oversize,
    /// The bytes end before the frame does.
    Truncated,
    /// `header_len` is smaller than the header fields that the frame's
    /// type calls for.
    HeaderLength,
}

/// One frame of the protocol.
#[derive(Debug, Clone, PartialEq, Eq)]
pub struct Message {
    pub data_type: DataType,
    pub data: Vec<u8>,
    pub header_type: u16,
    pub header_origin: u16,
    pub header_id: u16,
    pub header_proxy_type: u16,
}

/// A frame as a mathematical value.
pub struct MessageView {
    pub data_type: DataType,
    pub data: Seq<u8>,
    pub header_type: u16,
    pub header_origin: u16,
    pub header_id: u16,
    pub header_proxy_type: u16,
}

impl View for Message {
    type V = MessageView;

    open spec fn view(&self) -> MessageView {
        MessageView {
            data_type: self.data_type,
            data: self.data@,
            header_type: self.header_type,
            header_origin: self.header_origin,
            header_id: self.header_id,
            header_proxy_type: self.header_proxy_type,
        }
    }
}

/// The largest payload that the 16-bit `data_len` field can announce.
pub const MAX_DATA_LEN: usize = 0xFFFF;

/// The frame that `Message::new` makes: type `Unknown`, no payload, all
/// header fields zero.
pub open spec fn blank() -> MessageView {
    MessageView {
        data_type: DataType::Unknown,
        data: Seq::empty(),
        header_type: 0,
        header_origin: 0,
        header_id: 0,
        header_proxy_type: 0,
    }
}

/// Frames of these types carry `header_type`, `header_origin` and
/// `header_id`.
pub open spec fn has_subheader(t: DataType) -> bool {
    t == DataType::Proxy || t == DataType::Connection
}

/// A frame of this type and `header_type` carries `header_proxy_type`:
/// a `Proxy` frame whose header type is `Create` or `Report`, and a
/// `Connection` frame whose header type is `Create`. What `header_type`
/// means goes by the frame's type.
pub open spec fn has_proxy_type(t: DataType, header_type: u16) -> bool {
    (t == DataType::Proxy && (ProxyHeaderType::from_spec(header_type) == ProxyHeaderType::Create
        || ProxyHeaderType::from_spec(header_type) == ProxyHeaderType::Report)) || (t
        == DataType::Connection && ConnectionHeaderType::from_spec(header_type)
        == ConnectionHeaderType::Create)
}

/// The number of bytes from `data_type` to the last header field that
/// the frame's type calls for.
pub open spec fn header_size(m: MessageView) -> nat {
    if !has_subheader(m.data_type) {
        3
    } else if !has_proxy_type(m.data_type, m.header_type) {
        9
    } else {
        11
    }
}

/// The bytes of the header fields that follow `data_len`.
pub open spec fn subheader(m: MessageView) -> Seq<u8> {
    if !has_subheader(m.data_type) {
        Seq::empty()
    } else if !has_proxy_type(m.data_type, m.header_type) {
        be16(m.header_type) + be16(m.header_origin) + be16(m.header_id)
    } else {
        be16(m.header_type) + be16(m.header_origin) + be16(m.header_id) + be16(
            m.header_proxy_type,
        )
    }
}

/// The frame on the wire, with `pad` as header bytes that the frame's
/// type does not call for, counted by `header_len`.
pub open spec fn encode_padded(m: MessageView, pad: Seq<u8>) -> Seq<u8> {
    be16((header_size(m) + pad.len()) as u16) + seq![m.data_type.spec_value()] + be16(
        m.data.len() as u16,
    ) + subheader(m) + pad + m.data
}

/// The frame on the wire.
pub open spec fn encode(m: MessageView) -> Seq<u8> {
    encode_padded(m, Seq::empty())
}

/// A frame that the wire can carry and give back unchanged: the payload
/// length fits the `data_len` field, and the fields that its type leaves
/// off the wire are zero.
pub open spec fn well_formed(m: MessageView) -> bool {
    &&& m.data.len() <= MAX_DATA_LEN
    &&& !has_subheader(m.data_type) ==> m.header_type == 0 && m.header_origin == 0 && m.header_id
        == 0
    &&& !has_proxy_type(m.data_type, m.header_type) ==> m.header_proxy_type == 0
}

/// The header fields read from the start of `s`, with an empty payload.
/// A field that the frame's type does not call for, or that `header_len`
/// leaves no room for, is zero.
pub open spec fn decode_header(s: Seq<u8>) -> MessageView {
    let header_len = be16_at(s, 0);
    let data_type = DataType::from_spec(s[2]);
    let sub = has_subheader(data_type) && header_len >= 9;
    let header_type = if sub { be16_at(s, 5) } else { 0 };
    let proxy = sub && has_proxy_type(data_type, header_type) && header_len >= 11;
    MessageView {
        data_type,
        data: Seq::empty(),
        header_type,
        header_origin: if sub { be16_at(s, 7) } else { 0 },
        header_id: if sub { be16_at(s, 9) } else { 0 },
        header_proxy_type: if proxy { be16_at(s, 11) } else { 0 },
    }
}

/// The first frame of `s` and the number of bytes it takes, or the
/// reason why there is none. Header bytes beyond the known fields are
/// skipped.
pub open spec fn decode(s: Seq<u8>) -> Result<(MessageView, nat), FrameError> {
    if s.len() < 2 {
        Err(FrameError::Truncated)
    } else if be16_at(s, 0) < 3 {
        Err(FrameError::HeaderLength)
    } else if s.len() < 2 + be16_at(s, 0) {
        Err(FrameError::Truncated)
    } else if be16_at(s, 0) < header_size(decode_header(s)) {
        Err(FrameError::HeaderLength)
    } else if s.len() < 2 + be16_at(s, 0) + be16_at(s, 3) {
        Err(FrameError::Truncated)
    } else {
        let start = 2 + be16_at(s, 0);
        let end = start + be16_at(s, 3);
        Ok((MessageView { data: s.subrange(start, end), ..decode_header(s) }, end as nat))
    }
}

/// How many more bytes must follow `s` before the next step of decoding
/// can be taken: zero when `s` holds a whole frame or a header that is
/// refused.
pub open spec fn wanted(s: Seq<u8>) -> nat {
    if s.len() < 2 {
        (2 - s.len()) as nat
    } else if be16_at(s, 0) < 3 {
        0
    } else if s.len() < 2 + be16_at(s, 0) {
        (2 + be16_at(s, 0) - s.len()) as nat
    } else if be16_at(s, 0) < header_size(decode_header(s)) {
        0
    } else if s.len() < 2 + be16_at(s, 0) + be16_at(s, 3) {
        (2 + be16_at(s, 0) + be16_at(s, 3) - s.len()) as nat
    } else {
        0
    }
}

/// Reading a type's wire value gives the type back, and writing what
/// was read gives the value back unless it is unknown.
pub proof fn lemma_type_values(t: DataType, p: ProxyHeaderType, c: ConnectionHeaderType)
    ensures
        DataType::from_spec(t.spec_value()) == t,
        ProxyHeaderType::from_spec(p.spec_value()) == p,
        ConnectionHeaderType::from_spec(c.spec_value()) == c,
        forall|n: u8| n <= 7 ==> (#[trigger] DataType::from_spec(n)).spec_value() == n,
        forall|n: u8| n > 7 ==> #[trigger] DataType::from_spec(n) == DataType::Unknown,
        forall|n: u16| n <= 3 ==> (#[trigger] ProxyHeaderType::from_spec(n)).spec_value() == n,
        forall|n: u16| n <= 5 ==> (#[trigger] ConnectionHeaderType::from_spec(n)).spec_value() == n,
{
}

/// Whether a frame of this type and `header_type` carries
/// `header_proxy_type`.
pub fn carries_proxy_type(data_type: DataType, header_type: u16) -> (r: bool)
    ensures
        r == has_proxy_type(data_type, header_type),
{
    match data_type {
        DataType::Proxy => {
            let header_type = ProxyHeaderType::from(header_type);
            header_type == ProxyHeaderType::Create || header_type == ProxyHeaderType::Report
        },
        DataType::Connection => {
            ConnectionHeaderType::from(header_type) == ConnectionHeaderType::Create
        },
        _ => false,
    }
}

impl Message {
    pub fn new() -> (m: Self)
        ensures
            m@ == blank(),
    {
        Self {
            data_type: DataType::Unknown,
            data: Vec::new(),
            header_type: 0,
            header_origin: 0,
            header_id: 0,
            header_proxy_type: 0,
        }
    }

    pub fn data_type(self, data_type: DataType) -> (m: Self)
        ensures
            m@ == (MessageView { data_type, ..self@ }),
    {
        let mut m = self;
        m.data_type = data_type;
        m
    }

    pub fn data(self, data: Vec<u8>) -> (m: Self)
        ensures
            m@ == (MessageView { data: data@, ..self@ }),
    {
        let mut m = self;
        m.data = data;
        m
    }

    pub fn header_type<T: HeaderType>(self, header_type: T) -> (m: Self)
        ensures
            m@ == (MessageView { header_type: header_type.spec_value(), ..self@ }),
    {
        let mut m = self;
        m.header_type = header_type.value();
        m
    }

    pub fn header_id(self, header_id: u16) -> (m: Self)
        ensures
            m@ == (MessageView { header_id, ..self@ }),
    {
        let mut m = self;
        m.header_id = header_id;
        m
    }

    pub fn header_proxy_type(self, header_proxy_type: ProxyType) -> (m: Self)
        ensures
            m@ == (MessageView { header_proxy_type: header_proxy_type.spec_value(), ..self@ }),
    {
        let mut m = self;
        m.header_proxy_type = header_proxy_type.value();
        m
    }

    /// Appends the frame to `stream`, unless its payload is longer than
    /// `limit`, the payload limit in force; `stream` is then left as it
    /// was. So no frame with a payload above the limit is ever written.
    pub fn push(self, stream: &mut Vec<u8>, limit: u16) -> (r: Result<(), FrameError>)
        ensures
            self@.data.len() <= limit ==> r is Ok && final(stream)@ == old(stream)@ + encode(
                self@,
            ),
            self@.data.len() > limit ==> r == Err::<(), FrameError>(FrameError::Oversize)
                && final(stream)@ == old(stream)@,
    {
        if self.data.len() > limit as usize {
            return Err(FrameError::Oversize);
        }
        let sub = match self.data_type {
            DataType::Proxy | DataType::Connection => true,
            _ => false,
        };
        let proxy = carries_proxy_type(self.data_type, self.header_type);
        let mut header_len: u16 = 3;
        if sub {
            header_len += 6;
            if proxy {
                header_len += 2;
            }
        }
        put_u16(stream, header_len);
        stream.push(self.data_type.value());
        put_u16(stream, self.data.len() as u16);
        if sub {
            put_u16(stream, self.header_type);
            put_u16(stream, self.header_origin);
            put_u16(stream, self.header_id);
            if proxy {
                put_u16(stream, self.header_proxy_type);
            }
        }
        put_bytes(stream, self.data.as_slice());
        assert(stream@ =~= old(stream)@ + encode(self@));
        Ok(())
    }

    /// How many more bytes `stream` needs before `pull` can take its next
    /// step.
    pub fn wanted(stream: &[u8]) -> (n: usize)
        ensures
            n == wanted(stream@),
    {
        let len = stream.len();
        if len < 2 {
            return 2 - len;
        }
        let header_len = get_u16(stream, 0) as usize;
        if header_len < 3 {
            return 0;
        }
        if len - 2 < header_len {
            return 2 + header_len - len;
        }
        let data_len = get_u16(stream, 3) as usize;
        let known = Self::known_header(stream);
        if header_len < known {
            return 0;
        }
        if len - 2 - header_len < data_len {
            return 2 + header_len + data_len - len;
        }
        0
    }

    /// The size of the header that the type fields at the start of
    /// `stream` call for.
    fn known_header(stream: &[u8]) -> (n: usize)
        requires
            stream@.len() >= 2,
            be16_at(stream@, 0) >= 3,
            stream@.len() >= 2 + be16_at(stream@, 0),
        ensures
            n == header_size(decode_header(stream@)),
    {
        let header_len = get_u16(stream, 0);
        let data_type = DataType::from(stream[2]);
        match data_type {
            DataType::Proxy | DataType::Connection => {
                if header_len < 9 || carries_proxy_type(data_type, get_u16(stream, 5)) {
                    11
                } else {
                    9
                }
            },
            _ => 3,
        }
    }

    /// Takes the first frame off the front of `stream`. Where `stream`
    /// holds no whole frame, or a header that is refused, it is left as
    /// it was.
    pub fn pull(stream: &mut Vec<u8>) -> (r: Result<Self, FrameError>)
        ensures
            match decode(old(stream)@) {
                Ok((m, n)) => r is Ok && r->Ok_0@ == m && final(stream)@ == old(stream)@.skip(
                    n as int,
                ),
                Err(e) => r is Err && r->Err_0 == e && final(stream)@ == old(stream)@,
            },
    {
        let len = stream.len();
        if len < 2 {
            return Err(FrameError::Truncated);
        }
        let header_len = get_u16(stream.as_slice(), 0) as usize;
        if header_len < 3 {
            return Err(FrameError::HeaderLength);
        }
        if len - 2 < header_len {
            return Err(FrameError::Truncated);
        }
        let mut message = Self::new();
        message.data_type = DataType::from(stream[2]);
        let data_len = get_u16(stream.as_slice(), 3) as usize;
        match message.data_type {
            DataType::Proxy | DataType::Connection => {
                if header_len < 9 {
                    return Err(FrameError::HeaderLength);
                }
                message.header_type = get_u16(stream.as_slice(), 5);
                message.header_origin = get_u16(stream.as_slice(), 7);
                message.header_id = get_u16(stream.as_slice(), 9);
                if carries_proxy_type(message.data_type, message.header_type) {
                    if header_len < 11 {
                        return Err(FrameError::HeaderLength);
                    }
                    message.header_proxy_type = get_u16(stream.as_slice(), 11);
                }
            },
            _ => {},
        }
        if len - 2 - header_len < data_len {
            return Err(FrameError::Truncated);
        }
        let start = 2 + header_len;
        let end = start + data_len;
        let rest = stream.split_off(end);
        message.data = vstd::slice::slice_to_vec(
            vstd::slice::slice_subrange(stream.as_slice(), start, end),
        );
        assert(message.data@ =~= old(stream)@.subrange(start as int, end as int));
        *stream = rest;
        assert(stream@ =~= old(stream)@.skip(end as int));
        Ok(message)
    }
}

} // verus!
