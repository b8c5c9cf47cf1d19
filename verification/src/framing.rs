//! What holds of the frame codec: what is written reads back, and where
//! each field stands on the wire.
use crate::message::{
    decode, decode_header, encode, encode_padded, has_proxy_type, has_subheader, header_size,
    subheader, wanted, well_formed, DataType, FrameError, MessageView,
};
use crate::wire::{be16, be16_at};
use vstd::prelude::*;

verus! {

/// The frames of `ms` on the wire, one after the other.
pub open spec fn encode_all(ms: Seq<MessageView>) -> Seq<u8>
    decreases ms.len(),
{
    if ms.len() == 0 {
        Seq::empty()
    } else {
        encode(ms[0]) + encode_all(ms.drop_first())
    }
}

/// The first `count` frames of `s`, if `s` starts with that many.
pub open spec fn decode_all(s: Seq<u8>, count: nat) -> Option<Seq<MessageView>>
    decreases count,
{
    if count == 0 {
        Some(Seq::empty())
    } else {
        match decode(s) {
            Ok((m, n)) => match decode_all(s.skip(n as int), (count - 1) as nat) {
                Some(tail) => Some(seq![m] + tail),
                None => None,
            },
            Err(_) => None,
        }
    }
}

/// The layout of a written frame: the length of each part, and the
/// index at which each field stands.
pub proof fn lemma_layout(m: MessageView, pad: Seq<u8>)
    requires
        m.data.len() <= 0xFFFF,
        header_size(m) + pad.len() <= 0xFFFF,
    ensures
        subheader(m).len() == header_size(m) - 3,
        encode_padded(m, pad).len() == 2 + header_size(m) + pad.len() + m.data.len(),
        be16_at(encode_padded(m, pad), 0) == header_size(m) + pad.len(),
        encode_padded(m, pad)[2] == m.data_type.spec_value(),
        be16_at(encode_padded(m, pad), 3) == m.data.len(),
        has_subheader(m.data_type) ==> {
            &&& be16_at(encode_padded(m, pad), 5) == m.header_type
            &&& be16_at(encode_padded(m, pad), 7) == m.header_origin
            &&& be16_at(encode_padded(m, pad), 9) == m.header_id
        },
        has_proxy_type(m.data_type, m.header_type) ==> be16_at(encode_padded(m, pad), 11)
            == m.header_proxy_type,
        encode_padded(m, pad).subrange(
            2 + header_size(m) as int,
            2 + header_size(m) as int + pad.len() as int,
        ) == pad,
        encode_padded(m, pad).skip(2 + header_size(m) as int + pad.len() as int) == m.data,
{
    let e = encode_padded(m, pad);
    let head = be16((header_size(m) + pad.len()) as u16) + seq![m.data_type.spec_value()] + be16(
        m.data.len() as u16,
    );
    let sub = subheader(m);
    assert(head.len() == 5);
    assert(e == head + sub + pad + m.data);
    assert(forall|i: int| 0 <= i < 5 ==> e[i] == head[i]);
    assert(forall|i: int| 0 <= i < sub.len() ==> e[5 + i] == #[trigger] sub[i]);
    if has_subheader(m.data_type) {
        assert(sub[0] == be16(m.header_type)[0]);
        assert(sub[1] == be16(m.header_type)[1]);
        assert(sub[2] == be16(m.header_origin)[0]);
        assert(sub[3] == be16(m.header_origin)[1]);
        assert(sub[4] == be16(m.header_id)[0]);
        assert(sub[5] == be16(m.header_id)[1]);
        assert(e[5] == sub[0] && e[6] == sub[1] && e[7] == sub[2]);
        assert(e[8] == sub[3] && e[9] == sub[4] && e[10] == sub[5]);
        if has_proxy_type(m.data_type, m.header_type) {
            assert(sub[6] == be16(m.header_proxy_type)[0]);
            assert(sub[7] == be16(m.header_proxy_type)[1]);
            assert(e[11] == sub[6] && e[12] == sub[7]);
        }
    }
    assert(e.subrange(2 + header_size(m) as int, 2 + header_size(m) as int + pad.len() as int)
        =~= pad);
    assert(e.skip(2 + header_size(m) as int + pad.len() as int) =~= m.data);
}

/// In every written frame `header_len` is the number of bytes from
/// `data_type` up to the payload.
pub proof fn lemma_header_len(m: MessageView, pad: Seq<u8>)
    requires
        m.data.len() <= 0xFFFF,
        header_size(m) + pad.len() <= 0xFFFF,
    ensures
        be16_at(encode_padded(m, pad), 0) == encode_padded(m, pad).len() - 2 - m.data.len(),
        encode_padded(m, pad).skip(2 + be16_at(encode_padded(m, pad), 0) as int) == m.data,
{
    lemma_layout(m, pad);
}

/// `header_type`, `header_origin` and `header_id` are on the wire if and
/// only if the frame's type is `Proxy` or `Connection`, and
/// `header_proxy_type` if and only if, besides, the frame is a `Proxy`
/// frame with header type `Create` or `Report` or a `Connection` frame
/// with header type `Create`: the header of an unpadded frame has 3, 9 or
/// 11 bytes accordingly, and the fields stand in it in this order.
pub proof fn lemma_subheader_presence(m: MessageView)
    requires
        m.data.len() <= 0xFFFF,
    ensures
        has_proxy_type(m.data_type, m.header_type) <==> (m.data_type == DataType::Proxy && (
            m.header_type == 0 || m.header_type == 2)) || (m.data_type == DataType::Connection
            && m.header_type == 0),
        be16_at(encode(m), 0) == 3 <==> !has_subheader(m.data_type),
        be16_at(encode(m), 0) == 9 <==> has_subheader(m.data_type) && !has_proxy_type(
            m.data_type,
            m.header_type,
        ),
        be16_at(encode(m), 0) == 11 <==> has_proxy_type(m.data_type, m.header_type),
        encode(m).subrange(5, 2 + be16_at(encode(m), 0) as int) == if !has_subheader(m.data_type) {
            Seq::<u8>::empty()
        } else if !has_proxy_type(m.data_type, m.header_type) {
            be16(m.header_type) + be16(m.header_origin) + be16(m.header_id)
        } else {
            be16(m.header_type) + be16(m.header_origin) + be16(m.header_id) + be16(
                m.header_proxy_type,
            )
        },
{
    lemma_layout(m, Seq::empty());
    let e = encode(m);
    let head = be16(header_size(m) as u16) + seq![m.data_type.spec_value()] + be16(
        m.data.len() as u16,
    );
    assert(e == head + subheader(m) + Seq::<u8>::empty() + m.data);
    assert(e.subrange(5, 2 + header_size(m) as int) =~= subheader(m));
}

/// A well-formed frame, written with any padding that `header_len` can
/// count and followed by any bytes, reads back as itself, field by
/// field, and the bytes that follow it are left.
pub proof fn lemma_round_trip(m: MessageView, pad: Seq<u8>, rest: Seq<u8>)
    requires
        well_formed(m),
        header_size(m) + pad.len() <= 0xFFFF,
    ensures
        decode(encode_padded(m, pad) + rest) == Ok::<(MessageView, nat), FrameError>(
            (m, encode_padded(m, pad).len()),
        ),
        (encode_padded(m, pad) + rest).skip(encode_padded(m, pad).len() as int) == rest,
        decode(encode_padded(m, pad)) == Ok::<(MessageView, nat), FrameError>(
            (m, encode_padded(m, pad).len()),
        ),
        decode(encode(m)) == Ok::<(MessageView, nat), FrameError>((m, encode(m).len())),
{
    lemma_round_trip_followed(m, pad, rest);
    lemma_round_trip_followed(m, pad, Seq::empty());
    lemma_round_trip_followed(m, Seq::empty(), Seq::empty());
    assert(encode_padded(m, pad) + Seq::<u8>::empty() =~= encode_padded(m, pad));
    assert(encode(m) + Seq::<u8>::empty() =~= encode(m));
}

proof fn lemma_round_trip_followed(m: MessageView, pad: Seq<u8>, rest: Seq<u8>)
    requires
        well_formed(m),
        header_size(m) + pad.len() <= 0xFFFF,
    ensures
        decode(encode_padded(m, pad) + rest) == Ok::<(MessageView, nat), FrameError>(
            (m, encode_padded(m, pad).len()),
        ),
        (encode_padded(m, pad) + rest).skip(encode_padded(m, pad).len() as int) == rest,
{
    lemma_layout(m, pad);
    let e = encode_padded(m, pad);
    let s = e + rest;
    assert(forall|i: int| 0 <= i < e.len() ==> s[i] == e[i]);
    assert(s[0] == e[0] && s[1] == e[1] && s[2] == e[2] && s[3] == e[3] && s[4] == e[4]);
    assert(be16_at(s, 0) == be16_at(e, 0));
    assert(be16_at(s, 3) == be16_at(e, 3));
    if has_subheader(m.data_type) {
        assert(s[5] == e[5] && s[6] == e[6] && s[7] == e[7] && s[8] == e[8] && s[9] == e[9]
            && s[10] == e[10]);
        if has_proxy_type(m.data_type, m.header_type) {
            assert(s[11] == e[11] && s[12] == e[12]);
        }
    }
    let h = decode_header(s);
    assert(h.data_type == m.data_type);
    assert(h.header_type == m.header_type);
    assert(h.header_origin == m.header_origin);
    assert(h.header_id == m.header_id);
    assert(h.header_proxy_type == m.header_proxy_type);
    let start = 2 + header_size(m) + pad.len();
    assert(s.subrange(start as int, e.len() as int) =~= e.skip(start as int));
    assert(s.skip(e.len() as int) =~= rest);
}

/// A stream made of whole well-formed frames reads back as those
/// frames, in the order in which they were written.
pub proof fn lemma_stream_round_trip(ms: Seq<MessageView>)
    requires
        forall|i: int| 0 <= i < ms.len() ==> well_formed(#[trigger] ms[i]),
    ensures
        decode_all(encode_all(ms), ms.len()) == Some(ms),
    decreases ms.len(),
{
    if ms.len() == 0 {
        assert(ms =~= Seq::empty());
    } else {
        let tail = ms.drop_first();
        lemma_round_trip(ms[0], Seq::empty(), encode_all(tail));
        assert forall|i: int| 0 <= i < tail.len() implies well_formed(#[trigger] tail[i]) by {
            assert(tail[i] == ms[i + 1]);
        }
        lemma_stream_round_trip(tail);
        assert(seq![ms[0]] + tail =~= ms);
    }
}

/// The header fields are read from the header's bytes alone: what
/// follows a whole header does not change them.
proof fn lemma_header_stable(s: Seq<u8>, t: Seq<u8>)
    requires
        s.len() >= 2,
        be16_at(s, 0) >= 3,
        s.len() >= 2 + be16_at(s, 0),
    ensures
        be16_at(s + t, 0) == be16_at(s, 0),
        be16_at(s + t, 3) == be16_at(s, 3),
        decode_header(s + t) == decode_header(s),
{
    let u = s + t;
    assert(forall|i: int| 0 <= i < s.len() ==> u[i] == s[i]);
    assert(u[0] == s[0] && u[1] == s[1] && u[2] == s[2] && u[3] == s[3] && u[4] == s[4]);
    if be16_at(s, 0) >= 9 {
        assert(u[5] == s[5] && u[6] == s[6] && u[7] == s[7] && u[8] == s[8] && u[9] == s[9]
            && u[10] == s[10]);
    }
    if be16_at(s, 0) >= 11 {
        assert(u[11] == s[11] && u[12] == s[12]);
    }
}

/// Bytes that follow a whole frame, or a header that is refused, do not
/// change what is read.
pub proof fn lemma_decode_stable(s: Seq<u8>, t: Seq<u8>)
    requires
        decode(s) != Err::<(MessageView, nat), FrameError>(FrameError::Truncated),
    ensures
        decode(s + t) == decode(s),
{
    let u = s + t;
    assert(forall|i: int| 0 <= i < s.len() ==> u[i] == s[i]);
    assert(u[0] == s[0] && u[1] == s[1]);
    if be16_at(s, 0) >= 3 {
        lemma_header_stable(s, t);
        if be16_at(s, 0) >= header_size(decode_header(s)) {
            let start = 2 + be16_at(s, 0);
            let end = start + be16_at(s, 3);
            assert(u.subrange(start, end) =~= s.subrange(start, end));
        }
    }
}

/// No fewer bytes than are wanted will do: with fewer, decoding still
/// stops for want of bytes.
pub proof fn lemma_wanted_is_least(s: Seq<u8>, t: Seq<u8>)
    requires
        t.len() < wanted(s),
    ensures
        decode(s + t) == Err::<(MessageView, nat), FrameError>(FrameError::Truncated),
{
    let u = s + t;
    if s.len() >= 2 {
        assert(u[0] == s[0] && u[1] == s[1]);
        if s.len() >= 2 + be16_at(s, 0) {
            lemma_header_stable(s, t);
        }
    }
}

/// Reading the bytes that are wanted, three times at most, gives a
/// whole frame or a header that is refused.
pub proof fn lemma_wanted_three_reads(a: Seq<u8>, b: Seq<u8>, c: Seq<u8>)
    requires
        a.len() == wanted(Seq::<u8>::empty()),
        b.len() == wanted(a),
        c.len() == wanted(a + b),
    ensures
        wanted(a + b + c) == 0,
{
    let u2 = a + b;
    let u3 = u2 + c;
    assert(u2[0] == a[0] && u2[1] == a[1]);
    if be16_at(a, 0) >= 3 {
        assert(u3[0] == u2[0] && u3[1] == u2[1]);
        lemma_header_stable(u2, c);
    }
}

/// More bytes are wanted exactly where decoding stops for want of
/// bytes.
pub proof fn lemma_wanted(s: Seq<u8>)
    ensures
        wanted(s) > 0 <==> decode(s) == Err::<(MessageView, nat), FrameError>(
            FrameError::Truncated,
        ),
        s.len() >= 2 && wanted(s) > 0 ==> s.len() + wanted(s) <= 2 + 0xFFFF + 0xFFFF,
{
}

} // verus!
