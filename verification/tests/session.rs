use revsh::broker::{socks_missing, Broker, FlowEvent, Inbound, ProxyConnection, SocksError};
use revsh::control::{Control, Phase, SocketAddress};
use revsh::message::{ConnectionHeaderType, DataType, FrameError, Message, ProxyHeaderType};

const PEER: SocketAddress = SocketAddress { ip: [10, 0, 0, 2], port: 40000 };

const CONNECT: [u8; 9] = [0x04, 0x01, 0x01, 0xBB, 0x5D, 0xB8, 0xD8, 0x22, 0x00];

fn broker() -> Broker<u32> {
    Broker::new(&Control::new(), PEER)
}

fn broker_with_limit(limit: u16) -> Broker<u32> {
    let mut control = Control::new();
    control.negotiate_protocol(Phase::DataSize, &limit.to_be_bytes()).unwrap();
    Broker::new(&control, PEER)
}

fn frames(mut stream: Vec<u8>) -> Vec<Message> {
    let mut out = Vec::new();
    while !stream.is_empty() {
        out.push(Message::pull(&mut stream).unwrap());
    }
    out
}

fn data_frame(id: u16, data: &[u8]) -> Message {
    Message::new()
        .data_type(DataType::Connection)
        .header_type(ConnectionHeaderType::Data)
        .header_id(id)
        .data(data.to_vec())
}

#[test]
fn new_broker_takes_the_session_over() {
    let mut control = Control::new();
    let address = SocketAddress { ip: [127, 0, 0, 1], port: 9050 };
    control.proxy(Some(address));
    control.negotiate_protocol(Phase::DataSize, &[0x10, 0x00]).unwrap();
    let b: Broker<u32> = Broker::new(&control, PEER);
    assert_eq!(b.remote_address, PEER);
    assert_eq!(b.message_data_size(), 4096);
    assert_eq!(b.proxy_address(), Some(address));
    assert!(!b.is_open(0));
    assert!(b.connection(40000).is_none());
}

#[test]
fn run_without_proxy_sends_nothing() {
    let b = broker();
    let mut writer = vec![1];
    assert_eq!(b.run(&mut writer), None);
    assert_eq!(writer, vec![1]);
}

#[test]
fn run_with_proxy_sends_proxy_create() {
    let mut control = Control::new();
    let address = SocketAddress { ip: [127, 0, 0, 1], port: 9050 };
    control.proxy(Some(address));
    let b: Broker<u32> = Broker::new(&control, PEER);
    let mut writer = Vec::new();
    assert_eq!(b.run(&mut writer), Some(address));
    let sent = frames(writer);
    assert_eq!(sent.len(), 1);
    assert_eq!(sent[0].data_type.value(), 3);
    assert_eq!(sent[0].header_type, 0);
    assert_eq!(sent[0].header_proxy_type, 0);
    assert_eq!(sent[0].data, b"9050:127.0.0.1:1081".to_vec());
}

#[test]
fn proxy_create_frame_bytes() {
    let b = broker();
    let mut writer = Vec::new();
    b.proxy_create(&mut writer, "80:x").unwrap();
    assert_eq!(writer, vec![0, 11, 3, 0, 4, 0, 0, 0, 0, 0, 0, 0, 0, b'8', b'0', b':', b'x']);
}

#[test]
fn connection_create_frame_bytes() {
    let b = broker();
    let mut writer = Vec::new();
    b.connection_create(&mut writer, 0x0102, "a:1").unwrap();
    assert_eq!(writer, vec![0, 11, 4, 0, 3, 0, 0, 0, 0, 1, 2, 0, 0, b'a', b':', b'1']);
}

#[test]
fn connection_data_frame_bytes() {
    let b = broker();
    let mut writer = Vec::new();
    b.connection_data(&mut writer, 7, &[9, 8]).unwrap();
    assert_eq!(writer, vec![0, 9, 4, 0, 2, 0, 2, 0, 0, 0, 7, 9, 8]);
}

#[test]
fn stdin_chunk_becomes_tty_frame() {
    let b = broker();
    let mut writer = Vec::new();
    b.stdin_handler(b"ls\n", &mut writer).unwrap();
    assert_eq!(writer, vec![0x00, 0x03, 0x01, 0x00, 0x03, b'l', b's', b'\n']);
}

#[test]
fn empty_stdin_chunk_sends_nothing() {
    let b = broker();
    let mut writer = Vec::new();
    assert_eq!(b.stdin_handler(&[], &mut writer), Ok(()));
    assert!(writer.is_empty());
}

#[test]
fn no_frame_exceeds_the_agreed_limit() {
    let b = broker_with_limit(1024);
    let mut writer = Vec::new();
    let big = vec![0u8; 1025];
    let text = "x".repeat(1025);
    assert_eq!(b.stdin_handler(&big, &mut writer), Err(FrameError::Oversize));
    assert_eq!(b.connection_data(&mut writer, 1, &big), Err(FrameError::Oversize));
    assert_eq!(b.proxy_create(&mut writer, &text), Err(FrameError::Oversize));
    assert_eq!(b.connection_create(&mut writer, 1, &text), Err(FrameError::Oversize));
    assert!(writer.is_empty());
    assert_eq!(b.stdin_handler(&big[..1024], &mut writer), Ok(()));
    assert_eq!(b.connection_data(&mut writer, 1, &big[..1024]), Ok(()));
    for m in frames(writer) {
        assert!(m.data.len() <= 1024);
    }
}

#[test]
fn socks_connect_opens_a_flow() {
    let mut b = broker();
    let mut writer = Vec::new();
    let reply = b.proxy_handler(&CONNECT, ProxyConnection { writer: 11 }, 54321, &mut writer);
    assert_eq!(reply, Ok(vec![0x00, 0x5A, 0x01, 0xBB, 0x5D, 0xB8, 0xD8, 0x22]));
    let sent = frames(writer);
    assert_eq!(sent.len(), 1);
    assert_eq!(sent[0].data_type, DataType::Connection);
    assert_eq!(sent[0].header_type, ConnectionHeaderType::Create as u16);
    assert_eq!(sent[0].header_id, 54321);
    assert_eq!(sent[0].header_proxy_type, 0);
    assert_eq!(sent[0].data, b"93.184.216.34:443".to_vec());
    assert!(b.is_open(54321));
    assert_eq!(b.connection(54321).unwrap().writer, 11);
}

#[test]
fn socks_target_text_edges() {
    let mut b = broker();
    let mut writer = Vec::new();
    b.proxy_handler(&[4, 1, 0, 0, 0, 0, 0, 0, 0], ProxyConnection { writer: 1 }, 1, &mut writer)
        .unwrap();
    b.proxy_handler(
        &[4, 1, 0xFF, 0xFF, 255, 255, 255, 255, 0],
        ProxyConnection { writer: 2 },
        2,
        &mut writer,
    )
    .unwrap();
    let sent = frames(writer);
    assert_eq!(sent[0].data, b"0.0.0.0:0".to_vec());
    assert_eq!(sent[1].data, b"255.255.255.255:65535".to_vec());
}

#[test]
fn socks_requests_refused() {
    let mut b = broker();
    let mut writer = Vec::new();
    let c = || ProxyConnection { writer: 0u32 };
    assert_eq!(b.proxy_handler(&[], c(), 5, &mut writer), Err(SocksError::Truncated));
    assert_eq!(b.proxy_handler(&[5], c(), 5, &mut writer), Err(SocksError::Version));
    assert_eq!(b.proxy_handler(&[5, 1, 0, 80, 1, 2, 3, 4, 0], c(), 5, &mut writer), Err(SocksError::Version));
    assert_eq!(b.proxy_handler(&[4], c(), 5, &mut writer), Err(SocksError::Truncated));
    assert_eq!(b.proxy_handler(&[4, 2], c(), 5, &mut writer), Err(SocksError::Command));
    assert_eq!(b.proxy_handler(&[4, 1, 0, 80, 1, 2, 3, 4], c(), 5, &mut writer), Err(SocksError::Truncated));
    assert!(writer.is_empty());
    assert!(!b.is_open(5));
}

#[test]
fn socks_reuse_of_an_id_replaces_the_flow() {
    let mut b = broker();
    let mut writer = Vec::new();
    b.proxy_handler(&CONNECT, ProxyConnection { writer: 1 }, 9, &mut writer).unwrap();
    b.proxy_handler(&CONNECT, ProxyConnection { writer: 2 }, 9, &mut writer).unwrap();
    assert_eq!(b.connection(9).unwrap().writer, 2);
}

#[test]
fn tty_goes_to_stdout() {
    let mut b = broker();
    let mut writer = Vec::new();
    let m = Message::new().data_type(DataType::Tty).data(b"$ ".to_vec());
    assert_eq!(b.message_handler(m, None, &mut writer), Inbound::Stdout(b"$ ".to_vec()));
    assert!(writer.is_empty());
}

#[test]
fn error_goes_to_stderr_with_line_end() {
    let mut b = broker();
    let mut writer = Vec::new();
    let m = Message::new().data_type(DataType::Error).data(b"no".to_vec());
    assert_eq!(b.message_handler(m, None, &mut writer), Inbound::Stderr(b"no\r\n".to_vec()));
}

#[test]
fn other_frames_are_ignored() {
    let mut b = broker();
    let mut writer = Vec::new();
    b.proxy_handler(&CONNECT, ProxyConnection { writer: 1 }, 3, &mut writer).unwrap();
    writer.clear();
    for t in [DataType::Init, DataType::Winresize, DataType::Proxy, DataType::Nop, DataType::Unknown] {
        let m = Message::new().data_type(t).header_id(3).header_type(ProxyHeaderType::Destroy);
        assert_eq!(b.message_handler(m, None, &mut writer), Inbound::Ignored);
    }
    assert!(b.is_open(3));
    assert!(writer.is_empty());
}

#[test]
fn padded_nop_has_no_effect() {
    let mut b = broker();
    let mut stream = vec![0, 11, 5, 0, 0, 1, 2, 3, 4, 5, 6, 7, 8];
    let m = Message::pull(&mut stream).unwrap();
    assert!(stream.is_empty());
    let mut writer = Vec::new();
    assert_eq!(b.message_handler(m, None, &mut writer), Inbound::Ignored);
    assert!(writer.is_empty());
}

#[test]
fn connection_data_is_forwarded_to_open_flow() {
    let mut b = broker();
    let mut writer = Vec::new();
    b.proxy_handler(&CONNECT, ProxyConnection { writer: 1 }, 54321, &mut writer).unwrap();
    writer.clear();
    let action = b.message_handler(data_frame(54321, b"abc"), None, &mut writer);
    assert_eq!(action, Inbound::Forward(54321, b"abc".to_vec()));
    assert!(b.is_open(54321));
}

#[test]
fn remote_close_removes_the_flow() {
    let mut b = broker();
    let mut writer = Vec::new();
    b.proxy_handler(&CONNECT, ProxyConnection { writer: 1 }, 54321, &mut writer).unwrap();
    b.proxy_handler(&CONNECT, ProxyConnection { writer: 2 }, 54322, &mut writer).unwrap();
    writer.clear();
    assert_eq!(b.message_handler(data_frame(54321, b""), None, &mut writer), Inbound::Closed(54321));
    assert!(!b.is_open(54321));
    assert!(b.is_open(54322));
    assert_eq!(b.message_handler(data_frame(54321, b"late"), None, &mut writer), Inbound::Ignored);
    assert_eq!(b.message_handler(data_frame(54321, b""), None, &mut writer), Inbound::Ignored);
    assert!(writer.is_empty());
}

#[test]
fn remote_close_frame_off_the_wire_removes_the_flow() {
    let mut b = broker();
    let mut writer = Vec::new();
    b.proxy_handler(&CONNECT, ProxyConnection { writer: 1 }, 54321, &mut writer).unwrap();
    writer.clear();
    let mut stream = vec![0x00, 0x09, 0x04, 0x00, 0x00, 0x00, 0x02, 0x00, 0x00, 0xD4, 0x31];
    let close = Message::pull(&mut stream).unwrap();
    assert!(stream.is_empty());
    assert_eq!(close, data_frame(54321, b""));
    assert_eq!(b.message_handler(close, None, &mut writer), Inbound::Closed(54321));
    assert!(!b.is_open(54321));
    let mut stream = vec![0x00, 0x09, 0x04, 0x00, 0x01, 0x00, 0x02, 0x00, 0x00, 0xD4, 0x31, 0x7A];
    let late = Message::pull(&mut stream).unwrap();
    assert_eq!(b.message_handler(late, None, &mut writer), Inbound::Ignored);
    assert!(writer.is_empty());
}

#[test]
fn failed_flow_leaves_the_table_alone() {
    let mut b = broker();
    let mut writer = Vec::new();
    b.proxy_handler(&CONNECT, ProxyConnection { writer: 1 }, 100, &mut writer).unwrap();
    b.proxy_handler(&CONNECT, ProxyConnection { writer: 2 }, 200, &mut writer).unwrap();
    writer.clear();
    assert_eq!(
        b.message_handler(data_frame(100, b"x"), None, &mut writer),
        Inbound::Forward(100, b"x".to_vec())
    );
    b.flow_failed(100);
    assert!(!b.is_open(100));
    assert!(b.is_open(200));
    assert_eq!(b.connection(200).unwrap().writer, 2);
    assert_eq!(b.message_handler(data_frame(100, b"y"), None, &mut writer), Inbound::Ignored);
    assert_eq!(
        b.message_handler(data_frame(200, b"z"), None, &mut writer),
        Inbound::Forward(200, b"z".to_vec())
    );
    b.flow_failed(100);
    b.flow_failed(7);
    assert!(b.is_open(200));
    assert_eq!(b.message_data_size(), 0xFFFF);
    assert!(writer.is_empty());
}

#[test]
fn failed_create_write_takes_the_flow_out_again() {
    let mut b = broker();
    let mut writer = Vec::new();
    let reply = b.proxy_handler(&CONNECT, ProxyConnection { writer: 1 }, 4242, &mut writer);
    assert!(reply.is_ok());
    assert!(b.is_open(4242));
    b.flow_failed(4242);
    assert!(!b.is_open(4242));
    assert!(b.connection(4242).is_none());
}

#[test]
fn resize_is_sent_after_the_frame() {
    let mut b = broker();
    let mut writer = Vec::new();
    let m = Message::new().data_type(DataType::Tty).data(vec![1]);
    assert_eq!(b.message_handler(m, Some((24, 80)), &mut writer), Inbound::Stdout(vec![1]));
    assert_eq!(writer, vec![0, 3, 2, 0, 4, 0, 24, 0, 80]);
}

#[test]
fn reader_sends_what_it_reads_in_order() {
    let mut b = broker();
    let mut writer = Vec::new();
    b.proxy_handler(&CONNECT, ProxyConnection { writer: 1 }, 700, &mut writer).unwrap();
    writer.clear();
    let payload: Vec<u8> = (0..2500u32).map(|i| (i % 251) as u8).collect();
    for chunk in payload.chunks(1024) {
        assert_eq!(b.proxy_reader(700, FlowEvent::Data(chunk.to_vec()), &mut writer), Ok(true));
    }
    assert_eq!(b.proxy_reader(700, FlowEvent::Data(vec![]), &mut writer), Ok(false));
    assert!(!b.is_open(700));
    let mut seen = Vec::new();
    for m in frames(writer) {
        assert_eq!(m.data_type, DataType::Connection);
        assert_eq!(m.header_type, 2);
        assert_eq!(m.header_id, 700);
        seen.extend(m.data);
    }
    assert_eq!(seen, payload);
}

#[test]
fn reader_stops_when_stream_closes() {
    let mut b = broker();
    let mut writer = Vec::new();
    b.proxy_handler(&CONNECT, ProxyConnection { writer: 1 }, 8, &mut writer).unwrap();
    writer.clear();
    assert_eq!(b.proxy_reader(8, FlowEvent::Closed, &mut writer), Ok(false));
    assert!(!b.is_open(8));
    assert_eq!(b.proxy_reader(8, FlowEvent::Closed, &mut writer), Ok(false));
    assert!(writer.is_empty());
}

#[test]
fn reader_tick_watches_the_table() {
    let mut b = broker();
    let mut writer = Vec::new();
    b.proxy_handler(&CONNECT, ProxyConnection { writer: 1 }, 8, &mut writer).unwrap();
    writer.clear();
    assert_eq!(b.proxy_reader(8, FlowEvent::Tick, &mut writer), Ok(true));
    assert!(b.is_open(8));
    b.message_handler(data_frame(8, b""), None, &mut writer);
    assert_eq!(b.proxy_reader(8, FlowEvent::Tick, &mut writer), Ok(false));
    assert!(writer.is_empty());
}

#[test]
fn reader_stops_on_oversize_chunk() {
    let mut b = broker_with_limit(1024);
    let mut writer = Vec::new();
    b.proxy_handler(&CONNECT, ProxyConnection { writer: 1 }, 8, &mut writer).unwrap();
    writer.clear();
    assert_eq!(
        b.proxy_reader(8, FlowEvent::Data(vec![0; 1025]), &mut writer),
        Err(FrameError::Oversize)
    );
    assert!(!b.is_open(8));
    assert!(writer.is_empty());
}

#[test]
fn socks_request_is_read_in_steps() {
    assert_eq!(socks_missing(&[]), 1);
    assert_eq!(socks_missing(&[4]), 1);
    assert_eq!(socks_missing(&[5]), 0);
    assert_eq!(socks_missing(&[4, 1]), 7);
    assert_eq!(socks_missing(&[4, 2]), 0);
    assert_eq!(socks_missing(&[4, 1, 0, 80, 1]), 4);
    assert_eq!(socks_missing(&CONNECT), 0);
}
