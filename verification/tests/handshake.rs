use revsh::control::{Awaited, Control, DataSize, HandshakeError, Phase, SocketAddress, Step};
use revsh::message::{DataType, FrameError, Message};

fn frame(m: Message) -> Vec<u8> {
    let mut out = Vec::new();
    m.push(&mut out, 0xFFFF).unwrap();
    out
}

fn init(data: &[u8]) -> Vec<u8> {
    frame(Message::new().data_type(DataType::Init).data(data.to_vec()))
}

#[test]
fn control_defaults() {
    let c = Control::new();
    assert_eq!(c.message_data_size(), 0xFFFF);
    assert_eq!(c.proxy_address, None);
    assert_eq!(c.proxy_address(), None);
    assert_eq!(c.joined_env(), b"PATH=/bin:/usr/bin/".to_vec());
}

#[test]
fn control_builders_chain() {
    let mut c = Control::new();
    let address = SocketAddress { ip: [127, 0, 0, 1], port: 9050 };
    c.shell("/bin/bash".to_string())
        .env(vec!["PATH=/bin".to_string(), "TERM=xterm".to_string(), "LANG=C".to_string()])
        .proxy(Some(address));
    assert_eq!(c.proxy_address, Some(address));
    assert_eq!(c.joined_env(), b"PATH=/bin TERM=xterm LANG=C".to_vec());
    assert_eq!(c.message_data_size(), 0xFFFF);
}

#[test]
fn joined_env_of_nothing_is_empty() {
    let mut c = Control::new();
    c.env(vec![]);
    assert_eq!(c.joined_env(), Vec::<u8>::new());
    c.env(vec!["A=1".to_string()]);
    assert_eq!(c.joined_env(), b"A=1".to_vec());
}

#[test]
fn data_size_lowered() {
    let top = DataSize::largest();
    assert_eq!(top.get(), 0xFFFF);
    assert!(top.lowered(1023).is_none());
    assert!(top.lowered(0).is_none());
    assert_eq!(top.lowered(1024).unwrap().get(), 1024);
    assert_eq!(top.lowered(0xFFFF).unwrap().get(), 0xFFFF);
    let low = top.lowered(2000).unwrap();
    assert_eq!(low.lowered(4000).unwrap().get(), 2000);
    assert_eq!(low.lowered(1500).unwrap().get(), 1500);
}

#[test]
fn handshake_happy_path() {
    let mut c = Control::new();
    c.shell("/bin/bash".to_string()).env(vec!["PATH=/usr/bin:/bin".to_string()]);

    let step = c.handle_client(Phase::Start, &[], 0, 0).unwrap();
    assert_eq!(step, Step { send: vec![0, 1, 0, 0], next: Phase::Version });

    let step = c.handle_client(step.next, &[0, 1, 0, 0], 0, 0).unwrap();
    assert_eq!(step, Step { send: vec![0xFF, 0xFF], next: Phase::DataSize });

    let step = c.handle_client(step.next, &[0x04, 0x00], 0, 0).unwrap();
    assert_eq!(step, Step { send: vec![0, 3, 0, 0, 1, 1], next: Phase::Acknowledge });
    assert_eq!(c.message_data_size(), 1024);

    let ack = init(&[0]);
    let step = c.handle_client(step.next, &ack, 80, 24).unwrap();
    assert_eq!(step.next, Phase::Done);
    let mut expected = init(b"/bin/bash");
    expected.extend(init(b"PATH=/usr/bin:/bin"));
    expected.extend(init(&[0, 80, 0, 24]));
    assert_eq!(step.send, expected);

    assert_eq!(c.handle_client(Phase::Done, &[], 0, 0), Err(HandshakeError::Finished));
}

#[test]
fn terminal_size_is_zero_without_a_terminal() {
    let mut c = Control::new();
    let step = c.handle_client(Phase::Acknowledge, &init(&[]), 0, 0).unwrap();
    let tail = &step.send[step.send.len() - 9..];
    assert_eq!(tail, &[0, 3, 0, 0, 4, 0, 0, 0, 0]);
}

#[test]
fn small_data_size_is_rejected() {
    let mut c = Control::new();
    assert_eq!(c.handle_client(Phase::DataSize, &[0x02, 0x00], 0, 0), Err(HandshakeError::Rejected));
    assert_eq!(c.message_data_size(), 0xFFFF);
    assert_eq!(c.negotiate_protocol(Phase::DataSize, &[0x03, 0xFF]), Err(HandshakeError::Rejected));
    assert_eq!(c.message_data_size(), 0xFFFF);
}

#[test]
fn negotiation_steps() {
    let mut c = Control::new();
    assert_eq!(
        c.negotiate_protocol(Phase::Start, &[]),
        Ok(Step { send: vec![0, 1, 0, 0], next: Phase::Version })
    );
    assert_eq!(
        c.negotiate_protocol(Phase::Version, &[0, 9, 0, 9]),
        Ok(Step { send: vec![0xFF, 0xFF], next: Phase::DataSize })
    );
    assert_eq!(
        c.negotiate_protocol(Phase::DataSize, &[0x20, 0x00]),
        Ok(Step { send: vec![], next: Phase::Agreed })
    );
    assert_eq!(c.message_data_size(), 0x2000);
    assert_eq!(
        c.negotiate_protocol(Phase::Version, &[0, 1, 0, 0]),
        Ok(Step { send: vec![0x20, 0x00], next: Phase::DataSize })
    );
    assert_eq!(
        c.negotiate_protocol(Phase::DataSize, &[0xFF, 0xFF]),
        Ok(Step { send: vec![], next: Phase::Agreed })
    );
    assert_eq!(c.message_data_size(), 0x2000);
}

#[test]
fn negotiation_short_reads() {
    let mut c = Control::new();
    assert_eq!(c.negotiate_protocol(Phase::Version, &[0, 1, 0]), Err(HandshakeError::ShortRead));
    assert_eq!(c.negotiate_protocol(Phase::DataSize, &[4]), Err(HandshakeError::ShortRead));
    assert_eq!(c.handle_client(Phase::Version, &[], 0, 0), Err(HandshakeError::ShortRead));
}

#[test]
fn negotiation_is_over_once_agreed() {
    let mut c = Control::new();
    assert_eq!(c.negotiate_protocol(Phase::Agreed, &[]), Err(HandshakeError::Finished));
    assert_eq!(c.negotiate_protocol(Phase::Acknowledge, &[]), Err(HandshakeError::Finished));
    assert_eq!(c.negotiate_protocol(Phase::Done, &[]), Err(HandshakeError::Finished));
}

#[test]
fn agreed_phase_sends_interactive_flag() {
    let mut c = Control::new();
    assert_eq!(
        c.handle_client(Phase::Agreed, &[], 0, 0),
        Ok(Step { send: vec![0, 3, 0, 0, 1, 1], next: Phase::Acknowledge })
    );
}

#[test]
fn acknowledgement_must_be_a_whole_frame() {
    let mut c = Control::new();
    assert_eq!(
        c.handle_client(Phase::Acknowledge, &[0, 3, 0, 0, 2, 1], 0, 0),
        Err(HandshakeError::Frame(FrameError::Truncated))
    );
    assert_eq!(
        c.handle_client(Phase::Acknowledge, &[0, 1, 0], 0, 0),
        Err(HandshakeError::Frame(FrameError::HeaderLength))
    );
}

#[test]
fn shell_longer_than_limit_is_refused() {
    let mut c = Control::new();
    c.negotiate_protocol(Phase::DataSize, &[0x04, 0x00]).unwrap();
    c.shell("x".repeat(1025));
    assert_eq!(
        c.handle_client(Phase::Acknowledge, &init(&[]), 0, 0),
        Err(HandshakeError::Frame(FrameError::Oversize))
    );
    c.shell("x".repeat(1024));
    assert!(c.handle_client(Phase::Acknowledge, &init(&[]), 0, 0).is_ok());
    c.env(vec!["a".repeat(512), "b".repeat(512)]);
    assert_eq!(
        c.handle_client(Phase::Acknowledge, &init(&[]), 0, 0),
        Err(HandshakeError::Frame(FrameError::Oversize))
    );
}

#[test]
fn phases_await_what_the_peer_owes() {
    assert_eq!(Phase::Start.awaits(), Awaited::Nothing);
    assert_eq!(Phase::Version.awaits(), Awaited::Bytes(4));
    assert_eq!(Phase::DataSize.awaits(), Awaited::Bytes(2));
    assert_eq!(Phase::Agreed.awaits(), Awaited::Nothing);
    assert_eq!(Phase::Acknowledge.awaits(), Awaited::Frame);
    assert_eq!(Phase::Done.awaits(), Awaited::Nothing);
}
