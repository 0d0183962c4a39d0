use telemetry_bridge::util::string_from_buf_with_skip;
use telemetry_bridge::wifi::Command;
use telemetry_bridge::wifi::ExchangeResult;
use telemetry_bridge::wifi::SetupAction;
use telemetry_bridge::wifi::SetupState;
use telemetry_bridge::wifi::SkipRule;
use telemetry_bridge::wifi::StartUdpAction;
use telemetry_bridge::wifi::StartUdpState;
use telemetry_bridge::wifi::WifiError;
use telemetry_bridge::wifi::Wifi;
use telemetry_bridge::wifi::command_spec;
use telemetry_bridge::wifi::end_marker;
use telemetry_bridge::wifi::frame_payload;
use telemetry_bridge::wifi::split_on_crlf;
use telemetry_bridge::wifi::start_marker;

/// A response window: the echoed command, then the body, zero-padded to
/// the window's fixed size.
fn window(echo: &str, body: &[u8], total: usize) -> Vec<u8> {
    let mut w: Vec<u8> = Vec::new();
    w.extend_from_slice(echo.as_bytes());
    w.extend_from_slice(body);
    assert!(w.len() <= total);
    while w.len() < total {
        w.push(0);
    }
    w
}

#[test]
fn buffer_decode_yields_ok_after_echo_and_terminator() {
    // echoed command immediately followed by the terminator and "OK"
    let buf: Vec<u8> = b"AT\r\n\r\nOK".to_vec();
    let decoded = string_from_buf_with_skip(&buf, 6, 2).unwrap();
    assert_eq!(decoded, b"OK".to_vec());
}

#[test]
fn buffer_decode_empty_when_skip_reaches_the_end() {
    let buf: Vec<u8> = b"AT\r\n".to_vec();
    assert_eq!(string_from_buf_with_skip(&buf, 4, 2), Ok(Vec::new()));
    assert_eq!(string_from_buf_with_skip(&buf, 9, 2), Ok(Vec::new()));
}

#[test]
fn buffer_decode_fails_when_the_remainder_overflows_the_buffer() {
    let buf: Vec<u8> = b"AT\r\n\r\nOK!".to_vec();
    assert!(string_from_buf_with_skip(&buf, 6, 2).is_err());
}

#[test]
fn liveness_test_matches_only_the_acknowledgment() {
    let wifi = Wifi::new();
    let ok = window("AT\r\n", b"\r\nOK", 8);
    assert_eq!(wifi.test(&ok), Ok(true));
    let bad = window("AT\r\n", b"\r\nER", 8);
    assert_eq!(wifi.test(&bad), Ok(false));
}

#[test]
fn station_mode_strict_match() {
    let wifi = Wifi::new();
    let ok = window("AT+CWMODE=1\r\n", b"\r\nOK", 17);
    assert_eq!(wifi.set_station_mode(&ok), Ok(()));
    let bad = window("AT+CWMODE=1\r\n", b"\r\nNO", 17);
    assert_eq!(wifi.set_station_mode(&bad), Err(WifiError::CommandFailed));
}

#[test]
fn check_connected_inspects_the_join_state_report() {
    let wifi = Wifi::new();
    let joined = window("AT+CWSTATE?\r\n", b"+CWSTATE:2,\"Jose\"", 30);
    assert_eq!(wifi.check_connected(&joined), Ok(true));
    let other = window("AT+CWSTATE?\r\n", b"+CWSTATE:0,\"\"", 30);
    assert_eq!(wifi.check_connected(&other), Ok(false));
}

const JOIN_ECHO: &str = "AT+CWJAP=\"Jose\",\"reetha11\"\r\n";

#[test]
fn connect_succeeds_only_with_all_three_markers() {
    let wifi = Wifi::new();
    let all = window(JOIN_ECHO, b"WIFI CONNECTED\r\nWIFI GOT IP\r\nOK\r\n", 78);
    assert_eq!(wifi.connect(&all), Ok(true));

    // any order, interleaved with other lines
    let shuffled = window(JOIN_ECHO, b"OK\r\nnoise\r\nWIFI GOT IP\r\nWIFI CONNECTED\r\n", 78);
    assert_eq!(wifi.connect(&shuffled), Ok(true));

    // each marker alone missing fails, even with the other two present
    let no_ok = window(JOIN_ECHO, b"WIFI CONNECTED\r\nWIFI GOT IP\r\n", 78);
    assert_eq!(wifi.connect(&no_ok), Ok(false));
    let no_ip = window(JOIN_ECHO, b"WIFI CONNECTED\r\nOK\r\n", 78);
    assert_eq!(wifi.connect(&no_ip), Ok(false));
    let no_conn = window(JOIN_ECHO, b"WIFI GOT IP\r\nOK\r\n", 78);
    assert_eq!(wifi.connect(&no_conn), Ok(false));

    // markers must stand as whole lines, not fragments of one
    let fragments = window(JOIN_ECHO, b"WIFI CONNECTED WIFI GOT IP OK\r\n", 78);
    assert_eq!(wifi.connect(&fragments), Ok(false));
}

#[test]
fn split_on_crlf_segments() {
    let buf: Vec<u8> = b"a\r\nbc\r\n\r\nd".to_vec();
    let parts = split_on_crlf(&buf);
    assert_eq!(parts.len(), 4);
    assert_eq!(parts[0], b"a".to_vec());
    assert_eq!(parts[1], b"bc".to_vec());
    assert_eq!(parts[2], Vec::<u8>::new());
    assert_eq!(parts[3], b"d".to_vec());
}

#[test]
fn disconnect_udp_tolerates_absence() {
    let wifi = Wifi::new();
    // terminator after the echo, then the closed confirmation
    let closed = window("AT+CIPCLOSE\r\n", b"\r\nCLO", 18);
    // 18 - 15 = 3 bytes decoded: "CLO" — not a token, so pad the body
    assert_eq!(wifi.disconnect_udp(&closed), Err(WifiError::CommandFailed));
    let err_tok = window("AT+CIPCLOSE\r\n", b"\r\nERR", 18);
    assert_eq!(wifi.disconnect_udp(&err_tok), Ok(()));
    let close_tok = window("AT+CIPCLOSE\r\n", b"CLOSE", 18);
    assert_eq!(wifi.disconnect_udp(&close_tok), Ok(()));
    let noise = window("AT+CIPCLOSE\r\n", b"XYZZY", 18);
    assert_eq!(wifi.disconnect_udp(&noise), Err(WifiError::CommandFailed));
}

#[test]
fn enter_passthrough_requires_the_prompt() {
    let wifi = Wifi::new();
    let ok = window("AT+CIPSEND\r\n", b"12345678>", 21);
    assert_eq!(wifi.enter_passthrough(&ok), Ok(()));
    let bad = window("AT+CIPSEND\r\n", b"12345678X", 21);
    assert_eq!(
        wifi.enter_passthrough(&bad),
        Err(WifiError::CouldNotWriteAsPassthrough)
    );
}

#[test]
fn open_udp_requires_the_connect_token() {
    let wifi = Wifi::new();
    let echo = "AT+CIPSTART=\"UDP\",\"192.168.0.10\",4242\r\n";
    let ok = window(echo, b"CONNECT", 46);
    assert_eq!(wifi.open_udp(&ok), Ok(()));
    let bad = window(echo, b"FAILURE", 46);
    assert_eq!(wifi.open_udp(&bad), Err(WifiError::CouldNotConnectUDP));
}

#[test]
fn command_spec_shapes() {
    let t = command_spec(Command::Test);
    assert_eq!(t.text, "AT\r\n");
    assert_eq!(t.window, 8);
    assert_eq!(t.skip, SkipRule::Fixed(6));
    assert_eq!(t.cap, 2);
    let c = command_spec(Command::Connect);
    assert_eq!(c.text, JOIN_ECHO);
    assert_eq!(c.window, 78);
    let d = command_spec(Command::DisconnectUdp);
    assert_eq!(d.skip, SkipRule::AfterEcho(13));
    let o = command_spec(Command::OpenUdp);
    assert_eq!(o.text, "AT+CIPSTART=\"UDP\",\"192.168.0.10\",4242\r\n");
    assert_eq!(o.window, 46);
    let e = command_spec(Command::EnterPassthrough);
    assert_eq!(e.window, 21);
    assert_eq!(e.cap, 1);
}

#[test]
fn payload_framing_prepends_only_the_start_marker() {
    assert_eq!(start_marker(), vec![0xAC, 0xFF, 0xAC]);
    assert_eq!(end_marker(), vec![0xFF, 0xAC, 0xFF]);
    let framed = frame_payload(&vec![1, 2, 3]);
    assert_eq!(framed, vec![0xAC, 0xFF, 0xAC, 1, 2, 3]);
}

#[test]
fn setup_machine_reaches_completion_when_all_commands_acknowledge() {
    let mut wifi = Wifi::new();
    let s = wifi.setup_init();
    assert_eq!(s, SetupState::ClearPassthrough);
    assert_eq!(wifi.setup_action(&s), SetupAction::SendBreak);

    // corrective steps discard their outcomes
    let s = wifi.setup_step(s, ExchangeResult::TxFailed);
    assert_eq!(s, SetupState::ForceNormalMode);
    assert_eq!(wifi.setup_action(&s), SetupAction::Exchange(Command::SetNormalMode));
    let s = wifi.setup_step(s, ExchangeResult::RxFailed);
    assert_eq!(s, SetupState::Liveness);
    assert_eq!(wifi.setup_action(&s), SetupAction::Exchange(Command::Test));

    assert!(!wifi.is_chip_ready());
    let s = wifi.setup_step(s, ExchangeResult::Response(window("AT\r\n", b"\r\nOK", 8)));
    assert_eq!(s, SetupState::StationMode);
    assert!(wifi.is_chip_ready());

    let s = wifi.setup_step(
        s,
        ExchangeResult::Response(window("AT+CWMODE=1\r\n", b"\r\nOK", 17)),
    );
    assert_eq!(s, SetupState::QueryJoinState);

    let s = wifi.setup_step(
        s,
        ExchangeResult::Response(window("AT+CWSTATE?\r\n", b"+CWSTATE:2,\"Jose\"", 30)),
    );
    assert_eq!(s, SetupState::Complete(Ok(true)));
}

#[test]
fn setup_machine_fails_bring_up_when_the_chip_does_not_answer() {
    let mut wifi = Wifi::new();
    let s = wifi.setup_init();
    let s = wifi.setup_step(s, ExchangeResult::TxFailed);
    let s = wifi.setup_step(s, ExchangeResult::TxFailed);
    assert_eq!(s, SetupState::Liveness);
    let s = wifi.setup_step(s, ExchangeResult::Response(window("AT\r\n", b"\r\nNO", 8)));
    assert_eq!(s, SetupState::Complete(Err(WifiError::CouldNotConnectToChip)));
    assert!(!wifi.is_chip_ready());
}

#[test]
fn setup_machine_propagates_channel_failures_from_the_liveness_test_on() {
    let mut wifi = Wifi::new();
    let s = wifi.setup_init();
    let s = wifi.setup_step(s, ExchangeResult::TxFailed);
    let s = wifi.setup_step(s, ExchangeResult::TxFailed);
    let s = wifi.setup_step(s, ExchangeResult::TxFailed);
    assert_eq!(s, SetupState::Complete(Err(WifiError::Tx)));
}

#[test]
fn start_udp_machine_walks_to_streaming() {
    let wifi = Wifi::new();
    let s = wifi.start_udp_init();
    assert_eq!(s, StartUdpState::CloseSession);
    assert_eq!(
        wifi.start_udp_action(&s),
        StartUdpAction::Exchange(Command::DisconnectUdp)
    );
    let s = wifi.start_udp_step(
        s,
        ExchangeResult::Response(window("AT+CIPCLOSE\r\n", b"\r\nERR", 18)),
    );
    assert_eq!(s, StartUdpState::PassthroughMode);
    let s = wifi.start_udp_step(
        s,
        ExchangeResult::Response(window("AT+CIPMODE=1\r\n", b"\r\nOK", 18)),
    );
    assert_eq!(s, StartUdpState::OpenSession);
    let s = wifi.start_udp_step(
        s,
        ExchangeResult::Response(window(
            "AT+CIPSTART=\"UDP\",\"192.168.0.10\",4242\r\n",
            b"CONNECT",
            46,
        )),
    );
    assert_eq!(s, StartUdpState::DrainAck);
    assert_eq!(wifi.start_udp_action(&s), StartUdpAction::ReadAck(6));
    let s = wifi.start_udp_step(s, ExchangeResult::Response(vec![0; 6]));
    assert_eq!(s, StartUdpState::EnterPassthrough);
    let s = wifi.start_udp_step(
        s,
        ExchangeResult::Response(window("AT+CIPSEND\r\n", b"12345678>", 21)),
    );
    assert_eq!(s, StartUdpState::Complete(Ok(())));
}

#[test]
fn start_udp_machine_fails_on_an_unconfirmed_open() {
    let wifi = Wifi::new();
    let s = wifi.start_udp_init();
    let s = wifi.start_udp_step(
        s,
        ExchangeResult::Response(window("AT+CIPCLOSE\r\n", b"CLOSE", 18)),
    );
    let s = wifi.start_udp_step(
        s,
        ExchangeResult::Response(window("AT+CIPMODE=1\r\n", b"\r\nOK", 18)),
    );
    let s = wifi.start_udp_step(
        s,
        ExchangeResult::Response(window(
            "AT+CIPSTART=\"UDP\",\"192.168.0.10\",4242\r\n",
            b"ERROR..",
            46,
        )),
    );
    assert_eq!(s, StartUdpState::Complete(Err(WifiError::CouldNotConnectUDP)));
}
