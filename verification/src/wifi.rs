//! Modem command/response protocol engine.
//!
//! The radio modem is driven over an unframed byte channel: each
//! command is written with its line terminator, then a fixed-size
//! response window is read — no length-delimited framing exists.  The
//! functions here hold the protocol's decisions: what each command's
//! line, window size and skip offset are, how a window decodes, which
//! tokens count as success, and how the bring-up state machines move.
//! The channel writes, reads and settle delays themselves happen
//! outside this crate; they hand the raw windows in.

use vstd::prelude::*;

verus! {

broadcast use vstd::string::group_string_axioms;

use crate::util::StringFromBufError;
use crate::util::ascii_bytes;
use crate::util::ascii_bytes_of;
use crate::util::bytes_eq;
use crate::util::string_from_buf_with_skip;

/// A modem-layer fault.
#[derive(Debug, Eq, PartialEq, Copy, Clone, Structural)]
pub enum WifiError {
    /// The channel read failed.
    Rx,
    /// The channel write failed.
    Tx,
    /// A response window held more text than its bounded buffer.
    BufWrite,
    /// The mandatory liveness test got no acknowledgment.
    CouldNotConnectToChip,
    /// The send-trigger prompt did not arrive.
    CouldNotWriteAsPassthrough,
    /// The session-open command was not confirmed.
    CouldNotConnectUDP,
    /// A mode or teardown command was not acknowledged.
    CommandFailed,
}

impl core::convert::From<StringFromBufError> for WifiError {
    fn from(e: StringFromBufError) -> (r: WifiError) {
        WifiError::BufWrite
    }
}

impl vstd::std_specs::convert::FromSpecImpl<StringFromBufError> for WifiError {
    open spec fn obeys_from_spec() -> bool {
        true
    }

    open spec fn from_spec(e: StringFromBufError) -> WifiError {
        WifiError::BufWrite
    }
}

/// The plain acknowledgment token.
pub open spec fn tok_ok() -> Seq<u8> {
    ascii_bytes("OK"@)
}

/// Join marker: the modem associated with the network.
pub open spec fn tok_wifi_connected() -> Seq<u8> {
    ascii_bytes("WIFI CONNECTED"@)
}

/// Join marker: the modem obtained an address.
pub open spec fn tok_wifi_got_ip() -> Seq<u8> {
    ascii_bytes("WIFI GOT IP"@)
}

/// The join-state report meaning "connected to the expected network".
pub open spec fn tok_join_state() -> Seq<u8> {
    ascii_bytes("+CWSTATE:2,\"Jose\""@)
}

/// Teardown response when no session was open.
pub open spec fn tok_err() -> Seq<u8> {
    ascii_bytes("ERR"@)
}

/// Teardown response when a session was closed.
pub open spec fn tok_close() -> Seq<u8> {
    ascii_bytes("CLOSE"@)
}

/// Session-open confirmation.
pub open spec fn tok_connect() -> Seq<u8> {
    ascii_bytes("CONNECT"@)
}

/// The single-character passthrough prompt.
pub open spec fn tok_prompt() -> Seq<u8> {
    ascii_bytes(">"@)
}

/// One command the engine can issue.
#[derive(Debug, Eq, PartialEq, Copy, Clone, Structural)]
pub enum Command {
    Test,
    SetStationMode,
    CheckConnected,
    Connect,
    SetPassthroughMode,
    SetNormalMode,
    DisconnectUdp,
    OpenUdp,
    EnterPassthrough,
}

/// How a command's response window is stripped before matching.
#[derive(Debug, Eq, PartialEq, Copy, Clone, Structural)]
pub enum SkipRule {
    /// Skip a fixed count: the echoed command plus a fixed extra.
    Fixed(usize),
    /// Skip the echoed command (the payload is its length), and two
    /// bytes more when the two bytes after the echo are the line
    /// terminator.
    AfterEcho(usize),
}

/// The static shape of one command: its line (terminator included), the
/// fixed size of the response window to read, the skip rule, and the
/// bounded capacity of the decoded text.
pub struct CommandSpec {
    pub text: &'static str,
    pub window: usize,
    pub skip: SkipRule,
    pub cap: usize,
}

/// The fixed response window size of each command.
pub open spec fn window_of(c: Command) -> int {
    match c {
        Command::Test => 8,
        Command::SetStationMode => 17,
        Command::CheckConnected => 30,
        Command::Connect => 78,
        Command::SetPassthroughMode => 18,
        Command::SetNormalMode => 18,
        Command::DisconnectUdp => 18,
        Command::OpenUdp => 46,
        Command::EnterPassthrough => 21,
    }
}

/// The static shape of each command.  Window sizes are per-command
/// upper bounds chosen once; skip counts are the echoed command's
/// length plus that command's extra.
pub fn command_spec(c: Command) -> (r: CommandSpec)
    ensures
        r.window == window_of(c),
        match c {
            Command::Test => r.text@ == "AT\r\n"@ && r.skip == SkipRule::Fixed(6usize) && r.cap
                == 2,
            Command::SetStationMode => r.text@ == "AT+CWMODE=1\r\n"@ && r.skip == SkipRule::Fixed(
                15usize,
            ) && r.cap == 2,
            Command::CheckConnected => r.text@ == "AT+CWSTATE?\r\n"@ && r.skip == SkipRule::Fixed(
                13usize,
            ) && r.cap == 17,
            Command::Connect => r.text@ == "AT+CWJAP=\"Jose\",\"reetha11\"\r\n"@ && r.skip
                == SkipRule::Fixed(28usize) && r.cap == 50,
            Command::SetPassthroughMode => r.text@ == "AT+CIPMODE=1\r\n"@ && r.skip
                == SkipRule::Fixed(16usize) && r.cap == 2,
            Command::SetNormalMode => r.text@ == "AT+CIPMODE=0\r\n"@ && r.skip == SkipRule::Fixed(
                16usize,
            ) && r.cap == 2,
            Command::DisconnectUdp => r.text@ == "AT+CIPCLOSE\r\n"@ && r.skip
                == SkipRule::AfterEcho(13usize) && r.cap == 5,
            Command::OpenUdp => r.text@ == "AT+CIPSTART=\"UDP\",\"192.168.0.10\",4242\r\n"@
                && r.skip == SkipRule::AfterEcho(39usize) && r.cap == 7,
            Command::EnterPassthrough => r.text@ == "AT+CIPSEND\r\n"@ && r.skip == SkipRule::Fixed(
                20usize,
            ) && r.cap == 1,
        },
{
    match c {
        Command::Test => CommandSpec {
            text: "AT\r\n",
            window: 8,
            skip: SkipRule::Fixed(6),
            cap: 2,
        },
        Command::SetStationMode => CommandSpec {
            text: "AT+CWMODE=1\r\n",
            window: 17,
            skip: SkipRule::Fixed(15),
            cap: 2,
        },
        Command::CheckConnected => CommandSpec {
            text: "AT+CWSTATE?\r\n",
            window: 30,
            skip: SkipRule::Fixed(13),
            cap: 17,
        },
        Command::Connect => CommandSpec {
            text: "AT+CWJAP=\"Jose\",\"reetha11\"\r\n",
            window: 78,
            skip: SkipRule::Fixed(28),
            cap: 50,
        },
        Command::SetPassthroughMode => CommandSpec {
            text: "AT+CIPMODE=1\r\n",
            window: 18,
            skip: SkipRule::Fixed(16),
            cap: 2,
        },
        Command::SetNormalMode => CommandSpec {
            text: "AT+CIPMODE=0\r\n",
            window: 18,
            skip: SkipRule::Fixed(16),
            cap: 2,
        },
        Command::DisconnectUdp => CommandSpec {
            text: "AT+CIPCLOSE\r\n",
            window: 18,
            skip: SkipRule::AfterEcho(13),
            cap: 5,
        },
        Command::OpenUdp => CommandSpec {
            text: "AT+CIPSTART=\"UDP\",\"192.168.0.10\",4242\r\n",
            window: 46,
            skip: SkipRule::AfterEcho(39),
            cap: 7,
        },
        Command::EnterPassthrough => CommandSpec {
            text: "AT+CIPSEND\r\n",
            window: 21,
            skip: SkipRule::Fixed(20),
            cap: 1,
        },
    }
}

/// Decodes a response window past a fixed skip into a buffer of
/// capacity `cap`.
pub fn decode_response(window: &Vec<u8>, skip: usize, cap: usize) -> (r: Result<Vec<u8>, WifiError>)
    ensures
        skip >= window@.len() ==> (r matches Ok(s) && s@ == Seq::<u8>::empty()),
        skip < window@.len() && window@.len() - skip <= cap ==> (r matches Ok(s) && s@
            == window@.skip(skip as int)),
        skip < window@.len() && window@.len() - skip > cap ==> r == Result::<
            Vec<u8>,
            WifiError,
        >::Err(WifiError::BufWrite),
{
    match string_from_buf_with_skip(window, skip, cap) {
        Ok(s) => Ok(s),
        Err(e) => Err(WifiError::from(e)),
    }
}

/// The skip offset of a window whose rule is "after the echo": the echo
/// length, plus two when the line terminator immediately follows the
/// echo.
pub open spec fn crlf_echo_skip(w: Seq<u8>, echo_len: int) -> int
    recommends
        echo_len + 2 <= w.len(),
{
    if w[echo_len] == 13 && w[echo_len + 1] == 10 { echo_len + 2 } else { echo_len }
}

/// Decodes a response window by the "after the echo" rule.
pub fn decode_after_echo(window: &Vec<u8>, echo_len: usize, cap: usize) -> (r: Result<
    Vec<u8>,
    WifiError,
>)
    requires
        echo_len + 2 <= window@.len(),
    ensures
        crlf_echo_skip(window@, echo_len as int) >= window@.len() ==> (r matches Ok(s) && s@
            == Seq::<u8>::empty()),
        crlf_echo_skip(window@, echo_len as int) < window@.len() && window@.len() - crlf_echo_skip(
            window@,
            echo_len as int,
        ) <= cap ==> (r matches Ok(s) && s@ == window@.skip(crlf_echo_skip(window@, echo_len as int))),
        crlf_echo_skip(window@, echo_len as int) < window@.len() && window@.len() - crlf_echo_skip(
            window@,
            echo_len as int,
        ) > cap ==> r == Result::<Vec<u8>, WifiError>::Err(WifiError::BufWrite),
{
    let n: usize = window.len();
    assert(echo_len + 2 <= n);
    let skip: usize = if window[echo_len] == 13 && window[echo_len + 1] == 10 {
        echo_len + 2
    } else {
        echo_len
    };
    decode_response(window, skip, cap)
}

/// True at `i` when the line terminator starts there.
pub open spec fn crlf_at(s: Seq<u8>, i: int) -> bool {
    0 <= i && i + 2 <= s.len() && s[i] == 13 && s[i + 1] == 10
}

/// Index of the first line terminator, or -1 when none occurs.
pub open spec fn find_crlf(s: Seq<u8>) -> int
    decreases s.len(),
{
    if s.len() < 2 {
        -1
    } else if s[0] == 13 && s[1] == 10 {
        0
    } else {
        let r = find_crlf(s.skip(1));
        if r < 0 {
            -1
        } else {
            r + 1
        }
    }
}

/// When no position holds the line terminator, none is found.
proof fn lemma_find_crlf_none(s: Seq<u8>)
    requires
        forall|j: int| !crlf_at(s, j),
    ensures
        find_crlf(s) == -1,
    decreases s.len(),
{
    if s.len() >= 2 {
        assert(!crlf_at(s, 0));
        assert forall|j: int| !crlf_at(s.skip(1), j) by {
            if crlf_at(s.skip(1), j) {
                assert(s.skip(1)[j] == s[j + 1]);
                assert(s.skip(1)[j + 1] == s[j + 2]);
                assert(crlf_at(s, j + 1));
            }
        }
        lemma_find_crlf_none(s.skip(1));
    }
}

/// When `k` is the first position holding the line terminator, it is
/// the one found.
proof fn lemma_find_crlf_first(s: Seq<u8>, k: int)
    requires
        crlf_at(s, k),
        forall|j: int| 0 <= j < k ==> !crlf_at(s, j),
    ensures
        find_crlf(s) == k,
    decreases s.len(),
{
    if k == 0 {
        assert(s[0] == 13 && s[1] == 10);
    } else {
        assert(!crlf_at(s, 0));
        assert(s.len() >= 2);
        assert(!(s[0] == 13 && s[1] == 10));
        assert(crlf_at(s.skip(1), k - 1)) by {
            assert(s.skip(1)[k - 1] == s[k]);
            assert(s.skip(1)[k] == s[k + 1]);
        }
        assert forall|j: int| 0 <= j < k - 1 implies !crlf_at(s.skip(1), j) by {
            if crlf_at(s.skip(1), j) {
                assert(s.skip(1)[j] == s[j + 1]);
                assert(s.skip(1)[j + 1] == s[j + 2]);
                assert(crlf_at(s, j + 1));
            }
        }
        lemma_find_crlf_first(s.skip(1), k - 1);
    }
}

/// The segments of a response split on each line terminator, left to
/// right, as the matching loop walks them.
pub open spec fn split_crlf(s: Seq<u8>) -> Seq<Seq<u8>>
    decreases s.len(),
{
    let i = find_crlf(s);
    if i < 0 || i + 2 > s.len() {
        seq![s]
    } else {
        seq![s.take(i)] + split_crlf(s.skip(i + 2))
    }
}

/// Finds the first line terminator at or after `from`.
fn find_crlf_from(s: &Vec<u8>, from: usize) -> (r: Option<usize>)
    requires
        from <= s@.len(),
    ensures
        r matches Some(i) ==> from <= i && i + 2 <= s@.len() && find_crlf(s@.skip(from as int)) == i
            - from,
        r is None ==> find_crlf(s@.skip(from as int)) == -1,
{
    let n: usize = s.len();
    let mut i: usize = from;
    while i < n && i + 1 < n
        invariant
            from <= i <= n,
            n == s@.len(),
            forall|j: int| from <= j < i ==> !crlf_at(s@, j),
        decreases n - i,
    {
        if s[i] == 13 && s[i + 1] == 10 {
            proof {
                let sub = s@.skip(from as int);
                assert(crlf_at(sub, i - from)) by {
                    assert(sub[i - from] == s@[i as int]);
                    assert(sub[i - from + 1] == s@[i + 1]);
                }
                assert forall|j: int| 0 <= j < i - from implies !crlf_at(sub, j) by {
                    if crlf_at(sub, j) {
                        assert(sub[j] == s@[from + j]);
                        assert(sub[j + 1] == s@[from + j + 1]);
                        assert(crlf_at(s@, from + j));
                    }
                }
                lemma_find_crlf_first(sub, i - from);
            }
            return Some(i);
        }
        i = i + 1;
    }
    proof {
        let sub = s@.skip(from as int);
        assert forall|j: int| !crlf_at(sub, j) by {
            if crlf_at(sub, j) {
                assert(sub[j] == s@[from + j]);
                assert(sub[j + 1] == s@[from + j + 1]);
                assert(crlf_at(s@, from + j));
                assert(from + j < i);
            }
        }
        lemma_find_crlf_none(sub);
    }
    None
}

/// Copies `s[a..b]`.
fn subvec(s: &Vec<u8>, a: usize, b: usize) -> (r: Vec<u8>)
    requires
        a <= b <= s@.len(),
    ensures
        r@ == s@.subrange(a as int, b as int),
{
    let mut r: Vec<u8> = Vec::new();
    let mut i: usize = a;
    while i < b
        invariant
            a <= i <= b <= s@.len(),
            r@ == s@.subrange(a as int, i as int),
        decreases b - i,
    {
        r.push(s[i]);
        i = i + 1;
        proof {
            assert(r@ =~= s@.subrange(a as int, i as int));
        }
    }
    r
}

/// The views of a sequence of byte buffers.
pub open spec fn views_of(ps: Seq<Vec<u8>>) -> Seq<Seq<u8>> {
    ps.map_values(|v: Vec<u8>| v@)
}

/// The modem session's state: one "chip verified live" flag.  The
/// position inside a bring-up sequence lives in the state machine
/// values ([`SetupState`], [`StartUdpState`]) that the runtime threads
/// through [`Wifi::setup_step`] and [`Wifi::start_udp_step`].
pub struct Wifi {
    chip_ready: bool,
}

impl Wifi {
    /// Whether the liveness test has confirmed the chip.
    pub closed spec fn spec_chip_ready(&self) -> bool {
        self.chip_ready
    }

    /// A fresh session: the chip is not yet verified live.
    pub fn new() -> (r: Wifi)
        ensures
            !r.spec_chip_ready(),
    {
        Wifi { chip_ready: false }
    }

    /// Reads the "chip verified live" flag.
    pub fn is_chip_ready(&self) -> (b: bool)
        ensures
            b == self.spec_chip_ready(),
    {
        self.chip_ready
    }

    /// Decides the liveness test: the stripped response window must be
    /// exactly the acknowledgment token.
    pub fn test(&self, window: &Vec<u8>) -> (r: Result<bool, WifiError>)
        requires
            window@.len() == window_of(Command::Test),
        ensures
            r matches Ok(b) && b == (window@.skip(6) == tok_ok()),
    {
        let decoded = match decode_response(window, 6, 2) {
            Ok(d) => d,
            Err(_) => {
                return Err(WifiError::BufWrite);
            },
        };
        proof {
            reveal_strlit("OK");
        }
        let tok = ascii_bytes_of("OK");
        Ok(bytes_eq(&decoded, &tok))
    }

    /// Decides station-mode selection: acknowledgment, or a failed
    /// command.
    pub fn set_station_mode(&self, window: &Vec<u8>) -> (r: Result<(), WifiError>)
        requires
            window@.len() == window_of(Command::SetStationMode),
        ensures
            r is Ok <==> window@.skip(15) == tok_ok(),
            r is Err ==> r == Result::<(), WifiError>::Err(WifiError::CommandFailed),
    {
        let decoded = match decode_response(window, 15, 2) {
            Ok(d) => d,
            Err(_) => {
                return Err(WifiError::CommandFailed);
            },
        };
        proof {
            reveal_strlit("OK");
        }
        let tok = ascii_bytes_of("OK");
        if bytes_eq(&decoded, &tok) {
            Ok(())
        } else {
            Err(WifiError::CommandFailed)
        }
    }

    /// Decides the join-state query: true exactly when the modem
    /// reports being joined to the expected network.  Only inspects
    /// state; never attempts a join.
    pub fn check_connected(&self, window: &Vec<u8>) -> (r: Result<bool, WifiError>)
        requires
            window@.len() == window_of(Command::CheckConnected),
        ensures
            r matches Ok(b) && b == (window@.skip(13) == tok_join_state()),
    {
        let decoded = match decode_response(window, 13, 17) {
            Ok(d) => d,
            Err(_) => {
                return Err(WifiError::BufWrite);
            },
        };
        proof {
            reveal_strlit("+CWSTATE:2,\"Jose\"");
        }
        let tok = ascii_bytes_of("+CWSTATE:2,\"Jose\"");
        Ok(bytes_eq(&decoded, &tok))
    }

    /// Decides the network join: success exactly when all three markers
    /// — associated, got an address, acknowledged — appear among the
    /// response's lines, in any order.  Any missing marker is failure;
    /// no retry is attempted here.
    pub fn connect(&self, window: &Vec<u8>) -> (r: Result<bool, WifiError>)
        requires
            window@.len() == window_of(Command::Connect),
        ensures
            r matches Ok(b) && b == (split_crlf(window@.skip(28)).contains(tok_wifi_connected())
                && split_crlf(window@.skip(28)).contains(tok_wifi_got_ip()) && split_crlf(
                window@.skip(28),
            ).contains(tok_ok())),
    {
        let decoded = match decode_response(window, 28, 50) {
            Ok(d) => d,
            Err(_) => {
                return Err(WifiError::BufWrite);
            },
        };
        let parts = split_on_crlf(&decoded);
        proof {
            reveal_strlit("WIFI CONNECTED");
            reveal_strlit("WIFI GOT IP");
            reveal_strlit("OK");
            assert(tok_wifi_connected().len() == 14);
            assert(tok_wifi_got_ip().len() == 11);
            assert(tok_ok().len() == 2);
        }
        let tok_conn = ascii_bytes_of("WIFI CONNECTED");
        let tok_ip = ascii_bytes_of("WIFI GOT IP");
        let tok_okay = ascii_bytes_of("OK");
        let mut got_connected = false;
        let mut got_ip = false;
        let mut got_ok = false;
        let mut idx: usize = 0;
        while idx < parts.len()
            invariant
                idx <= parts@.len(),
                views_of(parts@) == split_crlf(decoded@),
                tok_conn@ == tok_wifi_connected(),
                tok_ip@ == tok_wifi_got_ip(),
                tok_okay@ == tok_ok(),
                tok_conn@.len() == 14 && tok_ip@.len() == 11 && tok_okay@.len() == 2,
                got_connected == (exists|j: int|
                    0 <= j < idx && views_of(parts@)[j] == tok_wifi_connected()),
                got_ip == (exists|j: int| 0 <= j < idx && views_of(parts@)[j] == tok_wifi_got_ip()),
                got_ok == (exists|j: int| 0 <= j < idx && views_of(parts@)[j] == tok_ok()),
            decreases parts@.len() - idx,
        {
            let item: &Vec<u8> = &parts[idx];
            proof {
                assert(views_of(parts@)[idx as int] == item@);
            }
            if bytes_eq(item, &tok_conn) {
                got_connected = true;
            } else if bytes_eq(item, &tok_ip) {
                got_ip = true;
            } else if bytes_eq(item, &tok_okay) {
                got_ok = true;
            }
            idx = idx + 1;
        }
        proof {
            let views = views_of(parts@);
            assert(got_connected == views.contains(tok_wifi_connected()));
            assert(got_ip == views.contains(tok_wifi_got_ip()));
            assert(got_ok == views.contains(tok_ok()));
        }
        Ok(got_connected && got_ip && got_ok)
    }

    /// Decides the switch to passthrough send-mode.
    pub fn set_passthrough_mode(&self, window: &Vec<u8>) -> (r: Result<(), WifiError>)
        requires
            window@.len() == window_of(Command::SetPassthroughMode),
        ensures
            r is Ok <==> window@.skip(16) == tok_ok(),
            r is Err ==> r == Result::<(), WifiError>::Err(WifiError::CommandFailed),
    {
        let decoded = match decode_response(window, 16, 2) {
            Ok(d) => d,
            Err(_) => {
                return Err(WifiError::CommandFailed);
            },
        };
        proof {
            reveal_strlit("OK");
        }
        let tok = ascii_bytes_of("OK");
        if bytes_eq(&decoded, &tok) {
            Ok(())
        } else {
            Err(WifiError::CommandFailed)
        }
    }

    /// Decides the switch back to normal command mode.
    pub fn set_normal_mode(&self, window: &Vec<u8>) -> (r: Result<(), WifiError>)
        requires
            window@.len() == window_of(Command::SetNormalMode),
        ensures
            r is Ok <==> window@.skip(16) == tok_ok(),
            r is Err ==> r == Result::<(), WifiError>::Err(WifiError::CommandFailed),
    {
        let decoded = match decode_response(window, 16, 2) {
            Ok(d) => d,
            Err(_) => {
                return Err(WifiError::CommandFailed);
            },
        };
        proof {
            reveal_strlit("OK");
        }
        let tok = ascii_bytes_of("OK");
        if bytes_eq(&decoded, &tok) {
            Ok(())
        } else {
            Err(WifiError::CommandFailed)
        }
    }

    /// Decides the session teardown.  Tolerant of absence: a response
    /// meaning "nothing was open" counts as success, since the command
    /// is defensive.
    pub fn disconnect_udp(&self, window: &Vec<u8>) -> (r: Result<(), WifiError>)
        requires
            window@.len() == window_of(Command::DisconnectUdp),
        ensures
            r is Ok <==> (window@.skip(crlf_echo_skip(window@, 13)) == tok_err() || window@.skip(
                crlf_echo_skip(window@, 13),
            ) == tok_close()),
            r is Err ==> r == Result::<(), WifiError>::Err(WifiError::CommandFailed),
    {
        let decoded = match decode_after_echo(window, 13, 5) {
            Ok(d) => d,
            Err(_) => {
                return Err(WifiError::CommandFailed);
            },
        };
        proof {
            reveal_strlit("ERR");
            reveal_strlit("CLOSE");
        }
        let tok_e = ascii_bytes_of("ERR");
        let tok_c = ascii_bytes_of("CLOSE");
        if bytes_eq(&decoded, &tok_e) || bytes_eq(&decoded, &tok_c) {
            Ok(())
        } else {
            Err(WifiError::CommandFailed)
        }
    }

    /// Decides the session open: the strict confirmation token, or a
    /// failed connect.
    pub fn open_udp(&self, window: &Vec<u8>) -> (r: Result<(), WifiError>)
        requires
            window@.len() == window_of(Command::OpenUdp),
        ensures
            r is Ok <==> window@.skip(crlf_echo_skip(window@, 39)) == tok_connect(),
            r is Err ==> r == Result::<(), WifiError>::Err(WifiError::CouldNotConnectUDP),
    {
        let decoded = match decode_after_echo(window, 39, 7) {
            Ok(d) => d,
            Err(_) => {
                return Err(WifiError::CouldNotConnectUDP);
            },
        };
        proof {
            reveal_strlit("CONNECT");
        }
        let tok = ascii_bytes_of("CONNECT");
        if bytes_eq(&decoded, &tok) {
            Ok(())
        } else {
            Err(WifiError::CouldNotConnectUDP)
        }
    }

    /// Decides passthrough entry: the single-character prompt, or a
    /// failed entry.
    pub fn enter_passthrough(&self, window: &Vec<u8>) -> (r: Result<(), WifiError>)
        requires
            window@.len() == window_of(Command::EnterPassthrough),
        ensures
            r is Ok <==> window@.skip(20) == tok_prompt(),
            r is Err ==> r == Result::<(), WifiError>::Err(WifiError::CouldNotWriteAsPassthrough),
    {
        let decoded = match decode_response(window, 20, 1) {
            Ok(d) => d,
            Err(_) => {
                return Err(WifiError::CouldNotWriteAsPassthrough);
            },
        };
        proof {
            reveal_strlit(">");
        }
        let tok = ascii_bytes_of(">");
        if bytes_eq(&decoded, &tok) {
            Ok(())
        } else {
            Err(WifiError::CouldNotWriteAsPassthrough)
        }
    }
}

/// What the runtime reports back after performing one step's action: a
/// full response window, or the failing half of the exchange.
pub enum ExchangeResult {
    Response(Vec<u8>),
    TxFailed,
    RxFailed,
}

/// The next thing the runtime must do while bring-up runs: write the
/// raw passthrough break (settle delays on both sides), or write a
/// command line and read its fixed window (settle delay after).
#[derive(Debug, Eq, PartialEq, Copy, Clone)]
pub enum SetupAction {
    SendBreak,
    Exchange(Command),
}

/// Position in the bring-up sequence.  The first two steps are
/// corrective and best-effort — the modem's starting state is unknown —
/// so their outcomes are discarded; from the liveness test onward every
/// failure is fatal.
#[derive(Debug, Eq, PartialEq, Copy, Clone)]
pub enum SetupState {
    ClearPassthrough,
    ForceNormalMode,
    Liveness,
    StationMode,
    QueryJoinState,
    Complete(Result<bool, WifiError>),
}

/// A response window passed to [`Wifi::setup_step`] has the fixed size
/// of the state's command; no step leaves a completed bring-up.
pub open spec fn setup_event_ok(s: SetupState, ev: &ExchangeResult) -> bool {
    match s {
        SetupState::Liveness => (ev matches ExchangeResult::Response(w) ==> w@.len() == window_of(
            Command::Test,
        )),
        SetupState::StationMode => (ev matches ExchangeResult::Response(w) ==> w@.len()
            == window_of(Command::SetStationMode)),
        SetupState::QueryJoinState => (ev matches ExchangeResult::Response(w) ==> w@.len()
            == window_of(Command::CheckConnected)),
        SetupState::Complete(res) => false,
        _ => true,
    }
}

impl Wifi {
    /// Bring-up starts by clearing a possible stale passthrough mode.
    pub fn setup_init(&self) -> (s: SetupState)
        ensures
            s == SetupState::ClearPassthrough,
    {
        SetupState::ClearPassthrough
    }

    /// The action each bring-up state asks of the runtime.
    pub fn setup_action(&self, s: &SetupState) -> (a: SetupAction)
        requires
            !(s matches SetupState::Complete(_)),
        ensures
            match s {
                SetupState::ClearPassthrough => a == SetupAction::SendBreak,
                SetupState::ForceNormalMode => a == SetupAction::Exchange(Command::SetNormalMode),
                SetupState::Liveness => a == SetupAction::Exchange(Command::Test),
                SetupState::StationMode => a == SetupAction::Exchange(Command::SetStationMode),
                SetupState::QueryJoinState => a == SetupAction::Exchange(Command::CheckConnected),
                SetupState::Complete(res) => true,
            },
    {
        match s {
            SetupState::ClearPassthrough => SetupAction::SendBreak,
            SetupState::ForceNormalMode => SetupAction::Exchange(Command::SetNormalMode),
            SetupState::Liveness => SetupAction::Exchange(Command::Test),
            SetupState::StationMode => SetupAction::Exchange(Command::SetStationMode),
            SetupState::QueryJoinState => SetupAction::Exchange(Command::CheckConnected),
            SetupState::Complete(_) => SetupAction::SendBreak,
        }
    }

    /// Advances bring-up by the outcome of the last action.  The two
    /// corrective steps discard their outcome; the liveness test sets
    /// the "chip verified live" flag and fails bring-up when the chip
    /// does not acknowledge; station-mode selection is fatal on
    /// failure; the join-state query completes bring-up with whether
    /// the modem is already joined.
    pub fn setup_step(&mut self, s: SetupState, ev: ExchangeResult) -> (next: SetupState)
        requires
            setup_event_ok(s, &ev),
        ensures
            s == SetupState::ClearPassthrough ==> next == SetupState::ForceNormalMode && final(self).spec_chip_ready() == old(self).spec_chip_ready(),
            s == SetupState::ForceNormalMode ==> next == SetupState::Liveness && final(self).spec_chip_ready() == old(self).spec_chip_ready(),
            s == SetupState::Liveness ==> match ev {
                ExchangeResult::TxFailed => next == SetupState::Complete(Err(WifiError::Tx))
                    && final(self).spec_chip_ready() == old(self).spec_chip_ready(),
                ExchangeResult::RxFailed => next == SetupState::Complete(Err(WifiError::Rx))
                    && final(self).spec_chip_ready() == old(self).spec_chip_ready(),
                ExchangeResult::Response(w) => final(self).spec_chip_ready() == (w@.skip(6)
                    == tok_ok()) && next == (if w@.skip(6) == tok_ok() {
                    SetupState::StationMode
                } else {
                    SetupState::Complete(Err(WifiError::CouldNotConnectToChip))
                }),
            },
            s == SetupState::StationMode ==> final(self).spec_chip_ready() == old(
                self,
            ).spec_chip_ready() && match ev {
                ExchangeResult::TxFailed => next == SetupState::Complete(Err(WifiError::Tx)),
                ExchangeResult::RxFailed => next == SetupState::Complete(Err(WifiError::Rx)),
                ExchangeResult::Response(w) => next == (if w@.skip(15) == tok_ok() {
                    SetupState::QueryJoinState
                } else {
                    SetupState::Complete(Err(WifiError::CommandFailed))
                }),
            },
            s == SetupState::QueryJoinState ==> final(self).spec_chip_ready() == old(
                self,
            ).spec_chip_ready() && match ev {
                ExchangeResult::TxFailed => next == SetupState::Complete(Err(WifiError::Tx)),
                ExchangeResult::RxFailed => next == SetupState::Complete(Err(WifiError::Rx)),
                ExchangeResult::Response(w) => next == SetupState::Complete(
                    Ok(w@.skip(13) == tok_join_state()),
                ),
            },
    {
        match s {
            SetupState::ClearPassthrough => SetupState::ForceNormalMode,
            SetupState::ForceNormalMode => SetupState::Liveness,
            SetupState::Liveness => match ev {
                ExchangeResult::TxFailed => SetupState::Complete(Err(WifiError::Tx)),
                ExchangeResult::RxFailed => SetupState::Complete(Err(WifiError::Rx)),
                ExchangeResult::Response(w) => match self.test(&w) {
                    Ok(ok) => {
                        self.chip_ready = ok;
                        if ok {
                            SetupState::StationMode
                        } else {
                            SetupState::Complete(Err(WifiError::CouldNotConnectToChip))
                        }
                    },
                    Err(e) => SetupState::Complete(Err(e)),
                },
            },
            SetupState::StationMode => match ev {
                ExchangeResult::TxFailed => SetupState::Complete(Err(WifiError::Tx)),
                ExchangeResult::RxFailed => SetupState::Complete(Err(WifiError::Rx)),
                ExchangeResult::Response(w) => match self.set_station_mode(&w) {
                    Ok(u) => SetupState::QueryJoinState,
                    Err(e) => SetupState::Complete(Err(e)),
                },
            },
            SetupState::QueryJoinState => match ev {
                ExchangeResult::TxFailed => SetupState::Complete(Err(WifiError::Tx)),
                ExchangeResult::RxFailed => SetupState::Complete(Err(WifiError::Rx)),
                ExchangeResult::Response(w) => match self.check_connected(&w) {
                    Ok(joined) => SetupState::Complete(Ok(joined)),
                    Err(e) => SetupState::Complete(Err(e)),
                },
            },
            SetupState::Complete(res) => SetupState::Complete(res),
        }
    }
}

/// The next thing the runtime must do while streaming bring-up runs:
/// a command exchange, or draining the short fixed acknowledgment that
/// follows a session open.
#[derive(Debug, Eq, PartialEq, Copy, Clone)]
pub enum StartUdpAction {
    Exchange(Command),
    ReadAck(usize),
}

/// Position in the streaming bring-up sequence: defensive teardown
/// (tolerant), passthrough send-mode (strict), session open (strict),
/// acknowledgment drain, then passthrough entry (strict).
#[derive(Debug, Eq, PartialEq, Copy, Clone)]
pub enum StartUdpState {
    CloseSession,
    PassthroughMode,
    OpenSession,
    DrainAck,
    EnterPassthrough,
    Complete(Result<(), WifiError>),
}

/// A response window passed to [`Wifi::start_udp_step`] has the fixed
/// size of the state's command; the acknowledgment drain performs no
/// write; no step leaves a completed bring-up.
pub open spec fn start_udp_event_ok(s: StartUdpState, ev: &ExchangeResult) -> bool {
    match s {
        StartUdpState::CloseSession => (ev matches ExchangeResult::Response(w) ==> w@.len()
            == window_of(Command::DisconnectUdp)),
        StartUdpState::PassthroughMode => (ev matches ExchangeResult::Response(w) ==> w@.len()
            == window_of(Command::SetPassthroughMode)),
        StartUdpState::OpenSession => (ev matches ExchangeResult::Response(w) ==> w@.len()
            == window_of(Command::OpenUdp)),
        StartUdpState::DrainAck => !(ev matches ExchangeResult::TxFailed),
        StartUdpState::EnterPassthrough => (ev matches ExchangeResult::Response(w) ==> w@.len()
            == window_of(Command::EnterPassthrough)),
        StartUdpState::Complete(res) => false,
    }
}

impl Wifi {
    /// Streaming bring-up starts with the defensive teardown.
    pub fn start_udp_init(&self) -> (s: StartUdpState)
        ensures
            s == StartUdpState::CloseSession,
    {
        StartUdpState::CloseSession
    }

    /// The action each streaming bring-up state asks of the runtime.
    pub fn start_udp_action(&self, s: &StartUdpState) -> (a: StartUdpAction)
        requires
            !(s matches StartUdpState::Complete(_)),
        ensures
            match s {
                StartUdpState::CloseSession => a == StartUdpAction::Exchange(Command::DisconnectUdp),
                StartUdpState::PassthroughMode => a == StartUdpAction::Exchange(
                    Command::SetPassthroughMode,
                ),
                StartUdpState::OpenSession => a == StartUdpAction::Exchange(Command::OpenUdp),
                StartUdpState::DrainAck => a == StartUdpAction::ReadAck(6usize),
                StartUdpState::EnterPassthrough => a == StartUdpAction::Exchange(
                    Command::EnterPassthrough,
                ),
                StartUdpState::Complete(res) => true,
            },
    {
        match s {
            StartUdpState::CloseSession => StartUdpAction::Exchange(Command::DisconnectUdp),
            StartUdpState::PassthroughMode => StartUdpAction::Exchange(Command::SetPassthroughMode),
            StartUdpState::OpenSession => StartUdpAction::Exchange(Command::OpenUdp),
            StartUdpState::DrainAck => StartUdpAction::ReadAck(6),
            StartUdpState::EnterPassthrough => StartUdpAction::Exchange(Command::EnterPassthrough),
            StartUdpState::Complete(_) => StartUdpAction::ReadAck(6),
        }
    }

    /// Advances streaming bring-up by the outcome of the last action.
    /// The teardown accepts either "was open" or "was not"; the mode
    /// switch and session open are strict; the drained acknowledgment's
    /// content is ignored; passthrough entry requires the prompt and
    /// completes the bring-up.
    pub fn start_udp_step(&self, s: StartUdpState, ev: ExchangeResult) -> (next: StartUdpState)
        requires
            start_udp_event_ok(s, &ev),
        ensures
            s == StartUdpState::CloseSession ==> match ev {
                ExchangeResult::TxFailed => next == StartUdpState::Complete(Err(WifiError::Tx)),
                ExchangeResult::RxFailed => next == StartUdpState::Complete(Err(WifiError::Rx)),
                ExchangeResult::Response(w) => next == (if w@.skip(crlf_echo_skip(w@, 13))
                    == tok_err() || w@.skip(crlf_echo_skip(w@, 13)) == tok_close() {
                    StartUdpState::PassthroughMode
                } else {
                    StartUdpState::Complete(Err(WifiError::CommandFailed))
                }),
            },
            s == StartUdpState::PassthroughMode ==> match ev {
                ExchangeResult::TxFailed => next == StartUdpState::Complete(Err(WifiError::Tx)),
                ExchangeResult::RxFailed => next == StartUdpState::Complete(Err(WifiError::Rx)),
                ExchangeResult::Response(w) => next == (if w@.skip(16) == tok_ok() {
                    StartUdpState::OpenSession
                } else {
                    StartUdpState::Complete(Err(WifiError::CommandFailed))
                }),
            },
            s == StartUdpState::OpenSession ==> match ev {
                ExchangeResult::TxFailed => next == StartUdpState::Complete(Err(WifiError::Tx)),
                ExchangeResult::RxFailed => next == StartUdpState::Complete(Err(WifiError::Rx)),
                ExchangeResult::Response(w) => next == (if w@.skip(crlf_echo_skip(w@, 39))
                    == tok_connect() {
                    StartUdpState::DrainAck
                } else {
                    StartUdpState::Complete(Err(WifiError::CouldNotConnectUDP))
                }),
            },
            s == StartUdpState::DrainAck ==> match ev {
                ExchangeResult::TxFailed => true,
                ExchangeResult::RxFailed => next == StartUdpState::Complete(Err(WifiError::Rx)),
                ExchangeResult::Response(w) => next == StartUdpState::EnterPassthrough,
            },
            s == StartUdpState::EnterPassthrough ==> match ev {
                ExchangeResult::TxFailed => next == StartUdpState::Complete(Err(WifiError::Tx)),
                ExchangeResult::RxFailed => next == StartUdpState::Complete(Err(WifiError::Rx)),
                ExchangeResult::Response(w) => next == (if w@.skip(20) == tok_prompt() {
                    StartUdpState::Complete(Ok(()))
                } else {
                    StartUdpState::Complete(Err(WifiError::CouldNotWriteAsPassthrough))
                }),
            },
    {
        match s {
            StartUdpState::CloseSession => match ev {
                ExchangeResult::TxFailed => StartUdpState::Complete(Err(WifiError::Tx)),
                ExchangeResult::RxFailed => StartUdpState::Complete(Err(WifiError::Rx)),
                ExchangeResult::Response(w) => match self.disconnect_udp(&w) {
                    Ok(u) => StartUdpState::PassthroughMode,
                    Err(e) => StartUdpState::Complete(Err(e)),
                },
            },
            StartUdpState::PassthroughMode => match ev {
                ExchangeResult::TxFailed => StartUdpState::Complete(Err(WifiError::Tx)),
                ExchangeResult::RxFailed => StartUdpState::Complete(Err(WifiError::Rx)),
                ExchangeResult::Response(w) => match self.set_passthrough_mode(&w) {
                    Ok(u) => StartUdpState::OpenSession,
                    Err(e) => StartUdpState::Complete(Err(e)),
                },
            },
            StartUdpState::OpenSession => match ev {
                ExchangeResult::TxFailed => StartUdpState::Complete(Err(WifiError::Tx)),
                ExchangeResult::RxFailed => StartUdpState::Complete(Err(WifiError::Rx)),
                ExchangeResult::Response(w) => match self.open_udp(&w) {
                    Ok(u) => StartUdpState::DrainAck,
                    Err(e) => StartUdpState::Complete(Err(e)),
                },
            },
            StartUdpState::DrainAck => match ev {
                ExchangeResult::TxFailed => StartUdpState::Complete(Err(WifiError::Tx)),
                ExchangeResult::RxFailed => StartUdpState::Complete(Err(WifiError::Rx)),
                ExchangeResult::Response(w) => StartUdpState::EnterPassthrough,
            },
            StartUdpState::EnterPassthrough => match ev {
                ExchangeResult::TxFailed => StartUdpState::Complete(Err(WifiError::Tx)),
                ExchangeResult::RxFailed => StartUdpState::Complete(Err(WifiError::Rx)),
                ExchangeResult::Response(w) => match self.enter_passthrough(&w) {
                    Ok(u) => StartUdpState::Complete(Ok(())),
                    Err(e) => StartUdpState::Complete(Err(e)),
                },
            },
            StartUdpState::Complete(res) => StartUdpState::Complete(res),
        }
    }
}

/// The 3-byte marker written before every streamed payload.
pub open spec fn msg_start() -> Seq<u8> {
    seq![0xACu8, 0xFFu8, 0xACu8]
}

/// The symmetric 3-byte end marker.  The protocol defines it, but this
/// engine never transmits it; the asymmetry is kept as-is because the
/// peer's framing expectations are unknown.
pub open spec fn msg_end() -> Seq<u8> {
    seq![0xFFu8, 0xACu8, 0xFFu8]
}

/// The start marker's bytes.
pub fn start_marker() -> (r: Vec<u8>)
    ensures
        r@ == msg_start(),
{
    let mut r: Vec<u8> = Vec::new();
    r.push(0xAC);
    r.push(0xFF);
    r.push(0xAC);
    proof {
        assert(r@ =~= msg_start());
    }
    r
}

/// The end marker's bytes — defined but never sent by this engine.
pub fn end_marker() -> (r: Vec<u8>)
    ensures
        r@ == msg_end(),
{
    let mut r: Vec<u8> = Vec::new();
    r.push(0xFF);
    r.push(0xAC);
    r.push(0xFF);
    proof {
        assert(r@ =~= msg_end());
    }
    r
}

/// What goes on the wire for one streamed payload: the start marker,
/// then the raw payload bytes, nothing after.
pub fn frame_payload(data: &Vec<u8>) -> (r: Vec<u8>)
    ensures
        r@ == msg_start() + data@,
{
    let mut r = start_marker();
    let mut i: usize = 0;
    proof {
        assert(r@ =~= msg_start() + data@.subrange(0, 0));
    }
    while i < data.len()
        invariant
            i <= data@.len(),
            r@ == msg_start() + data@.subrange(0, i as int),
        decreases data@.len() - i,
    {
        r.push(data[i]);
        i = i + 1;
        proof {
            assert(r@ =~= msg_start() + data@.subrange(0, i as int));
        }
    }
    proof {
        assert(r@ =~= msg_start() + data@);
    }
    r
}

/// The byte sequence that forces the modem out of passthrough mode,
/// written raw (no line terminator) with settle delays on both sides.
pub fn break_text() -> (r: &'static str)
    ensures
        r@ == "+++"@,
{
    "+++"
}

/// Splits a decoded response on each line terminator, as the join
/// response is scanned.
pub fn split_on_crlf(s: &Vec<u8>) -> (r: Vec<Vec<u8>>)
    ensures
        views_of(r@) == split_crlf(s@),
{
    let mut parts: Vec<Vec<u8>> = Vec::new();
    let mut start: usize = 0;
    proof {
        assert(s@.skip(0) =~= s@);
    }
    loop
        invariant
            start <= s@.len(),
            split_crlf(s@) =~~= views_of(parts@) + split_crlf(s@.skip(start as int)),
        decreases s@.len() - start,
    {
        let sub_end: usize = s.len();
        let ghost before = parts@;
        match find_crlf_from(s, start) {
            None => {
                let tail = subvec(s, start, sub_end);
                parts.push(tail);
                proof {
                    let sub = s@.skip(start as int);
                    assert(find_crlf(sub) == -1);
                    assert(split_crlf(sub) =~~= seq![sub]);
                    assert(tail@ =~= sub);
                    assert(views_of(parts@) =~~= views_of(before).push(tail@));
                    assert(views_of(parts@) =~~= split_crlf(s@));
                }
                return parts;
            },
            Some(i) => {
                let piece = subvec(s, start, i);
                parts.push(piece);
                proof {
                    let sub = s@.skip(start as int);
                    let k = i - start;
                    assert(find_crlf(sub) == k);
                    assert(split_crlf(sub) =~~= seq![sub.take(k)] + split_crlf(sub.skip(k + 2)));
                    assert(sub.take(k) =~= piece@);
                    assert(sub.skip(k + 2) =~= s@.skip(i + 2));
                    assert(views_of(parts@) =~~= views_of(before).push(piece@));
                    assert(split_crlf(s@) =~~= views_of(parts@) + split_crlf(s@.skip(i + 2)));
                }
                start = i + 2;
            },
        }
    }
}

} // verus!

