//! The decisions of a framed connection: what an inbound line is, what the reader does with
//! it, how an outbound message becomes a line, and when the keep-alive monitor gives up.
use vstd::prelude::*;

verus! {

/// The bare control line that asks the other side whether it is still there.
pub const KEEP_ALIVE: &'static str = "action:keepAlive";

/// The bare control line that answers a keep-alive ping.
pub const KEEP_ALIVE_ACK: &'static str = "action:keepAliveAck";

/// The unframed line written first on every new connection.
pub const CONNECTED: &'static str = "Connected";

/// The end of a line.
pub const NEWLINE: char = '\n';

/// `c` has the Unicode `White_Space` property, the whitespace of `char::is_whitespace` and
/// `str::trim`: tab to carriage return, space, next line, no-break space, ogham space mark, the
/// spaces from en quad to hair space, the line and paragraph separators, narrow no-break space,
/// medium mathematical space and ideographic space.
pub open spec fn is_ws(c: char) -> bool {
    let u = c as u32;
    ||| 0x9 <= u <= 0xD
    ||| u == 0x20
    ||| u == 0x85
    ||| u == 0xA0
    ||| u == 0x1680
    ||| 0x2000 <= u <= 0x200A
    ||| u == 0x2028
    ||| u == 0x2029
    ||| u == 0x202F
    ||| u == 0x205F
    ||| u == 0x3000
}

/// Whether `c` is whitespace.
pub fn char_is_whitespace(c: char) -> (r: bool)
    ensures
        r == is_ws(c),
{
    let u = c as u32;
    (0x9 <= u && u <= 0xD) || u == 0x20 || u == 0x85 || u == 0xA0 || u == 0x1680 || (0x2000 <= u
        && u <= 0x200A) || u == 0x2028 || u == 0x2029 || u == 0x202F || u == 0x205F || u
        == 0x3000
}

/// The end of the run of whitespace that starts at `i`.
pub open spec fn ws_end(s: Seq<char>, i: int) -> int
    decreases s.len() - i,
{
    if 0 <= i < s.len() && is_ws(s[i]) {
        ws_end(s, i + 1)
    } else {
        i
    }
}

/// The start of the run of whitespace that ends at `j`.
pub open spec fn ws_start(s: Seq<char>, j: int) -> int
    decreases j,
{
    if 0 < j <= s.len() && is_ws(s[j - 1]) {
        ws_start(s, j - 1)
    } else {
        j
    }
}

/// `s` without its leading and trailing whitespace.
pub open spec fn trimmed(s: Seq<char>) -> Seq<char> {
    let start = ws_end(s, 0);
    if start >= s.len() {
        Seq::empty()
    } else {
        s.subrange(start, ws_start(s, s.len() as int))
    }
}

/// `s` without its leading and trailing whitespace.
pub fn trim_str(s: &str) -> (r: &str)
    ensures
        r@ == trimmed(s@),
{
    let n = s.unicode_len();
    let mut a: usize = 0;
    while a < n && char_is_whitespace(s.get_char(a))
        invariant
            a <= n,
            n == s@.len(),
            ws_end(s@, 0) == ws_end(s@, a as int),
        decreases n - a,
    {
        a = a + 1;
    }
    if a == n {
        return s.substring_char(n, n);
    }
    let mut b: usize = n;
    while char_is_whitespace(s.get_char(b - 1))
        invariant
            a < b <= n,
            n == s@.len(),
            !is_ws(s@[a as int]),
            ws_end(s@, 0) == a,
            ws_start(s@, n as int) == ws_start(s@, b as int),
        decreases b,
    {
        b = b - 1;
    }
    s.substring_char(a, b)
}

/// Relies on `String::push`: the character is added at the end.
#[verifier::external_body]
pub(crate) fn push_char(s: &mut String, c: char)
    ensures
        final(s)@ == old(s)@.push(c),
{
    s.push(c)
}

/// What one inbound line is.
pub enum Inbound {
    /// The peer asks for an acknowledgement.
    KeepAlive,
    /// The peer acknowledges a ping of ours.
    KeepAliveAck,
    /// A line with nothing in it.
    Blank,
    /// An application line, handed to the owner of the connection.
    Message(String),
}

/// `line` read as an inbound line, once trimmed.
pub open spec fn inbound_of(line: Seq<char>, r: Inbound) -> bool {
    if line == KEEP_ALIVE@ {
        r is KeepAlive
    } else if line == KEEP_ALIVE_ACK@ {
        r is KeepAliveAck
    } else if line.len() == 0 {
        r is Blank
    } else {
        r matches Inbound::Message(m) && m@ == line
    }
}

/// Tells a trimmed line apart: keep-alive ping, keep-alive acknowledgement, blank line, or an
/// application line.
pub fn classify_line(line: &str) -> (r: Inbound)
    ensures
        inbound_of(line@, r),
{
    let s = String::from_str(line);
    if s == String::from_str(KEEP_ALIVE) {
        Inbound::KeepAlive
    } else if s == String::from_str(KEEP_ALIVE_ACK) {
        Inbound::KeepAliveAck
    } else if line.unicode_len() == 0 {
        Inbound::Blank
    } else {
        Inbound::Message(s)
    }
}

/// Tells apart a line as it was read, surrounding whitespace and line end included.
pub fn route_line(raw: &str) -> (r: Inbound)
    ensures
        inbound_of(trimmed(raw@), r),
{
    classify_line(trim_str(raw))
}

/// `message` as it goes on the wire: with a line end, added where it has none.
pub open spec fn line_of(message: Seq<char>) -> Seq<char> {
    if message.len() > 0 && message.last() == NEWLINE {
        message
    } else {
        message.push(NEWLINE)
    }
}

/// The line that carries `message`: the message itself where it already ends a line, else
/// the message and a line end.
pub fn outbound_line(message: String) -> (r: String)
    ensures
        r@ == line_of(message@),
{
    let chars = crate::frame::chars_of(message.as_str());
    let n = chars.len();
    if n > 0 && chars[n - 1] == NEWLINE {
        message
    } else {
        let mut line = message;
        push_char(&mut line, NEWLINE);
        line
    }
}

/// The first line written on a new connection.
pub fn greeting_line() -> (r: String)
    ensures
        r@ == line_of(CONNECTED@),
{
    outbound_line(String::from_str(CONNECTED))
}

/// What came of one attempt to read a line.
pub enum ReadOutcome {
    /// The peer closed its side.
    Eof,
    /// A line, as it was read.
    Line(String),
    /// Reading failed.
    Failed,
}

/// What the reader does next.
pub enum ReaderAction {
    /// The connection is over: stop, and tear the connection down.
    Stop,
    /// Queue a keep-alive acknowledgement for the writer.
    SendAck,
    /// Tell the keep-alive monitor that the peer answered.
    SignalAck,
    /// Nothing to do for this line.
    Skip,
    /// Hand this application line to the owner of the connection.
    Deliver(String),
}

/// The reader's answer to one read: end of stream and read failures stop it; control lines are
/// answered or signalled; blank lines are skipped; any other line goes to the owner, trimmed.
pub fn reader_step(outcome: ReadOutcome) -> (r: ReaderAction)
    ensures
        match outcome {
            ReadOutcome::Eof => r is Stop,
            ReadOutcome::Failed => r is Stop,
            ReadOutcome::Line(raw) => {
                let t = trimmed(raw@);
                if t == KEEP_ALIVE@ {
                    r is SendAck
                } else if t == KEEP_ALIVE_ACK@ {
                    r is SignalAck
                } else if t.len() == 0 {
                    r is Skip
                } else {
                    r matches ReaderAction::Deliver(m) && m@ == t
                }
            },
        },
{
    match outcome {
        ReadOutcome::Eof => ReaderAction::Stop,
        ReadOutcome::Failed => ReaderAction::Stop,
        ReadOutcome::Line(raw) => match route_line(raw.as_str()) {
            Inbound::KeepAlive => ReaderAction::SendAck,
            Inbound::KeepAliveAck => ReaderAction::SignalAck,
            Inbound::Blank => ReaderAction::Skip,
            Inbound::Message(m) => ReaderAction::Deliver(m),
        },
    }
}

/// How often the keep-alive monitor looks, and how many unanswered looks it bears.
#[derive(Clone, Copy, Debug, PartialEq, Eq)]
pub struct KeepAliveConfig {
    pub period_secs: u64,
    pub max_retries: u32,
}

impl KeepAliveConfig {
    /// A look every fifteen seconds; the fifth unanswered look in a row ends the connection.
    pub fn standard() -> (r: KeepAliveConfig)
        ensures
            r.period_secs == 15,
            r.max_retries == 5,
    {
        KeepAliveConfig { period_secs: 15, max_retries: 5 }
    }
}

/// What the keep-alive monitor asks for after a look.
#[derive(Clone, Copy, Debug, PartialEq, Eq)]
pub enum KeepAliveAction {
    /// Send a ping and wait for the next look.
    Ping,
    /// The peer is gone: tear the connection down.
    TearDown,
}

/// The keep-alive monitor of one connection.
#[derive(Clone, Copy, Debug)]
pub struct KeepAlive {
    pub config: KeepAliveConfig,
    /// Looks in a row that found no acknowledgement.
    pub missed: u32,
    /// An acknowledgement came since the last look.
    pub acked: bool,
    /// The connection is still held alive.
    pub alive: bool,
}

/// The monitor after one look, and what it asks for.
pub open spec fn tick_spec(k: KeepAlive) -> (KeepAlive, KeepAliveAction) {
    if !k.alive {
        (k, KeepAliveAction::TearDown)
    } else if k.acked {
        (KeepAlive { missed: 0, acked: false, ..k }, KeepAliveAction::Ping)
    } else if k.missed as int + 1 >= k.config.max_retries {
        (KeepAlive { alive: false, ..k }, KeepAliveAction::TearDown)
    } else {
        (KeepAlive { missed: (k.missed + 1) as u32, ..k }, KeepAliveAction::Ping)
    }
}

/// The monitor after `n` looks with no acknowledgement in between.
pub open spec fn silent_ticks(k: KeepAlive, n: nat) -> KeepAlive
    decreases n,
{
    if n == 0 {
        k
    } else {
        tick_spec(silent_ticks(k, (n - 1) as nat)).0
    }
}

impl KeepAlive {
    /// A new monitor. It starts as if an acknowledgement had come, so the first look pings.
    pub fn new(config: KeepAliveConfig) -> (r: KeepAlive)
        ensures
            r.config == config,
            r.missed == 0,
            r.acked,
            r.alive,
    {
        KeepAlive { config, missed: 0, acked: true, alive: true }
    }

    /// The peer acknowledged a ping.
    pub fn on_ack(&mut self)
        ensures
            *final(self) == (KeepAlive { acked: true, ..*old(self) }),
    {
        self.acked = true;
    }

    /// One look, on the monitor's period. With an acknowledgement since the last look the
    /// count of misses starts again; without one it grows, and the look that brings it to the
    /// configured number of retries tears the connection down.
    pub fn on_tick(&mut self) -> (r: KeepAliveAction)
        ensures
            (*final(self), r) == tick_spec(*old(self)),
    {
        if !self.alive {
            KeepAliveAction::TearDown
        } else if self.acked {
            self.missed = 0;
            self.acked = false;
            KeepAliveAction::Ping
        } else if self.missed as u64 + 1 >= self.config.max_retries as u64 {
            self.alive = false;
            KeepAliveAction::TearDown
        } else {
            self.missed = self.missed + 1;
            KeepAliveAction::Ping
        }
    }

    /// A ping could not be queued, because the writer is gone.
    pub fn on_writer_closed(&mut self) -> (r: KeepAliveAction)
        ensures
            *final(self) == (KeepAlive { alive: false, ..*old(self) }),
            r == KeepAliveAction::TearDown,
    {
        self.alive = false;
        KeepAliveAction::TearDown
    }
}

/// Keep-alive liveness: when the peer stops answering, the monitor pings on each of the first
/// `max_retries - 1` looks and tears the connection down on look `max_retries`, not before and
/// not after.
pub proof fn lemma_silent_peer_torn_down(k: KeepAlive, n: nat)
    requires
        k.alive,
        !k.acked,
        k.missed == 0,
        k.config.max_retries >= 1,
        1 <= n <= k.config.max_retries,
    ensures
        tick_spec(silent_ticks(k, (n - 1) as nat)).1 == (if n == k.config.max_retries {
            KeepAliveAction::TearDown
        } else {
            KeepAliveAction::Ping
        }),
        n < k.config.max_retries ==> silent_ticks(k, n).alive,
        n == k.config.max_retries ==> !silent_ticks(k, n).alive,
{
    lemma_silent_ticks_count(k, (n - 1) as nat);
}

proof fn lemma_silent_ticks_count(k: KeepAlive, m: nat)
    requires
        k.alive,
        !k.acked,
        k.missed == 0,
        m < k.config.max_retries,
    ensures
        silent_ticks(k, m) == (KeepAlive { missed: m as u32, ..k }),
    decreases m,
{
    if m > 0 {
        lemma_silent_ticks_count(k, (m - 1) as nat);
    }
}

} // verus!
