//! Reading the office sensor board over TCP: the state machine's decisions.
//! The board sends white-space separated numbers; the second, third and
//! fourth are brightness, temperature and humidity.
use vstd::prelude::*;
use crate::config::{find_char, split_on};
use crate::text::{decode_lossy, lossy_text, nats, numbers_of, parse_numbers};
use crate::OfficeAmbient;

verus! {

/// The address to connect to: the resolved address up to its first `:`,
/// then `:` and the board's port.
pub open spec fn endpoint_of(resolved: Seq<char>, port: Seq<char>) -> Seq<char> {
    split_on(resolved, ':')[0] + ":"@ + port
}

/// The address to connect to for the resolved address `resolved` (as a
/// socket address prints it) and the board's port `port`.
pub fn endpoint(resolved: &str, port: &str) -> (r: String)
    ensures
        r@ == endpoint_of(resolved@, port@),
{
    let k = find_char(resolved, ':', 0);
    let n = resolved.unicode_len();
    let host = resolved.substring_char(0, k);
    proof {
        let s = resolved@;
        let a = s.subrange(0, k as int);
        crate::config::lemma_split_no_sep(a, ':');
        if k < n {
            let tail = s.subrange(k + 1, n as int);
            assert(s =~= a.push(':') + tail);
            crate::config::lemma_split_concat(a, tail, ':');
        } else {
            assert(s =~= a);
        }
    }
    String::from_str(host).concat(":").concat(port)
}

/// The readings in a message from the board: the numbers of its (lossily
/// decoded) text, or `None` when any word of it is no `u32`.
pub open spec fn readings_of(bytes: Seq<u8>) -> Option<Seq<nat>> {
    numbers_of(lossy_text(bytes), 4294967295)
}

/// Reads the numbers of a message from the board.
pub fn decode_readings(bytes: &[u8]) -> (r: Option<Vec<u32>>)
    ensures
        match readings_of(bytes@) {
            Some(v) => r is Some && nats(r->0@) == v,
            None => r is None,
        },
{
    let text = decode_lossy(bytes);
    parse_numbers(text.as_str(), 4294967295)
}

/// Where the connection to the board stands.
#[derive(PartialEq, Eq, Structural, Clone, Copy, Debug)]
pub enum State {
    Connecting,
    Connected,
}

/// How a read from the board ended.
pub enum ReadOutcome {
    /// The board closed the connection.
    Closed,
    /// The read failed.
    Failed,
    /// Nothing arrived within two seconds.
    TimedOut,
    /// A message arrived; its readings as `decode_readings` gives them.
    Received(Option<Vec<u32>>),
}

/// What the caller does next.
#[derive(PartialEq, Eq, Debug)]
pub enum Action {
    /// Go on with the next step at once.
    Nothing,
    /// Sleep this many milliseconds, then go on.
    Wait(u64),
    /// Open a TCP connection to this address and report whether it succeeded.
    Connect(String),
    /// Store these readings in the shared state.
    Store(OfficeAmbient),
}

/// The sensor reader: its state and whether a connection is open.
pub struct Fsm {
    pub state: State,
    pub stream_open: bool,
}

impl Fsm {
    /// The controller is connected only while a connection is open.
    pub open spec fn wf(&self) -> bool {
        self.state == State::Connected ==> self.stream_open
    }

    /// Starts out connecting, without connection.
    pub fn new() -> (f: Fsm)
        ensures
            f.wf(),
            f.state == State::Connecting,
            !f.stream_open,
    {
        Fsm { state: State::Connecting, stream_open: false }
    }

    /// Starts a connection (in the connecting state): drops any open one; given the board's resolved
    /// address, connect to it on `port`, else wait a second.
    pub fn connecting(&mut self, resolved: Option<&str>, port: &str) -> (a: Action)
        ensures
            old(self).wf() ==> final(self).wf(),
            !final(self).stream_open,
            final(self).state == State::Connecting,
            match resolved {
                Some(addr) => a matches Action::Connect(to) && to@ == endpoint_of(addr@, port@),
                None => a == Action::Wait(1000),
            },
    {
        self.stream_open = false;
        self.state = State::Connecting;
        match resolved {
            Some(addr) => Action::Connect(endpoint(addr, port)),
            None => Action::Wait(1000),
        }
    }

    /// After a connection attempt: connected when it succeeded, else wait
    /// two seconds.
    pub fn connect_result(&mut self, ok: bool) -> (a: Action)
        ensures
            old(self).wf() ==> final(self).wf(),
            ok ==> final(self).stream_open && final(self).state == State::Connected && a
                == Action::Nothing,
            !ok ==> final(self).stream_open == old(self).stream_open && final(self).state
                == old(self).state && a == Action::Wait(2000),
    {
        if ok {
            self.stream_open = true;
            self.state = State::Connected;
            Action::Nothing
        } else {
            Action::Wait(2000)
        }
    }

    /// One read while connected: without connection, or when the read ended
    /// without a message, go back to connecting; a message that is no list
    /// of numbers is skipped; otherwise its second, third and fourth numbers
    /// are stored as brightness, temperature and humidity.
    pub fn connected(&mut self, outcome: ReadOutcome) -> (a: Action)
        requires
            outcome matches ReadOutcome::Received(Some(v)) ==> v@.len() >= 4,
        ensures
            old(self).wf() ==> final(self).wf(),
            final(self).stream_open == old(self).stream_open,
            !old(self).stream_open ==> final(self).state == State::Connecting && a == Action::Nothing,
            old(self).stream_open ==> match outcome {
                ReadOutcome::Received(None) => final(self).state == old(self).state && a
                    == Action::Nothing,
                ReadOutcome::Received(Some(v)) => final(self).state == old(self).state && a
                    == Action::Store(
                    OfficeAmbient { brightness: v@[1], temperature: v@[2], humidity: v@[3] },
                ),
                _ => final(self).state == State::Connecting && a == Action::Nothing,
            },
    {
        if !self.stream_open {
            self.state = State::Connecting;
            return Action::Nothing;
        }
        match outcome {
            ReadOutcome::Received(Some(v)) => Action::Store(
                OfficeAmbient { brightness: v[1], temperature: v[2], humidity: v[3] },
            ),
            ReadOutcome::Received(None) => Action::Nothing,
            _ => {
                self.state = State::Connecting;
                Action::Nothing
            },
        }
    }
}

} // verus!
