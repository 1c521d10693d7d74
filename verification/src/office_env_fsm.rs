//! Reading the office environment sensor over TCP: the state machine's
//! decisions. The sensor sends white-space separated numbers; the second,
//! third and fourth are brightness, temperature and humidity.
use vstd::prelude::*;
use crate::text::{decode_lossy, lossy_text, nats, numbers_of, parse_numbers};

verus! {

/// One reading of the office environment sensor.
#[derive(Clone, Copy, Debug, PartialEq, Eq, Structural)]
pub struct OfficeEnv {
    pub brightness: u16,
    pub temperature: u16,
    pub humidity: u16,
}

/// The readings in a message from the sensor: the numbers of its (lossily
/// decoded) text, or `None` when any word of it is no `u16`.
pub open spec fn readings_of(bytes: Seq<u8>) -> Option<Seq<nat>> {
    numbers_of(lossy_text(bytes), 65535)
}

/// Reads the numbers of a message from the sensor.
pub fn decode_readings(bytes: &[u8]) -> (r: Option<Vec<u16>>)
    ensures
        match readings_of(bytes@) {
            Some(v) => r is Some && r->0@.map_values(|x: u16| x as nat) == v,
            None => r is None,
        },
{
    let text = decode_lossy(bytes);
    match parse_numbers(text.as_str(), 65535) {
        None => None,
        Some(values) => {
            let ghost v = nats(values@);
            proof {
                crate::text::lemma_numbers_bounded(crate::text::words(text@), 65535);
            }
            let mut out: Vec<u16> = Vec::new();
            let mut i: usize = 0;
            while i < values.len()
                invariant
                    i <= values@.len(),
                    v == nats(values@),
                    forall|j: int| 0 <= j < values@.len() ==> v[j] <= 65535,
                    out@.map_values(|x: u16| x as nat) == v.take(i as int),
                decreases values@.len() - i,
            {
                assert(v[i as int] == values@[i as int] as nat);
                assert(v[i as int] <= 65535);
                let x = values[i] as u16;
                assert(x as nat == v[i as int]);
                let ghost before = out@;
                out.push(x);
                assert(out@ == before.push(x));
                assert(v.take(i + 1) =~= v.take(i as int).push(v[i as int]));
                assert(out@.map_values(|x: u16| x as nat) =~= v.take(i + 1));
                i += 1;
            }
            assert(v.take(values@.len() as int) =~= v);
            Some(out)
        },
    }
}

/// Where the connection to the sensor stands.
#[derive(PartialEq, Eq, Structural, Clone, Copy, Debug)]
pub enum State {
    Connecting,
    Connected,
    Disconnected,
}

/// How a read from the sensor ended.
pub enum ReadOutcome {
    /// The sensor closed the connection.
    Closed,
    /// The read failed.
    Failed,
    /// Nothing arrived within two seconds.
    TimedOut,
    /// A message arrived; its readings as `decode_readings` gives them.
    Received(Option<Vec<u16>>),
}

/// The sensor reader: its state and whether a connection is open.
pub struct Fsm {
    pub state: State,
    pub stream_open: bool,
}

impl Fsm {
    /// The controller is connected only while a connection is open.
    pub open spec fn wf(&self) -> bool {
        self.state == State::Connected ==> self.stream_open
    }

    /// Starts out disconnected.
    pub fn new() -> (f: Fsm)
        ensures
            f.wf(),
            f.state == State::Disconnected,
            !f.stream_open,
    {
        Fsm { state: State::Disconnected, stream_open: false }
    }

    /// After a connection attempt: connected when it succeeded, else disconnected.
    pub fn connect(&mut self, ok: bool)
        ensures
            old(self).wf() ==> final(self).wf(),
            ok ==> final(self).stream_open && final(self).state == State::Connected,
            !ok ==> final(self).stream_open == old(self).stream_open && final(self).state
                == State::Disconnected,
    {
        if ok {
            self.stream_open = true;
            self.state = State::Connected;
        } else {
            self.state = State::Disconnected;
        }
    }

    /// One read while connected: without connection, or when the read ended
    /// without a message, disconnect; a message that is no list of numbers is
    /// skipped; otherwise the reading made of its second, third and fourth
    /// numbers is returned.
    pub fn connected(&mut self, outcome: ReadOutcome) -> (r: Option<OfficeEnv>)
        requires
            outcome matches ReadOutcome::Received(Some(v)) ==> v@.len() >= 4,
        ensures
            old(self).wf() ==> final(self).wf(),
            final(self).stream_open == old(self).stream_open,
            !old(self).stream_open ==> final(self).state == State::Disconnected && r is None,
            old(self).stream_open ==> match outcome {
                ReadOutcome::Received(None) => final(self).state == old(self).state && r is None,
                ReadOutcome::Received(Some(v)) => final(self).state == old(self).state && r == Some(
                    OfficeEnv { brightness: v@[1], temperature: v@[2], humidity: v@[3] },
                ),
                _ => final(self).state == State::Disconnected && r is None,
            },
    {
        if !self.stream_open {
            self.state = State::Disconnected;
            return None;
        }
        match outcome {
            ReadOutcome::Received(Some(v)) => Some(
                OfficeEnv { brightness: v[1], temperature: v[2], humidity: v[3] },
            ),
            ReadOutcome::Received(None) => None,
            _ => {
                self.state = State::Disconnected;
                None
            },
        }
    }

    /// Drops the connection and goes back to connecting.
    pub fn disconnected(&mut self)
        ensures
            old(self).wf() ==> final(self).wf(),
            final(self).state == State::Connecting,
            !final(self).stream_open,
    {
        self.state = State::Connecting;
        self.stream_open = false;
    }
}

} // verus!
