//! Brightness control of the monitors of the desktop "snowdog" over SSH and
//! DDC/CI: the state machine's decisions.
use vstd::prelude::*;
use crate::commands::{calculate_ddc_mon_brightness, ddc_mon_brightness, joined};
use crate::text::{decimal, push_decimal};

verus! {

/// Shell line that lists the monitors and their I2C buses.
pub const DETECT_MONITORS_COMMAND: &'static str = "ddcutil detect";

/// Pattern of the I2C bus numbers in the output of `DETECT_MONITORS_COMMAND`.
pub const I2C_BUS_PATTERN: &'static str = "/dev/i2c-(\\d+)";

/// What the regex crate gives for the pattern `pattern` (one that compiles)
/// on `text`: group 1 of each match found by `Regex::captures_iter`, in order.
pub uninterp spec fn regex_group1_captures(pattern: Seq<char>, text: Seq<char>) -> Seq<Seq<char>>;

/// Compiles `pattern` with `regex::Regex::new` and collects group 1 of
/// every match in `text` with `Regex::captures_iter`. Trusted: the result is
/// a function of the pattern and the text alone; the matching rules are the
/// regex crate's and are not stated here. Only the bus pattern is accepted:
/// it compiles, and its group 1 takes part in every match, so neither the
/// compilation nor `cap[1]` can fail.
#[verifier::external_body]
fn regex_captures(pattern: &str, text: &str) -> (r: Vec<String>)
    requires
        pattern@ == I2C_BUS_PATTERN@,
    ensures
        r@.map_values(|s: String| s@) == regex_group1_captures(pattern@, text@),
{
    let re = regex::Regex::new(pattern).unwrap();
    re.captures_iter(text).map(|cap| cap[1].to_string()).collect()
}

/// The I2C bus numbers of the monitors, read from the output of
/// `DETECT_MONITORS_COMMAND` with `I2C_BUS_PATTERN`, or that command's error.
pub fn get_i2c_monitor_numbers(detect_output: Result<String, String>) -> (r: Result<Vec<String>, String>)
    ensures
        match detect_output {
            Ok(out) => r is Ok && r->Ok_0@.map_values(|s: String| s@) == regex_group1_captures(
                I2C_BUS_PATTERN@,
                out@,
            ),
            Err(e) => r is Err && r->Err_0@ == e@,
        },
{
    match detect_output {
        Ok(out) => Ok(regex_captures(I2C_BUS_PATTERN, out.as_str())),
        Err(e) => Err(e),
    }
}

/// The shell line that sets the monitor on bus `bus` to `level`.
pub open spec fn bus_command_of(bus: Seq<char>, level: nat) -> Seq<char> {
    "ddcutil --bus "@ + bus + " setvcp 10 "@ + decimal(level) + " & "@
}

/// The shell lines for all buses, one after the other.
pub open spec fn monitors_command_of(buses: Seq<Seq<char>>, level: nat) -> Seq<char> {
    joined(buses.map_values(|b: Seq<char>| bus_command_of(b, level)))
}

/// Builds the shell line of `monitors_command_of`.
pub fn monitors_command(buses: &Vec<String>, level: u32) -> (r: String)
    ensures
        r@ == monitors_command_of(buses@.map_values(|s: String| s@), level as nat),
{
    let ghost bs = buses@.map_values(|s: String| s@);
    let ghost parts = bs.map_values(|b: Seq<char>| bus_command_of(b, level as nat));
    let mut s = String::new();
    let mut i: usize = 0;
    while i < buses.len()
        invariant
            i <= buses@.len(),
            bs == buses@.map_values(|s: String| s@),
            parts == bs.map_values(|b: Seq<char>| bus_command_of(b, level as nat)),
            s@ == joined(parts.take(i as int)),
        decreases buses@.len() - i,
    {
        let ghost before = s@;
        s.append("ddcutil --bus ");
        s.append(buses[i].as_str());
        s.append(" setvcp 10 ");
        push_decimal(&mut s, level);
        s.append(" & ");
        assert(parts.take(i + 1).drop_last() =~= parts.take(i as int));
        assert(parts[i as int] == bus_command_of(buses@[i as int]@, level as nat));
        assert(s@ =~= before + parts[i as int]);
        i += 1;
    }
    assert(parts.take(buses@.len() as int) =~= parts);
    s
}

/// Where the connection to the desktop stands.
#[derive(PartialEq, Eq, Structural, Clone, Copy, Debug)]
pub enum State {
    Connecting,
    Connected,
}

/// What the caller does next.
#[derive(PartialEq, Eq, Debug)]
pub enum Action {
    /// Go on with the next step at once.
    Nothing,
    /// Sleep this many milliseconds, then go on.
    Wait(u64),
    /// Run `DETECT_MONITORS_COMMAND` over the session and hand its outcome to `detected`.
    Detect,
    /// Run this shell line over the session and log its outcome.
    Run(String),
}

/// The desktop's monitor controller: its state, whether an SSH session is
/// open, the monitor value set last and the I2C buses of the monitors.
pub struct Fsm {
    pub state: State,
    pub session_open: bool,
    pub last_brightness: u32,
    pub monitor_i2c_ids: Vec<String>,
}

impl Fsm {
    /// The controller is connected only while an SSH session is open.
    pub open spec fn wf(&self) -> bool {
        self.state == State::Connected ==> self.session_open
    }

    /// Starts out connecting, without session, value 0 set last, no buses known.
    pub fn new() -> (f: Fsm)
        ensures
            f.wf(),
            f.state == State::Connecting,
            !f.session_open,
            f.last_brightness == 0,
            f.monitor_i2c_ids@.len() == 0,
    {
        Fsm {
            state: State::Connecting,
            session_open: false,
            last_brightness: 0,
            monitor_i2c_ids: Vec::new(),
        }
    }

    /// After an SSH connection attempt: connected (and the monitors are to
    /// be detected) when it succeeded, else wait two seconds.
    pub fn connecting(&mut self, connected: bool) -> (a: Action)
        ensures
            old(self).wf() ==> final(self).wf(),
            connected ==> final(self).state == State::Connected && final(self).session_open && a
                == Action::Detect,
            !connected ==> final(self).state == old(self).state && final(self).session_open
                == old(self).session_open && a == Action::Wait(2000),
            final(self).last_brightness == old(self).last_brightness,
            final(self).monitor_i2c_ids@ == old(self).monitor_i2c_ids@,
    {
        if connected {
            self.session_open = true;
            self.state = State::Connected;
            Action::Detect
        } else {
            Action::Wait(2000)
        }
    }

    /// Takes the buses from the monitor detection; a failed detection keeps
    /// the buses known before.
    pub fn detected(&mut self, detect_output: Result<String, String>)
        ensures
            old(self).wf() ==> final(self).wf(),
            final(self).state == old(self).state,
            final(self).session_open == old(self).session_open,
            final(self).last_brightness == old(self).last_brightness,
            match detect_output {
                Ok(out) => final(self).monitor_i2c_ids@.map_values(|s: String| s@)
                    == regex_group1_captures(I2C_BUS_PATTERN@, out@),
                Err(_) => final(self).monitor_i2c_ids@ == old(self).monitor_i2c_ids@,
            },
    {
        match get_i2c_monitor_numbers(detect_output) {
            Ok(ids) => {
                self.monitor_i2c_ids = ids;
            },
            Err(_) => {},
        }
    }

    /// One round while connected, for the ambient brightness and the
    /// automatic-control switch read from the shared state: with the switch
    /// off, change nothing and wait half a second; else the same monitor
    /// value as set last means wait half a second; a new one is remembered,
    /// then without session go back to connecting, else set every monitor
    /// to it.
    pub fn connected(&mut self, env_brightness: u32, auto_control: bool) -> (a: Action)
        ensures
            old(self).wf() ==> final(self).wf(),
            final(self).monitor_i2c_ids@ == old(self).monitor_i2c_ids@,
            final(self).session_open == old(self).session_open,
            !auto_control ==> a == Action::Wait(500) && final(self).state == old(self).state
                && final(self).last_brightness == old(self).last_brightness,
            auto_control && old(self).last_brightness == ddc_mon_brightness(env_brightness as int) ==> a
                == Action::Wait(500) && final(self).state == old(self).state
                && final(self).last_brightness == old(self).last_brightness,
            auto_control && old(self).last_brightness != ddc_mon_brightness(env_brightness as int) ==> {
                &&& final(self).last_brightness == ddc_mon_brightness(env_brightness as int)
                &&& !old(self).session_open ==> final(self).state == State::Connecting && a
                    == Action::Nothing
                &&& old(self).session_open ==> final(self).state == old(self).state && (
                a matches Action::Run(cmd) && cmd@ == monitors_command_of(
                    old(self).monitor_i2c_ids@.map_values(|s: String| s@),
                    ddc_mon_brightness(env_brightness as int) as nat,
                ))
            },
    {
        if !auto_control {
            return Action::Wait(500);
        }
        let level = calculate_ddc_mon_brightness(env_brightness);
        if self.last_brightness == level {
            return Action::Wait(500);
        }
        self.last_brightness = level;
        let cmd = monitors_command(&self.monitor_i2c_ids, level);
        if !self.session_open {
            self.state = State::Connecting;
            return Action::Nothing;
        }
        Action::Run(cmd)
    }
}

} // verus!
