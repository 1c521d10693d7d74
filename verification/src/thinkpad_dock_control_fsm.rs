//! Brightness control of the docked ThinkPad over SSH: the state machine's
//! decisions.
use vstd::prelude::*;
use crate::commands::{kbd_level, keyboard_backlight_level};
use crate::thinkpad_ctrl_fsm::{brightness_command, brightness_command_of};

verus! {

/// Highest value accepted by the laptop panel backlight.
pub const LAPTOP_MAX_BRIGHTNESS: u32 = 19393;

/// Lowest value the laptop panel backlight is set to.
pub const LAPTOP_MIN_BRIGHTNESS: u32 = 1000;

/// Laptop panel backlight for an ambient brightness: 1000 in the dark (50 or
/// less), otherwise `env * 0.14285715 * 19393 / 100` rounded down and kept
/// within 1000..=19393.
pub open spec fn laptop_brightness(env_brightness: int) -> int {
    if env_brightness <= 50 {
        1000
    } else {
        let scaled = env_brightness * 277042870995 / 10000000000;
        if scaled < 1000 {
            1000
        } else if scaled > 19393 {
            19393
        } else {
            scaled
        }
    }
}

/// External monitor brightness (DDC/CI, 0..=100) for an ambient brightness:
/// 0 in the dark (50 or less), otherwise `env * 0.14285715` rounded down,
/// capped at 100.
pub open spec fn main_brightness(env_brightness: int) -> int {
    if env_brightness <= 50 {
        0
    } else if env_brightness * 14285715 / 100000000 > 100 {
        100
    } else {
        env_brightness * 14285715 / 100000000
    }
}

/// Laptop panel backlight value for the ambient brightness `env_brightness`.
pub fn get_thinkpad_x1_mon_brightness(env_brightness: u32) -> (r: u32)
    ensures
        r == laptop_brightness(env_brightness as int),
        LAPTOP_MIN_BRIGHTNESS <= r <= LAPTOP_MAX_BRIGHTNESS,
{
    if env_brightness <= 50 {
        return 1000;
    }
    let env: u128 = env_brightness as u128;
    assert(env * 277042870995 <= 4294967295 * 277042870995) by (nonlinear_arith)
        requires
            env <= 4294967295,
    ;
    let scaled: u128 = env * 277042870995 / 10000000000;
    if scaled < 1000 {
        1000
    } else if scaled > 19393 {
        19393
    } else {
        scaled as u32
    }
}

/// External monitor brightness for the ambient brightness `env_brightness`.
pub fn get_main_mon_brightness(env_brightness: u32) -> (r: u32)
    ensures
        r == main_brightness(env_brightness as int),
        r <= 100,
{
    if env_brightness <= 50 {
        return 0;
    }
    let env: u64 = env_brightness as u64;
    assert(env * 14285715 <= 4294967295 * 14285715) by (nonlinear_arith)
        requires
            env <= 4294967295,
    ;
    let scaled: u64 = env * 14285715 / 100000000;
    if scaled > 100 {
        100
    } else {
        scaled as u32
    }
}

/// The brightness command for the ambient brightness `env_brightness`, or
/// `Err` when the monitor value it sets is the one set last (`*last_main`);
/// a new monitor value is remembered in `*last_main`.
pub fn get_brightness_cmds(last_main: &mut u32, env_brightness: u32) -> (r: Result<String, ()>)
    ensures
        *old(last_main) == main_brightness(env_brightness as int) ==> r is Err && *final(last_main)
            == *old(last_main),
        *old(last_main) != main_brightness(env_brightness as int) ==> r is Ok && *final(last_main)
            == main_brightness(env_brightness as int) && r->Ok_0@ == brightness_command_of(
            laptop_brightness(env_brightness as int) as nat,
            main_brightness(env_brightness as int) as nat,
            kbd_level(env_brightness as int) as nat,
        ),
{
    let main = get_main_mon_brightness(env_brightness);
    if *last_main == main {
        return Err(());
    }
    *last_main = main;
    let laptop = get_thinkpad_x1_mon_brightness(env_brightness);
    let kbd = keyboard_backlight_level(env_brightness);
    Ok(brightness_command(laptop, main, kbd))
}

/// Where the connection to the laptop stands.
#[derive(PartialEq, Eq, Structural, Clone, Copy, Debug)]
pub enum State {
    Connecting,
    Connected,
    Disconnected,
}

/// What the caller does next.
#[derive(PartialEq, Eq, Debug)]
pub enum Action {
    /// Go on with the next step at once.
    Nothing,
    /// Sleep this many milliseconds, then go on.
    Wait(u64),
    /// Run this shell line over the SSH session and log its outcome.
    Run(String),
}

/// The docked laptop's brightness controller: its state, whether an SSH
/// session is open, and the monitor value it set last.
pub struct Fsm {
    pub state: State,
    pub session_open: bool,
    pub last_main_brightness: u32,
}

impl Fsm {
    /// The controller is connected only while an SSH session is open.
    pub open spec fn wf(&self) -> bool {
        self.state == State::Connected ==> self.session_open
    }

    /// Starts out disconnected, without session, with monitor value 0 set last.
    pub fn new() -> (f: Fsm)
        ensures
            f.wf(),
            f.state == State::Disconnected,
            !f.session_open,
            f.last_main_brightness == 0,
    {
        Fsm { state: State::Disconnected, session_open: false, last_main_brightness: 0 }
    }

    /// After an SSH connection attempt: connected when it succeeded, else
    /// wait two seconds and stay.
    pub fn connecting(&mut self, connected: bool) -> (a: Action)
        ensures
            old(self).wf() ==> final(self).wf(),
            connected ==> final(self).state == State::Connected && final(self).session_open
                && a == Action::Nothing,
            !connected ==> final(self).state == old(self).state && final(self).session_open
                == old(self).session_open && a == Action::Wait(2000),
            final(self).last_main_brightness == old(self).last_main_brightness,
    {
        if connected {
            self.session_open = true;
            self.state = State::Connected;
            Action::Nothing
        } else {
            Action::Wait(2000)
        }
    }

    /// One round while connected, for the ambient brightness read from the
    /// shared state: without session go to disconnected; with a new monitor
    /// value run the brightness command; otherwise wait half a second.
    pub fn connected(&mut self, env_brightness: u32) -> (a: Action)
        ensures
            old(self).wf() ==> final(self).wf(),
            !old(self).session_open ==> final(self).state == State::Disconnected && a
                == Action::Nothing && final(self).last_main_brightness
                == old(self).last_main_brightness,
            old(self).session_open ==> final(self).state == old(self).state && final(self).session_open,
            old(self).session_open && old(self).last_main_brightness == main_brightness(
                env_brightness as int,
            ) ==> a == Action::Wait(500) && final(self).last_main_brightness
                == old(self).last_main_brightness,
            old(self).session_open && old(self).last_main_brightness != main_brightness(
                env_brightness as int,
            ) ==> final(self).last_main_brightness == main_brightness(env_brightness as int) && (
            a matches Action::Run(cmd) && cmd@ == brightness_command_of(
                laptop_brightness(env_brightness as int) as nat,
                main_brightness(env_brightness as int) as nat,
                kbd_level(env_brightness as int) as nat,
            )),
    {
        if !self.session_open {
            self.state = State::Disconnected;
            return Action::Nothing;
        }
        match get_brightness_cmds(&mut self.last_main_brightness, env_brightness) {
            Ok(cmd) => Action::Run(cmd),
            Err(()) => Action::Wait(500),
        }
    }

    /// Drops the session and goes back to connecting.
    pub fn disconnected(&mut self)
        ensures
            old(self).wf() ==> final(self).wf(),
            final(self).state == State::Connecting,
            !final(self).session_open,
            final(self).last_main_brightness == old(self).last_main_brightness,
    {
        self.state = State::Connecting;
        self.session_open = false;
    }
}

} // verus!
