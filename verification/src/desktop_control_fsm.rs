//! Brightness control of the desktop over SSH: the state machine's
//! decisions. The panel and monitor values are computed by the caller (in
//! single-precision floating point) and handed in.
use vstd::prelude::*;
use crate::commands::{kbd_level, keyboard_backlight_level};
use crate::text::{decimal, push_decimal};

verus! {

/// The shell line the desktop controller sends: the panel backlight
/// `laptop`, a DDC call on bus 14 and the monitor value `main` written
/// directly before the keyboard backlight line, as the controller joins them.
pub open spec fn desktop_command_of(laptop: nat, main: nat, kbd: nat) -> Seq<char> {
    "echo "@ + decimal(laptop) + " > /sys/class/backlight/intel_backlight/brightness & ddcutil --bus 14 setvcp 10 & "@
        + decimal(main) + "echo "@ + decimal(kbd) + " > /sys/class/leds/tpacpi::kbd_backlight/brightness"@
}

/// Builds the shell line of `desktop_command_of`.
pub fn desktop_command(laptop: u32, main: u32, kbd: u32) -> (r: String)
    ensures
        r@ == desktop_command_of(laptop as nat, main as nat, kbd as nat),
{
    let mut s = String::from_str("echo ");
    push_decimal(&mut s, laptop);
    s.append(" > /sys/class/backlight/intel_backlight/brightness & ddcutil --bus 14 setvcp 10 & ");
    push_decimal(&mut s, main);
    s.append("echo ");
    push_decimal(&mut s, kbd);
    s.append(" > /sys/class/leds/tpacpi::kbd_backlight/brightness");
    s
}

/// The brightness command for the monitor value `main`, the panel value
/// `laptop` and the ambient brightness `env_brightness`, sent only when
/// `main` differs from the value sent last (`*last_main`), which then
/// becomes `main`; otherwise `Err`.
pub fn brightness_cmds(last_main: &mut u32, env_brightness: u32, main: u32, laptop: u32) -> (r: Result<
    String,
    (),
>)
    ensures
        *old(last_main) == main ==> r is Err && *final(last_main) == *old(last_main),
        *old(last_main) != main ==> *final(last_main) == main && r is Ok && r->Ok_0@
            == desktop_command_of(laptop as nat, main as nat, kbd_level(env_brightness as int) as nat),
{
    if *last_main == main {
        return Err(());
    }
    *last_main = main;
    let kbd = keyboard_backlight_level(env_brightness);
    Ok(desktop_command(laptop, main, kbd))
}

/// Where the connection to the desktop stands.
#[derive(PartialEq, Eq, Structural, Clone, Copy, Debug)]
pub enum State {
    Connecting,
    Connected,
    Disconnected,
}

/// What the caller does next.
#[derive(PartialEq, Eq, Debug)]
pub enum Action {
    /// Go on with the next step at once.
    Nothing,
    /// Sleep this many milliseconds, then go on.
    Wait(u64),
    /// Run this shell line over the SSH session and report whether it could run.
    Run(String),
}

/// The desktop's brightness controller: its state, whether an SSH session is
/// open, and the monitor value it sent last.
pub struct Fsm {
    pub state: State,
    pub session_open: bool,
    pub last_main_brightness: u32,
}

impl Fsm {
    /// The controller is connected only while an SSH session is open.
    pub open spec fn wf(&self) -> bool {
        self.state == State::Connected ==> self.session_open
    }

    /// Starts out disconnected, without session, with monitor value 0 sent last.
    pub fn new() -> (f: Fsm)
        ensures
            f.wf(),
            f.state == State::Disconnected,
            !f.session_open,
            f.last_main_brightness == 0,
    {
        Fsm { state: State::Disconnected, session_open: false, last_main_brightness: 0 }
    }

    /// After an SSH connection attempt: connected when it succeeded, else
    /// wait two seconds and stay.
    pub fn connecting(&mut self, connected: bool) -> (a: Action)
        ensures
            old(self).wf() ==> final(self).wf(),
            connected ==> final(self).state == State::Connected && final(self).session_open
                && a == Action::Nothing,
            !connected ==> final(self).state == old(self).state && final(self).session_open
                == old(self).session_open && a == Action::Wait(2000),
            final(self).last_main_brightness == old(self).last_main_brightness,
    {
        if connected {
            self.session_open = true;
            self.state = State::Connected;
            Action::Nothing
        } else {
            Action::Wait(2000)
        }
    }

    /// One round while connected: without session go to disconnected; when
    /// the monitor value `main` differs from the one sent last run the
    /// brightness command (and remember `main`); otherwise wait two seconds.
    pub fn connected(&mut self, env_brightness: u32, main: u32, laptop: u32) -> (a: Action)
        ensures
            old(self).wf() ==> final(self).wf(),
            !old(self).session_open ==> final(self).state == State::Disconnected && a
                == Action::Nothing && final(self).last_main_brightness
                == old(self).last_main_brightness,
            old(self).session_open ==> final(self).state == old(self).state && final(self).session_open,
            old(self).session_open && old(self).last_main_brightness == main ==> a == Action::Wait(
                2000,
            ) && final(self).last_main_brightness == old(self).last_main_brightness,
            old(self).session_open && old(self).last_main_brightness != main ==> final(self).last_main_brightness
                == main && (a matches Action::Run(cmd) && cmd@ == desktop_command_of(
                laptop as nat,
                main as nat,
                kbd_level(env_brightness as int) as nat,
            )),
    {
        if !self.session_open {
            self.state = State::Disconnected;
            return Action::Nothing;
        }
        match brightness_cmds(&mut self.last_main_brightness, env_brightness, main, laptop) {
            Ok(cmd) => Action::Run(cmd),
            Err(()) => Action::Wait(2000),
        }
    }

    /// After the brightness command: wait two seconds when it could not run.
    pub fn command_finished(&self, ran: bool) -> (a: Action)
        ensures
            ran ==> a == Action::Nothing,
            !ran ==> a == Action::Wait(2000),
    {
        if ran {
            Action::Nothing
        } else {
            Action::Wait(2000)
        }
    }

    /// Drops the session and goes back to connecting.
    pub fn disconnected(&mut self)
        ensures
            old(self).wf() ==> final(self).wf(),
            final(self).state == State::Connecting,
            !final(self).session_open,
            final(self).last_main_brightness == old(self).last_main_brightness,
    {
        self.state = State::Connecting;
        self.session_open = false;
    }
}

} // verus!
