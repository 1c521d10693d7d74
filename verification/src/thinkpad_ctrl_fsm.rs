//! Brightness control of the ThinkPad (its panel, keyboard backlight and the
//! monitor on DDC bus 14) over SSH: the state machine's decisions.
use vstd::prelude::*;
use crate::commands::{calculate_ddc_mon_brightness, ddc_mon_brightness, kbd_level, keyboard_backlight_level};
use crate::text::{decimal, push_decimal};
use crate::thinkpad_dock_control_fsm::{laptop_brightness, get_thinkpad_x1_mon_brightness as laptop_value};

verus! {

/// The shell line that sets the panel backlight to `laptop`, the monitor on
/// DDC bus 14 to `main` and the keyboard backlight to `kbd`.
pub open spec fn brightness_command_of(laptop: nat, main: nat, kbd: nat) -> Seq<char> {
    "echo "@ + decimal(laptop) + " > /sys/class/backlight/intel_backlight/brightness & ddcutil --bus 14 setvcp 10 "@
        + decimal(main) + " & echo "@ + decimal(kbd) + " > /sys/class/leds/tpacpi::kbd_backlight/brightness"@
}

/// Builds the shell line of `brightness_command_of`.
pub fn brightness_command(laptop: u32, main: u32, kbd: u32) -> (r: String)
    ensures
        r@ == brightness_command_of(laptop as nat, main as nat, kbd as nat),
{
    let mut s = String::from_str("echo ");
    push_decimal(&mut s, laptop);
    s.append(" > /sys/class/backlight/intel_backlight/brightness & ddcutil --bus 14 setvcp 10 ");
    push_decimal(&mut s, main);
    s.append(" & echo ");
    push_decimal(&mut s, kbd);
    s.append(" > /sys/class/leds/tpacpi::kbd_backlight/brightness");
    s
}

/// Laptop panel backlight value for the ambient brightness `env_brightness`
/// (see `laptop_brightness`).
pub fn get_thinkpad_x1_mon_brightness(env_brightness: u32) -> (r: u32)
    ensures
        r == laptop_brightness(env_brightness as int),
{
    laptop_value(env_brightness)
}

/// The brightness command for the ambient brightness `env_brightness`, or
/// `Err` when the monitor value it sets is the one set last (`*last_main`);
/// a new monitor value is remembered in `*last_main`.
pub fn get_brightness_cmds(last_main: &mut u32, env_brightness: u32) -> (r: Result<String, ()>)
    ensures
        *old(last_main) == ddc_mon_brightness(env_brightness as int) ==> r is Err && *final(last_main)
            == *old(last_main),
        *old(last_main) != ddc_mon_brightness(env_brightness as int) ==> r is Ok && *final(last_main)
            == ddc_mon_brightness(env_brightness as int) && r->Ok_0@ == brightness_command_of(
            laptop_brightness(env_brightness as int) as nat,
            ddc_mon_brightness(env_brightness as int) as nat,
            kbd_level(env_brightness as int) as nat,
        ),
{
    let main = calculate_ddc_mon_brightness(env_brightness);
    if *last_main == main {
        return Err(());
    }
    *last_main = main;
    let laptop = get_thinkpad_x1_mon_brightness(env_brightness);
    let kbd = keyboard_backlight_level(env_brightness);
    Ok(brightness_command(laptop, main, kbd))
}

/// Where the connection to the laptop stands.
#[derive(PartialEq, Eq, Structural, Clone, Copy, Debug)]
pub enum State {
    Connecting,
    Connected,
}

/// What the caller does next.
#[derive(PartialEq, Eq, Debug)]
pub enum Action {
    /// Go on with the next step at once.
    Nothing,
    /// Sleep this many milliseconds, then go on.
    Wait(u64),
    /// Run this shell line over the SSH session and log its outcome.
    Run(String),
}

/// The laptop's brightness controller: its state, whether an SSH session is
/// open, and the monitor value it set last.
pub struct Fsm {
    pub state: State,
    pub session_open: bool,
    pub last_main_brightness: u32,
}

impl Fsm {
    /// The controller is connected only while an SSH session is open.
    pub open spec fn wf(&self) -> bool {
        self.state == State::Connected ==> self.session_open
    }

    /// Starts out connecting, without session, with monitor value 0 set last.
    pub fn new() -> (f: Fsm)
        ensures
            f.wf(),
            f.state == State::Connecting,
            !f.session_open,
            f.last_main_brightness == 0,
    {
        Fsm { state: State::Connecting, session_open: false, last_main_brightness: 0 }
    }

    /// After an SSH connection attempt: connected when it succeeded, else
    /// wait two seconds and stay.
    pub fn connecting(&mut self, connected: bool) -> (a: Action)
        ensures
            old(self).wf() ==> final(self).wf(),
            connected ==> final(self).state == State::Connected && final(self).session_open
                && a == Action::Nothing,
            !connected ==> final(self).state == old(self).state && final(self).session_open
                == old(self).session_open && a == Action::Wait(2000),
            final(self).last_main_brightness == old(self).last_main_brightness,
    {
        if connected {
            self.session_open = true;
            self.state = State::Connected;
            Action::Nothing
        } else {
            Action::Wait(2000)
        }
    }

    /// One round while connected, for the ambient brightness and the
    /// automatic-control switch read from the shared state: with the switch
    /// off, change nothing and wait half a second; else without session go
    /// back to connecting; with a new monitor value run the brightness
    /// command; otherwise wait half a second.
    pub fn connected(&mut self, env_brightness: u32, auto_control: bool) -> (a: Action)
        ensures
            old(self).wf() ==> final(self).wf(),
            !auto_control ==> a == Action::Wait(500) && final(self).state == old(self).state
                && final(self).session_open == old(self).session_open
                && final(self).last_main_brightness == old(self).last_main_brightness,
            auto_control && !old(self).session_open ==> final(self).state == State::Connecting && a
                == Action::Nothing && final(self).last_main_brightness
                == old(self).last_main_brightness,
            auto_control && old(self).session_open ==> final(self).state == old(self).state
                && final(self).session_open,
            auto_control && old(self).session_open && old(self).last_main_brightness
                == ddc_mon_brightness(env_brightness as int) ==> a == Action::Wait(500)
                && final(self).last_main_brightness == old(self).last_main_brightness,
            auto_control && old(self).session_open && old(self).last_main_brightness
                != ddc_mon_brightness(env_brightness as int) ==> final(self).last_main_brightness
                == ddc_mon_brightness(env_brightness as int) && (a matches Action::Run(cmd)
                && cmd@ == brightness_command_of(
                laptop_brightness(env_brightness as int) as nat,
                ddc_mon_brightness(env_brightness as int) as nat,
                kbd_level(env_brightness as int) as nat,
            )),
    {
        if !auto_control {
            return Action::Wait(500);
        }
        if !self.session_open {
            self.state = State::Connecting;
            return Action::Nothing;
        }
        match get_brightness_cmds(&mut self.last_main_brightness, env_brightness) {
            Ok(cmd) => Action::Run(cmd),
            Err(()) => Action::Wait(500),
        }
    }
}

} // verus!
