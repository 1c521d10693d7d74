//! The chat bot's command language and the decisions it takes on each
//! message; sending and receiving messages is done by the caller.
use vstd::prelude::*;
use crate::commands::LightCmd;
use crate::GlobalState;
use crate::text::{has_prefix, has_suffix, lemma_not_prefix_at, lemma_not_suffix_at};

verus! {

/// The commands the bot understands.
#[derive(PartialEq, Eq, Structural, Clone, Copy, Debug)]
pub enum Command {
    GetIpv4,
    LightsOnAll,
    LightsOffAll,
    LightsOnLivingRoom,
    LightsOffLivingRoom,
    LightsOnHall,
    LightsOffHall,
    DesktopWakeup,
    GetIpv6,
    DesktopStatus,
    LightsOn,
    LightsOff,
    DisableBrightnessAutoControl,
    EnableBrightnessAutoControl,
    GetSystemStatus,
}

/// The text of a command in the chat.
pub open spec fn command_text(c: Command) -> Seq<char> {
    match c {
        Command::GetIpv4 => "/ipv4"@,
        Command::LightsOnAll => "/lights_on_all"@,
        Command::LightsOffAll => "/lights_off_all"@,
        Command::LightsOnLivingRoom => "/lights_on_living_room"@,
        Command::LightsOffLivingRoom => "/lights_off_living_room"@,
        Command::LightsOnHall => "/lights_on_hall"@,
        Command::LightsOffHall => "/lights_off_hall"@,
        Command::DesktopWakeup => "/desktop_wakeup"@,
        Command::GetIpv6 => "/ipv6"@,
        Command::DesktopStatus => "/desktop_status"@,
        Command::LightsOn => "/lights_on"@,
        Command::LightsOff => "/lights_off"@,
        Command::DisableBrightnessAutoControl => "/disable_brightness_auto_control"@,
        Command::EnableBrightnessAutoControl => "/enable_brightness_auto_control"@,
        Command::GetSystemStatus => "/get_system_status"@,
    }
}

/// The command whose text is `s`, if any.
pub open spec fn parse_command(s: Seq<char>) -> Option<Command> {
    if s == "/ipv4"@ {
        Some(Command::GetIpv4)
    } else if s == "/lights_on_all"@ {
        Some(Command::LightsOnAll)
    } else if s == "/lights_off_all"@ {
        Some(Command::LightsOffAll)
    } else if s == "/lights_on_living_room"@ {
        Some(Command::LightsOnLivingRoom)
    } else if s == "/lights_off_living_room"@ {
        Some(Command::LightsOffLivingRoom)
    } else if s == "/lights_on_hall"@ {
        Some(Command::LightsOnHall)
    } else if s == "/lights_off_hall"@ {
        Some(Command::LightsOffHall)
    } else if s == "/desktop_wakeup"@ {
        Some(Command::DesktopWakeup)
    } else if s == "/ipv6"@ {
        Some(Command::GetIpv6)
    } else if s == "/desktop_status"@ {
        Some(Command::DesktopStatus)
    } else if s == "/lights_on"@ {
        Some(Command::LightsOn)
    } else if s == "/lights_off"@ {
        Some(Command::LightsOff)
    } else if s == "/disable_brightness_auto_control"@ {
        Some(Command::DisableBrightnessAutoControl)
    } else if s == "/enable_brightness_auto_control"@ {
        Some(Command::EnableBrightnessAutoControl)
    } else if s == "/get_system_status"@ {
        Some(Command::GetSystemStatus)
    } else {
        None
    }
}

fn same_text(a: &str, b: &str) -> (r: bool)
    ensures
        r == (a@ == b@),
{
    String::from_str(a) == String::from_str(b)
}

impl Command {
    /// The chat text of the command.
    pub fn to_string(&self) -> (r: String)
        ensures
            r@ == command_text(*self),
    {
        match self {
            Command::GetIpv4 => String::from_str("/ipv4"),
            Command::LightsOnAll => String::from_str("/lights_on_all"),
            Command::LightsOffAll => String::from_str("/lights_off_all"),
            Command::LightsOnLivingRoom => String::from_str("/lights_on_living_room"),
            Command::LightsOffLivingRoom => String::from_str("/lights_off_living_room"),
            Command::LightsOnHall => String::from_str("/lights_on_hall"),
            Command::LightsOffHall => String::from_str("/lights_off_hall"),
            Command::DesktopWakeup => String::from_str("/desktop_wakeup"),
            Command::GetIpv6 => String::from_str("/ipv6"),
            Command::DesktopStatus => String::from_str("/desktop_status"),
            Command::LightsOn => String::from_str("/lights_on"),
            Command::LightsOff => String::from_str("/lights_off"),
            Command::DisableBrightnessAutoControl => String::from_str("/disable_brightness_auto_control"),
            Command::EnableBrightnessAutoControl => String::from_str("/enable_brightness_auto_control"),
            Command::GetSystemStatus => String::from_str("/get_system_status"),
        }
    }

    /// Reads a command from its exact chat text; anything else is an error.
    pub fn from_str(input: &str) -> (r: Result<Command, ()>)
        ensures
            match parse_command(input@) {
                Some(c) => r == Ok::<Command, ()>(c),
                None => r is Err,
            },
    {
        if same_text(input, "/ipv4") {
            Ok(Command::GetIpv4)
        } else if same_text(input, "/lights_on_all") {
            Ok(Command::LightsOnAll)
        } else if same_text(input, "/lights_off_all") {
            Ok(Command::LightsOffAll)
        } else if same_text(input, "/lights_on_living_room") {
            Ok(Command::LightsOnLivingRoom)
        } else if same_text(input, "/lights_off_living_room") {
            Ok(Command::LightsOffLivingRoom)
        } else if same_text(input, "/lights_on_hall") {
            Ok(Command::LightsOnHall)
        } else if same_text(input, "/lights_off_hall") {
            Ok(Command::LightsOffHall)
        } else if same_text(input, "/desktop_wakeup") {
            Ok(Command::DesktopWakeup)
        } else if same_text(input, "/ipv6") {
            Ok(Command::GetIpv6)
        } else if same_text(input, "/desktop_status") {
            Ok(Command::DesktopStatus)
        } else if same_text(input, "/lights_on") {
            Ok(Command::LightsOn)
        } else if same_text(input, "/lights_off") {
            Ok(Command::LightsOff)
        } else if same_text(input, "/disable_brightness_auto_control") {
            Ok(Command::DisableBrightnessAutoControl)
        } else if same_text(input, "/enable_brightness_auto_control") {
            Ok(Command::EnableBrightnessAutoControl)
        } else if same_text(input, "/get_system_status") {
            Ok(Command::GetSystemStatus)
        } else {
            Err(())
        }
    }
}

/// Law: reading the text of a command gives the command back, and only the
/// text of a command is read as that command.
pub proof fn lemma_command_round_trip(c: Command, s: Seq<char>)
    ensures
        parse_command(command_text(c)) == Some(c),
        parse_command(s) == Some(c) ==> s == command_text(c),
{
    reveal_strlit("/ipv4");
    reveal_strlit("/lights_on_all");
    reveal_strlit("/lights_off_all");
    reveal_strlit("/lights_on_living_room");
    reveal_strlit("/lights_off_living_room");
    reveal_strlit("/lights_on_hall");
    reveal_strlit("/lights_off_hall");
    reveal_strlit("/desktop_wakeup");
    reveal_strlit("/ipv6");
    reveal_strlit("/desktop_status");
    reveal_strlit("/lights_on");
    reveal_strlit("/lights_off");
    reveal_strlit("/disable_brightness_auto_control");
    reveal_strlit("/enable_brightness_auto_control");
    reveal_strlit("/get_system_status");
    assert("/ipv4"@.len() == 5);
    assert("/lights_on_all"@.len() == 14);
    assert("/lights_off_all"@.len() == 15);
    assert("/lights_on_living_room"@.len() == 22);
    assert("/lights_off_living_room"@.len() == 23);
    assert("/lights_on_hall"@.len() == 15);
    assert("/lights_off_hall"@.len() == 16);
    assert("/desktop_wakeup"@.len() == 15);
    assert("/ipv6"@.len() == 5);
    assert("/desktop_status"@.len() == 15);
    assert("/lights_on"@.len() == 10);
    assert("/lights_off"@.len() == 11);
    assert("/disable_brightness_auto_control"@.len() == 32);
    assert("/enable_brightness_auto_control"@.len() == 31);
    assert("/get_system_status"@.len() == 18);
    // Texts of the same length differ at these positions.
    assert("/ipv4"@[4] != "/ipv6"@[4]);
    assert("/lights_off_all"@[9] == 'f');
    assert("/lights_on_hall"@[9] == 'n');
    assert("/desktop_wakeup"@[9] == 'w');
    assert("/desktop_status"@[9] == 's');
}

/// The chat the bot reports to.
pub const CHAT_ID: i64 = 322_011_297;

/// Sent to the chat when the bot starts.
pub const STARTUP_MESSAGE: &'static str = "Hey I am up!";

/// Sent first in reply to every message.
pub const ACKNOWLEDGEMENT: &'static str = "...";

/// Reply to a text that starts with `/` but is no command.
pub const UNKNOWN_COMMAND_REPLY: &'static str = "Failed to parse command";

/// Reply to a message with neither text nor voice.
pub const UNREADABLE_REPLY: &'static str = "DEBUG: No voice but voice?";

/// Reply to a message whose voice note is not there.
pub const NO_VOICE_REPLY: &'static str = "?";

/// What running a command does.
#[derive(PartialEq, Eq, Structural, Clone, Copy, Debug)]
pub enum Operation {
    /// Look up the public IPv4 address.
    GetIpv4,
    /// Look up the public IPv6 address.
    GetIpv6,
    /// Wake the desktop over the LAN.
    WakeDesktop,
    /// Tell whether the desktop is online and which operating system it runs.
    DesktopStatus,
    /// Check every computer: online, and reachable over SSH.
    SystemStatus,
    /// Switch every plug.
    AllLights(LightCmd),
    /// Switch the living-room plugs.
    LivingRoomLights(LightCmd),
    /// Switch the hall plugs.
    HallLights(LightCmd),
    /// Switch the sockets (plugs 1 and 2).
    Sockets(LightCmd),
    /// Turn automatic brightness control on (`true`) or off.
    BrightnessAutoControl(bool),
}

/// The operation a command stands for.
pub open spec fn operation_spec(op: Command) -> Operation {
    match op {
        Command::GetIpv4 => Operation::GetIpv4,
        Command::LightsOnAll => Operation::AllLights(LightCmd::On),
        Command::LightsOffAll => Operation::AllLights(LightCmd::Off),
        Command::LightsOnLivingRoom => Operation::LivingRoomLights(LightCmd::On),
        Command::LightsOffLivingRoom => Operation::LivingRoomLights(LightCmd::Off),
        Command::LightsOnHall => Operation::HallLights(LightCmd::On),
        Command::LightsOffHall => Operation::HallLights(LightCmd::Off),
        Command::DesktopWakeup => Operation::WakeDesktop,
        Command::GetIpv6 => Operation::GetIpv6,
        Command::DesktopStatus => Operation::DesktopStatus,
        Command::LightsOn => Operation::Sockets(LightCmd::On),
        Command::LightsOff => Operation::Sockets(LightCmd::Off),
        Command::DisableBrightnessAutoControl => Operation::BrightnessAutoControl(false),
        Command::EnableBrightnessAutoControl => Operation::BrightnessAutoControl(true),
        Command::GetSystemStatus => Operation::SystemStatus,
    }
}

/// The operation that executing `op` performs.
pub fn operation_of(op: &Command) -> (r: Operation)
    ensures
        r == operation_spec(*op),
{
    match op {
        Command::GetIpv4 => Operation::GetIpv4,
        Command::LightsOnAll => Operation::AllLights(LightCmd::On),
        Command::LightsOffAll => Operation::AllLights(LightCmd::Off),
        Command::LightsOnLivingRoom => Operation::LivingRoomLights(LightCmd::On),
        Command::LightsOffLivingRoom => Operation::LivingRoomLights(LightCmd::Off),
        Command::LightsOnHall => Operation::HallLights(LightCmd::On),
        Command::LightsOffHall => Operation::HallLights(LightCmd::Off),
        Command::DesktopWakeup => Operation::WakeDesktop,
        Command::GetIpv6 => Operation::GetIpv6,
        Command::DesktopStatus => Operation::DesktopStatus,
        Command::LightsOn => Operation::Sockets(LightCmd::On),
        Command::LightsOff => Operation::Sockets(LightCmd::Off),
        Command::DisableBrightnessAutoControl => Operation::BrightnessAutoControl(false),
        Command::EnableBrightnessAutoControl => Operation::BrightnessAutoControl(true),
        Command::GetSystemStatus => Operation::SystemStatus,
    }
}

/// The direction in which `op` switches lights, if it switches any.
pub open spec fn light_direction(op: Operation) -> Option<LightCmd> {
    match op {
        Operation::AllLights(c) => Some(c),
        Operation::LivingRoomLights(c) => Some(c),
        Operation::HallLights(c) => Some(c),
        Operation::Sockets(c) => Some(c),
        _ => None,
    }
}

/// Law: a command switches lights exactly when its text begins with
/// `/lights_`, and in the direction its text names: off exactly when it
/// begins with `/lights_off`, on exactly when it begins with `/lights_on`.
pub proof fn lemma_light_commands_follow_their_names(c: Command)
    ensures
        (light_direction(operation_spec(c)) == Some(LightCmd::Off)) <==> has_prefix(
            command_text(c),
            "/lights_off"@,
        ),
        (light_direction(operation_spec(c)) == Some(LightCmd::On)) <==> has_prefix(
            command_text(c),
            "/lights_on"@,
        ),
        (light_direction(operation_spec(c)) is None) <==> !has_prefix(command_text(c), "/lights_"@),
{
    match c {
        Command::GetIpv4 => {
            reveal_strlit("/ipv4");
            reveal_strlit("/lights_");
            reveal_strlit("/lights_off");
            reveal_strlit("/lights_on");
        },
        Command::LightsOnAll => {
            reveal_strlit("/lights_");
            reveal_strlit("/lights_off");
            reveal_strlit("/lights_on");
            reveal_strlit("/lights_on_all");
            lemma_not_prefix_at("/lights_on_all"@, "/lights_off"@, 9);
        },
        Command::LightsOffAll => {
            reveal_strlit("/lights_");
            reveal_strlit("/lights_off");
            reveal_strlit("/lights_off_all");
            reveal_strlit("/lights_on");
            lemma_not_prefix_at("/lights_off_all"@, "/lights_on"@, 9);
        },
        Command::LightsOnLivingRoom => {
            reveal_strlit("/lights_");
            reveal_strlit("/lights_off");
            reveal_strlit("/lights_on");
            reveal_strlit("/lights_on_living_room");
            lemma_not_prefix_at("/lights_on_living_room"@, "/lights_off"@, 9);
        },
        Command::LightsOffLivingRoom => {
            reveal_strlit("/lights_");
            reveal_strlit("/lights_off");
            reveal_strlit("/lights_off_living_room");
            reveal_strlit("/lights_on");
            lemma_not_prefix_at("/lights_off_living_room"@, "/lights_on"@, 9);
        },
        Command::LightsOnHall => {
            reveal_strlit("/lights_");
            reveal_strlit("/lights_off");
            reveal_strlit("/lights_on");
            reveal_strlit("/lights_on_hall");
            lemma_not_prefix_at("/lights_on_hall"@, "/lights_off"@, 9);
        },
        Command::LightsOffHall => {
            reveal_strlit("/lights_");
            reveal_strlit("/lights_off");
            reveal_strlit("/lights_off_hall");
            reveal_strlit("/lights_on");
            lemma_not_prefix_at("/lights_off_hall"@, "/lights_on"@, 9);
        },
        Command::DesktopWakeup => {
            reveal_strlit("/desktop_wakeup");
            reveal_strlit("/lights_");
            reveal_strlit("/lights_off");
            reveal_strlit("/lights_on");
            lemma_not_prefix_at("/desktop_wakeup"@, "/lights_off"@, 1);
            lemma_not_prefix_at("/desktop_wakeup"@, "/lights_on"@, 1);
            lemma_not_prefix_at("/desktop_wakeup"@, "/lights_"@, 1);
        },
        Command::GetIpv6 => {
            reveal_strlit("/ipv6");
            reveal_strlit("/lights_");
            reveal_strlit("/lights_off");
            reveal_strlit("/lights_on");
        },
        Command::DesktopStatus => {
            reveal_strlit("/desktop_status");
            reveal_strlit("/lights_");
            reveal_strlit("/lights_off");
            reveal_strlit("/lights_on");
            lemma_not_prefix_at("/desktop_status"@, "/lights_off"@, 1);
            lemma_not_prefix_at("/desktop_status"@, "/lights_on"@, 1);
            lemma_not_prefix_at("/desktop_status"@, "/lights_"@, 1);
        },
        Command::LightsOn => {
            reveal_strlit("/lights_");
            reveal_strlit("/lights_off");
            reveal_strlit("/lights_on");
        },
        Command::LightsOff => {
            reveal_strlit("/lights_");
            reveal_strlit("/lights_off");
            reveal_strlit("/lights_on");
            lemma_not_prefix_at("/lights_off"@, "/lights_on"@, 9);
        },
        Command::DisableBrightnessAutoControl => {
            reveal_strlit("/disable_brightness_auto_control");
            reveal_strlit("/lights_");
            reveal_strlit("/lights_off");
            reveal_strlit("/lights_on");
            lemma_not_prefix_at("/disable_brightness_auto_control"@, "/lights_off"@, 1);
            lemma_not_prefix_at("/disable_brightness_auto_control"@, "/lights_on"@, 1);
            lemma_not_prefix_at("/disable_brightness_auto_control"@, "/lights_"@, 1);
        },
        Command::EnableBrightnessAutoControl => {
            reveal_strlit("/enable_brightness_auto_control");
            reveal_strlit("/lights_");
            reveal_strlit("/lights_off");
            reveal_strlit("/lights_on");
            lemma_not_prefix_at("/enable_brightness_auto_control"@, "/lights_off"@, 1);
            lemma_not_prefix_at("/enable_brightness_auto_control"@, "/lights_on"@, 1);
            lemma_not_prefix_at("/enable_brightness_auto_control"@, "/lights_"@, 1);
        },
        Command::GetSystemStatus => {
            reveal_strlit("/get_system_status");
            reveal_strlit("/lights_");
            reveal_strlit("/lights_off");
            reveal_strlit("/lights_on");
            lemma_not_prefix_at("/get_system_status"@, "/lights_off"@, 1);
            lemma_not_prefix_at("/get_system_status"@, "/lights_on"@, 1);
            lemma_not_prefix_at("/get_system_status"@, "/lights_"@, 1);
        },
    }
}

/// Law: which lights a command switches follows the end of its text:
/// every plug for `/lights_..._all`, the hall for `..._hall`, the living
/// room for `..._living_room`, and the sockets (plugs 1 and 2) for the bare
/// `/lights_on` and `/lights_off`.
pub proof fn lemma_light_groups_follow_their_names(c: Command)
    ensures
        (operation_spec(c) is AllLights) <==> has_prefix(command_text(c), "/lights_"@) && has_suffix(
            command_text(c),
            "_all"@,
        ),
        (operation_spec(c) is HallLights) <==> has_suffix(command_text(c), "_hall"@),
        (operation_spec(c) is LivingRoomLights) <==> has_suffix(command_text(c), "_living_room"@),
        (operation_spec(c) is Sockets) <==> (command_text(c) == "/lights_on"@ || command_text(c)
            == "/lights_off"@),
{
    match c {
        Command::GetIpv4 => {
            reveal_strlit("/ipv4");
            reveal_strlit("/lights_");
            reveal_strlit("/lights_off");
            reveal_strlit("/lights_on");
            reveal_strlit("_all");
            reveal_strlit("_hall");
            reveal_strlit("_living_room");
            lemma_not_suffix_at("/ipv4"@, "_all"@, 0);
            lemma_not_suffix_at("/ipv4"@, "_hall"@, 0);
        },
        Command::LightsOnAll => {
            reveal_strlit("/lights_");
            reveal_strlit("/lights_off");
            reveal_strlit("/lights_on");
            reveal_strlit("/lights_on_all");
            reveal_strlit("_all");
            reveal_strlit("_hall");
            reveal_strlit("_living_room");
            lemma_not_suffix_at("/lights_on_all"@, "_hall"@, 3);
            lemma_not_suffix_at("/lights_on_all"@, "_living_room"@, 0);
        },
        Command::LightsOffAll => {
            reveal_strlit("/lights_");
            reveal_strlit("/lights_off");
            reveal_strlit("/lights_off_all");
            reveal_strlit("/lights_on");
            reveal_strlit("_all");
            reveal_strlit("_hall");
            reveal_strlit("_living_room");
            lemma_not_suffix_at("/lights_off_all"@, "_hall"@, 3);
            lemma_not_suffix_at("/lights_off_all"@, "_living_room"@, 0);
        },
        Command::LightsOnLivingRoom => {
            reveal_strlit("/lights_");
            reveal_strlit("/lights_off");
            reveal_strlit("/lights_on");
            reveal_strlit("/lights_on_living_room");
            reveal_strlit("_all");
            reveal_strlit("_hall");
            reveal_strlit("_living_room");
            lemma_not_suffix_at("/lights_on_living_room"@, "_all"@, 0);
            lemma_not_suffix_at("/lights_on_living_room"@, "_hall"@, 0);
        },
        Command::LightsOffLivingRoom => {
            reveal_strlit("/lights_");
            reveal_strlit("/lights_off");
            reveal_strlit("/lights_off_living_room");
            reveal_strlit("/lights_on");
            reveal_strlit("_all");
            reveal_strlit("_hall");
            reveal_strlit("_living_room");
            lemma_not_suffix_at("/lights_off_living_room"@, "_all"@, 0);
            lemma_not_suffix_at("/lights_off_living_room"@, "_hall"@, 0);
        },
        Command::LightsOnHall => {
            reveal_strlit("/lights_");
            reveal_strlit("/lights_off");
            reveal_strlit("/lights_on");
            reveal_strlit("/lights_on_hall");
            reveal_strlit("_all");
            reveal_strlit("_hall");
            reveal_strlit("_living_room");
            lemma_not_suffix_at("/lights_on_hall"@, "_all"@, 3);
            lemma_not_suffix_at("/lights_on_hall"@, "_living_room"@, 0);
        },
        Command::LightsOffHall => {
            reveal_strlit("/lights_");
            reveal_strlit("/lights_off");
            reveal_strlit("/lights_off_hall");
            reveal_strlit("/lights_on");
            reveal_strlit("_all");
            reveal_strlit("_hall");
            reveal_strlit("_living_room");
            lemma_not_suffix_at("/lights_off_hall"@, "_all"@, 3);
            lemma_not_suffix_at("/lights_off_hall"@, "_living_room"@, 0);
        },
        Command::DesktopWakeup => {
            reveal_strlit("/desktop_wakeup");
            reveal_strlit("/lights_");
            reveal_strlit("/lights_off");
            reveal_strlit("/lights_on");
            reveal_strlit("_all");
            reveal_strlit("_hall");
            reveal_strlit("_living_room");
            lemma_not_prefix_at("/desktop_wakeup"@, "/lights_"@, 1);
            lemma_not_suffix_at("/desktop_wakeup"@, "_all"@, 0);
            lemma_not_suffix_at("/desktop_wakeup"@, "_hall"@, 0);
            lemma_not_suffix_at("/desktop_wakeup"@, "_living_room"@, 0);
        },
        Command::GetIpv6 => {
            reveal_strlit("/ipv6");
            reveal_strlit("/lights_");
            reveal_strlit("/lights_off");
            reveal_strlit("/lights_on");
            reveal_strlit("_all");
            reveal_strlit("_hall");
            reveal_strlit("_living_room");
            lemma_not_suffix_at("/ipv6"@, "_all"@, 0);
            lemma_not_suffix_at("/ipv6"@, "_hall"@, 0);
        },
        Command::DesktopStatus => {
            reveal_strlit("/desktop_status");
            reveal_strlit("/lights_");
            reveal_strlit("/lights_off");
            reveal_strlit("/lights_on");
            reveal_strlit("_all");
            reveal_strlit("_hall");
            reveal_strlit("_living_room");
            lemma_not_prefix_at("/desktop_status"@, "/lights_"@, 1);
            lemma_not_suffix_at("/desktop_status"@, "_all"@, 0);
            lemma_not_suffix_at("/desktop_status"@, "_hall"@, 0);
            lemma_not_suffix_at("/desktop_status"@, "_living_room"@, 0);
        },
        Command::LightsOn => {
            reveal_strlit("/lights_");
            reveal_strlit("/lights_off");
            reveal_strlit("/lights_on");
            reveal_strlit("_all");
            reveal_strlit("_hall");
            reveal_strlit("_living_room");
            lemma_not_suffix_at("/lights_on"@, "_all"@, 0);
            lemma_not_suffix_at("/lights_on"@, "_hall"@, 0);
        },
        Command::LightsOff => {
            reveal_strlit("/lights_");
            reveal_strlit("/lights_off");
            reveal_strlit("/lights_on");
            reveal_strlit("_all");
            reveal_strlit("_hall");
            reveal_strlit("_living_room");
            lemma_not_suffix_at("/lights_off"@, "_all"@, 0);
            lemma_not_suffix_at("/lights_off"@, "_hall"@, 0);
        },
        Command::DisableBrightnessAutoControl => {
            reveal_strlit("/disable_brightness_auto_control");
            reveal_strlit("/lights_");
            reveal_strlit("/lights_off");
            reveal_strlit("/lights_on");
            reveal_strlit("_all");
            reveal_strlit("_hall");
            reveal_strlit("_living_room");
            lemma_not_prefix_at("/disable_brightness_auto_control"@, "/lights_"@, 1);
            lemma_not_suffix_at("/disable_brightness_auto_control"@, "_all"@, 1);
            lemma_not_suffix_at("/disable_brightness_auto_control"@, "_hall"@, 1);
            lemma_not_suffix_at("/disable_brightness_auto_control"@, "_living_room"@, 0);
        },
        Command::EnableBrightnessAutoControl => {
            reveal_strlit("/enable_brightness_auto_control");
            reveal_strlit("/lights_");
            reveal_strlit("/lights_off");
            reveal_strlit("/lights_on");
            reveal_strlit("_all");
            reveal_strlit("_hall");
            reveal_strlit("_living_room");
            lemma_not_prefix_at("/enable_brightness_auto_control"@, "/lights_"@, 1);
            lemma_not_suffix_at("/enable_brightness_auto_control"@, "_all"@, 1);
            lemma_not_suffix_at("/enable_brightness_auto_control"@, "_hall"@, 1);
            lemma_not_suffix_at("/enable_brightness_auto_control"@, "_living_room"@, 0);
        },
        Command::GetSystemStatus => {
            reveal_strlit("/get_system_status");
            reveal_strlit("/lights_");
            reveal_strlit("/lights_off");
            reveal_strlit("/lights_on");
            reveal_strlit("_all");
            reveal_strlit("_hall");
            reveal_strlit("_living_room");
            lemma_not_prefix_at("/get_system_status"@, "/lights_"@, 1);
            lemma_not_suffix_at("/get_system_status"@, "_all"@, 0);
            lemma_not_suffix_at("/get_system_status"@, "_hall"@, 0);
            lemma_not_suffix_at("/get_system_status"@, "_living_room"@, 0);
        },
    }
}

/// Law: the other commands do what their texts name: the IPv4 and IPv6
/// lookups, waking and checking the desktop, the system status, and
/// automatic brightness control, enabled exactly by the text beginning with
/// `/enable_` and disabled exactly by the one beginning with `/disable_`.
pub proof fn lemma_other_commands_follow_their_names(c: Command)
    ensures
        (operation_spec(c) == Operation::GetIpv4) <==> command_text(c) == "/ipv4"@,
        (operation_spec(c) == Operation::GetIpv6) <==> command_text(c) == "/ipv6"@,
        (operation_spec(c) == Operation::WakeDesktop) <==> command_text(c) == "/desktop_wakeup"@,
        (operation_spec(c) == Operation::DesktopStatus) <==> command_text(c) == "/desktop_status"@,
        (operation_spec(c) == Operation::SystemStatus) <==> command_text(c) == "/get_system_status"@,
        (operation_spec(c) == Operation::BrightnessAutoControl(true)) <==> has_prefix(
            command_text(c),
            "/enable_"@,
        ),
        (operation_spec(c) == Operation::BrightnessAutoControl(false)) <==> has_prefix(
            command_text(c),
            "/disable_"@,
        ),
{
    match c {
        Command::GetIpv4 => {
            reveal_strlit("/desktop_status");
            reveal_strlit("/desktop_wakeup");
            reveal_strlit("/disable_");
            reveal_strlit("/enable_");
            reveal_strlit("/get_system_status");
            reveal_strlit("/ipv4");
            reveal_strlit("/ipv6");
            assert("/ipv4"@[4] != "/ipv6"@[4]);
        },
        Command::LightsOnAll => {
            reveal_strlit("/desktop_status");
            reveal_strlit("/desktop_wakeup");
            reveal_strlit("/disable_");
            reveal_strlit("/enable_");
            reveal_strlit("/get_system_status");
            reveal_strlit("/ipv4");
            reveal_strlit("/ipv6");
            reveal_strlit("/lights_on_all");
            lemma_not_prefix_at("/lights_on_all"@, "/enable_"@, 1);
            lemma_not_prefix_at("/lights_on_all"@, "/disable_"@, 1);
        },
        Command::LightsOffAll => {
            reveal_strlit("/desktop_status");
            reveal_strlit("/desktop_wakeup");
            reveal_strlit("/disable_");
            reveal_strlit("/enable_");
            reveal_strlit("/get_system_status");
            reveal_strlit("/ipv4");
            reveal_strlit("/ipv6");
            reveal_strlit("/lights_off_all");
            assert("/lights_off_all"@[1] != "/desktop_wakeup"@[1]);
            assert("/lights_off_all"@[1] != "/desktop_status"@[1]);
            lemma_not_prefix_at("/lights_off_all"@, "/enable_"@, 1);
            lemma_not_prefix_at("/lights_off_all"@, "/disable_"@, 1);
        },
        Command::LightsOnLivingRoom => {
            reveal_strlit("/desktop_status");
            reveal_strlit("/desktop_wakeup");
            reveal_strlit("/disable_");
            reveal_strlit("/enable_");
            reveal_strlit("/get_system_status");
            reveal_strlit("/ipv4");
            reveal_strlit("/ipv6");
            reveal_strlit("/lights_on_living_room");
            lemma_not_prefix_at("/lights_on_living_room"@, "/enable_"@, 1);
            lemma_not_prefix_at("/lights_on_living_room"@, "/disable_"@, 1);
        },
        Command::LightsOffLivingRoom => {
            reveal_strlit("/desktop_status");
            reveal_strlit("/desktop_wakeup");
            reveal_strlit("/disable_");
            reveal_strlit("/enable_");
            reveal_strlit("/get_system_status");
            reveal_strlit("/ipv4");
            reveal_strlit("/ipv6");
            reveal_strlit("/lights_off_living_room");
            lemma_not_prefix_at("/lights_off_living_room"@, "/enable_"@, 1);
            lemma_not_prefix_at("/lights_off_living_room"@, "/disable_"@, 1);
        },
        Command::LightsOnHall => {
            reveal_strlit("/desktop_status");
            reveal_strlit("/desktop_wakeup");
            reveal_strlit("/disable_");
            reveal_strlit("/enable_");
            reveal_strlit("/get_system_status");
            reveal_strlit("/ipv4");
            reveal_strlit("/ipv6");
            reveal_strlit("/lights_on_hall");
            assert("/lights_on_hall"@[1] != "/desktop_wakeup"@[1]);
            assert("/lights_on_hall"@[1] != "/desktop_status"@[1]);
            lemma_not_prefix_at("/lights_on_hall"@, "/enable_"@, 1);
            lemma_not_prefix_at("/lights_on_hall"@, "/disable_"@, 1);
        },
        Command::LightsOffHall => {
            reveal_strlit("/desktop_status");
            reveal_strlit("/desktop_wakeup");
            reveal_strlit("/disable_");
            reveal_strlit("/enable_");
            reveal_strlit("/get_system_status");
            reveal_strlit("/ipv4");
            reveal_strlit("/ipv6");
            reveal_strlit("/lights_off_hall");
            lemma_not_prefix_at("/lights_off_hall"@, "/enable_"@, 1);
            lemma_not_prefix_at("/lights_off_hall"@, "/disable_"@, 1);
        },
        Command::DesktopWakeup => {
            reveal_strlit("/desktop_status");
            reveal_strlit("/desktop_wakeup");
            reveal_strlit("/disable_");
            reveal_strlit("/enable_");
            reveal_strlit("/get_system_status");
            reveal_strlit("/ipv4");
            reveal_strlit("/ipv6");
            assert("/desktop_wakeup"@[9] != "/desktop_status"@[9]);
            lemma_not_prefix_at("/desktop_wakeup"@, "/enable_"@, 1);
            lemma_not_prefix_at("/desktop_wakeup"@, "/disable_"@, 2);
        },
        Command::GetIpv6 => {
            reveal_strlit("/desktop_status");
            reveal_strlit("/desktop_wakeup");
            reveal_strlit("/disable_");
            reveal_strlit("/enable_");
            reveal_strlit("/get_system_status");
            reveal_strlit("/ipv4");
            reveal_strlit("/ipv6");
            assert("/ipv6"@[4] != "/ipv4"@[4]);
        },
        Command::DesktopStatus => {
            reveal_strlit("/desktop_status");
            reveal_strlit("/desktop_wakeup");
            reveal_strlit("/disable_");
            reveal_strlit("/enable_");
            reveal_strlit("/get_system_status");
            reveal_strlit("/ipv4");
            reveal_strlit("/ipv6");
            assert("/desktop_status"@[9] != "/desktop_wakeup"@[9]);
            lemma_not_prefix_at("/desktop_status"@, "/enable_"@, 1);
            lemma_not_prefix_at("/desktop_status"@, "/disable_"@, 2);
        },
        Command::LightsOn => {
            reveal_strlit("/desktop_status");
            reveal_strlit("/desktop_wakeup");
            reveal_strlit("/disable_");
            reveal_strlit("/enable_");
            reveal_strlit("/get_system_status");
            reveal_strlit("/ipv4");
            reveal_strlit("/ipv6");
            reveal_strlit("/lights_on");
            lemma_not_prefix_at("/lights_on"@, "/enable_"@, 1);
            lemma_not_prefix_at("/lights_on"@, "/disable_"@, 1);
        },
        Command::LightsOff => {
            reveal_strlit("/desktop_status");
            reveal_strlit("/desktop_wakeup");
            reveal_strlit("/disable_");
            reveal_strlit("/enable_");
            reveal_strlit("/get_system_status");
            reveal_strlit("/ipv4");
            reveal_strlit("/ipv6");
            reveal_strlit("/lights_off");
            lemma_not_prefix_at("/lights_off"@, "/enable_"@, 1);
            lemma_not_prefix_at("/lights_off"@, "/disable_"@, 1);
        },
        Command::DisableBrightnessAutoControl => {
            reveal_strlit("/desktop_status");
            reveal_strlit("/desktop_wakeup");
            reveal_strlit("/disable_");
            reveal_strlit("/disable_brightness_auto_control");
            reveal_strlit("/enable_");
            reveal_strlit("/get_system_status");
            reveal_strlit("/ipv4");
            reveal_strlit("/ipv6");
            lemma_not_prefix_at("/disable_brightness_auto_control"@, "/enable_"@, 1);
        },
        Command::EnableBrightnessAutoControl => {
            reveal_strlit("/desktop_status");
            reveal_strlit("/desktop_wakeup");
            reveal_strlit("/disable_");
            reveal_strlit("/enable_");
            reveal_strlit("/enable_brightness_auto_control");
            reveal_strlit("/get_system_status");
            reveal_strlit("/ipv4");
            reveal_strlit("/ipv6");
            lemma_not_prefix_at("/enable_brightness_auto_control"@, "/disable_"@, 1);
        },
        Command::GetSystemStatus => {
            reveal_strlit("/desktop_status");
            reveal_strlit("/desktop_wakeup");
            reveal_strlit("/disable_");
            reveal_strlit("/enable_");
            reveal_strlit("/get_system_status");
            reveal_strlit("/ipv4");
            reveal_strlit("/ipv6");
            lemma_not_prefix_at("/get_system_status"@, "/enable_"@, 1);
            lemma_not_prefix_at("/get_system_status"@, "/disable_"@, 1);
        },
    }
}

/// The confirmation of a switch of automatic brightness control.
pub open spec fn auto_control_reply(enabled: bool) -> Seq<char> {
    if enabled {
        "Automatic brightness control enabled"@
    } else {
        "Automatic brightness control disabled"@
    }
}

/// Turns automatic brightness control on or off in the shared state, leaving
/// the rest of it as it was, and gives the confirmation to send.
pub fn set_brightness_auto_control(state: &mut GlobalState, enabled: bool) -> (r: String)
    ensures
        *final(state) == (GlobalState { brightness_auto_control: enabled, ..*old(state) }),
        r@ == auto_control_reply(enabled),
{
    state.brightness_auto_control = enabled;
    if enabled {
        String::from_str("Automatic brightness control enabled")
    } else {
        String::from_str("Automatic brightness control disabled")
    }
}

/// How an incoming message is handled.
pub enum Incoming {
    /// A command to run; its output (or error) is the reply.
    Command(Command),
    /// A text that starts with `/` but is no command.
    UnknownCommand,
    /// A text for the language model.
    Prompt(String),
    /// A voice note, to be transcribed and then handed to the language model.
    Voice,
    /// Neither text nor voice.
    Unreadable,
}

/// How a message with the text `text` (if it has one) and, when `has_voice`,
/// a voice note is handled: a text beginning with `/` is a command, any
/// other text a prompt; without text a voice note is transcribed.
pub fn classify_message(text: Option<&str>, has_voice: bool) -> (r: Incoming)
    ensures
        match text {
            Some(t) => if t@.len() > 0 && t@[0] == '/' {
                match parse_command(t@) {
                    Some(c) => r == Incoming::Command(c),
                    None => r is UnknownCommand,
                }
            } else {
                r matches Incoming::Prompt(p) && p@ == t@
            },
            None => if has_voice {
                r is Voice
            } else {
                r is Unreadable
            },
        },
{
    match text {
        Some(t) => {
            if t.unicode_len() > 0 && t.get_char(0) == '/' {
                match Command::from_str(t) {
                    Ok(c) => Incoming::Command(c),
                    Err(()) => Incoming::UnknownCommand,
                }
            } else {
                Incoming::Prompt(String::from_str(t))
            }
        },
        None => if has_voice {
            Incoming::Voice
        } else {
            Incoming::Unreadable
        },
    }
}

/// The reply to a command: its output, or its error after `Error: `.
pub fn command_reply(result: Result<String, String>) -> (r: String)
    ensures
        match result {
            Ok(out) => r@ == out@,
            Err(e) => r@ == "Error: "@ + e@,
        },
{
    match result {
        Ok(out) => out,
        Err(e) => String::from_str("Error: ").concat(e.as_str()),
    }
}

/// The answer taken from the language model: its text, or a message that
/// tells why it could not be reached.
pub fn llm_answer(result: Result<String, String>) -> (r: String)
    ensures
        match result {
            Ok(a) => r@ == a@,
            Err(e) => r@ == "Something bad happened connecting to Ambrosio LLM. Error: "@ + e@,
        },
{
    match result {
        Ok(a) => a,
        Err(e) => String::from_str("Something bad happened connecting to Ambrosio LLM. Error: ").concat(
            e.as_str(),
        ),
    }
}

/// What the bot does with the language model's answer.
pub enum AnswerAction {
    /// The answer is a command: run it, send `notice` to the chat, and run it again.
    Execute { command: Command, notice: String },
    /// Any other answer is sent to the chat as it is.
    Relay(String),
}

/// The handling of the language model's answer `answer`.
pub fn answer_action(answer: &str) -> (r: AnswerAction)
    ensures
        match parse_command(answer@) {
            Some(c) => r matches AnswerAction::Execute { command, notice } && command == c
                && notice@ == "Ok, doing "@ + answer@,
            None => r matches AnswerAction::Relay(text) && text@ == answer@,
        },
{
    match Command::from_str(answer) {
        Ok(c) => AnswerAction::Execute {
            command: c,
            notice: String::from_str("Ok, doing ").concat(answer),
        },
        Err(()) => AnswerAction::Relay(String::from_str(answer)),
    }
}

/// Where a voice note is stored before transcription.
pub fn voice_file_path(file_id: &str) -> (r: String)
    ensures
        r@ == "/tmp/"@ + file_id@ + ".ogg"@,
{
    String::from_str("/tmp/").concat(file_id).concat(".ogg")
}

/// The shell line that transcribes the voice note `file_id` into `/tmp`.
pub fn whisper_command(file_id: &str) -> (r: String)
    ensures
        r@ == ".venv/bin/whisper /tmp/"@ + file_id@
            + ".ogg --output_format txt --output_dir /tmp --model base"@,
{
    String::from_str(".venv/bin/whisper /tmp/").concat(file_id).concat(
        ".ogg --output_format txt --output_dir /tmp --model base",
    )
}

/// Where the transcription of the voice note `file_id` is written.
pub fn transcript_path(file_id: &str) -> (r: String)
    ensures
        r@ == "/tmp/"@ + file_id@ + ".txt"@,
{
    String::from_str("/tmp/").concat(file_id).concat(".txt")
}

/// The transcribed text without its final character (the line break the
/// transcriber ends its file with). The file must not be empty and must end
/// in an ASCII character.
pub fn transcript_text(file_text: &str) -> (r: String)
    requires
        file_text@.len() > 0,
        (file_text@.last() as u32) < 128,
    ensures
        r@ == file_text@.drop_last(),
{
    let n = file_text.unicode_len();
    String::from_str(file_text.substring_char(0, n - 1))
}

/// The confirmation of what was heard in a voice note.
pub fn heard_reply(text: &str) -> (r: String)
    ensures
        r@ == "Heard \""@ + text@ + "\""@,
{
    String::from_str("Heard \"").concat(text).concat("\"")
}

/// The presence flags last announced to the chat.
#[derive(Clone, Copy, Debug)]
pub struct PresenceNotifier {
    pub am_i_home: bool,
    pub is_she_home: bool,
}

/// Message announcing my presence flag.
pub open spec fn my_presence_message(home: bool) -> Seq<char> {
    if home { "You are at home!"@ } else { "You are not home!"@ }
}

/// Message announcing her presence flag.
pub open spec fn her_presence_message(home: bool) -> Seq<char> {
    if home { "She's home!"@ } else { "She's not at home!"@ }
}

/// The messages announcing the flags that changed since last announced.
pub open spec fn presence_messages(n: PresenceNotifier, am_i_home: bool, is_she_home: bool) -> Seq<Seq<char>> {
    (if am_i_home != n.am_i_home { seq![my_presence_message(am_i_home)] } else { seq![] })
        + (if is_she_home != n.is_she_home { seq![her_presence_message(is_she_home)] } else { seq![] })
}

impl PresenceNotifier {
    /// Nobody announced home yet.
    pub fn new() -> (n: PresenceNotifier)
        ensures
            !n.am_i_home,
            !n.is_she_home,
    {
        PresenceNotifier { am_i_home: false, is_she_home: false }
    }

    /// The messages to send for the current presence flags, in order (mine
    /// first); each flag is then taken as announced.
    pub fn notices(&mut self, am_i_home: bool, is_she_home: bool) -> (r: Vec<String>)
        ensures
            r@.map_values(|m: String| m@) == presence_messages(*old(self), am_i_home, is_she_home),
            final(self).am_i_home == am_i_home,
            final(self).is_she_home == is_she_home,
    {
        let mut out: Vec<String> = Vec::new();
        if am_i_home != self.am_i_home {
            if am_i_home {
                out.push(String::from_str("You are at home!"));
            } else {
                out.push(String::from_str("You are not home!"));
            }
            self.am_i_home = am_i_home;
        }
        let ghost first = out@;
        if is_she_home != self.is_she_home {
            if is_she_home {
                out.push(String::from_str("She's home!"));
            } else {
                out.push(String::from_str("She's not at home!"));
            }
            self.is_she_home = is_she_home;
        }
        assert(out@.map_values(|m: String| m@) =~= presence_messages(*old(self), am_i_home, is_she_home));
        out
    }
}

/// Law: a presence flag is announced exactly when it differs from the one
/// announced last, and after the announcement the two agree.
pub proof fn lemma_announce_on_change(n: PresenceNotifier, am_i_home: bool, is_she_home: bool)
    ensures
        (presence_messages(n, am_i_home, is_she_home).len() == 0) <==> (am_i_home == n.am_i_home
            && is_she_home == n.is_she_home),
        presence_messages(
            PresenceNotifier { am_i_home, is_she_home },
            am_i_home,
            is_she_home,
        ).len() == 0,
{
}

} // verus!
