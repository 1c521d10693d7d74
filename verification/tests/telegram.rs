use rush::commands::LightCmd;
use rush::telegram_bot::{
    answer_action, classify_message, command_reply, heard_reply, llm_answer, operation_of,
    transcript_path, transcript_text, voice_file_path, whisper_command, AnswerAction, Command,
    set_brightness_auto_control, Incoming, Operation, PresenceNotifier,
};
use rush::{GlobalState, OfficeAmbient};

const ALL: [Command; 15] = [
    Command::GetIpv4,
    Command::LightsOnAll,
    Command::LightsOffAll,
    Command::LightsOnLivingRoom,
    Command::LightsOffLivingRoom,
    Command::LightsOnHall,
    Command::LightsOffHall,
    Command::DesktopWakeup,
    Command::GetIpv6,
    Command::DesktopStatus,
    Command::LightsOn,
    Command::LightsOff,
    Command::DisableBrightnessAutoControl,
    Command::EnableBrightnessAutoControl,
    Command::GetSystemStatus,
];

#[test]
fn command_texts() {
    assert_eq!(Command::GetIpv4.to_string(), "/ipv4");
    assert_eq!(Command::LightsOnAll.to_string(), "/lights_on_all");
    assert_eq!(Command::LightsOffAll.to_string(), "/lights_off_all");
    assert_eq!(Command::LightsOnLivingRoom.to_string(), "/lights_on_living_room");
    assert_eq!(Command::LightsOffLivingRoom.to_string(), "/lights_off_living_room");
    assert_eq!(Command::LightsOnHall.to_string(), "/lights_on_hall");
    assert_eq!(Command::LightsOffHall.to_string(), "/lights_off_hall");
    assert_eq!(Command::DesktopWakeup.to_string(), "/desktop_wakeup");
    assert_eq!(Command::GetIpv6.to_string(), "/ipv6");
    assert_eq!(Command::DesktopStatus.to_string(), "/desktop_status");
    assert_eq!(Command::LightsOn.to_string(), "/lights_on");
    assert_eq!(Command::LightsOff.to_string(), "/lights_off");
    assert_eq!(Command::DisableBrightnessAutoControl.to_string(), "/disable_brightness_auto_control");
    assert_eq!(Command::EnableBrightnessAutoControl.to_string(), "/enable_brightness_auto_control");
    assert_eq!(Command::GetSystemStatus.to_string(), "/get_system_status");
}

#[test]
fn commands_round_trip() {
    for c in ALL {
        assert_eq!(Command::from_str(&c.to_string()), Ok(c));
    }
    assert_eq!(Command::from_str("/ipv5"), Err(()));
    assert_eq!(Command::from_str("/ipv4 "), Err(()));
    assert_eq!(Command::from_str("/lights"), Err(()));
    assert_eq!(Command::from_str(""), Err(()));
}

#[test]
fn readme_commands_are_understood() {
    for name in [
        "desktop_wakeup",
        "ipv4",
        "ipv6",
        "desktop_status",
        "lights_on",
        "lights_off",
        "disable_brightness_auto_control",
        "enable_brightness_auto_control",
        "get_system_status",
    ] {
        assert!(Command::from_str(&format!("/{name}")).is_ok(), "{name}");
    }
    assert_eq!(Command::from_str("/get_system_status"), Ok(Command::GetSystemStatus));
}

#[test]
fn operations() {
    assert_eq!(operation_of(&Command::GetIpv4), Operation::GetIpv4);
    assert_eq!(operation_of(&Command::LightsOnAll), Operation::AllLights(LightCmd::On));
    assert_eq!(operation_of(&Command::LightsOffLivingRoom), Operation::LivingRoomLights(LightCmd::Off));
    assert_eq!(operation_of(&Command::LightsOnHall), Operation::HallLights(LightCmd::On));
    assert_eq!(operation_of(&Command::DesktopWakeup), Operation::WakeDesktop);
    assert_eq!(operation_of(&Command::GetIpv6), Operation::GetIpv6);
    assert_eq!(operation_of(&Command::DesktopStatus), Operation::DesktopStatus);
    assert_eq!(operation_of(&Command::LightsOn), Operation::Sockets(LightCmd::On));
    assert_eq!(operation_of(&Command::LightsOff), Operation::Sockets(LightCmd::Off));
    assert_eq!(
        operation_of(&Command::DisableBrightnessAutoControl),
        Operation::BrightnessAutoControl(false)
    );
    assert_eq!(
        operation_of(&Command::EnableBrightnessAutoControl),
        Operation::BrightnessAutoControl(true)
    );
    assert_eq!(operation_of(&Command::GetSystemStatus), Operation::SystemStatus);
}

#[test]
fn auto_control_switch() {
    let mut st = GlobalState {
        am_i_home: true,
        is_she_home: false,
        office_env: OfficeAmbient { brightness: 300, temperature: 21, humidity: 40 },
        brightness_auto_control: true,
    };
    let before = st;
    assert_eq!(set_brightness_auto_control(&mut st, false), "Automatic brightness control disabled");
    assert!(!st.brightness_auto_control);
    assert_eq!(GlobalState { brightness_auto_control: true, ..st }, before);
    assert_eq!(set_brightness_auto_control(&mut st, true), "Automatic brightness control enabled");
    assert_eq!(st, before);
}

#[test]
fn messages_are_classified() {
    assert!(matches!(classify_message(Some("/ipv4"), false), Incoming::Command(Command::GetIpv4)));
    assert!(matches!(classify_message(Some("/nope"), false), Incoming::UnknownCommand));
    assert!(matches!(classify_message(Some("hello /ipv4"), false), Incoming::Prompt(p) if p == "hello /ipv4"));
    assert!(matches!(classify_message(Some(""), true), Incoming::Prompt(p) if p.is_empty()));
    assert!(matches!(classify_message(None, true), Incoming::Voice));
    assert!(matches!(classify_message(None, false), Incoming::Unreadable));
}

#[test]
fn replies() {
    assert_eq!(command_reply(Ok("1.2.3.4".to_string())), "1.2.3.4");
    assert_eq!(command_reply(Err("timeout".to_string())), "Error: timeout");
    assert_eq!(llm_answer(Ok("hi".to_string())), "hi");
    assert_eq!(
        llm_answer(Err("refused".to_string())),
        "Something bad happened connecting to Ambrosio LLM. Error: refused"
    );
    match answer_action("/lights_on_hall") {
        AnswerAction::Execute { command, notice } => {
            assert_eq!(command, Command::LightsOnHall);
            assert_eq!(notice, "Ok, doing /lights_on_hall");
        }
        AnswerAction::Relay(_) => panic!("expected a command"),
    }
    match answer_action("The lights are on.") {
        AnswerAction::Relay(text) => assert_eq!(text, "The lights are on."),
        AnswerAction::Execute { .. } => panic!("expected a relay"),
    }
}

#[test]
fn voice_notes() {
    assert_eq!(voice_file_path("abc"), "/tmp/abc.ogg");
    assert_eq!(transcript_path("abc"), "/tmp/abc.txt");
    assert_eq!(
        whisper_command("abc"),
        ".venv/bin/whisper /tmp/abc.ogg --output_format txt --output_dir /tmp --model base"
    );
    assert_eq!(transcript_text("turn on the lights\n"), "turn on the lights");
    assert_eq!(transcript_text("é!"), "é");
    assert_eq!(heard_reply("hi"), "Heard \"hi\"");
}

#[test]
fn presence_is_announced_on_change() {
    let mut n = PresenceNotifier::new();
    assert!(n.notices(false, false).is_empty());
    assert_eq!(n.notices(true, false), vec!["You are at home!".to_string()]);
    assert!(n.notices(true, false).is_empty());
    assert_eq!(
        n.notices(false, true),
        vec!["You are not home!".to_string(), "She's home!".to_string()]
    );
    assert_eq!(n.notices(false, false), vec!["She's not at home!".to_string()]);
}
