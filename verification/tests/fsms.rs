use rush::desktop_control_fsm as desktop;
use rush::get_env_fsm as env;
use rush::light_ctrl_fsm as lights;
use rush::light_livingroom_ctrl_fsm as living;
use rush::office_env_fsm as office;
use rush::snowdog_ctrl_fsm as snowdog;
use rush::thinkpad_ctrl_fsm as thinkpad;
use rush::thinkpad_dock_control_fsm as dock;
use rush::{GlobalState, OfficeAmbient};

#[test]
fn thinkpad_commands_only_on_change() {
    let mut last = 0;
    assert_eq!(thinkpad::get_brightness_cmds(&mut last, 10), Err(()));
    let cmd = thinkpad::get_brightness_cmds(&mut last, 1000).unwrap();
    assert_eq!(
        cmd,
        "echo 19393 > /sys/class/backlight/intel_backlight/brightness & ddcutil --bus 14 setvcp 10 70 & echo 0 > /sys/class/leds/tpacpi::kbd_backlight/brightness"
    );
    assert_eq!(last, 70);
    assert_eq!(thinkpad::get_brightness_cmds(&mut last, 1001), Err(()));
    assert_eq!(last, 70);
}

#[test]
fn thinkpad_fsm_rounds() {
    let mut f = thinkpad::Fsm::new();
    assert_eq!(f.connecting(false), thinkpad::Action::Wait(2000));
    assert_eq!(f.state, thinkpad::State::Connecting);
    assert_eq!(f.connecting(true), thinkpad::Action::Nothing);
    assert_eq!(f.state, thinkpad::State::Connected);
    assert_eq!(f.connected(0, true), thinkpad::Action::Wait(500));
    assert!(matches!(f.connected(300, true), thinkpad::Action::Run(_)));
    assert_eq!(f.connected(300, true), thinkpad::Action::Wait(500));
}

#[test]
fn thinkpad_idles_without_auto_control() {
    let mut f = thinkpad::Fsm::new();
    assert_eq!(f.connecting(true), thinkpad::Action::Nothing);
    assert_eq!(f.connected(1000, false), thinkpad::Action::Wait(500));
    assert_eq!(f.last_main_brightness, 0);
    assert_eq!(f.state, thinkpad::State::Connected);
    assert!(matches!(f.connected(1000, true), thinkpad::Action::Run(_)));
    assert_eq!(f.last_main_brightness, 70);
}

#[test]
fn dock_commands_and_rounds() {
    let mut last = 0;
    let cmd = dock::get_brightness_cmds(&mut last, 100).unwrap();
    assert_eq!(
        cmd,
        "echo 2770 > /sys/class/backlight/intel_backlight/brightness & ddcutil --bus 14 setvcp 10 14 & echo 2 > /sys/class/leds/tpacpi::kbd_backlight/brightness"
    );
    let mut f = dock::Fsm::new();
    assert_eq!(f.state, dock::State::Disconnected);
    f.disconnected();
    assert_eq!(f.state, dock::State::Connecting);
    assert_eq!(f.connected(100), dock::Action::Nothing);
    assert_eq!(f.state, dock::State::Disconnected);
    f.disconnected();
    assert_eq!(f.connecting(true), dock::Action::Nothing);
    assert!(matches!(f.connected(100), dock::Action::Run(_)));
}

#[test]
fn desktop_sends_only_changed_values() {
    let mut last = 0;
    assert_eq!(desktop::brightness_cmds(&mut last, 10, 0, 1000), Err(()));
    let cmd = desktop::brightness_cmds(&mut last, 300, 42, 5000).unwrap();
    assert_eq!(
        cmd,
        "echo 5000 > /sys/class/backlight/intel_backlight/brightness & ddcutil --bus 14 setvcp 10 & 42echo 0 > /sys/class/leds/tpacpi::kbd_backlight/brightness"
    );
    assert_eq!(last, 42);
    assert_eq!(desktop::brightness_cmds(&mut last, 300, 42, 5000), Err(()));
    let mut f = desktop::Fsm::new();
    f.disconnected();
    assert_eq!(f.connecting(true), desktop::Action::Nothing);
    assert_eq!(f.connected(10, 0, 1000), desktop::Action::Wait(2000));
    assert!(matches!(f.connected(300, 42, 5000), desktop::Action::Run(_)));
    assert_eq!(f.connected(300, 42, 5000), desktop::Action::Wait(2000));
    assert_eq!(f.command_finished(false), desktop::Action::Wait(2000));
    assert_eq!(f.command_finished(true), desktop::Action::Nothing);
}

#[test]
fn sensor_board_rounds() {
    assert_eq!(env::endpoint("192.168.1.50:0", "8080"), "192.168.1.50:8080");
    assert_eq!(env::endpoint("[fe80::1]:0", "80"), "[fe80:80");
    assert_eq!(env::decode_readings(b"7 512 23 40"), Some(vec![7, 512, 23, 40]));
    assert_eq!(env::decode_readings(b"7 x"), None);
    let mut f = env::Fsm::new();
    assert_eq!(f.connecting(None, "8080"), env::Action::Wait(1000));
    assert_eq!(
        f.connecting(Some("10.0.0.9:0"), "8080"),
        env::Action::Connect("10.0.0.9:8080".to_string())
    );
    assert_eq!(f.connect_result(false), env::Action::Wait(2000));
    assert_eq!(f.connect_result(true), env::Action::Nothing);
    assert_eq!(f.state, env::State::Connected);
    assert_eq!(
        f.connected(env::ReadOutcome::Received(Some(vec![1, 512, 23, 40]))),
        env::Action::Store(OfficeAmbient { brightness: 512, temperature: 23, humidity: 40 })
    );
    assert_eq!(f.connected(env::ReadOutcome::Received(None)), env::Action::Nothing);
    assert_eq!(f.state, env::State::Connected);
    assert_eq!(f.connected(env::ReadOutcome::TimedOut), env::Action::Nothing);
    assert_eq!(f.state, env::State::Connecting);
}

#[test]
fn office_sensor_rounds() {
    assert_eq!(office::decode_readings(b"1 2 3 4"), Some(vec![1, 2, 3, 4]));
    assert_eq!(office::decode_readings(b"1 70000"), None);
    let mut f = office::Fsm::new();
    assert_eq!(f.state, office::State::Disconnected);
    f.disconnected();
    f.connect(false);
    assert_eq!(f.state, office::State::Disconnected);
    f.disconnected();
    f.connect(true);
    assert_eq!(
        f.connected(office::ReadOutcome::Received(Some(vec![9, 300, 21, 55]))),
        Some(office::OfficeEnv { brightness: 300, temperature: 21, humidity: 55 })
    );
    assert_eq!(f.connected(office::ReadOutcome::Closed), None);
    assert_eq!(f.state, office::State::Disconnected);
}

#[test]
fn snowdog_monitors() {
    let out = "Display 1\n   I2C bus:  /dev/i2c-4\nDisplay 2\n   I2C bus:  /dev/i2c-12\n";
    assert_eq!(
        snowdog::get_i2c_monitor_numbers(Ok(out.to_string())),
        Ok(vec!["4".to_string(), "12".to_string()])
    );
    assert_eq!(snowdog::get_i2c_monitor_numbers(Err("e".to_string())), Err("e".to_string()));
    assert_eq!(
        snowdog::monitors_command(&vec!["4".to_string(), "12".to_string()], 35),
        "ddcutil --bus 4 setvcp 10 35 & ddcutil --bus 12 setvcp 10 35 & "
    );
    let mut f = snowdog::Fsm::new();
    assert_eq!(f.connecting(true), snowdog::Action::Detect);
    f.detected(Ok(out.to_string()));
    assert_eq!(f.monitor_i2c_ids, vec!["4".to_string(), "12".to_string()]);
    f.detected(Err("ddcutil missing".to_string()));
    assert_eq!(f.monitor_i2c_ids.len(), 2);
    assert_eq!(f.connected(500, false), snowdog::Action::Wait(500));
    assert_eq!(f.last_brightness, 0);
    assert_eq!(f.connected(0, true), snowdog::Action::Wait(500));
    assert_eq!(
        f.connected(500, true),
        snowdog::Action::Run("ddcutil --bus 4 setvcp 10 35 & ddcutil --bus 12 setvcp 10 35 & ".to_string())
    );
    assert_eq!(f.connected(501, true), snowdog::Action::Wait(500));
}

#[test]
fn evening_plug_schedule() {
    assert_eq!(
        lights::connected_at(18, 0),
        vec![
            lights::Step::Request("http://shellyplusplugs-c82e180b59c4/relay/0?turn=on".to_string()),
            lights::Step::Sleep(1000),
            lights::Step::Request("http://shellyplusplugs-c82e18083148/relay/0?turn=on".to_string()),
            lights::Step::Sleep(1000),
            lights::Step::Request("http://shellyplusplugs-fcb4670d686c/relay/0?turn=ofonf".to_string()),
            lights::Step::Sleep(5000),
        ]
    );
    assert_eq!(lights::connected_at(23, 0), vec![lights::Step::Sleep(5000), lights::Step::LivingRoomLightsOff]);
    assert_eq!(lights::connected_at(12, 0), vec![lights::Step::Sleep(5000), lights::Step::Sleep(5000)]);
    let mut f = lights::Fsm::new();
    f.connecting();
    assert_eq!(f.state, lights::State::Connected);
    assert_eq!(f.connected().len(), 2.max(f.connected().len()));
}

fn home(me: bool, she: bool) -> GlobalState {
    GlobalState {
        am_i_home: me,
        is_she_home: she,
        office_env: OfficeAmbient { brightness: 0, temperature: 0, humidity: 0 },
        brightness_auto_control: true,
    }
}

#[test]
fn living_room_schedule() {
    let mut f = living::Fsm::new();
    f.connecting();
    assert_eq!(f.connected(home(false, false)), vec![living::Step::Sleep(5000)]);
    assert_eq!(f.connected_at(18, 30), vec![living::Step::BulbOn, living::Step::Sleep(5000)]);
    assert!(f.are_living_room_lights_on);
    assert_eq!(f.connected_at(18, 30), vec![living::Step::Sleep(5000), living::Step::Sleep(5000)]);
    assert_eq!(f.connected_at(0, 0), vec![living::Step::Sleep(5000), living::Step::HallLightsOff]);
    assert!(!f.are_living_room_lights_on);
    assert_eq!(f.connected(home(false, true)).len(), 2);
}
