use rush::commands::{
    all_light_urls, all_lights_outcome, bulb_url, command_outcome, desktop_status,
    execution_failure, hall_light_urls, living_room_light_urls, relay_url, socket_light_urls, ssh_connect_failure, ssh_destination, system_report,
    vintage_bulb, wakeup_command, LightCmd, PresenceTracker, Reachability, SystemCheck,
    SHELLY_PLUG1_HOSTNAME,
};
use rush::{GlobalState, OfficeAmbient, Pc};

fn pc(mac: Option<&str>) -> Pc {
    Pc { user: "lrm".to_string(), ip: "192.168.1.3".to_string(), mac: mac.map(str::to_string) }
}

#[test]
fn light_urls() {
    assert_eq!(
        bulb_url(&vintage_bulb(), LightCmd::On),
        "http://ShellyVintage-40915157FD76/light/0?turn=on"
    );
    assert_eq!(
        relay_url(SHELLY_PLUG1_HOSTNAME, LightCmd::Off),
        "http://shellyplusplugs-fcb4670e1130/relay/0?turn=off"
    );
    assert_eq!(
        hall_light_urls(LightCmd::On),
        vec![
            "http://shellyplusplugs-fcb4670e1130/relay/0?turn=on".to_string(),
            "http://shellyplusplugs-c82e180a8dd8/relay/0?turn=on".to_string(),
        ]
    );
    let living = living_room_light_urls(LightCmd::Off);
    assert_eq!(living.len(), 3);
    assert_eq!(living[2], "http://shellyplusplugs-fcb4670d686c/relay/0?turn=off");
    let all = all_light_urls(LightCmd::On);
    assert_eq!(all.len(), 6);
    assert_eq!(all[1], "http://shellyplusplugs-e465b8b362f8/relay/0?turn=on");
    assert_eq!(all[4], "http://shellyplusplugs-c82e18083148/relay/0?turn=on");
}

#[test]
fn all_lights_outcome_joins_errors() {
    assert_eq!(all_lights_outcome(&vec![]), Ok(String::new()));
    assert_eq!(all_lights_outcome(&vec![String::new()]), Ok(String::new()));
    assert_eq!(
        all_lights_outcome(&vec!["timeout a".to_string(), "timeout b".to_string()]),
        Err("timeout atimeout b".to_string())
    );
}

#[test]
fn ssh_and_shell_lines() {
    assert_eq!(ssh_destination(&pc(None)), "lrm@192.168.1.3");
    assert_eq!(wakeup_command(&pc(Some("aa:bb"))), Ok("wakeonlan aa:bb".to_string()));
    assert_eq!(
        wakeup_command(&pc(None)),
        Err("Trying to wakup a system without a associated MAC address".to_string())
    );
    assert_eq!(
        ssh_connect_failure("lrm@1.2.3.4", "timeout"),
        "Failed ssh connection to lrm@1.2.3.4. Error: timeout"
    );
    assert_eq!(
        execution_failure("ls", "boom", true),
        "Failed to execute command 'ls': boom"
    );
    assert_eq!(execution_failure("ls", "boom", false), "Failed to execute command. Error: boom");
}

#[test]
fn command_outcome_prefers_stderr() {
    assert_eq!(command_outcome(b"out".to_vec(), b"".to_vec()), Ok("out".to_string()));
    assert_eq!(command_outcome(b"out".to_vec(), b"err".to_vec()), Err("err".to_string()));
    assert_eq!(command_outcome(vec![0xff, b'a'], b"".to_vec()), Ok(String::new()));
    assert_eq!(command_outcome(b"out".to_vec(), vec![0xc3]), Ok("out".to_string()));
    assert_eq!(command_outcome("é".as_bytes().to_vec(), vec![]), Ok("é".to_string()));
}

fn plain_or_red(text: &str) -> [String; 2] {
    [text.to_string(), format!("\x1B[1;31m{text}\x1B[0m")]
}

#[test]
fn system_report_lists_every_computer() {
    let ok = SystemCheck {
        ip: "10.0.0.1".to_string(),
        reachability: Reachability::Online,
        ssh_ok: true,
        pc_text: "pc1".to_string(),
    };
    assert_eq!(
        system_report(&vec![ok]),
        Ok("\nSystem '10.0.0.1' \n\tIs online? online \n\tSSH status: Ok\n".to_string())
    );
    let down = SystemCheck {
        ip: "10.0.0.2".to_string(),
        reachability: Reachability::Offline,
        ssh_ok: true,
        pc_text: "pc2".to_string(),
    };
    assert_eq!(
        system_report(&vec![down]),
        Err("\nSystem '10.0.0.2' \n\tIs online? offline \n\tSSH status: Ok\n".to_string())
    );
    let lost = SystemCheck {
        ip: "host".to_string(),
        reachability: Reachability::LookupFailed("no such host".to_string()),
        ssh_ok: false,
        pc_text: "Pc { .. }".to_string(),
    };
    let report = system_report(&vec![lost]).unwrap_err();
    let mut expected = Vec::new();
    for a in plain_or_red("Failed to lookup PC ") {
        for b in plain_or_red("Failed ssh access, system:") {
            expected.push(format!(
                "\nSystem 'host' \n\tIs online? {a} host: no such host \n\tSSH status: {b} Pc {{ .. }}\n"
            ));
        }
    }
    assert!(expected.contains(&report), "{report:?}");
}

fn state(me: bool, she: bool) -> GlobalState {
    GlobalState {
        am_i_home: me,
        is_she_home: she,
        office_env: OfficeAmbient { brightness: 0, temperature: 0, humidity: 0 },
        brightness_auto_control: true,
    }
}

#[test]
fn away_after_three_scans_without_my_phone() {
    let mut t = PresenceTracker::new();
    let mut st = state(false, false);
    t.observe(&mut st, &Ok("lrm-S22 at 192.168.1.4".to_string()));
    assert!(st.am_i_home);
    let miss: Result<String, String> = Ok("nothing here".to_string());
    t.observe(&mut st, &miss);
    t.observe(&mut st, &miss);
    assert!(st.am_i_home);
    assert_eq!(t.my_misses, 2);
    t.observe(&mut st, &Err("nmap failed".to_string()));
    assert!(st.am_i_home);
    t.observe(&mut st, &miss);
    assert!(!st.am_i_home);
    assert_eq!(t.my_misses, 0);
    t.observe(&mut st, &miss);
    assert_eq!(t.my_misses, 0);
}

#[test]
fn a_sighting_resets_the_count() {
    let mut t = PresenceTracker::new();
    let mut st = state(true, false);
    let miss: Result<String, String> = Ok(String::new());
    t.observe(&mut st, &miss);
    t.observe(&mut st, &miss);
    t.observe(&mut st, &Ok("lrm-S22".to_string()));
    assert_eq!(t.my_misses, 0);
    t.observe(&mut st, &miss);
    t.observe(&mut st, &miss);
    assert!(st.am_i_home);
}

#[test]
fn her_presence_follows_her_phone() {
    let mut t = PresenceTracker::new();
    let mut st = state(true, false);
    t.observe(&mut st, &Ok("lrm-S22 OPPO-A3s".to_string()));
    assert!(st.is_she_home);
    let only_me: Result<String, String> = Ok("lrm-S22".to_string());
    for _ in 0..100 {
        t.observe(&mut st, &only_me);
    }
    assert!(st.is_she_home);
    assert_eq!(t.her_misses, 100);
    t.observe(&mut st, &only_me);
    assert!(!st.is_she_home);
    assert_eq!(t.her_misses, 0);
}

#[test]
fn her_count_resets_when_her_phone_is_seen() {
    let mut t = PresenceTracker::new();
    let mut st = state(true, true);
    let only_me: Result<String, String> = Ok("lrm-S22".to_string());
    for _ in 0..50 {
        t.observe(&mut st, &only_me);
    }
    assert_eq!(t.her_misses, 50);
    t.observe(&mut st, &Ok("lrm-S22 OPPO-A3s".to_string()));
    assert_eq!(t.her_misses, 0);
    assert!(st.is_she_home);
}

#[test]
fn system_report_emphasises_failures_on_a_colour_terminal() {
    colored::control::set_override(true);
    let lost = SystemCheck {
        ip: "h".to_string(),
        reachability: Reachability::LookupFailed("e".to_string()),
        ssh_ok: true,
        pc_text: String::new(),
    };
    assert_eq!(
        system_report(&vec![lost]),
        Err("\nSystem 'h' \n\tIs online? \x1B[1;31mFailed to lookup PC \x1B[0m h: e \n\tSSH status: Ok\n".to_string())
    );
}

#[test]
fn socket_urls_switch_plugs_one_and_two() {
    assert_eq!(
        socket_light_urls(LightCmd::On),
        vec![
            "http://shellyplusplugs-fcb4670e1130/relay/0?turn=on".to_string(),
            "http://shellyplusplugs-e465b8b362f8/relay/0?turn=on".to_string(),
        ]
    );
    assert_eq!(
        socket_light_urls(LightCmd::Off)[1],
        "http://shellyplusplugs-e465b8b362f8/relay/0?turn=off"
    );
}

#[test]
fn desktop_status_replies() {
    let os = Some("Linux 6.8.0\n".to_string());
    assert_eq!(
        desktop_status("192.168.1.20", &Reachability::Online, &os),
        Ok("Desktop '192.168.1.20' is online, running Linux 6.8.0\n".to_string())
    );
    assert_eq!(
        desktop_status("192.168.1.20", &Reachability::Online, &None),
        Ok("Desktop '192.168.1.20' is online, operating system unknown".to_string())
    );
    assert_eq!(
        desktop_status("192.168.1.20", &Reachability::Offline, &None),
        Err("Desktop '192.168.1.20' is offline".to_string())
    );
    assert_eq!(
        desktop_status("snowdog", &Reachability::LookupFailed("no such host".to_string()), &None),
        Err("Failed to lookup PC snowdog: no such host".to_string())
    );
}
