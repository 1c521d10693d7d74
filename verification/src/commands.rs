//! The commands the service sends to the lights and the computers: their
//! URLs and shell lines, how their outcomes are judged, and the rules that
//! turn network scans into the presence flags.
use colored::Colorize;
use vstd::prelude::*;
use vstd::utf8::*;
use crate::text::{contains_seq, contains_text, has_prefix, has_suffix, lemma_not_suffix_at};
use crate::{GlobalState, Pc};

verus! {

/// Monitor brightness (DDC/CI scale 0..=100) for a given ambient brightness:
/// nothing up to the darkness threshold of 50, then 7% of the reading
/// rounded down, capped at 100.
pub open spec fn ddc_mon_brightness(env_brightness: int) -> int {
    if env_brightness <= 50 {
        0
    } else if env_brightness * 7 / 100 > 100 {
        100
    } else {
        env_brightness * 7 / 100
    }
}

/// Computes the DDC monitor brightness for the ambient brightness `env_brightness`.
pub fn calculate_ddc_mon_brightness(env_brightness: u32) -> (r: u32)
    ensures
        r == ddc_mon_brightness(env_brightness as int),
        r <= 100,
{
    if env_brightness <= 50 {
        return 0;
    }
    let scaled: u64 = env_brightness as u64 * 7 / 100;
    if scaled > 100 {
        100
    } else {
        scaled as u32
    }
}

/// Law: the monitor brightness is a level between 0 and 100 that never
/// falls as the room gets brighter, is 0 up to the darkness threshold of 50,
/// and above it is the whole part of 7% of the reading until that reaches
/// the cap.
pub proof fn lemma_ddc_brightness_rule(a: int, b: int)
    ensures
        0 <= ddc_mon_brightness(a) <= 100,
        a <= b ==> ddc_mon_brightness(a) <= ddc_mon_brightness(b),
        a <= 50 ==> ddc_mon_brightness(a) == 0,
        a > 50 && 7 * a < 10100 ==> ddc_mon_brightness(a) * 100 <= 7 * a < (ddc_mon_brightness(a)
            + 1) * 100,
        a > 50 && 7 * a >= 10100 ==> ddc_mon_brightness(a) == 100,
{
    if a > 50 {
        assert(0 <= a * 7 / 100) by (nonlinear_arith)
            requires
                a > 50,
        ;
    }
    if a <= b && a > 50 {
        assert(a * 7 / 100 <= b * 7 / 100) by (nonlinear_arith)
            requires
                a <= b,
                a > 50,
        ;
    }
    if a > 50 {
        assert((a * 7 / 100) * 100 <= 7 * a < (a * 7 / 100 + 1) * 100) by (nonlinear_arith)
            requires
                a > 50,
        ;
        assert(7 * a >= 10100 ==> a * 7 / 100 > 100) by (nonlinear_arith)
            requires
                a > 50,
        ;
    }
}

/// Keyboard backlight level (0 off, 1 dim, 2 bright) for an ambient
/// brightness: dim below 100, bright from 100 to 249, off from 250 up.
pub open spec fn kbd_level(env_brightness: int) -> int {
    if env_brightness >= 250 {
        0
    } else if env_brightness >= 100 {
        2
    } else {
        1
    }
}

/// Keyboard backlight level for the ambient brightness `env_brightness`.
pub fn keyboard_backlight_level(env_brightness: u32) -> (r: u32)
    ensures
        r == kbd_level(env_brightness as int),
{
    if env_brightness >= 250 {
        0
    } else if env_brightness >= 100 {
        2
    } else {
        1
    }
}

/// A smart bulb, known by its host name.
pub struct Bulb {
    pub hostname: &'static str,
}

/// The vintage bulb of the living room.
pub fn vintage_bulb() -> (b: Bulb)
    ensures
        b.hostname@ == "ShellyVintage-40915157FD76"@,
{
    Bulb { hostname: "ShellyVintage-40915157FD76" }
}

pub const SHELLY_PLUG1_HOSTNAME: &'static str = "shellyplusplugs-fcb4670e1130";
pub const SHELLY_PLUG2_HOSTNAME: &'static str = "shellyplusplugs-e465b8b362f8";
pub const SHELLY_PLUG3_HOSTNAME: &'static str = "shellyplusplugs-c82e180a8dd8";
pub const SHELLY_PLUG4_HOSTNAME: &'static str = "shellyplusplugs-c82e180b59c4";
pub const SHELLY_PLUG5_HOSTNAME: &'static str = "shellyplusplugs-c82e18083148";
pub const SHELLY_PLUG6_HOSTNAME: &'static str = "shellyplusplugs-fcb4670d686c";

/// The host names of all smart plugs, in order.
pub open spec fn shelly_plugs() -> Seq<Seq<char>> {
    seq![
        SHELLY_PLUG1_HOSTNAME@,
        SHELLY_PLUG2_HOSTNAME@,
        SHELLY_PLUG3_HOSTNAME@,
        SHELLY_PLUG4_HOSTNAME@,
        SHELLY_PLUG5_HOSTNAME@,
        SHELLY_PLUG6_HOSTNAME@,
    ]
}

/// Switching a light on or off.
#[derive(PartialEq, Eq, Structural, Clone, Copy, Debug)]
pub enum LightCmd {
    On,
    Off,
}

/// The word the Shelly HTTP API uses for a switch command.
pub open spec fn switch_word(cmd: LightCmd) -> Seq<char> {
    match cmd {
        LightCmd::On => "on"@,
        LightCmd::Off => "off"@,
    }
}

fn switch_str(cmd: LightCmd) -> (r: &'static str)
    ensures
        r@ == switch_word(cmd),
{
    match cmd {
        LightCmd::On => "on",
        LightCmd::Off => "off",
    }
}

/// URL that switches a bulb's light.
pub open spec fn bulb_url_of(hostname: Seq<char>, cmd: LightCmd) -> Seq<char> {
    "http://"@ + hostname + "/light/0?turn="@ + switch_word(cmd)
}

/// URL that switches a plug's relay.
pub open spec fn relay_url_of(hostname: Seq<char>, cmd: LightCmd) -> Seq<char> {
    "http://"@ + hostname + "/relay/0?turn="@ + switch_word(cmd)
}

/// Law: a switch request ends in `turn=on` exactly when it switches on, and
/// in `turn=off` exactly when it switches off, for plugs and bulbs alike.
pub proof fn lemma_switch_urls_say_their_direction(hostname: Seq<char>, cmd: LightCmd)
    ensures
        has_suffix(relay_url_of(hostname, cmd), "turn=on"@) <==> cmd == LightCmd::On,
        has_suffix(relay_url_of(hostname, cmd), "turn=off"@) <==> cmd == LightCmd::Off,
        has_suffix(bulb_url_of(hostname, cmd), "turn=on"@) <==> cmd == LightCmd::On,
        has_suffix(bulb_url_of(hostname, cmd), "turn=off"@) <==> cmd == LightCmd::Off,
        has_prefix(relay_url_of(hostname, cmd), "http://"@ + hostname + "/relay/0?"@),
        has_prefix(bulb_url_of(hostname, cmd), "http://"@ + hostname + "/light/0?"@),
{
    reveal_strlit("turn=on");
    reveal_strlit("turn=off");
    reveal_strlit("/relay/0?turn=");
    reveal_strlit("/light/0?turn=");
    reveal_strlit("/relay/0?");
    reveal_strlit("/light/0?");
    reveal_strlit("on");
    reveal_strlit("off");
    reveal_strlit("turn=");
    assert("/relay/0?turn="@ =~= "/relay/0?"@ + "turn="@);
    assert("/light/0?turn="@ =~= "/light/0?"@ + "turn="@);
    let r = relay_url_of(hostname, cmd);
    let b = bulb_url_of(hostname, cmd);
    assert(r =~= ("http://"@ + hostname + "/relay/0?"@) + "turn="@ + switch_word(cmd));
    assert(b =~= ("http://"@ + hostname + "/light/0?"@) + "turn="@ + switch_word(cmd));
    match cmd {
        LightCmd::On => {
            lemma_not_suffix_at(r, "turn=off"@, 2);
            lemma_not_suffix_at(b, "turn=off"@, 2);
        },
        LightCmd::Off => {
            lemma_not_suffix_at(r, "turn=on"@, 2);
            lemma_not_suffix_at(b, "turn=on"@, 2);
        },
    }
}

/// The request URL that switches `bulb` (what `ctrl_bulb` requests).
pub fn bulb_url(bulb: &Bulb, cmd: LightCmd) -> (r: String)
    ensures
        r@ == bulb_url_of(bulb.hostname@, cmd),
{
    let mut url = String::from_str("http://");
    url.append(bulb.hostname);
    url.append("/light/0?turn=");
    url.append(switch_str(cmd));
    url
}

/// The request URL that switches the relay of the plug `hostname`.
pub fn relay_url(hostname: &str, cmd: LightCmd) -> (r: String)
    ensures
        r@ == relay_url_of(hostname@, cmd),
{
    let mut url = String::from_str("http://");
    url.append(hostname);
    url.append("/relay/0?turn=");
    url.append(switch_str(cmd));
    url
}

/// The requests that switch the hall lights, in the order they are sent
/// (one second apart; the reply to the last one is reported).
pub fn hall_light_urls(cmd: LightCmd) -> (r: Vec<String>)
    ensures
        r@.len() == 2,
        r@[0]@ == relay_url_of(SHELLY_PLUG1_HOSTNAME@, cmd),
        r@[1]@ == relay_url_of(SHELLY_PLUG3_HOSTNAME@, cmd),
{
    vec![relay_url(SHELLY_PLUG1_HOSTNAME, cmd), relay_url(SHELLY_PLUG3_HOSTNAME, cmd)]
}

/// The requests that switch the living-room lights, in the order they are
/// sent (one second apart; the reply to the first one is reported).
pub fn living_room_light_urls(cmd: LightCmd) -> (r: Vec<String>)
    ensures
        r@.len() == 3,
        r@[0]@ == relay_url_of(SHELLY_PLUG4_HOSTNAME@, cmd),
        r@[1]@ == relay_url_of(SHELLY_PLUG5_HOSTNAME@, cmd),
        r@[2]@ == relay_url_of(SHELLY_PLUG6_HOSTNAME@, cmd),
{
    vec![
        relay_url(SHELLY_PLUG4_HOSTNAME, cmd),
        relay_url(SHELLY_PLUG5_HOSTNAME, cmd),
        relay_url(SHELLY_PLUG6_HOSTNAME, cmd),
    ]
}

/// The requests that switch the sockets (plugs 1 and 2), in the order they
/// are sent (the reply to the last one is reported).
pub fn socket_light_urls(cmd: LightCmd) -> (r: Vec<String>)
    ensures
        r@.len() == 2,
        r@[0]@ == relay_url_of(SHELLY_PLUG1_HOSTNAME@, cmd),
        r@[1]@ == relay_url_of(SHELLY_PLUG2_HOSTNAME@, cmd),
{
    vec![relay_url(SHELLY_PLUG1_HOSTNAME, cmd), relay_url(SHELLY_PLUG2_HOSTNAME, cmd)]
}

/// The requests that switch every plug, one per plug in `shelly_plugs()` order.
pub fn all_light_urls(cmd: LightCmd) -> (r: Vec<String>)
    ensures
        r@.len() == shelly_plugs().len(),
        forall|i: int| 0 <= i < r@.len() ==> #[trigger] r@[i]@ == relay_url_of(shelly_plugs()[i], cmd),
{
    let r = vec![
        relay_url(SHELLY_PLUG1_HOSTNAME, cmd),
        relay_url(SHELLY_PLUG2_HOSTNAME, cmd),
        relay_url(SHELLY_PLUG3_HOSTNAME, cmd),
        relay_url(SHELLY_PLUG4_HOSTNAME, cmd),
        relay_url(SHELLY_PLUG5_HOSTNAME, cmd),
        relay_url(SHELLY_PLUG6_HOSTNAME, cmd),
    ];
    assert forall|i: int| 0 <= i < r@.len() implies #[trigger] r@[i]@ == relay_url_of(shelly_plugs()[i], cmd) by {
        if i == 0 {} else if i == 1 {} else if i == 2 {} else if i == 3 {} else if i == 4 {} else {}
    }
    r
}

/// All texts of `parts`, one after the other.
pub open spec fn joined(parts: Seq<Seq<char>>) -> Seq<char>
    decreases parts.len(),
{
    if parts.len() == 0 {
        seq![]
    } else {
        joined(parts.drop_last()) + parts.last()
    }
}

/// The outcome of switching every plug, given the error texts of the
/// requests that failed: `Ok` with an empty text when these texts add up to
/// nothing, else `Err` with all of them one after the other.
pub fn all_lights_outcome(errors: &Vec<String>) -> (r: Result<String, String>)
    ensures
        joined(errors@.map_values(|e: String| e@)).len() == 0 ==> r is Ok && r->Ok_0@.len() == 0,
        joined(errors@.map_values(|e: String| e@)).len() > 0 ==> r is Err && r->Err_0@ == joined(
            errors@.map_values(|e: String| e@),
        ),
{
    let ghost es = errors@.map_values(|e: String| e@);
    let mut all = String::new();
    let mut i: usize = 0;
    while i < errors.len()
        invariant
            i <= errors@.len(),
            es == errors@.map_values(|e: String| e@),
            all@ == joined(es.take(i as int)),
        decreases errors@.len() - i,
    {
        all.append(errors[i].as_str());
        assert(es.take(i + 1).drop_last() =~= es.take(i as int));
        i += 1;
    }
    assert(es.take(errors@.len() as int) =~= es);
    if all.as_str().is_empty() {
        Ok(all)
    } else {
        Err(all)
    }
}

/// `user@ip`, the SSH destination of a computer.
pub open spec fn ssh_destination_of(user: Seq<char>, ip: Seq<char>) -> Seq<char> {
    user + "@"@ + ip
}

/// The SSH destination `user@ip` of `pc`.
pub fn ssh_destination(pc: &Pc) -> (r: String)
    ensures
        r@ == ssh_destination_of(pc.user@, pc.ip@),
{
    let mut s = pc.user.clone();
    s.append("@");
    s.append(pc.ip.as_str());
    s
}

/// Shell line that looks up the public IPv4 address of the house.
pub const IPV4_LOOKUP_COMMAND: &'static str = "dig @resolver1.opendns.com A myip.opendns.com +short -4";

/// Shell line that looks up the public IPv6 address of the house.
pub const IPV6_LOOKUP_COMMAND: &'static str = "dig @resolver1.opendns.com AAAA myip.opendns.com +short -6";

/// Shell line, run over SSH, that names the operating system and its release.
pub const OS_QUERY_COMMAND: &'static str = "uname -sr";

/// Shell line that suspends a computer.
pub const SUSPEND_COMMAND: &'static str = "sudo systemctl suspend";

/// Shell line that lists the devices on the local network.
pub const HOME_SCAN_COMMAND: &'static str = "nmap -T5 -sn 192.168.1.0/24";

/// The shell line that wakes `pc` over the LAN, or the error when its MAC
/// address is unknown.
pub fn wakeup_command(pc: &Pc) -> (r: Result<String, String>)
    ensures
        match pc.mac {
            Some(mac) => r is Ok && r->Ok_0@ == "wakeonlan "@ + mac@,
            None => r is Err && r->Err_0@
                == "Trying to wakup a system without a associated MAC address"@,
        },
{
    match &pc.mac {
        Some(mac) => {
            let mut s = String::from_str("wakeonlan ");
            s.append(mac.as_str());
            Ok(s)
        },
        None => Err(String::from_str("Trying to wakup a system without a associated MAC address")),
    }
}

/// The error reported when an SSH connection cannot be opened.
pub fn ssh_connect_failure(destination: &str, error: &str) -> (r: String)
    ensures
        r@ == "Failed ssh connection to "@ + destination@ + ". Error: "@ + error@,
{
    let mut s = String::from_str("Failed ssh connection to ");
    s.append(destination);
    s.append(". Error: ");
    s.append(error);
    s
}

/// The error reported when a command cannot be started: over SSH it names
/// the command, locally it does not.
pub fn execution_failure(command: &str, error: &str, over_ssh: bool) -> (r: String)
    ensures
        over_ssh ==> r@ == "Failed to execute command '"@ + command@ + "': "@ + error@,
        !over_ssh ==> r@ == "Failed to execute command. Error: "@ + error@,
{
    if over_ssh {
        let mut s = String::from_str("Failed to execute command '");
        s.append(command);
        s.append("': ");
        s.append(error);
        s
    } else {
        let mut s = String::from_str("Failed to execute command. Error: ");
        s.append(error);
        s
    }
}

/// The text of a command's output stream: the bytes decoded as UTF-8, or
/// nothing when they are not valid UTF-8.
pub open spec fn output_text(bytes: Seq<u8>) -> Seq<char> {
    if valid_utf8(bytes) {
        decode_utf8(bytes)
    } else {
        seq![]
    }
}

/// Decodes `bytes` with `String::from_utf8`. Trusted: std documents that it
/// fails exactly on invalid UTF-8 and otherwise holds the decoded text.
#[verifier::external_body]
fn utf8_string(bytes: Vec<u8>) -> (r: Option<String>)
    ensures
        r is Some <==> valid_utf8(bytes@),
        r is Some ==> r->0@ == decode_utf8(bytes@),
{
    String::from_utf8(bytes).ok()
}

/// Judges a finished command by its output streams: an error with the
/// error-stream text when that text is not empty, else the output text.
pub fn command_outcome(stdout: Vec<u8>, stderr: Vec<u8>) -> (r: Result<String, String>)
    ensures
        output_text(stderr@).len() > 0 ==> r is Err && r->Err_0@ == output_text(stderr@),
        output_text(stderr@).len() == 0 ==> r is Ok && r->Ok_0@ == output_text(stdout@),
{
    let out = match utf8_string(stdout) {
        Some(s) => s,
        None => String::new(),
    };
    let err = match utf8_string(stderr) {
        Some(s) => s,
        None => String::new(),
    };
    if !err.as_str().is_empty() {
        return Err(err);
    }
    Ok(out)
}

/// No escape character in `s`.
pub open spec fn no_escape(s: Seq<char>) -> bool {
    forall|i: int| 0 <= i < s.len() ==> s[i] != '\x1B'
}

/// `s` as it may be shown for emphasis: unchanged, or in bold red.
pub open spec fn emphasized(r: Seq<char>, s: Seq<char>) -> bool {
    r == s || r == "\x1B[1;31m"@ + s + "\x1B[0m"@
}

/// `text.red().bold()` of the colored crate, rendered to a string. Trusted:
/// colored writes the text unchanged when colouring is off (by the
/// environment or the terminal), else wrapped in the bold red escape
/// sequence and the reset sequence; which of the two is not stated.
#[verifier::external_body]
fn bold_red(text: &str) -> (r: String)
    requires
        no_escape(text@),
    ensures
        emphasized(r@, text@),
{
    text.red().bold().to_string()
}

/// Whether a computer answered, as far as the reachability probe could tell.
pub enum Reachability {
    Online,
    Offline,
    /// The host name could not be resolved; holds the resolver's error.
    LookupFailed(String),
}

/// The reply to a desktop status request, given whether the desktop at `ip`
/// answered and, when it is online, the operating system it reported over
/// SSH (`None` when that could not be asked): `Ok` when online, else `Err`.
pub fn desktop_status(ip: &str, reachability: &Reachability, os: &Option<String>) -> (r: Result<
    String,
    String,
>)
    ensures
        match reachability {
            Reachability::Online => r is Ok && r->Ok_0@ == "Desktop '"@ + ip@ + "' is online, "@
                + match os {
                Some(o) => "running "@ + o@,
                None => "operating system unknown"@,
            },
            Reachability::Offline => r is Err && r->Err_0@ == "Desktop '"@ + ip@ + "' is offline"@,
            Reachability::LookupFailed(e) => r is Err && r->Err_0@ == "Failed to lookup PC "@ + ip@
                + ": "@ + e@,
        },
{
    match reachability {
        Reachability::Online => {
            let mut s = String::from_str("Desktop '");
            s.append(ip);
            s.append("' is online, ");
            match os {
                Some(o) => {
                    s.append("running ");
                    s.append(o.as_str());
                },
                None => {
                    s.append("operating system unknown");
                },
            }
            Ok(s)
        },
        Reachability::Offline => {
            let mut s = String::from_str("Desktop '");
            s.append(ip);
            s.append("' is offline");
            Err(s)
        },
        Reachability::LookupFailed(e) => {
            let mut s = String::from_str("Failed to lookup PC ");
            s.append(ip);
            s.append(": ");
            s.append(e.as_str());
            Err(s)
        },
    }
}

/// What was learnt about one computer during the start-up check.
pub struct SystemCheck {
    pub ip: String,
    pub reachability: Reachability,
    pub ssh_ok: bool,
    /// How the computer is shown when its SSH access fails.
    pub pc_text: String,
}

/// Whether the check of one computer found a fault.
pub open spec fn check_failed(c: SystemCheck) -> bool {
    !(c.reachability is Online) || !c.ssh_ok
}

/// The report entry of one computer, with `online` and `ssh` the texts of
/// its two findings.
pub open spec fn entry_of(ip: Seq<char>, online: Seq<char>, ssh: Seq<char>) -> Seq<char> {
    "\nSystem '"@ + ip + "' \n\tIs online? "@ + online + " \n\tSSH status: "@ + ssh + "\n"@
}

/// The report entry of one check (for every way the emphasis may be rendered).
pub open spec fn entry_matches(e: Seq<char>, c: SystemCheck) -> bool {
    exists|online: Seq<char>, ssh: Seq<char>|
        {
            &&& #[trigger] entry_of(c.ip@, online, ssh) == e
            &&& match c.reachability {
                Reachability::Online => online == "online"@,
                Reachability::Offline => online == "offline"@,
                Reachability::LookupFailed(err) => exists|head: Seq<char>|
                    emphasized(head, "Failed to lookup PC "@) && online == head + " "@ + c.ip@
                        + ": "@ + err@,
            }
            &&& if c.ssh_ok {
                ssh == "Ok"@
            } else {
                exists|head: Seq<char>|
                    emphasized(head, "Failed ssh access, system:"@) && ssh == head + " "@
                        + c.pc_text@
            }
        }
}

/// `entries` are the report entries of `checks`, one for one.
pub open spec fn entries_match(entries: Seq<Seq<char>>, checks: Seq<SystemCheck>) -> bool {
    &&& entries.len() == checks.len()
    &&& forall|i: int| 0 <= i < checks.len() ==> #[trigger] entry_matches(entries[i], checks[i])
}

fn report_entry(c: &SystemCheck) -> (r: String)
    ensures
        entry_matches(r@, *c),
{
    proof {
        reveal_strlit("Failed to lookup PC ");
        reveal_strlit("Failed ssh access, system:");
    }
    let online = match &c.reachability {
        Reachability::Online => String::from_str("online"),
        Reachability::Offline => String::from_str("offline"),
        Reachability::LookupFailed(err) => {
            let mut s = bold_red("Failed to lookup PC ");
            s.append(" ");
            s.append(c.ip.as_str());
            s.append(": ");
            s.append(err.as_str());
            s
        },
    };
    let ssh = if c.ssh_ok {
        String::from_str("Ok")
    } else {
        let mut s = bold_red("Failed ssh access, system:");
        s.append(" ");
        s.append(c.pc_text.as_str());
        s
    };
    let mut r = String::from_str("\nSystem '");
    r.append(c.ip.as_str());
    r.append("' \n\tIs online? ");
    r.append(online.as_str());
    r.append(" \n\tSSH status: ");
    r.append(ssh.as_str());
    r.append("\n");
    assert(r@ =~= entry_of(c.ip@, online@, ssh@));
    r
}

/// The start-up report on the computers: one entry per check, in order;
/// `Err` when any check found a fault, `Ok` otherwise.
pub fn system_report(checks: &Vec<SystemCheck>) -> (r: Result<String, String>)
    ensures
        (r is Err) == exists|i: int| 0 <= i < checks@.len() && #[trigger] check_failed(checks@[i]),
        exists|entries: Seq<Seq<char>>|
            #[trigger] entries_match(entries, checks@) && match r {
                Ok(s) => s@ == joined(entries),
                Err(s) => s@ == joined(entries),
            },
{
    let mut all = String::new();
    let mut failed = false;
    let ghost mut entries: Seq<Seq<char>> = seq![];
    let mut i: usize = 0;
    while i < checks.len()
        invariant
            i <= checks@.len(),
            entries.len() == i,
            forall|j: int| 0 <= j < i ==> #[trigger] entry_matches(entries[j], checks@[j]),
            all@ == joined(entries),
            failed == exists|j: int| 0 <= j < i && #[trigger] check_failed(checks@[j]),
        decreases checks@.len() - i,
    {
        let c = &checks[i];
        let e = report_entry(c);
        let this_failed = match c.reachability {
            Reachability::Online => !c.ssh_ok,
            _ => true,
        };
        assert(this_failed == check_failed(checks@[i as int]));
        if this_failed {
            failed = true;
        }
        all.append(e.as_str());
        proof {
            let old_entries = entries;
            entries = entries.push(e@);
            assert(entries.drop_last() =~= old_entries);
            assert(entry_matches(entries[i as int], checks@[i as int]));
        }
        i += 1;
    }
    assert(entries_match(entries, checks@));
    if failed {
        Err(all)
    } else {
        Ok(all)
    }
}

/// Scans in a row without my phone after which I count as away.
pub const MISSED_SCANS_BEFORE_AWAY: i16 = 3;

/// She counts as away once the scans in a row without her phone are more
/// than this.
pub const HER_MISSED_SCANS_LIMIT: i16 = 100;

/// Network name of my phone.
pub const MY_PHONE: &'static str = "lrm-S22";

/// Network name of her phone.
pub const HER_PHONE: &'static str = "OPPO-A3s";

/// Counts of the scans in a row that missed each phone.
#[derive(Clone, Copy, Debug)]
pub struct PresenceTracker {
    pub my_misses: i16,
    pub her_misses: i16,
}

/// What one network scan does to the counters and the presence flags.
/// `scan` is the scan's output, or `None` when the scan failed (which
/// changes nothing but the away rule below). A phone seen in the output
/// marks its owner home and clears the count; a phone missing adds one to
/// the count when the state read before the scan said I was home (both
/// counts go by my flag). Then, if I am marked home and my count reached
/// `MISSED_SCANS_BEFORE_AWAY`, I am marked away and my count cleared; if
/// she is marked home and her count exceeds `HER_MISSED_SCANS_LIMIT`, she
/// is marked away and her count cleared.
pub open spec fn presence_after(t: PresenceTracker, st: GlobalState, scan: Option<Seq<char>>) -> (
    PresenceTracker,
    GlobalState,
) {
    let was_home = st.am_i_home;
    let (me1, my1) = match scan {
        Some(out) => if contains_seq(out, MY_PHONE@) {
            (true, 0i16)
        } else if was_home {
            (st.am_i_home, t.my_misses.wrapping_add(1))
        } else {
            (st.am_i_home, t.my_misses)
        },
        None => (st.am_i_home, t.my_misses),
    };
    let (she1, her1) = match scan {
        Some(out) => if contains_seq(out, HER_PHONE@) {
            (true, 0i16)
        } else if was_home {
            (st.is_she_home, t.her_misses.wrapping_add(1))
        } else {
            (st.is_she_home, t.her_misses)
        },
        None => (st.is_she_home, t.her_misses),
    };
    let (me2, my2) = if me1 && my1 >= MISSED_SCANS_BEFORE_AWAY {
        (false, 0i16)
    } else {
        (me1, my1)
    };
    let (she2, her2) = if she1 && her1 > HER_MISSED_SCANS_LIMIT {
        (false, 0i16)
    } else {
        (she1, her1)
    };
    (
        PresenceTracker { my_misses: my2, her_misses: her2 },
        GlobalState { am_i_home: me2, is_she_home: she2, ..st },
    )
}

/// The scan as the presence rule reads it.
pub open spec fn scan_view(scan: &Result<String, String>) -> Option<Seq<char>> {
    match scan {
        Ok(out) => Some(out@),
        Err(_) => None,
    }
}

/// My count stays below my limit, and is non-zero only while I am home;
/// while she is marked home her count does not exceed her limit.
pub open spec fn presence_wf(t: PresenceTracker, st: GlobalState) -> bool {
    &&& 0 <= t.my_misses < MISSED_SCANS_BEFORE_AWAY
    &&& t.my_misses > 0 ==> st.am_i_home
    &&& st.is_she_home ==> 0 <= t.her_misses <= HER_MISSED_SCANS_LIMIT
}

impl PresenceTracker {
    /// No scan missed yet.
    pub fn new() -> (t: PresenceTracker)
        ensures
            t.my_misses == 0,
            t.her_misses == 0,
    {
        PresenceTracker { my_misses: 0, her_misses: 0 }
    }

    /// Applies the result of one network scan (the output of
    /// `HOME_SCAN_COMMAND`, or its error) to the counters and to the
    /// presence flags of `state`.
    pub fn observe(&mut self, state: &mut GlobalState, scan: &Result<String, String>)
        ensures
            (*final(self), *final(state)) == presence_after(*old(self), *old(state), scan_view(scan)),
    {
        let was_home = state.am_i_home;
        match scan {
            Ok(out) => {
                if contains_text(out.as_str(), MY_PHONE) {
                    state.am_i_home = true;
                    self.my_misses = 0;
                } else if was_home {
                    self.my_misses = self.my_misses.wrapping_add(1);
                }
                if contains_text(out.as_str(), HER_PHONE) {
                    state.is_she_home = true;
                    self.her_misses = 0;
                } else if was_home {
                    self.her_misses = self.her_misses.wrapping_add(1);
                }
            },
            Err(_) => {},
        }
        if state.am_i_home && self.my_misses >= MISSED_SCANS_BEFORE_AWAY {
            state.am_i_home = false;
            self.my_misses = 0;
        }
        if state.is_she_home && self.her_misses > HER_MISSED_SCANS_LIMIT {
            state.is_she_home = false;
            self.her_misses = 0;
        }
    }
}

/// The counters and flags after the scans `scans`, one after the other.
pub open spec fn presence_run(t: PresenceTracker, st: GlobalState, scans: Seq<Option<Seq<char>>>) -> (
    PresenceTracker,
    GlobalState,
)
    decreases scans.len(),
{
    if scans.len() == 0 {
        (t, st)
    } else {
        let (t1, st1) = presence_run(t, st, scans.drop_last());
        presence_after(t1, st1, scans.last())
    }
}

/// A scan that ran and did not see my phone.
pub open spec fn misses_me(scan: Option<Seq<char>>) -> bool {
    scan matches Some(out) && !contains_seq(out, MY_PHONE@)
}

/// The presence rule keeps the counts within `presence_wf`.
pub proof fn lemma_presence_wf(t: PresenceTracker, st: GlobalState, scan: Option<Seq<char>>)
    requires
        presence_wf(t, st),
    ensures
        presence_wf(presence_after(t, st, scan).0, presence_after(t, st, scan).1),
{
}

/// Law: I am marked away only by a scan that ran without seeing my phone,
/// after two earlier scans in a row that had missed it too.
pub proof fn lemma_away_only_after_three_misses(
    t: PresenceTracker,
    st: GlobalState,
    scan: Option<Seq<char>>,
)
    requires
        presence_wf(t, st),
        st.am_i_home,
        !presence_after(t, st, scan).1.am_i_home,
    ensures
        misses_me(scan),
        t.my_misses == MISSED_SCANS_BEFORE_AWAY - 1,
{
}

/// Law: while I am home, scans that miss my phone are counted one by one,
/// and the third of them in a row marks me away.
pub proof fn lemma_misses_count(t: PresenceTracker, st: GlobalState, scans: Seq<Option<Seq<char>>>)
    requires
        st.am_i_home,
        t.my_misses == 0,
        scans.len() <= MISSED_SCANS_BEFORE_AWAY,
        forall|i: int| 0 <= i < scans.len() ==> #[trigger] misses_me(scans[i]),
    ensures
        scans.len() < MISSED_SCANS_BEFORE_AWAY ==> presence_run(t, st, scans).1.am_i_home
            && presence_run(t, st, scans).0.my_misses == scans.len(),
        scans.len() == MISSED_SCANS_BEFORE_AWAY ==> !presence_run(t, st, scans).1.am_i_home
            && presence_run(t, st, scans).0.my_misses == 0,
    decreases scans.len(),
{
    if scans.len() > 0 {
        let prefix = scans.drop_last();
        assert forall|i: int| 0 <= i < prefix.len() implies #[trigger] misses_me(prefix[i]) by {
            assert(prefix[i] == scans[i]);
        }
        lemma_misses_count(t, st, prefix);
        assert(misses_me(scans[scans.len() - 1]));
    }
}

/// Law: she is marked away only by a scan that ran without seeing her phone
/// while I was marked home, when her count had already reached
/// `HER_MISSED_SCANS_LIMIT`.
pub proof fn lemma_her_away_only_after_limit(
    t: PresenceTracker,
    st: GlobalState,
    scan: Option<Seq<char>>,
)
    requires
        presence_wf(t, st),
        st.is_she_home,
        !presence_after(t, st, scan).1.is_she_home,
    ensures
        scan matches Some(out) && !contains_seq(out, HER_PHONE@),
        st.am_i_home,
        t.her_misses == HER_MISSED_SCANS_LIMIT,
{
}

/// Law: a scan that sees her phone marks her home and clears her count,
/// whatever my own flag and the counts were before.
pub proof fn lemma_her_phone_seen_means_home(t: PresenceTracker, st: GlobalState, out: Seq<char>)
    requires
        contains_seq(out, HER_PHONE@),
    ensures
        presence_after(t, st, Some(out)).1.is_she_home,
        presence_after(t, st, Some(out)).0.her_misses == 0,
{
}

/// Law: while we are both marked home, a scan that misses her phone adds
/// one to her count, and she stays home until the count passes
/// `HER_MISSED_SCANS_LIMIT`.
pub proof fn lemma_her_misses_count(t: PresenceTracker, st: GlobalState, out: Seq<char>)
    requires
        presence_wf(t, st),
        st.am_i_home,
        st.is_she_home,
        !contains_seq(out, HER_PHONE@),
        t.her_misses < HER_MISSED_SCANS_LIMIT,
    ensures
        presence_after(t, st, Some(out)).1.is_she_home,
        presence_after(t, st, Some(out)).0.her_misses == t.her_misses + 1,
{
}

/// Law: each scan decides my flag and her flag on their own phones: what
/// the scan output holds of her phone changes nothing of mine, and the
/// other way round.
pub proof fn lemma_phones_independent(t: PresenceTracker, st: GlobalState, out1: Seq<char>, out2: Seq<char>)
    requires
        contains_seq(out1, MY_PHONE@) == contains_seq(out2, MY_PHONE@),
    ensures
        presence_after(t, st, Some(out1)).1.am_i_home == presence_after(t, st, Some(out2)).1.am_i_home,
        presence_after(t, st, Some(out1)).0.my_misses == presence_after(t, st, Some(out2)).0.my_misses,
{
}

/// Law: a scan that sees my phone marks me home and clears my count.
pub proof fn lemma_seen_means_home(t: PresenceTracker, st: GlobalState, out: Seq<char>)
    requires
        contains_seq(out, MY_PHONE@),
    ensures
        presence_after(t, st, Some(out)).1.am_i_home,
        presence_after(t, st, Some(out)).0.my_misses == 0,
{
}

} // verus!
