//! The evening schedule of the living-room plugs: the state machine's
//! decisions on the local clock.
use vstd::prelude::*;
use crate::clock::local_hour_minute;
use crate::commands::{relay_url, relay_url_of, LightCmd, SHELLY_PLUG4_HOSTNAME, SHELLY_PLUG5_HOSTNAME, SHELLY_PLUG6_HOSTNAME};

verus! {

/// Where the controller stands.
#[derive(PartialEq, Eq, Structural, Clone, Copy, Debug)]
pub enum State {
    Connecting,
    Connected,
}

/// One thing for the caller to do.
#[derive(PartialEq, Eq, Debug)]
pub enum Step {
    /// Send an HTTP GET request to this URL (its reply is ignored).
    Request(String),
    /// Sleep this many milliseconds.
    Sleep(u64),
    /// Switch the living-room lights off.
    LivingRoomLightsOff,
}

/// A step as the contracts see it.
pub enum StepView {
    Request(Seq<char>),
    Sleep(u64),
    LivingRoomLightsOff,
}

pub open spec fn step_view(s: Step) -> StepView {
    match s {
        Step::Request(u) => StepView::Request(u@),
        Step::Sleep(ms) => StepView::Sleep(ms),
        Step::LivingRoomLightsOff => StepView::LivingRoomLightsOff,
    }
}

/// The request the 18:00 schedule sends to the sixth plug (with the command
/// word the schedule uses for it).
pub open spec fn sixth_plug_url() -> Seq<char> {
    "http://"@ + SHELLY_PLUG6_HOSTNAME@ + "/relay/0?turn=ofonf"@
}

/// The steps of one round at `hour:minute`: at 18:00 switch plugs 4 and 5
/// on and send the sixth plug its request, a second apart, else sleep five
/// seconds; then at 23:00 switch the living-room lights off, else sleep five
/// seconds.
pub open spec fn schedule_steps(hour: u32, minute: u32) -> Seq<StepView> {
    (if hour == 18 && minute == 0 {
        seq![
            StepView::Request(relay_url_of(SHELLY_PLUG4_HOSTNAME@, LightCmd::On)),
            StepView::Sleep(1000),
            StepView::Request(relay_url_of(SHELLY_PLUG5_HOSTNAME@, LightCmd::On)),
            StepView::Sleep(1000),
            StepView::Request(sixth_plug_url()),
        ]
    } else {
        seq![StepView::Sleep(5000)]
    }) + (if hour == 23 && minute == 0 {
        seq![StepView::LivingRoomLightsOff]
    } else {
        seq![StepView::Sleep(5000)]
    })
}

/// The steps of one round at `hour:minute` (see `schedule_steps`).
pub fn connected_at(hour: u32, minute: u32) -> (r: Vec<Step>)
    ensures
        r@.map_values(|s: Step| step_view(s)) == schedule_steps(hour, minute),
{
    let mut steps: Vec<Step> = Vec::new();
    if hour == 18 && minute == 0 {
        steps.push(Step::Request(relay_url(SHELLY_PLUG4_HOSTNAME, LightCmd::On)));
        steps.push(Step::Sleep(1000));
        steps.push(Step::Request(relay_url(SHELLY_PLUG5_HOSTNAME, LightCmd::On)));
        steps.push(Step::Sleep(1000));
        let mut url = String::from_str("http://");
        url.append(SHELLY_PLUG6_HOSTNAME);
        url.append("/relay/0?turn=ofonf");
        steps.push(Step::Request(url));
    } else {
        steps.push(Step::Sleep(5000));
    }
    if hour == 23 && minute == 0 {
        steps.push(Step::LivingRoomLightsOff);
    } else {
        steps.push(Step::Sleep(5000));
    }
    assert(steps@.map_values(|s: Step| step_view(s)) =~= schedule_steps(hour, minute));
    steps
}

/// Law: the living-room lights are switched off exactly in the 23:00
/// round; requests go out exactly in the 18:00 round, and there they
/// switch plugs 4 and 5 on.
pub proof fn lemma_plug_schedule(hour: u32, minute: u32)
    ensures
        schedule_steps(hour, minute).contains(StepView::LivingRoomLightsOff) <==> (hour == 23 && minute
            == 0),
        (exists|u: Seq<char>| #[trigger] schedule_steps(hour, minute).contains(StepView::Request(u)))
            <==> (hour == 18 && minute == 0),
        hour == 18 && minute == 0 ==> schedule_steps(hour, minute).contains(
            StepView::Request(relay_url_of(SHELLY_PLUG4_HOSTNAME@, LightCmd::On)),
        ) && schedule_steps(hour, minute).contains(
            StepView::Request(relay_url_of(SHELLY_PLUG5_HOSTNAME@, LightCmd::On)),
        ),
{
    let s = schedule_steps(hour, minute);
    if hour == 18 && minute == 0 {
        assert(s[0] == StepView::Request(relay_url_of(SHELLY_PLUG4_HOSTNAME@, LightCmd::On)));
        assert(s[2] == StepView::Request(relay_url_of(SHELLY_PLUG5_HOSTNAME@, LightCmd::On)));
        assert(s.len() == 6);
        assert(s.contains(StepView::Request(relay_url_of(SHELLY_PLUG4_HOSTNAME@, LightCmd::On))));
        if s.contains(StepView::LivingRoomLightsOff) {
            let i = choose|i: int| 0 <= i < s.len() && s[i] == StepView::LivingRoomLightsOff;
            assert(0 <= i < 6);
        }
    } else {
        assert(s.len() == 2);
        assert forall|u: Seq<char>| !#[trigger] s.contains(StepView::Request(u)) by {
            if s.contains(StepView::Request(u)) {
                let i = choose|i: int| 0 <= i < s.len() && s[i] == StepView::Request(u);
                assert(i == 0 || i == 1);
            }
        }
        if hour == 23 && minute == 0 {
            assert(s[1] == StepView::LivingRoomLightsOff);
        } else if s.contains(StepView::LivingRoomLightsOff) {
            let i = choose|i: int| 0 <= i < s.len() && s[i] == StepView::LivingRoomLightsOff;
            assert(i == 0 || i == 1);
        }
    }
}

/// The schedule controller.
pub struct Fsm {
    pub state: State,
}

impl Fsm {
    /// Starts out connecting.
    pub fn new() -> (f: Fsm)
        ensures
            f.state == State::Connecting,
    {
        Fsm { state: State::Connecting }
    }

    /// Nothing to connect to: go straight to connected.
    pub fn connecting(&mut self)
        ensures
            final(self).state == State::Connected,
    {
        self.state = State::Connected;
    }

    /// One round while connected, at the time the local clock reads now.
    pub fn connected(&mut self) -> (r: Vec<Step>)
        ensures
            final(self).state == old(self).state,
            exists|hour: u32, minute: u32|
                hour < 24 && minute < 60 && r@.map_values(|s: Step| step_view(s)) == #[trigger] schedule_steps(
                    hour,
                    minute,
                ),
    {
        let (hour, minute) = local_hour_minute();
        connected_at(hour, minute)
    }
}

} // verus!
