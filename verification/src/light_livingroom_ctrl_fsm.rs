//! The living-room light schedule while someone is home: the state
//! machine's decisions on the presence flags and the local clock.
use vstd::prelude::*;
use crate::clock::local_hour_minute;
use crate::GlobalState;

verus! {

/// Where the controller stands.
#[derive(PartialEq, Eq, Structural, Clone, Copy, Debug)]
pub enum State {
    Connecting,
    Connected,
}

/// One thing for the caller to do.
#[derive(PartialEq, Eq, Structural, Clone, Copy, Debug)]
pub enum Step {
    /// Sleep this many milliseconds.
    Sleep(u64),
    /// Switch the vintage bulb on.
    BulbOn,
    /// Switch the hall lights off.
    HallLightsOff,
}

/// The steps of one round at `hour:minute` while someone is home, given
/// whether the lights were switched on already: at 18:30 switch the bulb on
/// unless it was, else sleep five seconds; then at midnight switch the hall
/// lights off, else sleep five seconds.
pub open spec fn evening_steps(lights_on: bool, hour: u32, minute: u32) -> Seq<Step> {
    (if hour == 18 && minute == 30 && !lights_on {
        seq![Step::BulbOn]
    } else {
        seq![Step::Sleep(5000)]
    }) + (if hour == 0 && minute == 0 {
        seq![Step::HallLightsOff]
    } else {
        seq![Step::Sleep(5000)]
    })
}

/// Whether the lights count as on after a round at `hour:minute`.
pub open spec fn lights_after(lights_on: bool, hour: u32, minute: u32) -> bool {
    if hour == 0 && minute == 0 {
        false
    } else if hour == 18 && minute == 30 {
        true
    } else {
        lights_on
    }
}

/// The living-room light controller.
pub struct Fsm {
    pub state: State,
    pub are_living_room_lights_on: bool,
}

impl Fsm {
    /// Starts out connecting, with the lights counted as off.
    pub fn new() -> (f: Fsm)
        ensures
            f.state == State::Connecting,
            !f.are_living_room_lights_on,
    {
        Fsm { state: State::Connecting, are_living_room_lights_on: false }
    }

    /// Nothing to connect to: go straight to connected.
    pub fn connecting(&mut self)
        ensures
            final(self).state == State::Connected,
            final(self).are_living_room_lights_on == old(self).are_living_room_lights_on,
    {
        self.state = State::Connected;
    }

    /// One round at `hour:minute` while someone is home (see `evening_steps`).
    pub fn connected_at(&mut self, hour: u32, minute: u32) -> (r: Vec<Step>)
        ensures
            r@ == evening_steps(old(self).are_living_room_lights_on, hour, minute),
            final(self).are_living_room_lights_on == lights_after(
                old(self).are_living_room_lights_on,
                hour,
                minute,
            ),
            final(self).state == old(self).state,
    {
        let mut steps: Vec<Step> = Vec::new();
        if hour == 18 && minute == 30 && !self.are_living_room_lights_on {
            steps.push(Step::BulbOn);
            self.are_living_room_lights_on = true;
        } else {
            steps.push(Step::Sleep(5000));
        }
        if hour == 0 && minute == 0 {
            steps.push(Step::HallLightsOff);
            self.are_living_room_lights_on = false;
        } else {
            steps.push(Step::Sleep(5000));
        }
        assert(steps@ =~= evening_steps(old(self).are_living_room_lights_on, hour, minute));
        steps
    }

    /// One round while connected: with nobody home just sleep five seconds,
    /// else run the schedule at the time the local clock reads now.
    pub fn connected(&mut self, state: GlobalState) -> (r: Vec<Step>)
        ensures
            final(self).state == old(self).state,
            !(state.am_i_home || state.is_she_home) ==> r@ == seq![Step::Sleep(5000)]
                && final(self).are_living_room_lights_on == old(self).are_living_room_lights_on,
            (state.am_i_home || state.is_she_home) ==> exists|hour: u32, minute: u32|
                hour < 24 && minute < 60 && r@ == #[trigger] evening_steps(
                    old(self).are_living_room_lights_on,
                    hour,
                    minute,
                ) && final(self).are_living_room_lights_on == lights_after(
                    old(self).are_living_room_lights_on,
                    hour,
                    minute,
                ),
    {
        if !(state.am_i_home || state.is_she_home) {
            let steps = vec![Step::Sleep(5000)];
            assert(steps@ =~= seq![Step::Sleep(5000)]);
            return steps;
        }
        let (hour, minute) = local_hour_minute();
        self.connected_at(hour, minute)
    }
}

/// Law: every round switches the hall lights off exactly when it runs at
/// midnight, whether or not the lights count as on, and the midnight round
/// leaves them counted as off.
pub proof fn lemma_hall_off_at_midnight(lights_on: bool, hour: u32, minute: u32)
    ensures
        evening_steps(lights_on, hour, minute).contains(Step::HallLightsOff) <==> (hour == 0 && minute
            == 0),
        hour == 0 && minute == 0 ==> !lights_after(lights_on, hour, minute),
{
    let s = evening_steps(lights_on, hour, minute);
    assert(s.len() == 2);
    if hour == 0 && minute == 0 {
        assert(s[1] == Step::HallLightsOff);
    } else if s.contains(Step::HallLightsOff) {
        let i = choose|i: int| 0 <= i < s.len() && s[i] == Step::HallLightsOff;
        assert(i == 0 || i == 1);
    }
}

/// Law: a round switches the bulb on exactly at 18:30 when the lights did
/// not count as on yet, and every round ends in a sleep or a switch-off, in
/// two steps.
pub proof fn lemma_bulb_at_half_past_six(lights_on: bool, hour: u32, minute: u32)
    ensures
        evening_steps(lights_on, hour, minute).contains(Step::BulbOn) <==> (hour == 18 && minute == 30
            && !lights_on),
        evening_steps(lights_on, hour, minute).len() == 2,
        hour == 18 && minute == 30 ==> lights_after(lights_on, hour, minute),
{
    let s = evening_steps(lights_on, hour, minute);
    assert(s.len() == 2);
    if hour == 18 && minute == 30 && !lights_on {
        assert(s[0] == Step::BulbOn);
    } else if s.contains(Step::BulbOn) {
        let i = choose|i: int| 0 <= i < s.len() && s[i] == Step::BulbOn;
        assert(i == 0 || i == 1);
    }
}

/// Law: the bulb is switched on at most once between two midnights: once
/// the lights count as on, no round switches the bulb on again until the
/// midnight round has switched the hall lights off.
pub proof fn lemma_bulb_once(lights_on: bool, hour: u32, minute: u32)
    ensures
        lights_on ==> !evening_steps(lights_on, hour, minute).contains(Step::BulbOn),
        evening_steps(lights_on, hour, minute).contains(Step::BulbOn) ==> lights_after(
            lights_on,
            hour,
            minute,
        ),
{
    let s = evening_steps(lights_on, hour, minute);
    assert(s.len() == 2);
    if s.contains(Step::BulbOn) {
        let i = choose|i: int| 0 <= i < s.len() && s[i] == Step::BulbOn;
        assert(i == 0 || i == 1);
    }
}

} // verus!
