//! Laws of the state engine, over the contracts of `Application`.
use vstd::prelude::*;
use crate::animation::{Timestamp, HIDING_TIMEOUT};
use crate::state::{
    next_wake, room_to_backdate, transition, visible_at, visibility, Application, Event, InputMethod, Presence,
};

verus! {

/// A later notice that the input method is still inactive does not restart
/// the hiding delay: the earlier moment is kept.
pub proof fn lemma_inactive_keeps_oldest(app: Application, t1: Timestamp, t2: Timestamp, now: Timestamp, r: Application)
    requires
        app.wf(),
        app.im == InputMethod::InactiveSince(t1),
        t2.0 > t1.0,
        transition(app, Event::InputMethod(InputMethod::InactiveSince(t2)), now, r),
    ensures
        r.im == InputMethod::InactiveSince(t1),
{
}

/// Once the input method goes from active to inactive at `now`, with nothing
/// forced and no physical keyboard, the panel shows at every moment before
/// `now + HIDING_TIMEOUT` and is hidden from then on.
pub proof fn lemma_hiding_delay(app: Application, now: Timestamp, r: Application, t: Timestamp)
    requires
        app.wf(),
        app.im is Active,
        app.visibility_override == visibility::State::NotForced,
        app.physical_keyboard == Presence::Missing,
        app.preferred_output.is_some(),
        transition(app, Event::InputMethod(InputMethod::InactiveSince(now)), now, r),
    ensures
        visible_at(r, t) <==> t.0 < now.0 + HIDING_TIMEOUT,
        t.0 >= now.0 + HIDING_TIMEOUT ==> settled(r, t),
{
}

/// The panel is down and stays down while time passes: the input method is
/// inactive, and either the user forced the panel down or the hiding delay
/// is over at `t`.
pub open spec fn settled(app: Application, t: Timestamp) -> bool {
    match app.im {
        InputMethod::InactiveSince(since) => match app.visibility_override {
            visibility::State::ForcedHidden => true,
            visibility::State::NotForced => t.0 >= since.0 + HIDING_TIMEOUT,
            visibility::State::ForcedVisible => false,
        },
        InputMethod::Active(_) => false,
    }
}

/// The event neither makes the input method active nor forces the panel up.
pub open spec fn keeps_down(e: Event) -> bool {
    match e {
        Event::InputMethod(InputMethod::Active(_)) => false,
        Event::Visibility(visibility::Event::ForceVisible) => false,
        _ => true,
    }
}

/// A settled panel is hidden, at that moment and at every later one, and it
/// stays settled through any event other than an active input method or a
/// request to show: so after the hiding delay the panel stays hidden until
/// such an event arrives.
pub proof fn lemma_settled_stays_hidden(
    app: Application,
    t: Timestamp,
    e: Event,
    now: Timestamp,
    later: Timestamp,
    r: Application,
)
    requires
        settled(app, t),
        keeps_down(e),
        later.0 >= t.0,
        transition(app, e, now, r),
    ensures
        !visible_at(app, t),
        settled(app, later),
        settled(r, later),
        !visible_at(r, later),
{
}

/// The user's forcing decides alone: forced down, the panel is hidden, and
/// forced up it shows wherever there is an output, whatever the input method
/// and the physical keyboard. Events other than input method changes and
/// further requests keep the forcing, and so the panel, as it is.
pub proof fn lemma_forced_dominates(app: Application, e: Event, now: Timestamp, r: Application, t: Timestamp)
    requires
        app.wf(),
        app.visibility_override != visibility::State::NotForced,
        !(e is InputMethod),
        !(e is Visibility),
        transition(app, e, now, r),
    ensures
        r.visibility_override == app.visibility_override,
        app.visibility_override == visibility::State::ForcedHidden ==> !visible_at(app, t) && !visible_at(r, t),
        app.visibility_override == visibility::State::ForcedVisible ==> (app.preferred_output.is_some()
            ==> visible_at(app, t)) && (r.preferred_output.is_some() ==> visible_at(r, t)),
{
}

/// A request to hide or to show takes effect at once, whatever the input
/// method and the physical keyboard.
pub proof fn lemma_force_takes_effect(app: Application, v: visibility::Event, now: Timestamp, r: Application, t: Timestamp)
    requires
        app.wf(),
        transition(app, Event::Visibility(v), now, r),
    ensures
        v == visibility::Event::ForceHidden ==> !visible_at(r, t),
        v == visibility::Event::ForceVisible ==> (visible_at(r, t) <==> r.preferred_output.is_some()),
{
}

/// A physical keyboard hides the panel even while the input method is active
/// and nothing is forced; taking it away shows the panel again.
pub proof fn lemma_physical_keyboard(app: Application, now: Timestamp, r: Application, t: Timestamp)
    requires
        app.wf(),
        app.im is Active,
        app.visibility_override == visibility::State::NotForced,
        app.preferred_output.is_some(),
        transition(app, Event::PhysicalKeyboard(Presence::Missing), now, r),
    ensures
        app.physical_keyboard == Presence::Present ==> !visible_at(app, t),
        visible_at(r, t),
{
}


/// When the input method goes inactive while the user has the panel forced
/// down, the inactivity is back-dated by twice the hiding timeout: the
/// override is cleared, yet the panel stays hidden and no wake is due, so no
/// hiding animation plays.
pub proof fn lemma_forced_hidden_skips_animation(app: Application, t0: Timestamp, now: Timestamp, r: Application)
    requires
        app.im is Active,
        app.visibility_override == visibility::State::ForcedHidden,
        room_to_backdate(now),
        transition(app, Event::InputMethod(InputMethod::InactiveSince(t0)), now, r),
    ensures
        r.visibility_override == visibility::State::NotForced,
        next_wake(r, now).is_none(),
        !visible_at(r, now),
        settled(r, now),
{
}

/// `states[i + 1]` is the state after `events[i]` arrived at `times[i]` in
/// `states[i]`, for every event of the run.
pub open spec fn run(states: Seq<Application>, events: Seq<Event>, times: Seq<Timestamp>) -> bool {
    &&& states.len() == events.len() + 1
    &&& times.len() == events.len()
    &&& forall|i: int| 0 <= i < events.len() ==> transition(#[trigger] states[i], events[i], times[i], states[i + 1])
}

/// A settled panel stays settled, and so hidden at `t` and every later moment,
/// through any run of events none of which makes the input method active or
/// forces the panel up.
pub proof fn lemma_settled_run(states: Seq<Application>, events: Seq<Event>, times: Seq<Timestamp>, t: Timestamp)
    requires
        run(states, events, times),
        settled(states[0], t),
        forall|i: int| 0 <= i < events.len() ==> keeps_down(#[trigger] events[i]),
    ensures
        forall|i: int, u: Timestamp| 0 <= i < states.len() && u.0 >= t.0 ==> #[trigger] settled(states[i], u)
            && !visible_at(states[i], u),
    decreases events.len(),
{
    if events.len() > 0 {
        let n = events.len() - 1;
        lemma_settled_run(states.take(n + 1), events.take(n), times.take(n), t);
        assert(states.take(n + 1)[n] == states[n]);
        assert forall|i: int, u: Timestamp| 0 <= i < states.len() && u.0 >= t.0 implies #[trigger] settled(states[i], u)
            && !visible_at(states[i], u) by {
            if i <= n {
                assert(states.take(n + 1)[i] == states[i]);
            } else {
                assert(transition(states[n], events[n], times[n], states[n + 1]));
                lemma_settled_stays_hidden(states[n], t, events[n], times[n], u, states[n + 1]);
            }
        }
    }
}

/// Once the input method goes from active to inactive at `now`, with nothing
/// forced and no physical keyboard, the panel is hidden at `now +
/// HIDING_TIMEOUT` and at every later moment, through any run of events that
/// follows, as long as none makes the input method active or forces the panel
/// up.
pub proof fn lemma_hidden_after_delay(
    app: Application,
    now: Timestamp,
    states: Seq<Application>,
    events: Seq<Event>,
    times: Seq<Timestamp>,
    t: Timestamp,
)
    requires
        app.wf(),
        app.im is Active,
        app.visibility_override == visibility::State::NotForced,
        app.physical_keyboard == Presence::Missing,
        app.preferred_output.is_some(),
        transition(app, Event::InputMethod(InputMethod::InactiveSince(now)), now, states[0]),
        run(states, events, times),
        forall|i: int| 0 <= i < events.len() ==> keeps_down(#[trigger] events[i]),
        t.0 >= now.0 + HIDING_TIMEOUT,
    ensures
        forall|i: int| 0 <= i < states.len() ==> !visible_at(#[trigger] states[i], t),
{
    let d = Timestamp((now.0 + HIDING_TIMEOUT) as i64);
    lemma_hiding_delay(app, now, states[0], d);
    lemma_settled_run(states, events, times, d);
    assert forall|i: int| 0 <= i < states.len() implies !visible_at(#[trigger] states[i], t) by {
        assert(settled(states[i], t) && !visible_at(states[i], t));
    }
}

/// The event leaves the user's forcing alone: it neither changes the input
/// method nor is a request to hide or to show.
pub open spec fn keeps_forcing(e: Event) -> bool {
    !(e is InputMethod) && !(e is Visibility)
}

/// Through any run of events that neither change the input method nor ask to
/// hide or show, the forcing stays: forced down, the panel is hidden at every
/// moment; forced up, it shows at every moment wherever there is an output.
pub proof fn lemma_forced_run(states: Seq<Application>, events: Seq<Event>, times: Seq<Timestamp>)
    requires
        run(states, events, times),
        states[0].visibility_override != visibility::State::NotForced,
        forall|i: int| 0 <= i < events.len() ==> keeps_forcing(#[trigger] events[i]),
    ensures
        forall|i: int| 0 <= i < states.len() ==> (#[trigger] states[i]).visibility_override
            == states[0].visibility_override,
        forall|i: int, t: Timestamp|
            0 <= i < states.len() && states[0].visibility_override == visibility::State::ForcedHidden
                ==> !#[trigger] visible_at(states[i], t),
        forall|i: int, t: Timestamp|
            0 <= i < states.len() && states[0].visibility_override == visibility::State::ForcedVisible
                && states[i].preferred_output.is_some() ==> #[trigger] visible_at(states[i], t),
    decreases events.len(),
{
    if events.len() > 0 {
        let n = events.len() - 1;
        lemma_forced_run(states.take(n + 1), events.take(n), times.take(n));
        assert(states.take(n + 1)[0] == states[0]);
        assert forall|i: int| 0 <= i < states.len() implies (#[trigger] states[i]).visibility_override
            == states[0].visibility_override by {
            if i <= n {
                assert(states.take(n + 1)[i] == states[i]);
            } else {
                assert(states.take(n + 1)[n] == states[n]);
                assert(transition(states[n], events[n], times[n], states[n + 1]));
                assert(keeps_forcing(events[n]));
            }
        }
    }
}

} // verus!
