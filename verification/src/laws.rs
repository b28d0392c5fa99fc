//! What holds of the viewer as a whole.
use vstd::prelude::*;

use crate::app::{
    next_phase, tick_action, AppModel, StatusModel, TickAction, TickEvent, TickPhase, UiCommand,
    NANOS_PER_SEC, STATUS_NANOS,
};

verus! {

/// Something that happens to the state: an event of the main loop, or a message
/// about a photo.
pub enum Happening {
    Tick(TickEvent),
    Message(Seq<char>),
}

/// Something that happens to the state at a point in time.
pub struct Moment {
    pub what: Happening,
    pub at: int,
}

/// The phase of the main loop after a history that began in `phase`.
pub open spec fn phase_after(phase: TickPhase, history: Seq<Moment>) -> TickPhase
    decreases history.len(),
{
    if history.len() == 0 {
        phase
    } else {
        let before = phase_after(phase, history.drop_last());
        match history.last().what {
            Happening::Tick(event) => next_phase(before, event),
            Happening::Message(_) => before,
        }
    }
}

/// The state after a history that began in `phase` with the state `app`.
pub open spec fn state_after(app: AppModel, phase: TickPhase, history: Seq<Moment>) -> AppModel
    decreases history.len(),
{
    if history.len() == 0 {
        app
    } else {
        let before = state_after(app, phase, history.drop_last());
        let moment = history.last();
        match moment.what {
            Happening::Tick(event) => before.ticked(
                phase_after(phase, history.drop_last()),
                event,
                moment.at,
            ),
            Happening::Message(msg) => before.with_status(msg, moment.at),
        }
    }
}

/// The moment switches the power: a command to power off, or the power pin.
pub open spec fn switches_power(moment: Moment) -> bool {
    moment.what == Happening::Tick(TickEvent::Command(UiCommand::PowerOff)) || moment.what
        == Happening::Tick(TickEvent::PinShorted)
}

/// Moment `i` of the history is one at which the inactivity is looked at.
pub open spec fn checks_idle(phase: TickPhase, history: Seq<Moment>, i: int) -> bool {
    history[i].what == Happening::Tick(TickEvent::Drained) && phase_after(phase, history.take(i))
        is Requests
}

/// Moment `i` of the history is one at which an old message is dropped.
pub open spec fn checks_status(phase: TickPhase, history: Seq<Moment>, i: int) -> bool {
    history[i].what == Happening::Tick(TickEvent::Drained) && phase_after(phase, history.take(i))
        is PowerPin
}

/// No moment lies before an earlier one, nor before `start`.
pub open spec fn in_order(start: int, history: Seq<Moment>) -> bool {
    &&& forall|i: int| 0 <= i < history.len() ==> start <= #[trigger] history[i].at
    &&& forall|i: int, j: int|
        0 <= i < j < history.len() ==> (#[trigger] history[i]).at <= (#[trigger] history[j]).at
}

/// The size of the camera's picture, the configuration and the settings never
/// change.
pub proof fn law_configuration_stays(app: AppModel, phase: TickPhase, history: Seq<Moment>)
    ensures
        state_after(app, phase, history).actual_size == app.actual_size,
        state_after(app, phase, history).photo_directory == app.photo_directory,
        state_after(app, phase, history).power_off_after_secs == app.power_off_after_secs,
        state_after(app, phase, history).settings == app.settings,
    decreases history.len(),
{
    if history.len() > 0 {
        law_configuration_stays(app, phase, history.drop_last());
    }
}

/// A history without its last moment holds the other moments, in order if they
/// were.
proof fn lemma_without_last(start: int, history: Seq<Moment>)
    requires
        history.len() > 0,
    ensures
        history.last() == history[history.len() - 1],
        forall|i: int|
            0 <= i < history.len() - 1 ==> #[trigger] history.drop_last()[i] == history[i],
        in_order(start, history) ==> in_order(start, history.drop_last()),
{
}

/// The phase and the state before the last moment do not depend on it.
proof fn lemma_prefix(history: Seq<Moment>, i: int)
    requires
        0 <= i < history.len(),
    ensures
        history.drop_last().take(i) == history.take(i),
{
    assert(history.drop_last().take(i) =~= history.take(i));
}

/// Zero seconds disable auto power-off: a device that is on stays on, however
/// long it is left alone, until the user or the power pin switches it off.
pub proof fn law_zero_disables_auto_power_off(
    app: AppModel,
    phase: TickPhase,
    history: Seq<Moment>,
)
    requires
        app.power_off_after_secs == 0,
        !app.powered_off,
        forall|i: int| 0 <= i < history.len() ==> !switches_power(#[trigger] history[i]),
    ensures
        !state_after(app, phase, history).powered_off,
    decreases history.len(),
{
    if history.len() > 0 {
        let before = history.drop_last();
        lemma_without_last(app.last_activity, history);
        law_zero_disables_auto_power_off(app, phase, before);
        law_configuration_stays(app, phase, before);
    }
}

/// The last activity is no older than any user command of the history, nor
/// than the activity before it.
proof fn lemma_last_activity(app: AppModel, phase: TickPhase, history: Seq<Moment>)
    requires
        in_order(app.last_activity, history),
    ensures
        app.last_activity <= state_after(app, phase, history).last_activity,
        forall|j: int|
            0 <= j < history.len() && (#[trigger] history[j]).what is Tick
                && history[j].what->Tick_0 is Command ==> history[j].at <= state_after(
                app,
                phase,
                history,
            ).last_activity,
        history.len() > 0 ==> state_after(app, phase, history).last_activity <= history.last().at,
        history.len() == 0 ==> state_after(app, phase, history).last_activity == app.last_activity,
    decreases history.len(),
{
    if history.len() > 0 {
        let before = history.drop_last();
        lemma_without_last(app.last_activity, history);
        let n = history.len() - 1;
        lemma_last_activity(app, phase, before);
        if before.len() > 0 {
            assert(before.last() == history[n - 1]);
            assert(history[n - 1].at <= history[n].at);
        }
        assert forall|j: int|
            0 <= j < history.len() && (#[trigger] history[j]).what is Tick
                && history[j].what->Tick_0 is Command implies history[j].at <= state_after(
            app,
            phase,
            history,
        ).last_activity by {
            if j < n {
                assert(before[j] == history[j]);
                assert(history[j].at <= history[n].at);
            }
        }
    }
}

/// A device in use does not power itself off: it stays on as long as, whenever
/// the inactivity is looked at, less than the configured time has passed since
/// the last activity before the history or since some user command.
pub proof fn law_use_keeps_the_device_on(app: AppModel, phase: TickPhase, history: Seq<Moment>)
    requires
        !app.powered_off,
        in_order(app.last_activity, history),
        forall|i: int| 0 <= i < history.len() ==> !switches_power(#[trigger] history[i]),
        forall|i: int|
            0 <= i < history.len() && #[trigger] checks_idle(phase, history, i) ==> {
                ||| history[i].at - app.last_activity < app.power_off_after_secs * NANOS_PER_SEC
                ||| exists|j: int|
                    0 <= j < i && (#[trigger] history[j]).what is Tick
                        && history[j].what->Tick_0 is Command && history[i].at - history[j].at
                        < app.power_off_after_secs * NANOS_PER_SEC
            },
    ensures
        !state_after(app, phase, history).powered_off,
    decreases history.len(),
{
    if history.len() > 0 {
        let before = history.drop_last();
        lemma_without_last(app.last_activity, history);
        let n = history.len() - 1;
        assert forall|i: int|
            0 <= i < before.len() && #[trigger] checks_idle(phase, before, i) implies {
            ||| before[i].at - app.last_activity < app.power_off_after_secs * NANOS_PER_SEC
            ||| exists|j: int|
                0 <= j < i && (#[trigger] before[j]).what is Tick
                    && before[j].what->Tick_0 is Command && before[i].at - before[j].at
                    < app.power_off_after_secs * NANOS_PER_SEC
        } by {
            lemma_prefix(history, i);
            assert(before[i] == history[i]);
            assert(checks_idle(phase, history, i));
            if !(history[i].at - app.last_activity < app.power_off_after_secs * NANOS_PER_SEC) {
                let j = choose|j: int|
                    0 <= j < i && (#[trigger] history[j]).what is Tick
                        && history[j].what->Tick_0 is Command && history[i].at - history[j].at
                        < app.power_off_after_secs * NANOS_PER_SEC;
                assert(before[j] == history[j]);
            }
        }
        law_use_keeps_the_device_on(app, phase, before);
        law_configuration_stays(app, phase, before);
        lemma_last_activity(app, phase, before);
        assert(history.take(n) =~= before);
        if checks_idle(phase, history, n) {
            if !(history[n].at - app.last_activity < app.power_off_after_secs * NANOS_PER_SEC) {
                let j = choose|j: int|
                    0 <= j < n && (#[trigger] history[j]).what is Tick
                        && history[j].what->Tick_0 is Command && history[n].at - history[j].at
                        < app.power_off_after_secs * NANOS_PER_SEC;
                assert(before[j] == history[j]);
            }
        }
    }
}

/// A device that is left alone powers itself off: in a step of the main loop
/// that brings neither a command nor the power pin, and in which at least the
/// configured time has passed since the last activity, it ends up powered off,
/// with the menu and the last activity as they were.
pub proof fn law_left_alone_powers_off(app: AppModel, requests: Seq<int>, at: (int, int, int))
    requires
        app.power_off_after_secs > 0,
        at.1 - app.last_activity >= app.power_off_after_secs * NANOS_PER_SEC,
    ensures
        ({
            let done = state_after(app, TickPhase::Commands, quiet_step(requests, at));
            &&& phase_after(TickPhase::Commands, quiet_step(requests, at)) is Commands
            &&& done.powered_off
            &&& done.menu_visible == app.menu_visible
            &&& done.last_activity == app.last_activity
        }),
{
    let first = seq![Moment { what: Happening::Tick(TickEvent::Drained), at: at.0 }];
    let idle = Moment { what: Happening::Tick(TickEvent::Drained), at: at.1 };
    let last = Moment { what: Happening::Tick(TickEvent::Drained), at: at.2 };
    let taken = first + request_moments(requests);
    lemma_requests_change_nothing(app, requests, at.0);
    let whole = quiet_step(requests, at);
    reveal_with_fuel(state_after, 3);
    reveal_with_fuel(phase_after, 3);
    assert(whole.drop_last() =~= taken.push(idle));
    assert(whole.drop_last().drop_last() =~= taken);
    assert(whole.last() == last);
    assert(whole.drop_last().last() == idle);
}

/// The moments at which completed capture requests come in.
pub open spec fn request_moments(requests: Seq<int>) -> Seq<Moment> {
    Seq::new(
        requests.len(),
        |i: int| Moment { what: Happening::Tick(TickEvent::Request), at: requests[i] },
    )
}

/// A step of the main loop that brings nothing but completed capture requests.
pub open spec fn quiet_step(requests: Seq<int>, at: (int, int, int)) -> Seq<Moment> {
    seq![Moment { what: Happening::Tick(TickEvent::Drained), at: at.0 }] + request_moments(
        requests,
    ) + seq![
        Moment { what: Happening::Tick(TickEvent::Drained), at: at.1 },
        Moment { what: Happening::Tick(TickEvent::Drained), at: at.2 },
    ]
}

/// Completed capture requests leave the state as it is.
proof fn lemma_requests_change_nothing(app: AppModel, requests: Seq<int>, at: int)
    ensures
        ({
            let taken = seq![
                Moment { what: Happening::Tick(TickEvent::Drained), at },
            ] + request_moments(requests);
            &&& state_after(app, TickPhase::Commands, taken) == app
            &&& phase_after(TickPhase::Commands, taken) == TickPhase::Requests
        }),
    decreases requests.len(),
{
    let first = seq![Moment { what: Happening::Tick(TickEvent::Drained), at }];
    let taken = first + request_moments(requests);
    if requests.len() == 0 {
        reveal_with_fuel(state_after, 2);
        reveal_with_fuel(phase_after, 2);
        assert(taken =~= first);
        assert(first.drop_last() =~= Seq::<Moment>::empty());
        assert(first.last() == first[0]);
    } else {
        lemma_requests_change_nothing(app, requests.drop_last(), at);
        assert(taken.drop_last() =~= first + request_moments(requests.drop_last()));
        assert(taken.last().what == Happening::Tick(TickEvent::Request));
    }
}

/// Shorting the power pin toggles the power each time: after an even number of
/// shorts the power is as it was, after an odd number it is the other way. The
/// menu is closed after any.
pub proof fn law_power_pin_toggles(app: AppModel, history: Seq<Moment>)
    requires
        forall|i: int|
            0 <= i < history.len() ==> (#[trigger] history[i]).what == Happening::Tick(
                TickEvent::PinShorted,
            ),
    ensures
        state_after(app, TickPhase::PowerPin, history).powered_off == if history.len() % 2 == 0 {
            app.powered_off
        } else {
            !app.powered_off
        },
        history.len() > 0 ==> !state_after(app, TickPhase::PowerPin, history).menu_visible,
    decreases history.len(),
{
    if history.len() > 0 {
        let before = history.drop_last();
        lemma_without_last(app.last_activity, history);
        law_power_pin_toggles(app, before);
    }
}

/// A step of the main loop that brings, besides completed capture requests, one
/// short of the power pin.
pub open spec fn pin_step(requests: Seq<int>, at: (int, int, int, int)) -> Seq<Moment> {
    seq![Moment { what: Happening::Tick(TickEvent::Drained), at: at.0 }] + request_moments(
        requests,
    ) + seq![
        Moment { what: Happening::Tick(TickEvent::Drained), at: at.1 },
        Moment { what: Happening::Tick(TickEvent::PinShorted), at: at.2 },
        Moment { what: Happening::Tick(TickEvent::Drained), at: at.3 },
    ]
}

/// The power pin has the last word in a step of the main loop: a device that is
/// off, or that has been left alone long enough to power itself off in the same
/// step, is on after the step if the pin was shorted once in it. The menu is
/// closed, and the short counts as the last activity.
pub proof fn law_power_pin_wakes(app: AppModel, requests: Seq<int>, at: (int, int, int, int))
    requires
        app.powered_off || app.idle(at.1),
    ensures
        ({
            let done = state_after(app, TickPhase::Commands, pin_step(requests, at));
            &&& phase_after(TickPhase::Commands, pin_step(requests, at)) is Commands
            &&& !done.powered_off
            &&& !done.menu_visible
            &&& done.last_activity == at.2
            &&& done == app.idle_checked(at.1).toggled(at.2).expired(at.3)
        }),
{
    let first = seq![Moment { what: Happening::Tick(TickEvent::Drained), at: at.0 }];
    let idle = Moment { what: Happening::Tick(TickEvent::Drained), at: at.1 };
    let shorted = Moment { what: Happening::Tick(TickEvent::PinShorted), at: at.2 };
    let last = Moment { what: Happening::Tick(TickEvent::Drained), at: at.3 };
    let taken = first + request_moments(requests);
    lemma_requests_change_nothing(app, requests, at.0);
    let whole = pin_step(requests, at);
    reveal_with_fuel(state_after, 4);
    reveal_with_fuel(phase_after, 4);
    assert(whole =~= taken.push(idle).push(shorted).push(last));
    assert(whole.drop_last() =~= taken.push(idle).push(shorted));
    assert(whole.drop_last().drop_last() =~= taken.push(idle));
    assert(whole.drop_last().drop_last().drop_last() =~= taken);
}

/// A user who wakes the device finds it on: whatever happens after the wake, in
/// the same step of the main loop or in later ones, the device is on as long as
/// it is not switched off by a command or the power pin and less than the
/// configured time has passed since the wake whenever the inactivity is looked
/// at.
pub proof fn law_waking_lasts(app: AppModel, phase: TickPhase, history: Seq<Moment>, wake: int)
    requires
        0 <= wake < history.len(),
        history[wake].what == Happening::Tick(TickEvent::Command(UiCommand::Wake)),
        forall|i: int|
            wake < i < history.len() ==> !switches_power(#[trigger] history[i])
                && history[wake].at <= history[i].at,
        forall|i: int|
            wake < i < history.len() && #[trigger] checks_idle(phase, history, i)
                && app.power_off_after_secs > 0 ==> history[i].at - history[wake].at
                < app.power_off_after_secs * NANOS_PER_SEC,
    ensures
        !state_after(app, phase, history).powered_off,
        state_after(app, phase, history).last_activity >= history[wake].at,
    decreases history.len(),
{
    let before = history.drop_last();
    let n = history.len() - 1;
    lemma_without_last(app.last_activity, history);
    law_configuration_stays(app, phase, before);
    if wake < n {
        assert forall|i: int|
            wake < i < before.len() && #[trigger] checks_idle(phase, before, i)
                && app.power_off_after_secs > 0 implies before[i].at - before[wake].at
            < app.power_off_after_secs * NANOS_PER_SEC by {
            lemma_prefix(history, i);
            assert(checks_idle(phase, history, i));
        }
        law_waking_lasts(app, phase, before, wake);
        assert(history.take(n) =~= before);
        if checks_idle(phase, history, n) {
            assert(!state_after(app, phase, before).idle(history[n].at));
        }
    }
}

/// A status message stays on the screen for two seconds.
pub proof fn law_status_stays(
    app: AppModel,
    phase: TickPhase,
    history: Seq<Moment>,
    msg: Seq<char>,
    shown: int,
)
    requires
        forall|i: int|
            0 <= i < history.len() ==> (#[trigger] history[i]).what is Tick && history[i].at
                <= shown + STATUS_NANOS,
    ensures
        state_after(app.with_status(msg, shown), phase, history).status == Some(
            StatusModel { msg, until: shown + STATUS_NANOS },
        ),
    decreases history.len(),
{
    if history.len() > 0 {
        let before = history.drop_last();
        lemma_without_last(app.last_activity, history);
        law_status_stays(app, phase, before, msg, shown);
    }
}

/// Without a new message, the status is the one that was there or none, and
/// once it is gone it stays away.
proof fn lemma_status_only_goes(app: AppModel, phase: TickPhase, history: Seq<Moment>)
    requires
        forall|i: int| 0 <= i < history.len() ==> (#[trigger] history[i]).what is Tick,
    ensures
        state_after(app, phase, history).status == app.status || state_after(
            app,
            phase,
            history,
        ).status is None,
    decreases history.len(),
{
    if history.len() > 0 {
        let before = history.drop_last();
        lemma_without_last(app.last_activity, history);
        lemma_status_only_goes(app, phase, before);
    }
}

/// A status message is gone after the first step of the main loop that ends
/// more than two seconds after it was shown, and does not come back by itself.
pub proof fn law_status_goes(
    app: AppModel,
    phase: TickPhase,
    history: Seq<Moment>,
    msg: Seq<char>,
    shown: int,
    end: int,
)
    requires
        forall|i: int| 0 <= i < history.len() ==> (#[trigger] history[i]).what is Tick,
        0 <= end < history.len(),
        checks_status(phase, history, end),
        history[end].at > shown + STATUS_NANOS,
    ensures
        state_after(app.with_status(msg, shown), phase, history).status is None,
    decreases history.len(),
{
    let app1 = app.with_status(msg, shown);
    let before = history.drop_last();
    lemma_without_last(app.last_activity, history);
    if end == history.len() - 1 {
        assert(history.take(end) =~= before);
        lemma_status_only_goes(app1, phase, before);
    } else {
        lemma_prefix(history, end);
        assert(before[end] == history[end]);
        law_status_goes(app, phase, before, msg, shown, end);
    }
}

/// The moment brings an input of the user: a command, or a short of the power
/// pin.
pub open spec fn is_input(moment: Moment) -> bool {
    moment.what matches Happening::Tick(event) && (event is Command || event is PinShorted)
}

/// The last activity is the last input of the user, and nothing else: `last` is
/// the place of that input in the history, or -1 if there is none, and then the
/// last activity is what it was before. No look at the inactivity, no message,
/// no capture request and no passing of time moves it.
pub proof fn law_last_activity_is_the_last_input(
    app: AppModel,
    phase: TickPhase,
    history: Seq<Moment>,
    last: int,
)
    requires
        -1 <= last < history.len(),
        last >= 0 ==> is_input(history[last]),
        forall|i: int| last < i < history.len() ==> !is_input(#[trigger] history[i]),
    ensures
        state_after(app, phase, history).last_activity == if last >= 0 {
            history[last].at
        } else {
            app.last_activity
        },
    decreases history.len(),
{
    if history.len() > 0 {
        let before = history.drop_last();
        lemma_without_last(app.last_activity, history);
        if last < history.len() - 1 {
            law_last_activity_is_the_last_input(app, phase, before, last);
        }
    }
}

/// A device that is left alone powers itself off, after however many steps of
/// the main loop: without an input of the user it is off if and only if it was
/// off before, or the inactivity was looked at when at least the configured time
/// had passed since the last activity before the history, and the configuration
/// asks for any. The menu stays as it was.
pub proof fn law_left_alone_long_enough_powers_off(
    app: AppModel,
    phase: TickPhase,
    history: Seq<Moment>,
)
    requires
        forall|i: int| 0 <= i < history.len() ==> !is_input(#[trigger] history[i]),
    ensures
        state_after(app, phase, history).powered_off <==> app.powered_off || exists|i: int|
            0 <= i < history.len() && #[trigger] checks_idle(phase, history, i)
                && app.power_off_after_secs > 0 && history[i].at - app.last_activity
                >= app.power_off_after_secs * 1_000_000_000,
        state_after(app, phase, history).last_activity == app.last_activity,
        state_after(app, phase, history).menu_visible == app.menu_visible,
    decreases history.len(),
{
    if history.len() > 0 {
        let before = history.drop_last();
        let n = history.len() - 1;
        lemma_without_last(app.last_activity, history);
        law_left_alone_long_enough_powers_off(app, phase, before);
        law_configuration_stays(app, phase, before);
        assert(history.take(n) =~= before);
        assert forall|i: int| 0 <= i < n implies checks_idle(phase, before, i) == checks_idle(
            phase,
            history,
            i,
        ) by {
            lemma_prefix(history, i);
        }
        if state_after(app, phase, before).powered_off && !app.powered_off {
            let i = choose|i: int|
                0 <= i < before.len() && #[trigger] checks_idle(phase, before, i)
                    && app.power_off_after_secs > 0 && before[i].at - app.last_activity
                    >= app.power_off_after_secs * 1_000_000_000;
            assert(checks_idle(phase, history, i));
            assert(before[i] == history[i]);
        }
        if state_after(app, phase, history).powered_off && !state_after(
            app,
            phase,
            before,
        ).powered_off {
            assert(checks_idle(phase, history, n));
        }
    }
}

/// What a moment does to the power, in every state and with every
/// configuration: a command to wake switches it on, a command to power off
/// switches it off, a short of the power pin toggles it, and a look at the
/// inactivity switches it off where the configured time is over. Nothing else
/// touches it.
pub proof fn law_power_changes(app: AppModel, phase: TickPhase, history: Seq<Moment>, i: int)
    requires
        0 <= i < history.len(),
    ensures
        ({
            let before = state_after(app, phase, history.take(i));
            let after = state_after(app, phase, history.take(i + 1));
            let timeout = app.power_off_after_secs * 1_000_000_000;
            let idle = checks_idle(phase, history, i) && app.power_off_after_secs > 0
                && history[i].at - before.last_activity >= timeout;
            match history[i].what {
                Happening::Tick(TickEvent::Command(UiCommand::Wake)) => !after.powered_off,
                Happening::Tick(TickEvent::Command(UiCommand::PowerOff)) => after.powered_off,
                Happening::Tick(TickEvent::PinShorted) => after.powered_off != before.powered_off
                    && after == before.toggled(history[i].at),
                _ => after.powered_off == (before.powered_off || idle),
            }
        }),
{
    let whole = history.take(i + 1);
    assert(whole.drop_last() =~= history.take(i));
    assert(whole.last() == history[i]);
    law_configuration_stays(app, phase, history.take(i));
}

/// A device that was switched off stays off: after a command to power off at
/// place `off` of the history, or from the start if `off` is -1 and the device
/// was off then, it is off, whatever the state and the configuration, until a
/// command to wake or a short of the power pin.
pub proof fn law_power_off_lasts(app: AppModel, phase: TickPhase, history: Seq<Moment>, off: int)
    requires
        -1 <= off < history.len(),
        if off >= 0 {
            history[off].what == Happening::Tick(TickEvent::Command(UiCommand::PowerOff))
        } else {
            app.powered_off
        },
        forall|i: int|
            off < i < history.len() ==> (#[trigger] history[i]).what != Happening::Tick(
                TickEvent::Command(UiCommand::Wake),
            ) && history[i].what != Happening::Tick(TickEvent::PinShorted),
    ensures
        state_after(app, phase, history).powered_off,
    decreases history.len(),
{
    if history.len() > 0 {
        let before = history.drop_last();
        lemma_without_last(app.last_activity, history);
        if off < history.len() - 1 {
            law_power_off_lasts(app, phase, before, off);
        }
    }
}

/// The moment opens or closes the menu.
pub open spec fn sets_menu(moment: Moment) -> bool {
    ||| moment.what == Happening::Tick(TickEvent::Command(UiCommand::ShowMenu))
    ||| moment.what == Happening::Tick(TickEvent::Command(UiCommand::DismissMenu))
    ||| moment.what == Happening::Tick(TickEvent::Command(UiCommand::PowerOff))
    ||| moment.what == Happening::Tick(TickEvent::PinShorted)
}

/// The menu is open if and only if the last moment that opened or closed it was
/// the command to show it. Switching the power, by a command or by the pin,
/// closes it. `last` is the place of that moment in the history, or -1 if there
/// is none, and then the menu is as it was before.
pub proof fn law_menu_is_as_last_asked(
    app: AppModel,
    phase: TickPhase,
    history: Seq<Moment>,
    last: int,
)
    requires
        -1 <= last < history.len(),
        last >= 0 ==> sets_menu(history[last]),
        forall|i: int| last < i < history.len() ==> !sets_menu(#[trigger] history[i]),
    ensures
        state_after(app, phase, history).menu_visible == if last >= 0 {
            history[last].what == Happening::Tick(TickEvent::Command(UiCommand::ShowMenu))
        } else {
            app.menu_visible
        },
    decreases history.len(),
{
    if history.len() > 0 {
        let before = history.drop_last();
        lemma_without_last(app.last_activity, history);
        if last < history.len() - 1 {
            law_menu_is_as_last_asked(app, phase, before, last);
        }
    }
}

/// The status is the last message, for two seconds: `last` is the place of that
/// message in the history, or -1 if there is none, and then the message before
/// the history counts. It is shown until the first end of a step that lies later
/// than its time, and nothing else takes it away.
pub proof fn law_status_is_the_last_message(
    app: AppModel,
    phase: TickPhase,
    history: Seq<Moment>,
    last: int,
)
    requires
        -1 <= last < history.len(),
        last >= 0 ==> history[last].what is Message,
        forall|i: int| last < i < history.len() ==> (#[trigger] history[i]).what is Tick,
    ensures
        ({
            let shown = if last >= 0 {
                Some(
                    StatusModel {
                        msg: history[last].what->Message_0,
                        until: history[last].at + 2_000_000_000,
                    },
                )
            } else {
                app.status
            };
            let over = shown is Some && exists|i: int|
                last < i < history.len() && #[trigger] checks_status(phase, history, i)
                    && history[i].at > shown->0.until;
            state_after(app, phase, history).status == if over {
                None
            } else {
                shown
            }
        }),
    decreases history.len(),
{
    if last < history.len() - 1 {
        let before = history.drop_last();
        let n = history.len() - 1;
        lemma_without_last(app.last_activity, history);
        law_status_is_the_last_message(app, phase, before, last);
        assert(history.take(n) =~= before);
        assert forall|i: int|
            #![trigger checks_status(phase, before, i)]
            #![trigger checks_status(phase, history, i)]
            0 <= i < n implies checks_status(phase, before, i) == checks_status(
            phase,
            history,
            i,
        ) by {
            lemma_prefix(history, i);
        }
        if checks_status(phase, history, n) {
            assert(phase_after(phase, before) is PowerPin);
        }
    }
}

/// What the main loop is asked to do: a photo is taken for each command to take
/// one, whatever the phase, each completed capture request is queued again, and
/// the view is refreshed when the signals of the power pin are drained. Nothing
/// else asks for any of these.
pub proof fn law_each_event_asks_for_its_own(phase: TickPhase, event: TickEvent)
    ensures
        tick_action(phase, event) == TickAction::TakePhoto <==> event == TickEvent::Command(
            UiCommand::TakePhoto,
        ),
        tick_action(phase, event) == TickAction::Requeue <==> event == TickEvent::Request,
        tick_action(phase, event) == TickAction::Refresh <==> event == TickEvent::Drained && phase
            == TickPhase::PowerPin,
{
}

/// How many of the moments bring nothing, or nothing more.
pub open spec fn drained_count(history: Seq<Moment>) -> nat
    decreases history.len(),
{
    if history.len() == 0 {
        0
    } else {
        drained_count(history.drop_last()) + if history.last().what == Happening::Tick(
            TickEvent::Drained,
        ) {
            1nat
        } else {
            0nat
        }
    }
}

/// How many times the view is refreshed in a history that began in `phase`.
pub open spec fn refresh_count(phase: TickPhase, history: Seq<Moment>) -> nat
    decreases history.len(),
{
    if history.len() == 0 {
        0
    } else {
        let before = history.drop_last();
        refresh_count(phase, before) + match history.last().what {
            Happening::Tick(event) => if tick_action(phase_after(phase, before), event)
                == TickAction::Refresh {
                1nat
            } else {
                0nat
            },
            Happening::Message(_) => 0nat,
        }
    }
}

/// Each step of the main loop refreshes the view once, at its end: after the
/// commands, the capture requests and the power pin have all been drained, and
/// the next step begins with the commands again.
pub proof fn law_one_refresh_to_a_step(history: Seq<Moment>)
    ensures
        refresh_count(TickPhase::Commands, history) == drained_count(history) / 3,
        phase_after(TickPhase::Commands, history) == if drained_count(history) % 3 == 0 {
            TickPhase::Commands
        } else if drained_count(history) % 3 == 1 {
            TickPhase::Requests
        } else {
            TickPhase::PowerPin
        },
    decreases history.len(),
{
    if history.len() > 0 {
        law_one_refresh_to_a_step(history.drop_last());
    }
}

} // verus!
