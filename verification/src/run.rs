//! Whole runs of the invoker: what it asks of its host over a sequence of
//! answers, and what the run comes to.

use vstd::prelude::*;
use crate::error::{result_view, ErrorKind, ErrorView};
use crate::invoker::{opening, transition, Invoker, Phase, Settings, Step, StepView};
use crate::options::TailwindOptions;
use crate::platform::{is_supported, Arch, Os};
use crate::protocol::{Action, ActionView, Event, EventView};

verus! {

/// The actions that the invoker asks for while it takes `events` in turn,
/// starting in `phase`. Events that come after the end of the run are not
/// looked at.
pub open spec fn requests(settings: Settings, phase: Phase, events: Seq<EventView>) -> Seq<
    ActionView,
>
    decreases events.len(),
{
    if events.len() == 0 {
        Seq::empty()
    } else {
        match transition(settings, phase, events.first()) {
            StepView::Continue(next, action) => seq![action] + requests(
                settings,
                next,
                events.drop_first(),
            ),
            StepView::Finished(_) => Seq::empty(),
        }
    }
}

/// The result of the run that takes `events` in turn, starting in `phase`;
/// `None` while the events do not suffice to end it.
pub open spec fn outcome(settings: Settings, phase: Phase, events: Seq<EventView>) -> Option<
    Result<(), ErrorView>,
>
    decreases events.len(),
{
    if events.len() == 0 {
        None
    } else {
        match transition(settings, phase, events.first()) {
            StepView::Continue(next, _) => outcome(settings, next, events.drop_first()),
            StepView::Finished(result) => Some(result),
        }
    }
}

/// The event that the invoker takes while it is in the phase `target`, in the
/// run that takes `events` in turn, starting in `phase`; `None` if the run
/// does not get there.
pub open spec fn reply_in(
    settings: Settings,
    phase: Phase,
    events: Seq<EventView>,
    target: Phase,
) -> Option<EventView>
    decreases events.len(),
{
    if events.len() == 0 {
        None
    } else if phase == target {
        Some(events.first())
    } else {
        match transition(settings, phase, events.first()) {
            StepView::Continue(next, _) => reply_in(settings, next, events.drop_first(), target),
            StepView::Finished(_) => None,
        }
    }
}

/// Every action of the run that `events` drives from its start: the opening
/// action, then what each event leads to.
pub open spec fn run_actions(settings: Settings, events: Seq<EventView>) -> Seq<ActionView> {
    seq![opening(settings)] + requests(settings, Phase::BinaryCheck, events)
}

/// The result of the run that `events` drives from its start.
pub open spec fn run_outcome(settings: Settings, events: Seq<EventView>) -> Option<
    Result<(), ErrorView>,
> {
    outcome(settings, Phase::BinaryCheck, events)
}

/// The event that answers the action pending in the phase `target`, in the
/// run that `events` drives from its start.
pub open spec fn run_reply(settings: Settings, events: Seq<EventView>, target: Phase) -> Option<
    EventView,
> {
    reply_in(settings, Phase::BinaryCheck, events, target)
}

/// A run as far as a given sequence of events takes it.
#[derive(Debug, PartialEq, Eq)]
pub struct Replay {
    /// Every action that the run asked for, the opening action first.
    pub actions: Vec<Action>,
    /// The result of the run; `None` if the events did not suffice to end it.
    pub outcome: Option<Result<(), ErrorKind>>,
}

/// The views of a sequence of actions.
pub open spec fn action_views(actions: Seq<Action>) -> Seq<ActionView> {
    actions.map_values(|action: Action| action@)
}

/// The views of a sequence of events.
pub open spec fn event_views(events: Seq<Event>) -> Seq<EventView> {
    events.map_values(|event: Event| event@)
}

/// The view of a result that may still be open.
pub open spec fn outcome_view(outcome: Option<Result<(), ErrorKind>>) -> Option<
    Result<(), ErrorView>,
> {
    match outcome {
        Some(result) => Some(result_view(result)),
        None => None,
    }
}

/// Plays a run through without a host: the invoker is handed `events` in
/// turn, as if they were the host's answers, and what it asks for is written
/// down. There is no run on a platform without a binary.
pub fn replay(
    os: Os,
    arch: Arch,
    release: bool,
    options: &TailwindOptions,
    events: Vec<Event>,
) -> (result: Option<Replay>)
    ensures
        result is Some <==> is_supported(os, arch),
        result matches Some(replay) ==> {
            let settings = Settings {
                os,
                arch,
                release,
                in_file: options.in_file@,
                out_file: options.out_file@,
            };
            &&& action_views(replay.actions@) == run_actions(settings, event_views(events@))
            &&& outcome_view(replay.outcome) == run_outcome(settings, event_views(events@))
        },
{
    let (invoker, first) = match Invoker::new(os, arch, release, options) {
        Some(start) => start,
        None => {
            return None;
        },
    };
    let ghost settings = invoker.settings();
    let ghost all = event_views(events@);
    let mut actions: Vec<Action> = Vec::new();
    actions.push(first);
    let mut current = Some(invoker);
    let mut outcome: Option<Result<(), ErrorKind>> = None;
    assert(action_views(actions@) =~= seq![opening(settings)]);
    assert(all.skip(0) =~= all);
    for event in it: events
        invariant
            it.seq() == events@,
            all == event_views(events@),
            match current {
                Some(invoker) => {
                    &&& invoker.settings() == settings
                    &&& outcome is None
                    &&& run_actions(settings, all) == action_views(actions@) + requests(
                        settings,
                        invoker.phase(),
                        all.skip(it.index()),
                    )
                    &&& run_outcome(settings, all) == self::outcome(
                        settings,
                        invoker.phase(),
                        all.skip(it.index()),
                    )
                },
                None => {
                    &&& run_actions(settings, all) == action_views(actions@)
                    &&& run_outcome(settings, all) == outcome_view(outcome)
                },
            },
    {
        let ghost rest = all.skip(it.index());
        let ghost asked = action_views(actions@);
        assert(rest.len() > 0 && rest.first() == event@);
        assert(rest.drop_first() =~= all.skip(it.index() + 1));
        match current {
            Some(invoker) => match invoker.step(event) {
                Step::Continue(next, action) => {
                    actions.push(action);
                    current = Some(next);
                    assert(action_views(actions@) =~= asked + seq![action@]);
                    assert(run_actions(settings, all) =~= action_views(actions@) + requests(
                        settings,
                        next.phase(),
                        rest.drop_first(),
                    ));
                },
                Step::Finished(result) => {
                    outcome = Some(result);
                    current = None;
                    assert(run_actions(settings, all) =~= asked);
                },
            },
            None => {
                current = None;
            },
        }
    }
    assert(all.skip(events@.len() as int) =~= Seq::<EventView>::empty());
    Some(Replay { actions, outcome })
}

} // verus!
