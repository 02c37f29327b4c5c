//! What holds of every run: the binary is fetched only when it is missing and
//! then installed as fetched, the configuration file is written only when it
//! is missing, and a run that finds both in place changes nothing.

use vstd::prelude::*;
use crate::command::{spec_default_config, spec_download_url, CONFIG_FILE};
use crate::error::ErrorView;
use crate::invoker::{opening, transition, Phase, Settings, StepView};
use crate::output::{spec_classify, spec_reports_error, utf8_lossy};
use crate::permissions::spec_executable_mode;
use crate::platform::{is_supported, lemma_names_spelled_out};
use crate::protocol::{ActionView, EventView};
use crate::run::{outcome, reply_in, requests, run_actions, run_outcome, run_reply};

verus! {

/// How many of the actions `wanted` holds of.
pub open spec fn count(actions: Seq<ActionView>, wanted: spec_fn(ActionView) -> bool) -> nat
    decreases actions.len(),
{
    if actions.len() == 0 {
        0
    } else {
        (if wanted(actions.first()) {
            1nat
        } else {
            0nat
        }) + count(actions.drop_first(), wanted)
    }
}

/// Holds of the actions that fetch something.
pub open spec fn fetches() -> spec_fn(ActionView) -> bool {
    |action: ActionView| action is Fetch
}

/// Holds of the actions that write the file at `path`.
pub open spec fn writes(path: Seq<char>) -> spec_fn(ActionView) -> bool {
    |action: ActionView| action matches ActionView::WriteFile { path: written, .. } && written == path
}

/// Holds of the actions that change anything on disk: they write a file or
/// set its permission bits.
pub open spec fn changes_disk() -> spec_fn(ActionView) -> bool {
    |action: ActionView| action is WriteFile || action is SetMode
}

/// Holds of the actions that set the permission bits of a file.
pub open spec fn sets_mode() -> spec_fn(ActionView) -> bool {
    |action: ActionView| action is SetMode
}

/// Holds of the actions that change the file at `path`: they write it or set
/// its permission bits.
pub open spec fn changes(path: Seq<char>) -> spec_fn(ActionView) -> bool {
    |action: ActionView|
        match action {
            ActionView::WriteFile { path: changed, .. } => changed == path,
            ActionView::SetMode { path: changed, .. } => changed == path,
            _ => false,
        }
}

/// Whether a file is there after a run in which every write was answered as
/// done, given whether it was there before: a file that the run wrote is
/// there. Of a run with a failed write this says nothing.
pub open spec fn present_after(before: bool, actions: Seq<ActionView>, path: Seq<char>) -> bool {
    before || count(actions, writes(path)) > 0
}

/// Holds of one action only.
pub open spec fn exactly(action: ActionView) -> spec_fn(ActionView) -> bool {
    |other: ActionView| other == action
}

/// The position of a phase in a run: a step never leads to a phase of the
/// same or a lower rank.
spec fn rank(phase: Phase) -> nat {
    match phase {
        Phase::BinaryCheck => 0,
        Phase::Download => 1,
        Phase::BinaryWrite => 2,
        Phase::ModeRead => 3,
        Phase::ModeSet => 4,
        Phase::ConfigCheck => 5,
        Phase::ConfigWrite => 6,
        Phase::Spawn => 7,
        Phase::Wait => 8,
    }
}

/// Counting goes action by action.
proof fn lemma_count_first(first: ActionView, rest: Seq<ActionView>, wanted: spec_fn(ActionView) -> bool)
    ensures
        count(seq![first] + rest, wanted) == (if wanted(first) {
            1nat
        } else {
            0nat
        }) + count(rest, wanted),
{
    let all = seq![first] + rest;
    assert(all.first() == first);
    assert(all.drop_first() =~= rest);
}

/// A run goes forward, so what only the steps into the phases up to `last`
/// can ask for is not asked for from `last` on.
proof fn lemma_none_from(
    settings: Settings,
    phase: Phase,
    events: Seq<EventView>,
    wanted: spec_fn(ActionView) -> bool,
    last: Phase,
)
    requires
        forall|from: Phase, event: EventView|
            #![trigger transition(settings, from, event)]
            transition(settings, from, event) matches StepView::Continue(next, action) ==> (wanted(
                action,
            ) ==> rank(next) <= rank(last)),
        rank(phase) >= rank(last),
    ensures
        count(requests(settings, phase, events), wanted) == 0,
    decreases events.len(),
{
    if events.len() > 0 {
        match transition(settings, phase, events.first()) {
            StepView::Continue(next, action) => {
                assert(rank(next) > rank(phase));
                lemma_none_from(settings, next, events.drop_first(), wanted, last);
                lemma_count_first(action, requests(settings, next, events.drop_first()), wanted);
            },
            StepView::Finished(_) => {},
        }
    }
}

/// A run only gets to the phases that lie ahead of it.
proof fn lemma_reply_lies_ahead(
    settings: Settings,
    phase: Phase,
    events: Seq<EventView>,
    target: Phase,
)
    requires
        reply_in(settings, phase, events, target) is Some,
    ensures
        rank(phase) <= rank(target),
    decreases events.len(),
{
    if phase != target {
        match transition(settings, phase, events.first()) {
            StepView::Continue(next, _) => {
                assert(rank(next) > rank(phase));
                lemma_reply_lies_ahead(settings, next, events.drop_first(), target);
            },
            StepView::Finished(_) => {},
        }
    }
}

/// If the reply that the run takes in `target` leads into `entry` with a
/// wanted action, and only the step into `entry` can ask for such an action,
/// then the run asks for it exactly once.
proof fn lemma_asked_once(
    settings: Settings,
    phase: Phase,
    events: Seq<EventView>,
    wanted: spec_fn(ActionView) -> bool,
    target: Phase,
    entry: Phase,
)
    requires
        forall|from: Phase, event: EventView|
            #![trigger transition(settings, from, event)]
            transition(settings, from, event) matches StepView::Continue(next, action) ==> (wanted(
                action,
            ) ==> next == entry),
        reply_in(settings, phase, events, target) matches Some(reply) && transition(
            settings,
            target,
            reply,
        ) matches StepView::Continue(next, action) && next == entry && wanted(action),
    ensures
        count(requests(settings, phase, events), wanted) == 1,
    decreases events.len(),
{
    let rest = events.drop_first();
    match transition(settings, phase, events.first()) {
        StepView::Continue(next, action) => {
            lemma_count_first(action, requests(settings, next, rest), wanted);
            if phase == target {
                lemma_none_from(settings, next, rest, wanted, entry);
            } else {
                lemma_reply_lies_ahead(settings, next, rest, target);
                assert(rank(entry) > rank(target));
                lemma_asked_once(settings, next, rest, wanted, target, entry);
            }
        },
        StepView::Finished(_) => {},
    }
}

/// If the reply that the run takes in `target` leads past `entry`, and only
/// the step into `entry`, which lies behind `target`, can ask for a wanted
/// action, then the run never asks for one.
proof fn lemma_never_asked(
    settings: Settings,
    phase: Phase,
    events: Seq<EventView>,
    wanted: spec_fn(ActionView) -> bool,
    target: Phase,
    entry: Phase,
)
    requires
        forall|from: Phase, event: EventView|
            #![trigger transition(settings, from, event)]
            transition(settings, from, event) matches StepView::Continue(next, action) ==> (wanted(
                action,
            ) ==> next == entry),
        rank(target) < rank(entry),
        reply_in(settings, phase, events, target) matches Some(reply) && (transition(
            settings,
            target,
            reply,
        ) matches StepView::Continue(next, _) ==> rank(next) > rank(entry)),
    ensures
        count(requests(settings, phase, events), wanted) == 0,
    decreases events.len(),
{
    let rest = events.drop_first();
    match transition(settings, phase, events.first()) {
        StepView::Continue(next, action) => {
            lemma_count_first(action, requests(settings, next, rest), wanted);
            if phase == target {
                lemma_none_from(settings, next, rest, wanted, entry);
            } else {
                lemma_reply_lies_ahead(settings, next, rest, target);
                lemma_never_asked(settings, next, rest, wanted, target, entry);
            }
        },
        StepView::Finished(_) => {},
    }
}

/// The name of a binary is never the name of the configuration file.
proof fn lemma_binary_is_not_config(settings: Settings)
    requires
        is_supported(settings.os, settings.arch),
    ensures
        settings.binary() != CONFIG_FILE@,
        settings.binary().len() > 0,
{
    lemma_names_spelled_out();
    reveal_strlit("tailwind.config.js");
}

/// Whether the host's reply to a check says that the file is missing. Any
/// reply but `Exists(true)` says so.
pub open spec fn says_missing(reply: Option<EventView>) -> bool {
    reply matches Some(event) && event != EventView::Exists(true)
}

/// Whether the host's reply to a check says that the file is there.
pub open spec fn says_present(reply: Option<EventView>) -> bool {
    reply == Some(EventView::Exists(true))
}

/// A run fetches the binary exactly once if the host says that it is missing,
/// and not at all if the host says that it is there.
pub proof fn law_binary_is_fetched_once_if_missing(settings: Settings, events: Seq<EventView>)
    ensures
        says_missing(run_reply(settings, events, Phase::BinaryCheck)) ==> count(
            run_actions(settings, events),
            fetches(),
        ) == 1 && count(
            run_actions(settings, events),
            exactly(ActionView::Fetch { url: spec_download_url(settings.binary()) }),
        ) == 1,
        says_present(run_reply(settings, events, Phase::BinaryCheck)) ==> count(
            run_actions(settings, events),
            fetches(),
        ) == 0,
{
    let asked = requests(settings, Phase::BinaryCheck, events);
    let fetch = ActionView::Fetch { url: spec_download_url(settings.binary()) };
    lemma_count_first(opening(settings), asked, fetches());
    lemma_count_first(opening(settings), asked, exactly(fetch));
    if says_missing(run_reply(settings, events, Phase::BinaryCheck)) {
        lemma_asked_once(
            settings,
            Phase::BinaryCheck,
            events,
            fetches(),
            Phase::BinaryCheck,
            Phase::Download,
        );
        lemma_asked_once(
            settings,
            Phase::BinaryCheck,
            events,
            exactly(fetch),
            Phase::BinaryCheck,
            Phase::Download,
        );
    }
    if says_present(run_reply(settings, events, Phase::BinaryCheck)) {
        lemma_never_asked(
            settings,
            Phase::BinaryCheck,
            events,
            fetches(),
            Phase::BinaryCheck,
            Phase::Download,
        );
    }
}

/// Once the binary has been fetched, the run writes it exactly once: under
/// the binary's name, with the contents that were fetched. Where the host
/// answers that the write is done, the binary is there afterwards.
pub proof fn law_fetched_binary_is_written(
    settings: Settings,
    events: Seq<EventView>,
    body: Seq<u8>,
)
    requires
        is_supported(settings.os, settings.arch),
        run_reply(settings, events, Phase::Download) == Some(EventView::Fetched(body)),
    ensures
        count(run_actions(settings, events), writes(settings.binary())) == 1,
        count(
            run_actions(settings, events),
            exactly(ActionView::WriteFile { path: settings.binary(), contents: body }),
        ) == 1,
        run_reply(settings, events, Phase::BinaryWrite) == Some(EventView::Completed)
            ==> present_after(false, run_actions(settings, events), settings.binary()),
{
    let asked = requests(settings, Phase::BinaryCheck, events);
    let write = ActionView::WriteFile { path: settings.binary(), contents: body };
    lemma_binary_is_not_config(settings);
    lemma_count_first(opening(settings), asked, writes(settings.binary()));
    lemma_count_first(opening(settings), asked, exactly(write));
    lemma_asked_once(
        settings,
        Phase::BinaryCheck,
        events,
        writes(settings.binary()),
        Phase::Download,
        Phase::BinaryWrite,
    );
    lemma_asked_once(
        settings,
        Phase::BinaryCheck,
        events,
        exactly(write),
        Phase::Download,
        Phase::BinaryWrite,
    );
}

/// A binary that is there is left alone: the run fetches nothing, and neither
/// writes the binary nor sets its mode, whatever becomes of the configuration
/// file.
pub proof fn law_present_binary_is_kept(settings: Settings, events: Seq<EventView>)
    requires
        is_supported(settings.os, settings.arch),
        says_present(run_reply(settings, events, Phase::BinaryCheck)),
    ensures
        count(run_actions(settings, events), fetches()) == 0,
        count(run_actions(settings, events), changes(settings.binary())) == 0,
        count(run_actions(settings, events), sets_mode()) == 0,
{
    let asked = requests(settings, Phase::BinaryCheck, events);
    let rest = events.drop_first();
    let later = requests(settings, Phase::ConfigCheck, rest);
    let ask = ActionView::PathExists { path: CONFIG_FILE@ };
    law_binary_is_fetched_once_if_missing(settings, events);
    lemma_binary_is_not_config(settings);
    assert(events.len() > 0 && events.first() == EventView::Exists(true));
    assert(asked == seq![ask] + later);
    lemma_count_first(opening(settings), asked, changes(settings.binary()));
    lemma_count_first(ask, later, changes(settings.binary()));
    lemma_none_from(
        settings,
        Phase::ConfigCheck,
        rest,
        changes(settings.binary()),
        Phase::ModeSet,
    );
    lemma_count_first(opening(settings), asked, sets_mode());
    lemma_count_first(ask, later, sets_mode());
    lemma_none_from(settings, Phase::ConfigCheck, rest, sets_mode(), Phase::ModeSet);
}

/// Where files carry no permission bits, no step leads to the reading or the
/// setting of a mode.
proof fn lemma_no_mode_without_bits(settings: Settings, phase: Phase, events: Seq<EventView>)
    requires
        !settings.os.is_unix(),
        phase != Phase::ModeRead,
    ensures
        count(requests(settings, phase, events), sets_mode()) == 0,
    decreases events.len(),
{
    if events.len() > 0 {
        match transition(settings, phase, events.first()) {
            StepView::Continue(next, action) => {
                lemma_no_mode_without_bits(settings, next, events.drop_first());
                lemma_count_first(
                    action,
                    requests(settings, next, events.drop_first()),
                    sets_mode(),
                );
            },
            StepView::Finished(_) => {},
        }
    }
}

/// Where files carry permission bits, the run asks for the mode of the
/// binary once it is written, and once that mode is known, sets it exactly
/// once: to that mode with the executable bits added. Where they carry none,
/// the run never sets a mode.
pub proof fn law_written_binary_is_made_executable(
    settings: Settings,
    events: Seq<EventView>,
    mode: u32,
)
    requires
        is_supported(settings.os, settings.arch),
    ensures
        settings.os.is_unix() && run_reply(settings, events, Phase::BinaryWrite) == Some(
            EventView::Completed,
        ) ==> count(
            run_actions(settings, events),
            exactly(ActionView::ReadMode { path: settings.binary() }),
        ) == 1,
        run_reply(settings, events, Phase::ModeRead) == Some(EventView::Mode(mode)) ==> count(
            run_actions(settings, events),
            sets_mode(),
        ) == 1 && count(
            run_actions(settings, events),
            exactly(
                ActionView::SetMode {
                    path: settings.binary(),
                    mode: spec_executable_mode(mode),
                },
            ),
        ) == 1,
        !settings.os.is_unix() ==> count(run_actions(settings, events), sets_mode()) == 0,
{
    let asked = requests(settings, Phase::BinaryCheck, events);
    let read = ActionView::ReadMode { path: settings.binary() };
    let set = ActionView::SetMode { path: settings.binary(), mode: spec_executable_mode(mode) };
    lemma_count_first(opening(settings), asked, exactly(read));
    lemma_count_first(opening(settings), asked, sets_mode());
    lemma_count_first(opening(settings), asked, exactly(set));
    if settings.os.is_unix() && run_reply(settings, events, Phase::BinaryWrite) == Some(
        EventView::Completed,
    ) {
        lemma_asked_once(
            settings,
            Phase::BinaryCheck,
            events,
            exactly(read),
            Phase::BinaryWrite,
            Phase::ModeRead,
        );
    }
    if run_reply(settings, events, Phase::ModeRead) == Some(EventView::Mode(mode)) {
        lemma_asked_once(
            settings,
            Phase::BinaryCheck,
            events,
            sets_mode(),
            Phase::ModeRead,
            Phase::ModeSet,
        );
        lemma_asked_once(
            settings,
            Phase::BinaryCheck,
            events,
            exactly(set),
            Phase::ModeRead,
            Phase::ModeSet,
        );
    }
    if !settings.os.is_unix() {
        lemma_no_mode_without_bits(settings, Phase::BinaryCheck, events);
    }
}

/// A configuration file that is there is left alone: the run neither writes
/// it nor sets its mode.
pub proof fn law_present_config_is_kept(settings: Settings, events: Seq<EventView>)
    requires
        is_supported(settings.os, settings.arch),
        says_present(run_reply(settings, events, Phase::ConfigCheck)),
    ensures
        count(run_actions(settings, events), changes(CONFIG_FILE@)) == 0,
{
    let asked = requests(settings, Phase::BinaryCheck, events);
    lemma_binary_is_not_config(settings);
    lemma_count_first(opening(settings), asked, changes(CONFIG_FILE@));
    lemma_never_asked(
        settings,
        Phase::BinaryCheck,
        events,
        changes(CONFIG_FILE@),
        Phase::ConfigCheck,
        Phase::ConfigWrite,
    );
}

/// A configuration file that is missing is written exactly once, with the
/// default configuration, and not changed otherwise.
pub proof fn law_missing_config_is_written_once(settings: Settings, events: Seq<EventView>)
    requires
        is_supported(settings.os, settings.arch),
        says_missing(run_reply(settings, events, Phase::ConfigCheck)),
    ensures
        count(run_actions(settings, events), changes(CONFIG_FILE@)) == 1,
        count(run_actions(settings, events), writes(CONFIG_FILE@)) == 1,
        count(
            run_actions(settings, events),
            exactly(ActionView::WriteFile { path: CONFIG_FILE@, contents: spec_default_config() }),
        ) == 1,
{
    let asked = requests(settings, Phase::BinaryCheck, events);
    let write = ActionView::WriteFile { path: CONFIG_FILE@, contents: spec_default_config() };
    lemma_binary_is_not_config(settings);
    lemma_count_first(opening(settings), asked, changes(CONFIG_FILE@));
    lemma_count_first(opening(settings), asked, writes(CONFIG_FILE@));
    lemma_count_first(opening(settings), asked, exactly(write));
    lemma_asked_once(
        settings,
        Phase::BinaryCheck,
        events,
        changes(CONFIG_FILE@),
        Phase::ConfigCheck,
        Phase::ConfigWrite,
    );
    lemma_asked_once(
        settings,
        Phase::BinaryCheck,
        events,
        writes(CONFIG_FILE@),
        Phase::ConfigCheck,
        Phase::ConfigWrite,
    );
    lemma_asked_once(
        settings,
        Phase::BinaryCheck,
        events,
        exactly(write),
        Phase::ConfigCheck,
        Phase::ConfigWrite,
    );
}

/// The run ends with the first step that finishes it: its result is that
/// step's, whatever events follow.
pub proof fn law_run_ends_with_first_finishing_step(
    settings: Settings,
    phase: Phase,
    events: Seq<EventView>,
    target: Phase,
)
    requires
        reply_in(settings, phase, events, target) matches Some(reply) && transition(
            settings,
            target,
            reply,
        ) is Finished,
    ensures
        outcome(settings, phase, events) == Some(
            transition(settings, target, reply_in(settings, phase, events, target)->0)->Finished_0,
        ),
    decreases events.len(),
{
    if phase != target {
        match transition(settings, phase, events.first()) {
            StepView::Continue(next, _) => {
                law_run_ends_with_first_finishing_step(
                    settings,
                    next,
                    events.drop_first(),
                    target,
                );
            },
            StepView::Finished(_) => {},
        }
    }
}

/// A run in which the host says of both files that they are there fetches
/// nothing and changes nothing on disk.
pub proof fn law_nothing_changes_when_both_are_present(
    settings: Settings,
    events: Seq<EventView>,
)
    requires
        says_present(run_reply(settings, events, Phase::BinaryCheck)),
        says_present(run_reply(settings, events, Phase::ConfigCheck)),
    ensures
        count(run_actions(settings, events), fetches()) == 0,
        count(run_actions(settings, events), changes_disk()) == 0,
{
    law_binary_is_fetched_once_if_missing(settings, events);
    reveal_with_fuel(reply_in, 3);
    reveal_with_fuel(requests, 3);
    let asked = requests(settings, Phase::BinaryCheck, events);
    let rest = events.drop_first();
    assert(events.len() > 0 && events.first() == EventView::Exists(true));
    assert(rest.len() > 0 && rest.first() == EventView::Exists(true));
    let asked_later = requests(settings, Phase::ConfigCheck, rest);
    let tail = requests(settings, Phase::Spawn, rest.drop_first());
    lemma_count_first(opening(settings), asked, changes_disk());
    assert(asked == seq![ActionView::PathExists { path: CONFIG_FILE@ }] + asked_later);
    lemma_count_first(ActionView::PathExists { path: CONFIG_FILE@ }, asked_later, changes_disk());
    let spawn = transition(settings, Phase::ConfigCheck, rest.first())->Continue_1;
    assert(asked_later == seq![spawn] + tail);
    lemma_count_first(spawn, tail, changes_disk());
    lemma_none_from(settings, Phase::Spawn, rest.drop_first(), changes_disk(), Phase::ConfigWrite);
}

/// A run that finds the binary missing and ends well has fetched it.
proof fn lemma_good_run_has_fetched(settings: Settings, events: Seq<EventView>)
    requires
        says_missing(run_reply(settings, events, Phase::BinaryCheck)),
        run_outcome(settings, events) == Some(Ok::<(), ErrorView>(())),
    ensures
        run_reply(settings, events, Phase::Download) matches Some(EventView::Fetched(_)),
{
    reveal_with_fuel(reply_in, 3);
    reveal_with_fuel(outcome, 3);
}

/// Two runs in a row, the first of which finds neither file and ends well, and
/// the second of which is told of each file what the first has left: together
/// they fetch the binary once and write the configuration once, and the
/// second run changes nothing on disk.
pub proof fn law_second_run_changes_nothing(
    settings: Settings,
    first: Seq<EventView>,
    second: Seq<EventView>,
)
    requires
        is_supported(settings.os, settings.arch),
        run_reply(settings, first, Phase::BinaryCheck) == Some(EventView::Exists(false)),
        run_reply(settings, first, Phase::ConfigCheck) == Some(EventView::Exists(false)),
        run_outcome(settings, first) == Some(Ok::<(), ErrorView>(())),
        run_reply(settings, second, Phase::BinaryCheck) == Some(
            EventView::Exists(
                present_after(false, run_actions(settings, first), settings.binary()),
            ),
        ),
        run_reply(settings, second, Phase::ConfigCheck) == Some(
            EventView::Exists(present_after(false, run_actions(settings, first), CONFIG_FILE@)),
        ),
    ensures
        count(run_actions(settings, first), fetches()) + count(
            run_actions(settings, second),
            fetches(),
        ) == 1,
        count(run_actions(settings, first), writes(CONFIG_FILE@)) + count(
            run_actions(settings, second),
            writes(CONFIG_FILE@),
        ) == 1,
        count(run_actions(settings, second), changes_disk()) == 0,
{
    law_binary_is_fetched_once_if_missing(settings, first);
    lemma_good_run_has_fetched(settings, first);
    let body = run_reply(settings, first, Phase::Download)->0->Fetched_0;
    law_fetched_binary_is_written(settings, first, body);
    law_missing_config_is_written_once(settings, first);
    law_nothing_changes_when_both_are_present(settings, second);
    lemma_binary_is_not_config(settings);
    lemma_count_first(
        opening(settings),
        requests(settings, Phase::BinaryCheck, second),
        writes(CONFIG_FILE@),
    );
    lemma_never_asked(
        settings,
        Phase::BinaryCheck,
        second,
        writes(CONFIG_FILE@),
        Phase::ConfigCheck,
        Phase::ConfigWrite,
    );
}

/// From a phase of rank `r`, at most `9 - r` events are taken.
proof fn lemma_ends_in_time(settings: Settings, phase: Phase, events: Seq<EventView>)
    requires
        events.len() + rank(phase) >= 9,
    ensures
        outcome(settings, phase, events) is Some,
    decreases events.len(),
{
    match transition(settings, phase, events.first()) {
        StepView::Continue(next, _) => {
            assert(rank(next) > rank(phase));
            lemma_ends_in_time(settings, next, events.drop_first());
        },
        StepView::Finished(_) => {},
    }
}

/// No run takes more than nine events: whatever the host answers, the ninth
/// answer ends the run at the latest.
pub proof fn law_run_ends_within_nine_events(settings: Settings, events: Seq<EventView>)
    requires
        events.len() >= 9,
    ensures
        run_outcome(settings, events) is Some,
{
    lemma_ends_in_time(settings, Phase::BinaryCheck, events);
}

/// A run that ends well, from whatever phase, has waited for the tool and
/// found no error marker in its output.
proof fn lemma_good_end_comes_from_output(
    settings: Settings,
    phase: Phase,
    events: Seq<EventView>,
)
    requires
        outcome(settings, phase, events) == Some(Ok::<(), ErrorView>(())),
    ensures
        reply_in(settings, phase, events, Phase::Wait) matches Some(EventView::Exited(stdout))
            && !spec_reports_error(utf8_lossy(stdout)),
    decreases events.len(),
{
    if phase != Phase::Wait {
        match transition(settings, phase, events.first()) {
            StepView::Continue(next, _) => {
                lemma_good_end_comes_from_output(settings, next, events.drop_first());
            },
            StepView::Finished(_) => {},
        }
    }
}

/// The output of the tool decides the result of a run that gets to it: the
/// run fails with that output, decoded, if it carries the error marker, and
/// ends well otherwise. And no run ends well in any other way.
pub proof fn law_output_decides_the_result(settings: Settings, events: Seq<EventView>)
    ensures
        run_reply(settings, events, Phase::Wait) matches Some(EventView::Exited(stdout))
            ==> run_outcome(settings, events) == Some(spec_classify(utf8_lossy(stdout))),
        run_outcome(settings, events) == Some(Ok::<(), ErrorView>(())) ==> (run_reply(
            settings,
            events,
            Phase::Wait,
        ) matches Some(EventView::Exited(stdout)) && !spec_reports_error(utf8_lossy(stdout))),
{
    if run_reply(settings, events, Phase::Wait) matches Some(EventView::Exited(stdout)) {
        law_run_ends_with_first_finishing_step(settings, Phase::BinaryCheck, events, Phase::Wait);
    }
    if run_outcome(settings, events) == Some(Ok::<(), ErrorView>(())) {
        lemma_good_end_comes_from_output(settings, Phase::BinaryCheck, events);
    }
}

} // verus!
