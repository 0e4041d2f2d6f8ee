//! What holds of every run of a chained task: that it reports its end
//! once and in order, that a cancelled task stays quiet, that a failed
//! step is named, and that tasks do not disturb each other.

use vstd::prelude::*;
use crate::chain::{
    ChainItemView, ChainPhase, ChainStepView, ChainedTaskView, FailurePolicyView,
    chain_begin_step, chain_failed, chain_labels, chain_proceed, chain_started_event, chain_step,
    checked, directory_failure, pending_check, probed_step, stepped_over,
};
use crate::events::{
    RunnerActionView, RunnerEventView, TaskEnd, UiEventView, event_status, in_report_order,
    lemma_report_order_concat, lemma_status_words_concat, only_lines, status_event, status_words,
};
use crate::process::ProcessEntryView;
use crate::runner::{Observation, TaskPhase, same_for};
use crate::step::{StreamingCommandView, command_line, streaming_command_step};
use crate::types::{StatusTag, StreamKind, status_word};

verus! {

/// A task after a run, and all that it emitted on the way.
pub struct ChainRun<H> {
    pub task: ChainedTaskView<H>,
    pub emitted: Seq<UiEventView>,
}

/// The run of a chained task over a sequence of steps, each with the
/// registry as the task met it.
pub open spec fn chain_run<H>(task: ChainedTaskView<H>, seen: Seq<Observation<H>>) -> ChainRun<H>
    decreases seen.len(),
{
    if seen.len() == 0 {
        ChainRun { task, emitted: Seq::empty() }
    } else {
        let before = chain_run(task, seen.drop_last());
        let step = chain_step(before.task, seen.last().registry, seen.last().event);
        ChainRun { task: step.task, emitted: before.emitted + step.reaction.emit }
    }
}

/// The status words that a chained task has emitted since its `started`
/// event, by where it stands.
pub open spec fn chain_words_at(phase: ChainPhase) -> Seq<Seq<char>> {
    match phase {
        ChainPhase::Done(TaskEnd::Succeeded) => seq![status_word(StatusTag::Finished)],
        ChainPhase::Done(TaskEnd::Failed) => seq![status_word(StatusTag::Error)],
        _ => Seq::empty(),
    }
}

proof fn lemma_words_push(emit: Seq<UiEventView>, event: UiEventView)
    ensures
        status_words(emit.push(event)) == match event_status(event) {
            Some(word) => status_words(emit).push(word),
            None => status_words(emit),
        },
{
    assert(emit.push(event).drop_last() =~= emit);
}

proof fn lemma_command_step_is_wordless<H>(
    command: StreamingCommandView<H>,
    registry: Map<Seq<char>, ProcessEntryView<H>>,
    event: RunnerEventView<H>,
)
    ensures
        status_words(streaming_command_step(command, registry, event).reaction.emit)
            == Seq::<Seq<char>>::empty(),
{
    let emit = streaming_command_step(command, registry, event).reaction.emit;
    if emit.len() > 0 {
        assert(emit.len() == 1);
        assert(emit.drop_last() =~= Seq::<UiEventView>::empty());
        assert(event_status(emit.last()) is None);
        assert(status_words(emit.drop_last()) =~= Seq::<Seq<char>>::empty());
    }
}

proof fn lemma_begin_step_words<H>(
    task: ChainedTaskView<H>,
    registry: Map<Seq<char>, ProcessEntryView<H>>,
    emit: Seq<UiEventView>,
    step: ChainStepView,
)
    requires
        status_words(emit) == Seq::<Seq<char>>::empty(),
    ensures
        status_words(chain_begin_step(task, registry, emit, step).reaction.emit) == chain_words_at(
            chain_begin_step(task, registry, emit, step).task.phase,
        ),
{
    match step.announce {
        Some(line) => {
            lemma_words_push(emit, command_line(line, StreamKind::Stdout));
        },
        None => {},
    }
}

proof fn lemma_proceed_words<H>(
    task: ChainedTaskView<H>,
    registry: Map<Seq<char>, ProcessEntryView<H>>,
    emit: Seq<UiEventView>,
)
    requires
        status_words(emit) == Seq::<Seq<char>>::empty(),
    ensures
        status_words(chain_proceed(task, registry, emit).reaction.emit) == chain_words_at(
            chain_proceed(task, registry, emit).task.phase,
        ),
{
    if !registry.contains_key(task.process_id) {
    } else if task.position >= task.items.len() {
        lemma_words_push(
            emit,
            status_event(chain_labels(task), StatusTag::Finished, task.success_message, None),
        );
        assert(Seq::<Seq<char>>::empty().push(status_word(StatusTag::Finished)) =~= seq![
            status_word(StatusTag::Finished),
        ]);
    } else {
        match task.items[task.position as int] {
            ChainItemView::Run(step) => {
                lemma_begin_step_words(task, registry, emit, step);
            },
            ChainItemView::Fail { report, message } => {
                let reported = emit.push(command_line(report, StreamKind::Stderr));
                lemma_words_push(emit, command_line(report, StreamKind::Stderr));
                lemma_failed_words(task, registry, reported, message);
            },
            _ => {},
        }
    }
}

proof fn lemma_failed_words<H>(
    task: ChainedTaskView<H>,
    registry: Map<Seq<char>, ProcessEntryView<H>>,
    emit: Seq<UiEventView>,
    message: Seq<char>,
)
    requires
        status_words(emit) == Seq::<Seq<char>>::empty(),
    ensures
        status_words(chain_failed(task, registry, emit, message).reaction.emit) == chain_words_at(
            chain_failed(task, registry, emit, message).task.phase,
        ),
{
    lemma_words_push(emit, status_event(chain_labels(task), StatusTag::Error, message, None));
    assert(Seq::<Seq<char>>::empty().push(status_word(StatusTag::Error)) =~= seq![
        status_word(StatusTag::Error),
    ]);
}

/// The status words of one step of a chained task: the word of the end
/// that the step reaches, and none where the task has not ended. A task
/// that has ended answers nothing and changes nothing.
pub proof fn lemma_chain_step_words<H>(
    task: ChainedTaskView<H>,
    registry: Map<Seq<char>, ProcessEntryView<H>>,
    event: RunnerEventView<H>,
)
    ensures
        ({
            let step = chain_step(task, registry, event);
            if task.phase is Done {
                step.task == task && step.registry == registry && step.reaction.emit
                    == Seq::<UiEventView>::empty()
            } else {
                status_words(step.reaction.emit) == chain_words_at(step.task.phase)
            }
        }),
{
    let none = Seq::<UiEventView>::empty();
    assert(status_words(none) =~= Seq::<Seq<char>>::empty());
    match task.phase {
        ChainPhase::Done(_) => {},
        ChainPhase::Ready => {
            lemma_proceed_words(task, registry, none);
        },
        ChainPhase::PreparingDir => {
            lemma_proceed_words(stepped_over(task), registry, none);
            match event {
                RunnerEventView::DirFailed(reason) => {
                    lemma_failed_words(task, registry, none, directory_failure(reason));
                },
                _ => {},
            }
        },
        ChainPhase::Probing => {
            lemma_proceed_words(stepped_over(task), registry, none);
            match probed_step(task) {
                Some(step) => {
                    lemma_begin_step_words(task, registry, none, step);
                },
                None => {},
            }
        },
        ChainPhase::Removing => {
            lemma_proceed_words(stepped_over(task), registry, none);
        },
        ChainPhase::Checking => {
            match (pending_check(task), event) {
                (Some((hit, miss)), RunnerEventView::Checked(answer)) => {
                    lemma_proceed_words(checked(task, answer, hit, miss), registry, none);
                },
                _ => {},
            }
        },
        ChainPhase::Running => {
            match task.current {
                None => {},
                Some(active) => {
                    let inner = streaming_command_step(active.command, registry, event);
                    lemma_command_step_is_wordless(active.command, registry, event);
                    lemma_proceed_words(stepped_over(task), inner.registry, inner.reaction.emit);
                    match active.on_failure {
                        FailurePolicyView::Abort(message) => {
                            lemma_failed_words(task, inner.registry, inner.reaction.emit, message);
                        },
                        FailurePolicyView::Warn(line) => {
                            let warned = inner.reaction.emit.push(
                                command_line(line, StreamKind::Stderr),
                            );
                            lemma_words_push(
                                inner.reaction.emit,
                                command_line(line, StreamKind::Stderr),
                            );
                            lemma_proceed_words(stepped_over(task), inner.registry, warned);
                        },
                    }
                },
            }
        },
    }
}

/// A chained task reports its end once. Whatever is reported to it, in
/// whatever order, and whatever happens to the registry in between: a run
/// that ends with all steps done has emitted exactly one status event,
/// `finished`; a run that ends on a failed step has emitted exactly one,
/// `error`; a run that ends because the task was cancelled, or that has not
/// ended, has emitted none. The task itself never emits `started` again,
/// nor `cancelled`.
pub proof fn lemma_chain_reports_once<H>(task: ChainedTaskView<H>, seen: Seq<Observation<H>>)
    requires
        !(task.phase is Done),
    ensures
        status_words(chain_run(task, seen).emitted) == chain_words_at(
            chain_run(task, seen).task.phase,
        ),
    decreases seen.len(),
{
    if seen.len() == 0 {
    } else {
        lemma_chain_reports_once(task, seen.drop_last());
        let before = chain_run(task, seen.drop_last());
        let step = chain_step(before.task, seen.last().registry, seen.last().event);
        lemma_status_words_concat(before.emitted, step.reaction.emit);
        lemma_chain_step_words(before.task, seen.last().registry, seen.last().event);
        assert(status_words(before.emitted) + status_words(step.reaction.emit) =~= chain_words_at(
            step.task.phase,
        ));
    }
}

/// Whether a chained task in this phase has reported its end with a
/// status event.
pub open spec fn chain_has_reported(phase: ChainPhase) -> bool {
    phase == ChainPhase::Done(TaskEnd::Succeeded) || phase == ChainPhase::Done(TaskEnd::Failed)
}

proof fn lemma_push_line(emit: Seq<UiEventView>, line: Seq<char>, kind: StreamKind)
    requires
        only_lines(emit),
    ensures
        only_lines(emit.push(command_line(line, kind))),
{
}

proof fn lemma_push_status(emit: Seq<UiEventView>, status: UiEventView)
    requires
        only_lines(emit),
        event_status(status) is Some,
    ensures
        in_report_order(emit.push(status), true),
{
    assert(emit.push(status).drop_last() =~= emit);
}

proof fn lemma_begin_step_order<H>(
    task: ChainedTaskView<H>,
    registry: Map<Seq<char>, ProcessEntryView<H>>,
    emit: Seq<UiEventView>,
    step: ChainStepView,
)
    requires
        only_lines(emit),
    ensures
        only_lines(chain_begin_step(task, registry, emit, step).reaction.emit),
        !chain_has_reported(chain_begin_step(task, registry, emit, step).task.phase),
{
    match step.announce {
        Some(line) => {
            lemma_push_line(emit, line, StreamKind::Stdout);
        },
        None => {},
    }
}

proof fn lemma_failed_order<H>(
    task: ChainedTaskView<H>,
    registry: Map<Seq<char>, ProcessEntryView<H>>,
    emit: Seq<UiEventView>,
    message: Seq<char>,
)
    requires
        only_lines(emit),
    ensures
        in_report_order(
            chain_failed(task, registry, emit, message).reaction.emit,
            chain_has_reported(chain_failed(task, registry, emit, message).task.phase),
        ),
{
    lemma_push_status(emit, status_event(chain_labels(task), StatusTag::Error, message, None));
}

proof fn lemma_proceed_order<H>(
    task: ChainedTaskView<H>,
    registry: Map<Seq<char>, ProcessEntryView<H>>,
    emit: Seq<UiEventView>,
)
    requires
        only_lines(emit),
    ensures
        in_report_order(
            chain_proceed(task, registry, emit).reaction.emit,
            chain_has_reported(chain_proceed(task, registry, emit).task.phase),
        ),
{
    if !registry.contains_key(task.process_id) {
    } else if task.position >= task.items.len() {
        lemma_push_status(
            emit,
            status_event(chain_labels(task), StatusTag::Finished, task.success_message, None),
        );
    } else {
        match task.items[task.position as int] {
            ChainItemView::Run(step) => {
                lemma_begin_step_order(task, registry, emit, step);
            },
            ChainItemView::Fail { report, message } => {
                lemma_push_line(emit, report, StreamKind::Stderr);
                lemma_failed_order(
                    task,
                    registry,
                    emit.push(command_line(report, StreamKind::Stderr)),
                    message,
                );
            },
            _ => {},
        }
    }
}

/// The events of one step of a chained task are in report order: lines
/// only, unless the step reports the end, in which case the status event
/// comes last.
pub proof fn lemma_chain_step_order<H>(
    task: ChainedTaskView<H>,
    registry: Map<Seq<char>, ProcessEntryView<H>>,
    event: RunnerEventView<H>,
)
    requires
        !(task.phase is Done),
    ensures
        in_report_order(
            chain_step(task, registry, event).reaction.emit,
            chain_has_reported(chain_step(task, registry, event).task.phase),
        ),
{
    let none = Seq::<UiEventView>::empty();
    match task.phase {
        ChainPhase::Done(_) => {},
        ChainPhase::Ready => {
            lemma_proceed_order(task, registry, none);
        },
        ChainPhase::PreparingDir => {
            lemma_proceed_order(stepped_over(task), registry, none);
            match event {
                RunnerEventView::DirFailed(reason) => {
                    lemma_failed_order(task, registry, none, directory_failure(reason));
                },
                _ => {},
            }
        },
        ChainPhase::Probing => {
            lemma_proceed_order(stepped_over(task), registry, none);
            match probed_step(task) {
                Some(step) => {
                    lemma_begin_step_order(task, registry, none, step);
                },
                None => {},
            }
        },
        ChainPhase::Removing => {
            lemma_proceed_order(stepped_over(task), registry, none);
        },
        ChainPhase::Checking => {
            match (pending_check(task), event) {
                (Some((hit, miss)), RunnerEventView::Checked(answer)) => {
                    lemma_proceed_order(checked(task, answer, hit, miss), registry, none);
                },
                _ => {},
            }
        },
        ChainPhase::Running => {
            match task.current {
                None => {},
                Some(active) => {
                    let inner = streaming_command_step(active.command, registry, event);
                    assert(only_lines(inner.reaction.emit));
                    lemma_proceed_order(stepped_over(task), inner.registry, inner.reaction.emit);
                    match active.on_failure {
                        FailurePolicyView::Abort(message) => {
                            lemma_failed_order(task, inner.registry, inner.reaction.emit, message);
                        },
                        FailurePolicyView::Warn(line) => {
                            lemma_push_line(inner.reaction.emit, line, StreamKind::Stderr);
                            lemma_proceed_order(
                                stepped_over(task),
                                inner.registry,
                                inner.reaction.emit.push(command_line(line, StreamKind::Stderr)),
                            );
                        },
                    }
                },
            }
        },
    }
}

/// The events of a chained task come in order: as long as the task has
/// not reported its end, its run holds lines only; and once it has, the
/// status event of the end is the last event of the run, after every line.
pub proof fn lemma_chain_order<H>(task: ChainedTaskView<H>, seen: Seq<Observation<H>>)
    requires
        !(task.phase is Done),
    ensures
        in_report_order(
            chain_run(task, seen).emitted,
            chain_has_reported(chain_run(task, seen).task.phase),
        ),
    decreases seen.len(),
{
    if seen.len() > 0 {
        lemma_chain_order(task, seen.drop_last());
        let before = chain_run(task, seen.drop_last());
        let step = chain_step(before.task, seen.last().registry, seen.last().event);
        if before.task.phase is Done {
            lemma_chain_step_words(before.task, seen.last().registry, seen.last().event);
            assert(before.emitted + step.reaction.emit =~= before.emitted);
        } else {
            lemma_chain_step_order(before.task, seen.last().registry, seen.last().event);
            lemma_report_order_concat(
                before.emitted,
                step.reaction.emit,
                chain_has_reported(step.task.phase),
            );
        }
    }
}

/// The whole story of a chained task, from its announcement on: one
/// `started` event, then lines only, then, unless the task is cancelled,
/// one `finished` or one `error` event and nothing after it.
pub proof fn lemma_chain_history<H>(
    message: Seq<char>,
    task: ChainedTaskView<H>,
    seen: Seq<Observation<H>>,
)
    requires
        !(task.phase is Done),
    ensures
        status_words(
            seq![chain_started_event(task.command, task.project, message, task.process_id)]
                + chain_run(task, seen).emitted,
        ) == seq![status_word(StatusTag::Started)] + chain_words_at(
            chain_run(task, seen).task.phase,
        ),
{
    let started = seq![
        chain_started_event(task.command, task.project, message, task.process_id),
    ];
    assert(started.drop_last() =~= Seq::<UiEventView>::empty());
    assert(status_words(started.drop_last()) =~= Seq::<Seq<char>>::empty());
    assert(status_words(started) =~= seq![status_word(StatusTag::Started)]);
    lemma_chain_reports_once(task, seen);
    lemma_status_words_concat(started, chain_run(task, seen).emitted);
}

/// A task that is cancelled before its first process is started stays
/// silent for good: where its work begins on a registry that no longer
/// holds it, the whole run emits no event, whatever is reported to the
/// task afterwards, and starts no process.
pub proof fn lemma_chain_cancelled_before_spawn<H>(
    task: ChainedTaskView<H>,
    seen: Seq<Observation<H>>,
)
    requires
        task.phase == ChainPhase::Ready,
        seen.len() > 0,
        seen[0].event == RunnerEventView::<H>::Begin,
        !seen[0].registry.contains_key(task.process_id),
    ensures
        chain_run(task, seen).emitted == Seq::<UiEventView>::empty(),
        chain_run(task, seen).task.phase == ChainPhase::Done(TaskEnd::Cancelled),
        chain_step(task, seen[0].registry, seen[0].event).reaction.action
            == RunnerActionView::<H>::Finish(TaskEnd::Cancelled),
    decreases seen.len(),
{
    if seen.len() == 1 {
        assert(seen.drop_last().len() == 0);
        let before = chain_run(task, seen.drop_last());
        assert(before.emitted + Seq::<UiEventView>::empty() =~= Seq::<UiEventView>::empty());
    } else {
        assert(seen.drop_last()[0] == seen[0]);
        lemma_chain_cancelled_before_spawn(task, seen.drop_last());
        let before = chain_run(task, seen.drop_last());
        lemma_chain_step_words(before.task, seen.last().registry, seen.last().event);
        assert(before.emitted + Seq::<UiEventView>::empty() =~= Seq::<UiEventView>::empty());
    }
}

/// A task that has been cancelled while none of its commands ran stays
/// silent: on a registry that no longer holds it, a step of the task emits
/// nothing at all, asks for no process, starts no command, and leaves the
/// registry without the task.
pub proof fn lemma_cancelled_step_is_quiet<H>(
    task: ChainedTaskView<H>,
    registry: Map<Seq<char>, ProcessEntryView<H>>,
    event: RunnerEventView<H>,
)
    requires
        task.phase != ChainPhase::Running,
        !registry.contains_key(task.process_id),
    ensures
        chain_step(task, registry, event).task.phase != ChainPhase::Running,
        !(chain_step(task, registry, event).reaction.action is Spawn),
        chain_step(task, registry, event).reaction.emit == Seq::<UiEventView>::empty(),
        !chain_step(task, registry, event).registry.contains_key(task.process_id),
        chain_step(task, registry, event).task.process_id == task.process_id,
{
}

/// A task that has been cancelled while none of its commands ran never
/// emits anything again, however long it is driven on: as long as the
/// registry does not hold the task, its run emits no event.
pub proof fn lemma_cancelled_run_is_quiet<H>(task: ChainedTaskView<H>, seen: Seq<Observation<H>>)
    requires
        task.phase != ChainPhase::Running,
        forall|i: int|
            0 <= i < seen.len() ==> !(#[trigger] seen[i]).registry.contains_key(task.process_id),
    ensures
        chain_run(task, seen).emitted == Seq::<UiEventView>::empty(),
        chain_run(task, seen).task.phase != ChainPhase::Running,
        chain_run(task, seen).task.process_id == task.process_id,
    decreases seen.len(),
{
    if seen.len() > 0 {
        let earlier = seen.drop_last();
        assert forall|i: int| 0 <= i < earlier.len() implies !(#[trigger] earlier[i]).registry.contains_key(
            task.process_id,
        ) by {
            assert(earlier[i] == seen[i]);
        }
        lemma_cancelled_run_is_quiet(task, earlier);
        let before = chain_run(task, earlier);
        let last = seen[seen.len() - 1];
        assert(last == seen.last());
        lemma_cancelled_step_is_quiet(before.task, last.registry, last.event);
        assert(before.emitted + Seq::<UiEventView>::empty() =~= Seq::<UiEventView>::empty());
    }
}

/// A cancelled task starts no further process and reports no end of its
/// own. On a registry that no longer holds the task, whatever the task is
/// in the middle of, a step of it never asks for a process and emits no
/// status event: a process that was being started is handed back to be
/// killed, a process that runs is let run out, the next step never
/// begins, and the task does not enter itself in the registry again.
pub proof fn lemma_cancelled_chain_starts_nothing<H>(
    task: ChainedTaskView<H>,
    registry: Map<Seq<char>, ProcessEntryView<H>>,
    event: RunnerEventView<H>,
)
    requires
        chain_owns_step(task),
        !registry.contains_key(task.process_id),
    ensures
        !(chain_step(task, registry, event).reaction.action is Spawn),
        status_words(chain_step(task, registry, event).reaction.emit) == Seq::<Seq<char>>::empty(),
        !chain_has_reported(chain_step(task, registry, event).task.phase)
            || chain_has_reported(task.phase),
        chain_owns_step(chain_step(task, registry, event).task),
        !chain_step(task, registry, event).registry.contains_key(task.process_id),
        chain_step(task, registry, event).task.process_id == task.process_id,
{
    lemma_chain_step_words(task, registry, event);
    lemma_chain_keeps_to_itself(task, registry, registry, event, Seq::empty());
    assert(status_words(Seq::<UiEventView>::empty()) =~= Seq::<Seq<char>>::empty());
}

/// A failed step ends the task with the step's own message: where the
/// process of the running command has exited without success, or waiting
/// for it failed, the step's policy is to abort with `message`, and the
/// task has not been cancelled, the task emits exactly one event, the
/// `error` event with that message, and leaves the registry.
pub proof fn lemma_chain_failure_names_step<H>(
    task: ChainedTaskView<H>,
    registry: Map<Seq<char>, ProcessEntryView<H>>,
    event: RunnerEventView<H>,
    message: Seq<char>,
)
    requires
        task.phase == ChainPhase::Running,
        task.current is Some,
        task.current.unwrap().command.phase == TaskPhase::Waiting,
        task.current.unwrap().on_failure == FailurePolicyView::Abort(message),
        registry.contains_key(task.process_id),
        chain_owns_step(task),
        event == RunnerEventView::<H>::Exited(false) || event == RunnerEventView::<H>::WaitFailed,
    ensures
        chain_step(task, registry, event).reaction.emit == seq![
            status_event(chain_labels(task), StatusTag::Error, message, None),
        ],
        chain_step(task, registry, event).task.phase == ChainPhase::Done(TaskEnd::Failed),
        !chain_step(task, registry, event).registry.contains_key(task.process_id),
{
    let step = chain_step(task, registry, event);
    assert(step.reaction.emit =~= seq![
        status_event(chain_labels(task), StatusTag::Error, message, None),
    ]);
}

/// Whether a task in this state only ever touches its own entry: the
/// command it runs, if any, runs under the task's identifier.
pub open spec fn chain_owns_step<H>(task: ChainedTaskView<H>) -> bool {
    match task.current {
        Some(active) => active.command.process_id == Some(task.process_id),
        None => true,
    }
}

/// A chained task keeps to its own entry: a step changes no entry but the
/// task's own, what the step does depends on no other entry, and the
/// command that the task runs afterwards is again its own.
pub proof fn lemma_chain_keeps_to_itself<H>(
    task: ChainedTaskView<H>,
    registry: Map<Seq<char>, ProcessEntryView<H>>,
    elsewhere: Map<Seq<char>, ProcessEntryView<H>>,
    event: RunnerEventView<H>,
    other: Seq<char>,
)
    requires
        chain_owns_step(task),
        elsewhere.contains_key(task.process_id) == registry.contains_key(task.process_id),
        registry.contains_key(task.process_id) ==> elsewhere[task.process_id]
            == registry[task.process_id],
    ensures
        chain_owns_step(chain_step(task, registry, event).task),
        chain_step(task, registry, event).task.process_id == task.process_id,
        other != task.process_id ==> chain_step(task, registry, event).registry.contains_key(other)
            == registry.contains_key(other),
        other != task.process_id && registry.contains_key(other) ==> chain_step(
            task,
            registry,
            event,
        ).registry[other] == registry[other],
        chain_step(task, elsewhere, event).task == chain_step(task, registry, event).task,
        chain_step(task, elsewhere, event).reaction == chain_step(task, registry, event).reaction,
{
}

/// What other tasks do never shows in a chained task's own events: two
/// runs that differ only in what the registry holds for other tasks leave
/// the task in the same state and emit the same events.
pub proof fn lemma_chain_unaffected<H>(
    task: ChainedTaskView<H>,
    a: Seq<Observation<H>>,
    b: Seq<Observation<H>>,
)
    requires
        chain_owns_step(task),
        same_for(task.process_id, a, b),
    ensures
        chain_run(task, a) == chain_run(task, b),
        chain_run(task, a).task.process_id == task.process_id,
        chain_owns_step(chain_run(task, a).task),
    decreases a.len(),
{
    if a.len() > 0 {
        let id = task.process_id;
        assert(same_for(id, a.drop_last(), b.drop_last())) by {
            assert forall|i: int| 0 <= i < a.drop_last().len() implies {
                &&& (#[trigger] a.drop_last()[i]).event == b.drop_last()[i].event
                &&& a.drop_last()[i].registry.contains_key(id) == b.drop_last()[i].registry.contains_key(
                    id,
                )
                &&& a.drop_last()[i].registry.contains_key(id) ==> a.drop_last()[i].registry[id]
                    == b.drop_last()[i].registry[id]
            } by {
                assert(a.drop_last()[i] == a[i]);
                assert(b.drop_last()[i] == b[i]);
            }
        }
        lemma_chain_unaffected(task, a.drop_last(), b.drop_last());
        let before = chain_run(task, a.drop_last());
        let last = a[a.len() - 1];
        assert(a.last() == last);
        assert(b.last() == b[a.len() - 1]);
        lemma_chain_keeps_to_itself(
            before.task,
            a.last().registry,
            b.last().registry,
            a.last().event,
            Seq::empty(),
        );
    }
}

} // verus!
