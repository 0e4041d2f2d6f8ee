//! A task among others. The registry is shared: while a task runs, the
//! user may cancel it, and other tasks come and go. This module follows
//! one task through everything that can happen to it and proves what its
//! listeners see in the end.

use vstd::prelude::*;
use crate::chain::{ChainPhase, ChainedTaskView, chain_started_event, chain_step};
use crate::chain_laws::{
    chain_owns_step, chain_words_at, lemma_cancelled_chain_starts_nothing,
    lemma_chain_keeps_to_itself, lemma_chain_step_words,
};
use crate::events::{
    RunnerEventView, TaskEnd, UiEventView, event_status, labels_command, labels_project,
    lemma_status_words_concat, status_event, status_words,
};
use crate::process::{ProcessEntryView, cancel_outcome, cancelled_status, idle_entry};
use crate::runner::{
    StreamingTaskView, TaskPhase, lemma_streaming_step_words, streaming_task_step, words_at,
};
use crate::types::{StatusTag, status_word};

verus! {

/// One thing that happens to a task or around it.
pub enum Happening<H> {
    /// The driver reports to the task.
    Report(RunnerEventView<H>),
    /// Somebody asks for the task to be cancelled.
    Cancel,
    /// Other tasks change the registry into this one. They have
    /// identifiers of their own, so the entry of the task itself stays as
    /// it is; a registry that differs there is no such change and is
    /// passed over.
    Elsewhere(Map<Seq<char>, ProcessEntryView<H>>),
}

/// Whether two registries hold the same for the task `id`.
pub open spec fn agree_on<H>(
    a: Map<Seq<char>, ProcessEntryView<H>>,
    b: Map<Seq<char>, ProcessEntryView<H>>,
    id: Seq<char>,
) -> bool {
    a.contains_key(id) == b.contains_key(id) && (a.contains_key(id) ==> a[id] == b[id])
}

/// The events that a request to cancel `id` adds to what the interface
/// sees: the one `cancelled` event where the registry holds the task, and
/// nothing where it does not.
pub open spec fn cancel_events<H>(registry: Map<Seq<char>, ProcessEntryView<H>>, id: Seq<char>)
    -> Seq<UiEventView> {
    match cancel_outcome(registry, id) {
        Ok(cancellation) => seq![UiEventView::CommandStatus(cancellation.status)],
        Err(_) => Seq::empty(),
    }
}

/// A task of one process, the registry, and all that the interface has
/// seen of the task.
pub struct TaskWorld<H> {
    pub task: StreamingTaskView,
    pub registry: Map<Seq<char>, ProcessEntryView<H>>,
    pub history: Seq<UiEventView>,
}

/// The world after one happening.
pub open spec fn task_world_step<H>(world: TaskWorld<H>, happening: Happening<H>) -> TaskWorld<H> {
    match happening {
        Happening::Report(event) => {
            let step = streaming_task_step(world.task, world.registry, event);
            TaskWorld {
                task: step.task,
                registry: step.registry,
                history: world.history + step.reaction.emit,
            }
        },
        Happening::Cancel => TaskWorld {
            task: world.task,
            registry: world.registry.remove(world.task.process_id),
            history: world.history + cancel_events(world.registry, world.task.process_id),
        },
        Happening::Elsewhere(registry) => if agree_on(
            registry,
            world.registry,
            world.task.process_id,
        ) {
            TaskWorld { registry, ..world }
        } else {
            world
        },
    }
}

/// The world after a sequence of happenings.
pub open spec fn task_world_run<H>(world: TaskWorld<H>, happenings: Seq<Happening<H>>)
    -> TaskWorld<H>
    decreases happenings.len(),
{
    if happenings.len() == 0 {
        world
    } else {
        task_world_step(task_world_run(world, happenings.drop_last()), happenings.last())
    }
}

/// The world right after a task of one process was launched: its work
/// has not begun, the registry holds it without a process, and the
/// interface has seen its `started` event.
pub open spec fn launched_world<H>(
    task: StreamingTaskView,
    registry: Map<Seq<char>, ProcessEntryView<H>>,
    message: Seq<char>,
) -> TaskWorld<H> {
    TaskWorld {
        task: StreamingTaskView { phase: TaskPhase::Ready, ..task },
        registry: registry.insert(
            task.process_id,
            idle_entry(labels_command(task.labels), labels_project(task.labels)),
        ),
        history: seq![
            status_event(task.labels, StatusTag::Started, message, Some(task.process_id)),
        ],
    }
}

/// Whether a task of one process in this phase still stands in the
/// registry unless it has been cancelled: it does until the pipes of its
/// process are at their end.
pub open spec fn cancellable(phase: TaskPhase) -> bool {
    phase == TaskPhase::Ready || phase == TaskPhase::Spawning || phase == TaskPhase::Streaming
}

/// The status words that the interface has seen after `started`, by where
/// the task stands: the word of its end once it is over; `cancelled`
/// already while a cancelled task has yet to notice; nothing otherwise.
pub open spec fn words_after_start<H>(world: TaskWorld<H>) -> Seq<Seq<char>> {
    if world.task.phase == TaskPhase::Done(TaskEnd::Cancelled) {
        seq![status_word(StatusTag::Cancelled)]
    } else if cancellable(world.task.phase) && !world.registry.contains_key(
        world.task.process_id,
    ) {
        seq![status_word(StatusTag::Cancelled)]
    } else {
        words_at(world.task.phase)
    }
}

spec fn task_world_inv<H>(world: TaskWorld<H>) -> bool {
    let id = world.task.process_id;
    &&& status_words(world.history) == seq![status_word(StatusTag::Started)] + words_after_start(
        world,
    )
    &&& !cancellable(world.task.phase) ==> !world.registry.contains_key(id)
    &&& world.task.phase == TaskPhase::Streaming && world.registry.contains_key(id)
        ==> world.registry[id].state is Running
}

proof fn lemma_one_status(event: UiEventView)
    requires
        event_status(event) is Some,
    ensures
        status_words(seq![event]) == seq![event_status(event).unwrap()],
{
    let s = seq![event];
    assert(s.drop_last() =~= Seq::<UiEventView>::empty());
    assert(status_words(s.drop_last()) =~= Seq::<Seq<char>>::empty());
    assert(status_words(s) =~= seq![event_status(event).unwrap()]);
}

proof fn lemma_task_world_step<H>(world: TaskWorld<H>, happening: Happening<H>)
    requires
        task_world_inv(world),
    ensures
        task_world_inv(task_world_step(world, happening)),
        task_world_step(world, happening).task.process_id == world.task.process_id,
{
    let id = world.task.process_id;
    let next = task_world_step(world, happening);
    let started = seq![status_word(StatusTag::Started)];
    assert(status_words(Seq::<UiEventView>::empty()) =~= Seq::<Seq<char>>::empty());
    match happening {
        Happening::Report(event) => {
            let step = streaming_task_step(world.task, world.registry, event);
            lemma_status_words_concat(world.history, step.reaction.emit);
            lemma_streaming_step_words(world.task, world.registry, event);
            if world.task.phase is Done {
                assert(next.history =~= world.history);
            } else {
                assert(status_words(next.history) =~= started + words_after_start(next));
            }
        },
        Happening::Cancel => {
            let events = cancel_events(world.registry, id);
            lemma_status_words_concat(world.history, events);
            if world.registry.contains_key(id) {
                lemma_one_status(events[0]);
                assert(status_words(next.history) =~= started + words_after_start(next));
            } else {
                assert(next.history =~= world.history);
                assert(next.registry =~= world.registry);
            }
        },
        Happening::Elsewhere(registry) => {},
    }
}

/// A task of one process ends in exactly one way. From its launch on,
/// whatever is reported to it, whenever and however often its
/// cancellation is asked for, and whatever other tasks do meanwhile: the
/// interface sees one `started` event and, once the task is over, exactly
/// one more status event, which is `finished`, `error` or `cancelled` as
/// the task ended. Before that it has seen at most `cancelled`, for a
/// task that is cancelled and has yet to notice. A cancellation that
/// comes before the pipes of the process are at their end always
/// succeeds, and the task then never emits `finished` or `error`.
pub proof fn lemma_task_ends_once<H>(
    task: StreamingTaskView,
    registry: Map<Seq<char>, ProcessEntryView<H>>,
    message: Seq<char>,
    happenings: Seq<Happening<H>>,
)
    ensures
        status_words(task_world_run(launched_world(task, registry, message), happenings).history)
            == seq![status_word(StatusTag::Started)] + words_after_start(
            task_world_run(launched_world(task, registry, message), happenings),
        ),
        task_world_run(launched_world(task, registry, message), happenings).task.process_id
            == task.process_id,
{
    lemma_task_world_inv(task, registry, message, happenings);
}

proof fn lemma_task_world_inv<H>(
    task: StreamingTaskView,
    registry: Map<Seq<char>, ProcessEntryView<H>>,
    message: Seq<char>,
    happenings: Seq<Happening<H>>,
)
    ensures
        task_world_inv(task_world_run(launched_world(task, registry, message), happenings)),
        task_world_run(launched_world(task, registry, message), happenings).task.process_id
            == task.process_id,
    decreases happenings.len(),
{
    let start = launched_world(task, registry, message);
    if happenings.len() == 0 {
        lemma_one_status(start.history[0]);
        assert(status_words(start.history) =~= seq![status_word(StatusTag::Started)]
            + words_after_start(start));
    } else {
        lemma_task_world_inv(task, registry, message, happenings.drop_last());
        lemma_task_world_step(task_world_run(start, happenings.drop_last()), happenings.last());
    }
}

/// A chained task, the registry, and all that the interface has seen of
/// the task.
pub struct ChainWorld<H> {
    pub task: ChainedTaskView<H>,
    pub registry: Map<Seq<char>, ProcessEntryView<H>>,
    pub history: Seq<UiEventView>,
}

/// The world of a chained task after one happening.
pub open spec fn chain_world_step<H>(world: ChainWorld<H>, happening: Happening<H>) -> ChainWorld<
    H,
> {
    match happening {
        Happening::Report(event) => {
            let step = chain_step(world.task, world.registry, event);
            ChainWorld {
                task: step.task,
                registry: step.registry,
                history: world.history + step.reaction.emit,
            }
        },
        Happening::Cancel => ChainWorld {
            task: world.task,
            registry: world.registry.remove(world.task.process_id),
            history: world.history + cancel_events(world.registry, world.task.process_id),
        },
        Happening::Elsewhere(registry) => if agree_on(
            registry,
            world.registry,
            world.task.process_id,
        ) {
            ChainWorld { registry, ..world }
        } else {
            world
        },
    }
}

/// The world of a chained task after a sequence of happenings.
pub open spec fn chain_world_run<H>(world: ChainWorld<H>, happenings: Seq<Happening<H>>)
    -> ChainWorld<H>
    decreases happenings.len(),
{
    if happenings.len() == 0 {
        world
    } else {
        chain_world_step(chain_world_run(world, happenings.drop_last()), happenings.last())
    }
}

/// The world right after a chained task was begun: its work has not
/// begun, the registry holds it without a process, and the interface has
/// seen its `started` event.
pub open spec fn begun_world<H>(
    task: ChainedTaskView<H>,
    registry: Map<Seq<char>, ProcessEntryView<H>>,
    message: Seq<char>,
) -> ChainWorld<H> {
    ChainWorld {
        task: ChainedTaskView { phase: ChainPhase::Ready, current: None, ..task },
        registry: registry.insert(task.process_id, idle_entry(task.command, task.project)),
        history: seq![chain_started_event(task.command, task.project, message, task.process_id)],
    }
}

/// The status words that the interface has seen of a chained task after
/// `started`, by where the task stands: the word of its end once it is
/// over; `cancelled` already while a cancelled task has yet to notice;
/// nothing otherwise.
pub open spec fn chain_words_after_start<H>(world: ChainWorld<H>) -> Seq<Seq<char>> {
    if world.task.phase == ChainPhase::Done(TaskEnd::Cancelled) {
        seq![status_word(StatusTag::Cancelled)]
    } else if world.task.phase is Done {
        chain_words_at(world.task.phase)
    } else if !world.registry.contains_key(world.task.process_id) {
        seq![status_word(StatusTag::Cancelled)]
    } else {
        Seq::empty()
    }
}

spec fn chain_world_inv<H>(world: ChainWorld<H>) -> bool {
    &&& status_words(world.history) == seq![status_word(StatusTag::Started)]
        + chain_words_after_start(world)
    &&& world.task.phase is Done ==> !world.registry.contains_key(world.task.process_id)
    &&& chain_owns_step(world.task)
}

proof fn lemma_chain_world_step<H>(world: ChainWorld<H>, happening: Happening<H>)
    requires
        chain_world_inv(world),
    ensures
        chain_world_inv(chain_world_step(world, happening)),
        chain_world_step(world, happening).task.process_id == world.task.process_id,
{
    let id = world.task.process_id;
    let next = chain_world_step(world, happening);
    let started = seq![status_word(StatusTag::Started)];
    assert(status_words(Seq::<UiEventView>::empty()) =~= Seq::<Seq<char>>::empty());
    match happening {
        Happening::Report(event) => {
            let step = chain_step(world.task, world.registry, event);
            lemma_status_words_concat(world.history, step.reaction.emit);
            lemma_chain_step_words(world.task, world.registry, event);
            lemma_chain_keeps_to_itself(
                world.task,
                world.registry,
                world.registry,
                event,
                Seq::empty(),
            );
            if world.task.phase is Done {
                assert(next.history =~= world.history);
            } else if !world.registry.contains_key(id) {
                lemma_cancelled_chain_starts_nothing(world.task, world.registry, event);
                assert(status_words(next.history) =~= started + chain_words_after_start(next));
            } else {
                lemma_live_chain_step(world.task, world.registry, event);
                assert(status_words(next.history) =~= started + chain_words_after_start(next));
            }
        },
        Happening::Cancel => {
            let events = cancel_events(world.registry, id);
            lemma_status_words_concat(world.history, events);
            if world.registry.contains_key(id) {
                lemma_one_status(events[0]);
                assert(status_words(next.history) =~= started + chain_words_after_start(next));
            } else {
                assert(next.history =~= world.history);
                assert(next.registry =~= world.registry);
            }
        },
        Happening::Elsewhere(registry) => {},
    }
}

/// A step of a task that stands in the registry: the task does not end as
/// cancelled, and it stands in the registry afterwards exactly if it has
/// not ended.
proof fn lemma_live_chain_step<H>(
    task: ChainedTaskView<H>,
    registry: Map<Seq<char>, ProcessEntryView<H>>,
    event: RunnerEventView<H>,
)
    requires
        chain_owns_step(task),
        !(task.phase is Done),
        registry.contains_key(task.process_id),
    ensures
        chain_step(task, registry, event).task.phase != ChainPhase::Done(TaskEnd::Cancelled),
        chain_step(task, registry, event).registry.contains_key(task.process_id) == !(chain_step(
            task,
            registry,
            event,
        ).task.phase is Done),
{
}

/// A chained task ends in exactly one way. From its beginning on,
/// whatever is reported to it, whenever and however often its
/// cancellation is asked for, and whatever other tasks do meanwhile: the
/// interface sees one `started` event and, once the task is over, exactly
/// one more status event, which is `finished`, `error` or `cancelled` as
/// the task ended. Before that it has seen at most `cancelled`, for a
/// task that is cancelled and has yet to notice. As long as the task has
/// not ended of itself a cancellation succeeds, and the task then never
/// emits `finished` or `error`.
pub proof fn lemma_chain_ends_once<H>(
    task: ChainedTaskView<H>,
    registry: Map<Seq<char>, ProcessEntryView<H>>,
    message: Seq<char>,
    happenings: Seq<Happening<H>>,
)
    ensures
        status_words(chain_world_run(begun_world(task, registry, message), happenings).history)
            == seq![status_word(StatusTag::Started)] + chain_words_after_start(
            chain_world_run(begun_world(task, registry, message), happenings),
        ),
        !(chain_world_run(begun_world(task, registry, message), happenings).task.phase is Done)
            ==> cancel_outcome(
            chain_world_run(begun_world(task, registry, message), happenings).registry,
            task.process_id,
        ) is Ok || chain_words_after_start(
            chain_world_run(begun_world(task, registry, message), happenings),
        ) == seq![status_word(StatusTag::Cancelled)],
{
    lemma_chain_world_inv(task, registry, message, happenings);
}

proof fn lemma_chain_world_inv<H>(
    task: ChainedTaskView<H>,
    registry: Map<Seq<char>, ProcessEntryView<H>>,
    message: Seq<char>,
    happenings: Seq<Happening<H>>,
)
    ensures
        chain_world_inv(chain_world_run(begun_world(task, registry, message), happenings)),
        chain_world_run(begun_world(task, registry, message), happenings).task.process_id
            == task.process_id,
    decreases happenings.len(),
{
    let start = begun_world(task, registry, message);
    if happenings.len() == 0 {
        lemma_one_status(start.history[0]);
        assert(status_words(start.history) =~= seq![status_word(StatusTag::Started)]
            + chain_words_after_start(start));
    } else {
        lemma_chain_world_inv(task, registry, message, happenings.drop_last());
        lemma_chain_world_step(
            chain_world_run(start, happenings.drop_last()),
            happenings.last(),
        );
    }
}

/// The event that the cancellation of a chained task emits.
pub open spec fn chain_cancelled_event<H>(task: ChainedTaskView<H>) -> UiEventView {
    UiEventView::CommandStatus(cancelled_status(task.command, task.project, task.process_id))
}

spec fn cancelled_at_once<H>(world: ChainWorld<H>, task: ChainedTaskView<H>, message: Seq<char>)
    -> bool {
    &&& world.history == seq![
        chain_started_event(task.command, task.project, message, task.process_id),
        chain_cancelled_event(task),
    ]
    &&& !world.registry.contains_key(task.process_id)
    &&& world.task.process_id == task.process_id
    &&& world.task.phase == ChainPhase::Ready || world.task.phase == ChainPhase::Done(
        TaskEnd::Cancelled,
    )
}

/// A chained task that is cancelled before its work has begun shows the
/// interface two events and no more: `started` and `cancelled`. Whatever
/// is reported to the task afterwards, however often its cancellation is
/// asked for again, and whatever other tasks do: no line of output and no
/// further status event is ever added.
pub proof fn lemma_chain_cancelled_at_once<H>(
    task: ChainedTaskView<H>,
    registry: Map<Seq<char>, ProcessEntryView<H>>,
    message: Seq<char>,
    happenings: Seq<Happening<H>>,
)
    requires
        happenings.len() > 0,
        happenings[0] is Cancel,
    ensures
        chain_world_run(begun_world(task, registry, message), happenings).history == seq![
            chain_started_event(task.command, task.project, message, task.process_id),
            chain_cancelled_event(task),
        ],
        !chain_world_run(begun_world(task, registry, message), happenings).registry.contains_key(
            task.process_id,
        ),
    decreases happenings.len(),
{
    lemma_chain_cancelled_at_once_inv(task, registry, message, happenings);
}

proof fn lemma_chain_cancelled_at_once_inv<H>(
    task: ChainedTaskView<H>,
    registry: Map<Seq<char>, ProcessEntryView<H>>,
    message: Seq<char>,
    happenings: Seq<Happening<H>>,
)
    requires
        happenings.len() > 0,
        happenings[0] is Cancel,
    ensures
        cancelled_at_once(
            chain_world_run(begun_world(task, registry, message), happenings),
            task,
            message,
        ),
    decreases happenings.len(),
{
    let start = begun_world(task, registry, message);
    let earlier = happenings.drop_last();
    if happenings.len() == 1 {
        assert(earlier.len() == 0);
        assert(happenings.last() == happenings[0]);
        let end = chain_world_step(start, happenings.last());
        assert(end.history =~= seq![
            chain_started_event(task.command, task.project, message, task.process_id),
            chain_cancelled_event(task),
        ]);
    } else {
        assert(earlier[0] == happenings[0]);
        lemma_chain_cancelled_at_once_inv(task, registry, message, earlier);
        let before = chain_world_run(start, earlier);
        let end = chain_world_step(before, happenings.last());
        match happenings.last() {
            Happening::Report(event) => {
                let step = chain_step(before.task, before.registry, event);
                assert(before.history + step.reaction.emit =~= before.history);
            },
            Happening::Cancel => {
                assert(before.history + cancel_events(before.registry, task.process_id)
                    =~= before.history);
                assert(before.registry.remove(task.process_id) =~= before.registry);
            },
            Happening::Elsewhere(changed) => {},
        }
    }
}

} // verus!
