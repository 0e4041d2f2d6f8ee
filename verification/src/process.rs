//! The registry of running tasks, the generator of task identifiers, and
//! cancellation.
//!
//! A task is cancellable exactly as long as the registry holds an entry under
//! its identifier: removing the entry is the one cancellation signal.

use vstd::prelude::*;
use vstd::string::*;
use crate::error::{DdevError, DdevErrorView};
use crate::counter::DecimalCounter;
use crate::text::{concat3, decimal_text, lemma_decimal_text_injective};
use crate::types::{CommandStatus, CommandStatusView, StatusTag, status_word};

verus! {

/// What a task holds of the operating system: nothing, between two steps or
/// before its first process, or the one live process it owns.
#[derive(Debug)]
pub enum TaskState<H> {
    Idle,
    Running(H),
}

/// The registry's record of one task. `H` is the handle of a child process.
#[derive(Debug)]
pub struct ProcessEntry<H> {
    pub state: TaskState<H>,
    pub command: String,
    pub project: String,
}

/// What a `ProcessEntry` holds, with every text as a sequence of characters.
pub struct ProcessEntryView<H> {
    pub state: TaskState<H>,
    pub command: Seq<char>,
    pub project: Seq<char>,
}

impl<H> View for ProcessEntry<H> {
    type V = ProcessEntryView<H>;

    open spec fn view(&self) -> ProcessEntryView<H> {
        ProcessEntryView { state: self.state, command: self.command@, project: self.project@ }
    }
}

/// The entry of a task that owns no process.
pub open spec fn idle_entry<H>(command: Seq<char>, project: Seq<char>) -> ProcessEntryView<H> {
    ProcessEntryView { state: TaskState::Idle, command, project }
}

/// The entry of a task that owns the live process `child`.
pub open spec fn running_entry<H>(child: H, command: Seq<char>, project: Seq<char>)
    -> ProcessEntryView<H> {
    ProcessEntryView { state: TaskState::Running(child), command, project }
}

struct Slot<H> {
    id: String,
    entry: ProcessEntry<H>,
}

spec fn slots_distinct<H>(s: Seq<Slot<H>>) -> bool {
    forall|i: int, j: int| 0 <= i < j < s.len() ==> s[i].id@ != s[j].id@
}

spec fn slot_at<H>(s: Seq<Slot<H>>, k: Seq<char>, i: int) -> bool {
    0 <= i < s.len() && s[i].id@ == k
}

spec fn slots_map<H>(s: Seq<Slot<H>>) -> Map<Seq<char>, ProcessEntryView<H>> {
    Map::new(
        |k: Seq<char>| exists|i: int| slot_at(s, k, i),
        |k: Seq<char>| s[choose|i: int| slot_at(s, k, i)].entry@,
    )
}

proof fn lemma_slots_lookup<H>(s: Seq<Slot<H>>, i: int)
    requires
        slots_distinct(s),
        0 <= i < s.len(),
    ensures
        slots_map(s).contains_key(s[i].id@),
        slots_map(s)[s[i].id@] == s[i].entry@,
{
    let k = s[i].id@;
    assert(slot_at(s, k, i));
    let j = choose|j: int| slot_at(s, k, j);
    assert(slot_at(s, k, j));
    assert(i == j);
}

proof fn lemma_slots_absent<H>(s: Seq<Slot<H>>, k: Seq<char>)
    requires
        forall|i: int| 0 <= i < s.len() ==> s[i].id@ != k,
    ensures
        !slots_map(s).contains_key(k),
{
    assert forall|i: int| !slot_at(s, k, i) by {}
}

proof fn lemma_slots_remove<H>(s: Seq<Slot<H>>, p: int)
    requires
        slots_distinct(s),
        0 <= p < s.len(),
    ensures
        slots_distinct(s.remove(p)),
        slots_map(s.remove(p)) == slots_map(s).remove(s[p].id@),
{
    let t = s.remove(p);
    let gone = s[p].id@;
    assert forall|i: int, j: int| 0 <= i < j < t.len() implies t[i].id@ != t[j].id@ by {
        let si = if i < p { i } else { i + 1 };
        let sj = if j < p { j } else { j + 1 };
        assert(t[i] == s[si]);
        assert(t[j] == s[sj]);
    }
    assert forall|k: Seq<char>| #[trigger]
        slots_map(t).contains_key(k) <==> slots_map(s).remove(gone).contains_key(k) by {
        if slots_map(t).contains_key(k) {
            let i = choose|i: int| slot_at(t, k, i);
            assert(slot_at(t, k, i));
            let si = if i < p { i } else { i + 1 };
            assert(t[i] == s[si]);
            assert(slot_at(s, k, si));
            assert(k != gone);
        }
        if slots_map(s).remove(gone).contains_key(k) {
            let i = choose|i: int| slot_at(s, k, i);
            assert(slot_at(s, k, i));
            assert(i != p);
            let ti = if i < p { i } else { i - 1 };
            assert(t[ti] == s[i]);
            assert(slot_at(t, k, ti));
        }
    }
    assert forall|k: Seq<char>| #[trigger] slots_map(t).contains_key(k) implies slots_map(t)[k]
        == slots_map(s).remove(gone)[k] by {
        let i = choose|i: int| slot_at(t, k, i);
        assert(slot_at(t, k, i));
        let si = if i < p { i } else { i + 1 };
        assert(t[i] == s[si]);
        lemma_slots_lookup(s, si);
        lemma_slots_lookup(t, i);
    }
    assert(slots_map(t) =~= slots_map(s).remove(gone));
}

proof fn lemma_slots_push<H>(s: Seq<Slot<H>>, slot: Slot<H>)
    requires
        slots_distinct(s),
        !slots_map(s).contains_key(slot.id@),
    ensures
        slots_distinct(s.push(slot)),
        slots_map(s.push(slot)) == slots_map(s).insert(slot.id@, slot.entry@),
{
    let t = s.push(slot);
    let added = slot.id@;
    assert forall|i: int, j: int| 0 <= i < j < t.len() implies t[i].id@ != t[j].id@ by {
        if j == s.len() {
            assert(slot_at(s, s[i].id@, i));
        }
    }
    assert forall|k: Seq<char>| #[trigger]
        slots_map(t).contains_key(k) <==> slots_map(s).insert(added, slot.entry@).contains_key(
            k,
        ) by {
        if slots_map(t).contains_key(k) {
            let i = choose|i: int| slot_at(t, k, i);
            assert(slot_at(t, k, i));
            if i < s.len() {
                assert(slot_at(s, k, i));
            }
        }
        if k == added {
            assert(slot_at(t, k, s.len() as int));
        } else if slots_map(s).contains_key(k) {
            let i = choose|i: int| slot_at(s, k, i);
            assert(slot_at(s, k, i));
            assert(slot_at(t, k, i));
        }
    }
    assert forall|k: Seq<char>| #[trigger] slots_map(t).contains_key(k) implies slots_map(t)[k]
        == slots_map(s).insert(added, slot.entry@)[k] by {
        let i = choose|i: int| slot_at(t, k, i);
        assert(slot_at(t, k, i));
        lemma_slots_lookup(t, i);
        if i < s.len() {
            assert(t[i] == s[i]);
            lemma_slots_lookup(s, i);
        }
    }
    assert(slots_map(t) =~= slots_map(s).insert(added, slot.entry@));
}

/// The tasks that can still be cancelled, each under its identifier.
///
/// Its view is the map from identifiers to entries. The registry is a plain
/// value: whoever shares it between threads puts it behind a lock and holds
/// the lock for one operation at a time.
pub struct ProcessRegistry<H> {
    slots: Vec<Slot<H>>,
}

impl<H> View for ProcessRegistry<H> {
    type V = Map<Seq<char>, ProcessEntryView<H>>;

    closed spec fn view(&self) -> Map<Seq<char>, ProcessEntryView<H>> {
        slots_map(self.slots@)
    }
}

impl<H> ProcessRegistry<H> {
    /// No identifier is registered twice.
    #[verifier::type_invariant]
    spec fn distinct(&self) -> bool {
        slots_distinct(self.slots@)
    }

    /// A registry without tasks.
    pub fn new() -> (registry: Self)
        ensures
            registry@ == Map::<Seq<char>, ProcessEntryView<H>>::empty(),
    {
        let registry = ProcessRegistry { slots: Vec::new() };
        proof {
            lemma_slots_absent(registry.slots@, Seq::<char>::empty());
            assert(registry@ =~= Map::<Seq<char>, ProcessEntryView<H>>::empty()) by {
                assert forall|k: Seq<char>| !slots_map(registry.slots@).contains_key(k) by {
                    lemma_slots_absent(registry.slots@, k);
                }
            }
        }
        registry
    }

    /// The number of tasks that can still be cancelled.
    pub fn len(&self) -> (n: usize)
        ensures
            n == self@.dom().len(),
            self@.dom().finite(),
    {
        proof {
            use_type_invariant(self);
            lemma_slots_count(self.slots@);
        }
        self.slots.len()
    }

    fn position(&self, key: &String) -> (found: Option<usize>)
        ensures
            match found {
                Some(p) => p < self.slots.len() && self.slots[p as int].id@ == key@ && self@.contains_key(
                    key@,
                ) && self@[key@] == self.slots[p as int].entry@,
                None => !self@.contains_key(key@),
            },
    {
        let mut i: usize = 0;
        while i < self.slots.len()
            invariant
                i <= self.slots.len(),
                forall|j: int| 0 <= j < i ==> self.slots[j].id@ != key@,
            decreases self.slots.len() - i,
        {
            if self.slots[i].id.eq(key) {
                proof {
                    use_type_invariant(self);
                    lemma_slots_lookup(self.slots@, i as int);
                }
                return Some(i);
            }
            i = i + 1;
        }
        proof {
            lemma_slots_absent(self.slots@, key@);
        }
        None
    }

    /// Takes the slots out of the registry, which is empty meanwhile.
    fn take_slots(&mut self) -> (slots: Vec<Slot<H>>)
        ensures
            slots@ == old(self).slots@,
            slots_distinct(slots@),
            final(self).slots@ == Seq::<Slot<H>>::empty(),
    {
        proof {
            use_type_invariant(&*self);
        }
        let mut slots: Vec<Slot<H>> = Vec::new();
        core::mem::swap(&mut self.slots, &mut slots);
        slots
    }

    fn put(&mut self, id: String, entry: ProcessEntry<H>)
        ensures
            final(self)@ == old(self)@.insert(id@, entry@),
    {
        let found = self.position(&id);
        let mut slots = self.take_slots();
        if let Some(p) = found {
            proof {
                lemma_slots_remove(slots@, p as int);
            }
            slots.remove(p);
        }
        let slot = Slot { id, entry };
        proof {
            assert(slots_map(slots@) =~= old(self)@.remove(id@));
            lemma_slots_push(slots@, slot);
        }
        slots.push(slot);
        self.slots = slots;
        assert(self@ =~= old(self)@.insert(id@, entry@));
    }
}


/// The source of task identifiers. It counts the identifiers it has
/// issued, and there is no number at which it stops.
#[derive(Debug)]
pub struct ProcessIdGenerator {
    counter: DecimalCounter,
}

/// The identifier with serial number `n`.
pub open spec fn process_id_text(n: nat) -> Seq<char> {
    "proc_"@ + decimal_text(n)
}

/// Whether `id` is among the first `issued` identifiers.
pub open spec fn was_issued(issued: nat, id: Seq<char>) -> bool {
    exists|k: nat| 1 <= k <= issued && #[trigger] process_id_text(k) == id
}

/// Identifiers with different serial numbers are different texts.
pub proof fn lemma_process_ids_distinct(a: nat, b: nat)
    requires
        a != b,
    ensures
        process_id_text(a) != process_id_text(b),
{
    if process_id_text(a) == process_id_text(b) {
        let prefix = "proc_"@;
        let ta = decimal_text(a);
        let tb = decimal_text(b);
        assert((prefix + ta).subrange(prefix.len() as int, (prefix + ta).len() as int) =~= ta);
        assert((prefix + tb).subrange(prefix.len() as int, (prefix + tb).len() as int) =~= tb);
        lemma_decimal_text_injective(a, b);
    }
}

impl ProcessIdGenerator {
    /// How many identifiers have been issued.
    pub closed spec fn issued(&self) -> nat {
        self.counter.value()
    }

    /// A generator that has issued nothing.
    pub fn new() -> (ids: Self)
        ensures
            ids.issued() == 0,
    {
        ProcessIdGenerator { counter: DecimalCounter::new() }
    }
}

/// Issues the next identifier: `proc_` and the serial number in decimal,
/// starting at 1. The identifier differs from every one issued before.
pub fn generate_process_id(ids: &mut ProcessIdGenerator) -> (id: String)
    ensures
        final(ids).issued() == old(ids).issued() + 1,
        id@ == process_id_text(final(ids).issued()),
        !was_issued(old(ids).issued(), id@),
{
    ids.counter.increment();
    let mut id = String::from_str("proc_");
    ids.counter.push_text(&mut id);
    proof {
        let n = ids.issued();
        assert forall|k: nat| 1 <= k <= old(ids).issued() implies #[trigger] process_id_text(k)
            != id@ by {
            lemma_process_ids_distinct(k, n);
        }
    }
    id
}

/// Whether the task `process_id` has been cancelled or has ended: true
/// exactly when the registry holds no entry for it.
pub fn is_process_cancelled<H>(registry: &ProcessRegistry<H>, process_id: &str) -> (gone: bool)
    ensures
        gone == !registry@.contains_key(process_id@),
{
    let key = String::from_str(process_id);
    registry.position(&key).is_none()
}

/// Enters the task `process_id` without a process, replacing any entry that
/// the identifier had.
pub fn create_task_entry<H>(
    registry: &mut ProcessRegistry<H>,
    process_id: &str,
    command: &str,
    project: &str,
)
    ensures
        final(registry)@ == old(registry)@.insert(
            process_id@,
            idle_entry::<H>(command@, project@),
        ),
{
    let entry = ProcessEntry {
        state: TaskState::Idle,
        command: String::from_str(command),
        project: String::from_str(project),
    };
    registry.put(String::from_str(process_id), entry);
}

/// Enters the task `process_id` as the owner of the live process `child`,
/// replacing any entry that the identifier had.
pub fn register_child_process<H>(
    registry: &mut ProcessRegistry<H>,
    process_id: &str,
    child: H,
    command: &str,
    project: &str,
)
    ensures
        final(registry)@ == old(registry)@.insert(
            process_id@,
            running_entry(child, command@, project@),
        ),
{
    let entry = ProcessEntry {
        state: TaskState::Running(child),
        command: String::from_str(command),
        project: String::from_str(project),
    };
    registry.put(String::from_str(process_id), entry);
}

/// What `take_child_process` hands out of a registry.
pub open spec fn taken_child<H>(registry: Map<Seq<char>, ProcessEntryView<H>>, id: Seq<char>)
    -> Option<H> {
    if registry.contains_key(id) {
        match registry[id].state {
            TaskState::Running(child) => Some(child),
            TaskState::Idle => None,
        }
    } else {
        None
    }
}

/// The registry that `take_child_process` leaves behind: the entry stays,
/// without its process.
pub open spec fn after_take<H>(registry: Map<Seq<char>, ProcessEntryView<H>>, id: Seq<char>)
    -> Map<Seq<char>, ProcessEntryView<H>> {
    if registry.contains_key(id) {
        registry.insert(id, idle_entry(registry[id].command, registry[id].project))
    } else {
        registry
    }
}

/// Takes the live process out of the entry of `process_id`, for the caller
/// to wait on. The entry stays in the registry. Nothing is handed out where
/// the task has no entry or its entry holds no process.
pub fn take_child_process<H>(registry: &mut ProcessRegistry<H>, process_id: &str) -> (child:
    Option<H>)
    ensures
        child == taken_child(old(registry)@, process_id@),
        final(registry)@ == after_take(old(registry)@, process_id@),
{
    let key = String::from_str(process_id);
    match registry.position(&key) {
        None => None,
        Some(p) => {
            let mut slots = registry.take_slots();
            proof {
                lemma_slots_remove(slots@, p as int);
            }
            let slot = slots.remove(p);
            let Slot { id, entry } = slot;
            let ProcessEntry { state, command, project } = entry;
            let child = match state {
                TaskState::Running(child) => Some(child),
                TaskState::Idle => None,
            };
            let kept = Slot { id, entry: ProcessEntry { state: TaskState::Idle, command, project } };
            proof {
                lemma_slots_push(slots@, kept);
            }
            slots.push(kept);
            registry.slots = slots;
            assert(registry@ =~= after_take(old(registry)@, process_id@));
            child
        },
    }
}

/// Removes the entry of `process_id`, if there is one.
pub fn remove_task_entry<H>(registry: &mut ProcessRegistry<H>, process_id: &str)
    ensures
        final(registry)@ == old(registry)@.remove(process_id@),
{
    let key = String::from_str(process_id);
    match registry.position(&key) {
        None => {
            assert(registry@ =~= old(registry)@.remove(process_id@));
        },
        Some(p) => {
            let mut slots = registry.take_slots();
            proof {
                lemma_slots_remove(slots@, p as int);
            }
            let _ = slots.remove(p);
            registry.slots = slots;
        },
    }
}

/// What a successful cancellation hands to its caller.
#[derive(Debug)]
pub struct Cancellation<H> {
    /// The live process that the task owned, to be killed and reaped.
    pub child: Option<H>,
    /// The event that tells the user interface of the cancellation.
    pub status: CommandStatus,
}

/// What a `Cancellation` holds, with every text as a sequence of characters.
pub struct CancellationView<H> {
    pub child: Option<H>,
    pub status: CommandStatusView,
}

impl<H> View for Cancellation<H> {
    type V = CancellationView<H>;

    open spec fn view(&self) -> CancellationView<H> {
        CancellationView { child: self.child, status: self.status@ }
    }
}

/// The event that reports the cancellation of the task `id`.
pub open spec fn cancelled_status(command: Seq<char>, project: Seq<char>, id: Seq<char>)
    -> CommandStatusView {
    CommandStatusView {
        command,
        project,
        status: status_word(StatusTag::Cancelled),
        message: Some("Command was cancelled by user"@),
        process_id: Some(id),
    }
}

/// The failure that a cancellation of an unknown task reports.
pub open spec fn not_found_error(id: Seq<char>) -> DdevErrorView {
    DdevErrorView::CommandFailed("Process "@ + id + " not found or already completed"@)
}

/// What the cancellation of `id` returns on a given registry.
pub open spec fn cancel_outcome<H>(registry: Map<Seq<char>, ProcessEntryView<H>>, id: Seq<char>)
    -> Result<CancellationView<H>, DdevErrorView> {
    if registry.contains_key(id) {
        let entry = registry[id];
        Ok(
            CancellationView {
                child: taken_child(registry, id),
                status: cancelled_status(entry.command, entry.project, id),
            },
        )
    } else {
        Err(not_found_error(id))
    }
}

/// The view of what a cancellation returned.
pub open spec fn cancel_result_view<H>(r: Result<Cancellation<H>, DdevError>) -> Result<
    CancellationView<H>,
    DdevErrorView,
> {
    match r {
        Ok(c) => Ok(c@),
        Err(e) => Err(e@),
    }
}

/// Cancels the task `process_id`.
///
/// Where the registry holds an entry for it, the entry is removed, and the
/// caller gets the process that the task owned, if any, together with the
/// one `cancelled` event of the task, which carries the labels the task was
/// entered with. Where it holds none, the task has ended or was cancelled
/// before: the registry stays as it is and the call fails.
pub fn cancel_command<H>(registry: &mut ProcessRegistry<H>, process_id: String) -> (result: Result<
    Cancellation<H>,
    DdevError,
>)
    ensures
        cancel_result_view(result) == cancel_outcome(old(registry)@, process_id@),
        final(registry)@ == old(registry)@.remove(process_id@),
{
    match registry.position(&process_id) {
        None => {
            assert(registry@ =~= old(registry)@.remove(process_id@));
            Err(
                DdevError::CommandFailed(
                    concat3("Process ", process_id.as_str(), " not found or already completed"),
                ),
            )
        },
        Some(p) => {
            let mut slots = registry.take_slots();
            proof {
                lemma_slots_remove(slots@, p as int);
            }
            let slot = slots.remove(p);
            registry.slots = slots;
            let Slot { id: _, entry } = slot;
            let ProcessEntry { state, command, project } = entry;
            let child = match state {
                TaskState::Running(child) => Some(child),
                TaskState::Idle => None,
            };
            let status = CommandStatus::new(
                command.as_str(),
                project.as_str(),
                StatusTag::Cancelled,
                String::from_str("Command was cancelled by user"),
                Some(process_id),
            );
            Ok(Cancellation { child, status })
        },
    }
}

/// A task can be cancelled once: where a cancellation succeeds, the next one
/// of the same task fails, and a failed cancellation changes nothing.
pub proof fn lemma_cancel_once<H>(registry: Map<Seq<char>, ProcessEntryView<H>>, id: Seq<char>)
    ensures
        cancel_outcome(registry, id) is Ok <==> registry.contains_key(id),
        cancel_outcome(registry.remove(id), id) == Err::<CancellationView<H>, DdevErrorView>(
            not_found_error(id),
        ),
        cancel_outcome(registry, id) is Err ==> registry.remove(id) == registry,
{
    if !registry.contains_key(id) {
        assert(registry.remove(id) =~= registry);
    }
}

/// A cancellation reaches the live process: the cancellation of a task
/// that was entered with the process `child` succeeds and hands out that
/// very process, to be killed and reaped, together with the `cancelled`
/// event under the labels the task was entered with; afterwards the
/// registry holds neither the task nor the process.
pub proof fn lemma_cancel_reaches_process<H>(
    registry: Map<Seq<char>, ProcessEntryView<H>>,
    id: Seq<char>,
    child: H,
    command: Seq<char>,
    project: Seq<char>,
)
    ensures
        cancel_outcome(registry.insert(id, running_entry(child, command, project)), id) == Ok::<
            CancellationView<H>,
            DdevErrorView,
        >(
            CancellationView {
                child: Some(child),
                status: cancelled_status(command, project, id),
            },
        ),
        !registry.insert(id, running_entry(child, command, project)).remove(id).contains_key(id),
        taken_child(registry.insert(id, running_entry(child, command, project)).remove(id), id)
            == None::<H>,
{
}

/// Tasks do not touch each other: entering, taking from, removing or
/// cancelling the task `a` leaves the entry of any other task `b` as it was.
pub proof fn lemma_tasks_independent<H>(
    registry: Map<Seq<char>, ProcessEntryView<H>>,
    a: Seq<char>,
    b: Seq<char>,
    entry: ProcessEntryView<H>,
)
    requires
        a != b,
    ensures
        registry.insert(a, entry).contains_key(b) == registry.contains_key(b),
        registry.contains_key(b) ==> registry.insert(a, entry)[b] == registry[b],
        after_take(registry, a).contains_key(b) == registry.contains_key(b),
        registry.contains_key(b) ==> after_take(registry, a)[b] == registry[b],
        registry.remove(a).contains_key(b) == registry.contains_key(b),
        registry.contains_key(b) ==> registry.remove(a)[b] == registry[b],
        cancel_outcome(registry.insert(a, entry), b) == cancel_outcome(registry, b),
        cancel_outcome(after_take(registry, a), b) == cancel_outcome(registry, b),
        cancel_outcome(registry.remove(a), b) == cancel_outcome(registry, b),
{
}

proof fn lemma_slots_count<H>(s: Seq<Slot<H>>)
    requires
        slots_distinct(s),
    ensures
        slots_map(s).dom().finite(),
        slots_map(s).dom().len() == s.len(),
    decreases s.len(),
{
    if s.len() == 0 {
        assert forall|k: Seq<char>| !slots_map(s).contains_key(k) by {
            lemma_slots_absent(s, k);
        }
        assert(slots_map(s).dom() =~= Set::<Seq<char>>::empty());
    } else {
        let p = s.len() - 1;
        lemma_slots_remove(s, p);
        lemma_slots_count(s.remove(p));
        lemma_slots_lookup(s, p);
        let smaller = slots_map(s.remove(p)).dom();
        assert(slots_map(s).dom() =~= smaller.insert(s[p].id@));
        assert(!smaller.contains(s[p].id@));
    }
}

} // verus!
