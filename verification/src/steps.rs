//! The step list: the named steps of a tick, kept in the order in which a
//! tick runs them.

use vstd::prelude::*;

verus! {

/// The key by which steps are ordered. A step with a lower number runs
/// before one with a higher number.
pub type Priority = i32;

/// The priority of the draw step, so that other steps can be placed before
/// or after it.
pub const DRAW_PRIORITY: Priority = 10;

/// The name of the draw step.
pub const DRAW_NAME: &'static str = "draw";

/// A unit of per-tick logic.
pub trait Step<W>: Sized {
    /// What one run may make of the step and of the world. A step that
    /// says nothing here may do anything.
    open spec fn ran(before: Self, world_before: W, elapsed: u64, after: Self, world_after: W) -> bool {
        true
    }

    /// Runs the step once, with the state it works on and the time elapsed
    /// since the previous tick, in nanoseconds.
    fn run(&mut self, world: &mut W, elapsed: u64)
        ensures
            Self::ran(*old(self), *old(world), elapsed, *final(self), *final(world)),
    ;
}

/// A registered step with its name and priority.
pub struct StepEntry<S> {
    /// Where the step stands in the order.
    pub priority: Priority,
    /// The name the step was registered under.
    pub name: String,
    /// The step itself.
    pub step: S,
}

/// The registered steps, in running order.
pub struct StepList<S> {
    entries: Vec<StepEntry<S>>,
}

impl<S> View for StepList<S> {
    type V = Seq<StepEntry<S>>;

    closed spec fn view(&self) -> Seq<StepEntry<S>> {
        self.entries@
    }
}

/// Whether the entries stand in ascending order of priority.
pub open spec fn ascending<S>(entries: Seq<StepEntry<S>>) -> bool {
    forall|i: int, j: int|
        0 <= i <= j < entries.len() ==> (#[trigger] entries[i]).priority <= (
        #[trigger] entries[j]).priority
}

/// Whether two lists hold the same schedule: the same names and priorities
/// in the same order, whatever became of the steps themselves.
pub open spec fn same_schedule<S>(a: Seq<StepEntry<S>>, b: Seq<StepEntry<S>>) -> bool {
    &&& a.len() == b.len()
    &&& forall|i: int|
        0 <= i < a.len() ==> (#[trigger] a[i]).priority == b[i].priority && a[i].name == b[i].name
}

/// Whether `after` and `world_after` are what comes of running every step
/// of `before` once, in order, each with `elapsed` and on the world as the
/// step before it left it, the first on `world_before`.
pub open spec fn ran_in_order<W, S: Step<W>>(
    before: Seq<StepEntry<S>>,
    world_before: W,
    elapsed: u64,
    after: Seq<StepEntry<S>>,
    world_after: W,
) -> bool {
    &&& after.len() == before.len()
    &&& exists|worlds: Seq<W>|
        {
            &&& worlds.len() == before.len() + 1
            &&& worlds[0] == world_before
            &&& worlds[before.len() as int] == world_after
            &&& forall|i: int|
                0 <= i < before.len() ==> #[trigger] S::ran(
                    before[i].step,
                    worlds[i],
                    elapsed,
                    after[i].step,
                    worlds[i + 1],
                )
        }
}

/// Whether `places` says where each entry of `before` stands in `after`:
/// entry for entry the same, and in the same order.
pub open spec fn keeps_at<S>(
    before: Seq<StepEntry<S>>,
    after: Seq<StepEntry<S>>,
    places: Seq<int>,
) -> bool {
    &&& places.len() == before.len()
    &&& forall|i: int|
        0 <= i < before.len() ==> 0 <= #[trigger] places[i] < after.len() && after[places[i]]
            == before[i]
    &&& forall|i: int, j: int|
        0 <= i < j < before.len() ==> #[trigger] places[i] < #[trigger] places[j]
}

/// Whether every entry of `before` still stands in `after`, and in the same
/// order: `after` is `before` with entries added.
pub open spec fn kept_in_order<S>(before: Seq<StepEntry<S>>, after: Seq<StepEntry<S>>) -> bool {
    exists|places: Seq<int>| keeps_at(before, after, places)
}

/// A list keeps its own entries.
pub proof fn lemma_kept_in_itself<S>(entries: Seq<StepEntry<S>>)
    ensures
        kept_in_order(entries, entries),
{
    let places = Seq::new(entries.len(), |i: int| i);
    assert(keeps_at(entries, entries, places));
}

/// An entry put in anywhere leaves the others standing, in their order.
pub proof fn lemma_kept_by_insert<S>(entries: Seq<StepEntry<S>>, at: int, entry: StepEntry<S>)
    requires
        0 <= at <= entries.len(),
    ensures
        kept_in_order(entries, entries.insert(at, entry)),
{
    let places = Seq::new(
        entries.len(),
        |i: int|
            if i < at {
                i
            } else {
                i + 1
            },
    );
    assert(keeps_at(entries, entries.insert(at, entry), places));
}

/// What is kept from a first list to a second and from the second to a
/// third is kept from the first to the third.
pub proof fn lemma_kept_through<S>(
    first: Seq<StepEntry<S>>,
    second: Seq<StepEntry<S>>,
    third: Seq<StepEntry<S>>,
)
    requires
        kept_in_order(first, second),
        kept_in_order(second, third),
    ensures
        kept_in_order(first, third),
{
    let early = choose|places: Seq<int>| keeps_at(first, second, places);
    let late = choose|places: Seq<int>| keeps_at(second, third, places);
    let places = Seq::new(first.len(), |i: int| late[early[i]]);
    assert forall|i: int| 0 <= i < first.len() implies 0 <= #[trigger] places[i] < third.len()
        && third[places[i]] == first[i] by {
        assert(0 <= early[i] < second.len());
        assert(third[late[early[i]]] == second[early[i]]);
    }
    assert forall|i: int, j: int| 0 <= i < j < first.len() implies #[trigger] places[i]
        < #[trigger] places[j] by {
        assert(early[i] < early[j]);
        assert(late[early[i]] < late[early[j]]);
    }
    assert(keeps_at(first, third, places));
}

impl<S> StepList<S> {
    /// The steps stand in running order.
    pub open spec fn wf(&self) -> bool {
        ascending(self@)
    }

    /// A list without steps.
    pub fn new() -> (list: Self)
        ensures
            list.wf(),
            list@.len() == 0,
    {
        StepList { entries: Vec::new() }
    }

    /// The place for a new step of the given priority: behind every step of
    /// a lower priority and before every step of a higher one, and among
    /// those of the same priority ahead of them or behind them.
    fn place(&self, priority: Priority, ahead: bool) -> (at: usize)
        requires
            self.wf(),
        ensures
            at <= self@.len(),
            forall|i: int|
                0 <= i < at ==> (#[trigger] self@[i]).priority < priority || (!ahead
                    && self@[i].priority == priority),
            forall|i: int|
                at <= i < self@.len() ==> (#[trigger] self@[i]).priority > priority || (ahead
                    && self@[i].priority == priority),
    {
        let mut at: usize = 0;
        while at < self.entries.len() && (self.entries[at].priority < priority || (!ahead
            && self.entries[at].priority == priority))
            invariant
                at <= self.entries@.len(),
                forall|i: int|
                    0 <= i < at ==> (#[trigger] self.entries@[i]).priority < priority || (!ahead
                        && self.entries@[i].priority == priority),
            decreases self.entries@.len() - at,
        {
            at += 1;
        }
        at
    }

    /// Registers a step and says at which place in the running order it now
    /// stands: behind every step whose priority is not higher, and so
    /// behind those registered earlier with the same priority, and before
    /// every step whose priority is higher.
    pub fn add(&mut self, step: S, name: &str, priority: Priority) -> (at: usize)
        requires
            old(self).wf(),
        ensures
            final(self).wf(),
            at <= old(self)@.len(),
            final(self)@ == old(self)@.insert(at as int, final(self)@[at as int]),
            final(self)@[at as int].priority == priority,
            final(self)@[at as int].name@ == name@,
            final(self)@[at as int].step == step,
            forall|i: int| 0 <= i < at ==> (#[trigger] old(self)@[i]).priority <= priority,
            forall|i: int|
                at <= i < old(self)@.len() ==> (#[trigger] old(self)@[i]).priority > priority,
            kept_in_order(old(self)@, final(self)@),
    {
        let at = self.place(priority, false);
        let entry = StepEntry { priority, name: name.to_owned(), step };
        proof {
            lemma_kept_by_insert(self.entries@, at as int, entry);
        }
        self.entries.insert(at, entry);
        at
    }

    /// Registers a step ahead of those with the same priority, and says at
    /// which place in the running order it now stands: behind every step
    /// whose priority is lower, and before every other step.
    pub fn add_ahead(&mut self, step: S, name: &str, priority: Priority) -> (at: usize)
        requires
            old(self).wf(),
        ensures
            final(self).wf(),
            at <= old(self)@.len(),
            final(self)@ == old(self)@.insert(at as int, final(self)@[at as int]),
            final(self)@[at as int].priority == priority,
            final(self)@[at as int].name@ == name@,
            final(self)@[at as int].step == step,
            forall|i: int| 0 <= i < at ==> (#[trigger] old(self)@[i]).priority < priority,
            forall|i: int|
                at <= i < old(self)@.len() ==> (#[trigger] old(self)@[i]).priority >= priority,
            kept_in_order(old(self)@, final(self)@),
    {
        let at = self.place(priority, true);
        let entry = StepEntry { priority, name: name.to_owned(), step };
        proof {
            lemma_kept_by_insert(self.entries@, at as int, entry);
        }
        self.entries.insert(at, entry);
        at
    }

    /// The number of registered steps.
    pub fn len(&self) -> (n: usize)
        ensures
            n == self@.len(),
    {
        self.entries.len()
    }

    /// The priority of the step at place `at` of the running order.
    pub fn priority(&self, at: usize) -> (p: Priority)
        requires
            at < self@.len(),
        ensures
            p == self@[at as int].priority,
    {
        self.entries[at].priority
    }

    /// The name of the step at place `at` of the running order.
    pub fn name(&self, at: usize) -> (n: &str)
        requires
            at < self@.len(),
        ensures
            n@ == self@[at as int].name@,
    {
        self.entries[at].name.as_str()
    }

    /// The step at place `at` of the running order.
    pub fn step(&self, at: usize) -> (s: &S)
        requires
            at < self@.len(),
        ensures
            *s == self@[at as int].step,
    {
        &self.entries[at].step
    }

    /// Runs every step once, in running order, with the elapsed time, each
    /// on the world as the step before it left it. The schedule is the same
    /// afterwards.
    pub fn dispatch<W>(&mut self, world: &mut W, elapsed: u64) where S: Step<W>
        requires
            old(self).wf(),
        ensures
            final(self).wf(),
            same_schedule(final(self)@, old(self)@),
            ran_in_order(old(self)@, *old(world), elapsed, final(self)@, *final(world)),
    {
        let ghost mut worlds: Seq<W> = seq![*world];
        let mut at: usize = 0;
        while at < self.entries.len()
            invariant
                at <= self.entries@.len(),
                same_schedule(self.entries@, old(self)@),
                ascending(self.entries@),
                worlds.len() == at + 1,
                worlds[0] == *old(world),
                worlds[at as int] == *world,
                forall|i: int| at <= i < self.entries@.len() ==> self.entries@[i] == old(self)@[i],
                forall|i: int|
                    0 <= i < at ==> #[trigger] S::ran(
                        old(self)@[i].step,
                        worlds[i],
                        elapsed,
                        self.entries@[i].step,
                        worlds[i + 1],
                    ),
            decreases self.entries@.len() - at,
        {
            self.entries[at].step.run(world, elapsed);
            proof {
                worlds = worlds.push(*world);
            }
            at += 1;
        }
    }
}

} // verus!
