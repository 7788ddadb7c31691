//! The executor slots: one per software-interrupt priority level, each
//! started exactly once.
use crate::soft_irq::MAX_LEVELS;
use vstd::prelude::*;

verus! {

/// The bookkeeping of one executor slot: its level, which is also the
/// context tag its task-poll core is created with, and whether it has been
/// started.
pub struct InterruptExecutor {
    started: bool,
    context: usize,
}

impl InterruptExecutor {
    /// Whether the slot has been started.
    pub closed spec fn started(&self) -> bool {
        self.started
    }

    /// The level of the slot.
    pub closed spec fn level(&self) -> usize {
        self.context
    }

    /// A slot for level `ctx`, not yet started.
    pub fn new(ctx: usize) -> (r: InterruptExecutor)
        ensures
            !r.started(),
            r.level() == ctx,
    {
        InterruptExecutor { started: false, context: ctx }
    }

    /// Marks the slot started and returns the context tag to create its
    /// task-poll core with. Starting a slot twice is a usage error.
    pub fn start(&mut self) -> (tag: usize)
        requires
            !old(self).started(),
        ensures
            final(self).started(),
            final(self).level() == old(self).level(),
            tag == old(self).level(),
    {
        self.started = true;
        self.context
    }

    /// Whether the slot has been started; spawning on it needs that.
    pub fn is_started(&self) -> (r: bool)
        ensures
            r == self.started(),
    {
        self.started
    }

    /// The level of the slot.
    pub fn context(&self) -> (r: usize)
        ensures
            r == self.level(),
    {
        self.context
    }
}

/// The slots of all priority levels; slot `i` serves level `i`.
pub struct ExecutorList {
    slots: Vec<InterruptExecutor>,
}

impl ExecutorList {
    /// Which levels have been started.
    pub closed spec fn started_levels(&self) -> Seq<bool> {
        self.slots@.map_values(|e: InterruptExecutor| e.started())
    }

    pub closed spec fn wf(&self) -> bool {
        &&& self.slots@.len() == MAX_LEVELS
        &&& forall|i: int| 0 <= i < MAX_LEVELS ==> (#[trigger] self.slots@[i]).level() == i
    }

    /// One slot per level, none started.
    pub fn new() -> (r: ExecutorList)
        ensures
            r.wf(),
            r.started_levels() == Seq::new(MAX_LEVELS as nat, |i: int| false),
    {
        let mut slots: Vec<InterruptExecutor> = Vec::new();
        let mut i: usize = 0;
        while i < MAX_LEVELS
            invariant
                i <= MAX_LEVELS,
                slots@.len() == i,
                forall|j: int| 0 <= j < i ==> (#[trigger] slots@[j]).level() == j,
                forall|j: int| 0 <= j < i ==> !(#[trigger] slots@[j]).started(),
            decreases MAX_LEVELS - i,
        {
            slots.push(InterruptExecutor::new(i));
            i = i + 1;
        }
        let r = ExecutorList { slots };
        assert(r.started_levels() =~= Seq::new(MAX_LEVELS as nat, |i: int| false));
        r
    }

    /// Whether slot `level` has been started.
    pub fn is_started(&self, level: usize) -> (r: bool)
        requires
            self.wf(),
            level < MAX_LEVELS,
        ensures
            r == self.started_levels()[level as int],
    {
        self.slots[level].is_started()
    }

    /// Starts slot `level` and returns the context tag of its task-poll
    /// core, which is the level itself. Each slot is started exactly once.
    pub fn start(&mut self, level: usize) -> (tag: usize)
        requires
            old(self).wf(),
            level < MAX_LEVELS,
            !old(self).started_levels()[level as int],
        ensures
            final(self).wf(),
            final(self).started_levels() == old(self).started_levels().update(level as int, true),
            tag == level,
    {
        let mut slot = InterruptExecutor::new(level);
        slot.start();
        self.slots.set(level, slot);
        proof {
            assert(self.started_levels() =~= old(self).started_levels().update(level as int, true));
        }
        level
    }
}

/// Every level starts out stopped, can be started once, and is then started
/// for good: a second start, or a spawn before the first, is refused by the
/// contracts of `start` and `is_started`. Starting one level leaves the others
/// as they were.
pub proof fn lemma_start_exactly_once(levels: Seq<bool>, level: int, other: int)
    requires
        levels.len() == MAX_LEVELS,
        0 <= level < MAX_LEVELS,
        0 <= other < MAX_LEVELS,
        other != level,
    ensures
        !Seq::new(MAX_LEVELS as nat, |i: int| false)[level],
        !levels[level] ==> levels.update(level, true)[level],
        levels.update(level, true).update(level, true) == levels.update(level, true),
        levels.update(level, true)[other] == levels[other],
{
    assert(levels.update(level, true).update(level, true) =~= levels.update(level, true));
}

} // verus!
