//! The external interrupt table: one callback slot per peripheral IRQ line,
//! and the order in which pending lines are dispatched.
use crate::soft_irq::bit_of;
use vstd::prelude::*;

verus! {

/// Number of entries in the table, one per IRQ line the controller reports.
pub const IRQ_TABLE_SIZE: usize = 32;

/// A registered callback with the context handle it is given back.
#[derive(Clone, Copy, Debug)]
pub struct InterruptCallback<F> {
    pub function: F,
    pub context: usize,
}

/// The table: an entry per IRQ line, `None` standing for the default no-op.
/// Lines at or above the configured limit are invalid.
pub struct ExternalInterrupt<F> {
    functions: Vec<Option<InterruptCallback<F>>>,
    irq_limit: usize,
}

/// The callback that `num` dispatches to in a table holding `entries` with
/// `limit` valid lines.
pub open spec fn lookup<F>(entries: Seq<Option<InterruptCallback<F>>>, limit: nat, num: int) -> Option<
    InterruptCallback<F>,
> {
    if 0 <= num < limit {
        entries[num]
    } else {
        None
    }
}

/// The entries after `num` is set to `e`; an invalid line changes nothing.
pub open spec fn with_entry<F>(
    entries: Seq<Option<InterruptCallback<F>>>,
    limit: nat,
    num: int,
    e: Option<InterruptCallback<F>>,
) -> Seq<Option<InterruptCallback<F>>> {
    if 0 <= num < limit {
        entries.update(num, e)
    } else {
        entries
    }
}

impl<F: Copy> ExternalInterrupt<F> {
    /// The entry of each line.
    pub closed spec fn entries(&self) -> Seq<Option<InterruptCallback<F>>> {
        self.functions@
    }

    /// The number of valid lines.
    pub closed spec fn limit(&self) -> nat {
        self.irq_limit as nat
    }

    pub open spec fn wf(&self) -> bool {
        &&& self.entries().len() == IRQ_TABLE_SIZE
        &&& self.limit() <= IRQ_TABLE_SIZE
    }

    /// A table with `irq_limit` valid lines, each with the default no-op.
    pub fn new(irq_limit: usize) -> (r: ExternalInterrupt<F>)
        requires
            irq_limit <= IRQ_TABLE_SIZE,
        ensures
            r.wf(),
            r.limit() == irq_limit,
            forall|i: int| 0 <= i < IRQ_TABLE_SIZE ==> (#[trigger] r.entries()[i]).is_none(),
    {
        let mut functions: Vec<Option<InterruptCallback<F>>> = Vec::new();
        let mut i: usize = 0;
        while i < IRQ_TABLE_SIZE
            invariant
                i <= IRQ_TABLE_SIZE,
                functions@.len() == i,
                forall|j: int| 0 <= j < i ==> (#[trigger] functions@[j]).is_none(),
            decreases IRQ_TABLE_SIZE - i,
        {
            functions.push(None);
            i = i + 1;
        }
        ExternalInterrupt { functions, irq_limit }
    }

    /// Registers `function` with `context` for line `num`, replacing what was
    /// there; an invalid line is ignored.
    pub fn register_interrupt(&mut self, num: usize, function: F, context: usize)
        requires
            old(self).wf(),
        ensures
            final(self).wf(),
            final(self).limit() == old(self).limit(),
            final(self).entries() == with_entry(
                old(self).entries(),
                old(self).limit(),
                num as int,
                Some(InterruptCallback { function, context }),
            ),
    {
        if num < self.irq_limit {
            self.functions.set(num, Some(InterruptCallback { function, context }));
        }
    }

    /// The callback that line `num` dispatches to, with its context; `None`
    /// when the line has the default no-op or is invalid.
    pub fn execute_interrupt(&self, num: usize) -> (r: Option<InterruptCallback<F>>)
        requires
            self.wf(),
        ensures
            r == lookup(self.entries(), self.limit(), num as int),
    {
        if num < self.irq_limit {
            self.functions[num]
        } else {
            None
        }
    }

    /// Resets line `num` to the default no-op; an invalid line is ignored.
    pub fn un_register_interrupt(&mut self, num: usize)
        requires
            old(self).wf(),
        ensures
            final(self).wf(),
            final(self).limit() == old(self).limit(),
            final(self).entries() == with_entry(
                old(self).entries(),
                old(self).limit(),
                num as int,
                None,
            ),
    {
        if num < self.irq_limit {
            self.functions.set(num, None);
        }
    }
}

/// Registering a callback and then dispatching its line yields exactly that
/// callback and context; unregistering then dispatching yields the no-op;
/// on an invalid line both are no-ops that leave the table as it was; no
/// other line is touched.
pub proof fn lemma_register_then_execute<F>(
    entries: Seq<Option<InterruptCallback<F>>>,
    limit: nat,
    num: int,
    function: F,
    context: usize,
    other: int,
)
    requires
        entries.len() == IRQ_TABLE_SIZE,
        limit <= IRQ_TABLE_SIZE,
        other != num,
    ensures
        0 <= num < limit ==> lookup(
            with_entry(entries, limit, num, Some(InterruptCallback { function, context })),
            limit,
            num,
        ) == Some(InterruptCallback { function, context }),
        lookup(with_entry(entries, limit, num, None), limit, num).is_none(),
        !(0 <= num < limit) ==> with_entry(
            entries,
            limit,
            num,
            Some(InterruptCallback { function, context }),
        ) == entries && with_entry(entries, limit, num, None) == entries && lookup(
            entries,
            limit,
            num,
        ).is_none(),
        lookup(
            with_entry(entries, limit, num, Some(InterruptCallback { function, context })),
            limit,
            other,
        ) == lookup(entries, limit, other),
        lookup(with_entry(entries, limit, num, None), limit, other) == lookup(
            entries,
            limit,
            other,
        ),
{
}

/// The lines below `n` whose bit is set in `mask`, lowest first.
pub open spec fn set_bits(mask: u32, n: nat) -> Seq<usize>
    decreases n,
{
    if n == 0 {
        Seq::empty()
    } else {
        let prev = set_bits(mask, (n - 1) as nat);
        if bit_of(mask, n - 1) {
            prev.push((n - 1) as usize)
        } else {
            prev
        }
    }
}

/// The lines to dispatch for a pending-interrupt `mask`: every set bit,
/// scanned from bit 0 upward.
pub fn pending_interrupts(mask: u32) -> (r: Vec<usize>)
    ensures
        r@ == set_bits(mask, 32),
{
    let mut r: Vec<usize> = Vec::new();
    let mut n: u32 = 0;
    while n < 32
        invariant
            n <= 32,
            r@ == set_bits(mask, n as nat),
        decreases 32 - n,
    {
        if (mask >> n) & 1u32 == 1u32 {
            r.push(n as usize);
        }
        n = n + 1;
    }
    r
}

} // verus!
