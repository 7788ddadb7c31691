//! The software-interrupt controller protocol.
//!
//! The controller has a request register and an active register, one bit per
//! priority level. A write to either register carries an operation in its top
//! two bits and a bit mask in the rest.
use vstd::prelude::*;

verus! {

/// Number of software-interrupt priority levels, one per executor slot.
pub const MAX_LEVELS: usize = 16;

/// Operation bits of a write that sets the bits of its mask.
pub const CSR_OPERATION_SET: u32 = 0x8000_0000;

/// Operation bits of a write that clears the bits of its mask.
pub const CSR_OPERATION_CLEAR: u32 = 0x4000_0000;

/// Operation bits of a write that replaces the whole register by its mask.
pub const CSR_OPERATION_REPLACE: u32 = 0x0000_0000;

/// The bits of a controller write that carry its mask.
pub const CSR_MASK_BITS: u32 = 0x3fff_ffff;

/// The register value after `word` is written to a register holding `reg`.
/// The fourth operation code (both top bits set) leaves the register alone.
pub open spec fn csr_apply(reg: u32, word: u32) -> u32 {
    let mask = word & CSR_MASK_BITS;
    let op = word >> 30u32;
    if op == 2 {
        reg | mask
    } else if op == 1 {
        reg & !mask
    } else if op == 0 {
        mask
    } else {
        reg
    }
}

/// The bit that priority level `level` owns in both registers.
pub open spec fn level_bit(level: int) -> u32 {
    1u32 << (level as u32)
}

/// Whether bit `level` of `reg` is set.
pub open spec fn bit_of(reg: u32, level: int) -> bool {
    (reg >> (level as u32)) & 1u32 == 1u32
}

/// The word that sets the bit of `level`.
pub open spec fn set_word(level: int) -> u32 {
    CSR_OPERATION_SET | level_bit(level)
}

/// The word that clears the bit of `level`.
pub open spec fn clear_word(level: int) -> u32 {
    CSR_OPERATION_CLEAR | level_bit(level)
}

/// Writing the set word of a level sets its bit and keeps every other bit.
pub proof fn lemma_set_word(reg: u32, level: u32, other: u32)
    requires
        level < 16,
        other < 32,
    ensures
        bit_of(csr_apply(reg, set_word(level as int)), level as int),
        other != level ==> bit_of(csr_apply(reg, set_word(level as int)), other as int) == bit_of(
            reg,
            other as int,
        ),
{
    let w = set_word(level as int);
    assert(w == 0x8000_0000u32 | (1u32 << level));
    assert(w >> 30u32 == 2u32 && w & 0x3fff_ffffu32 == (1u32 << level)) by (bit_vector)
        requires
            w == 0x8000_0000u32 | (1u32 << level),
            level < 16,
    ;
    let r = reg | (1u32 << level);
    assert(((r >> level) & 1u32 == 1u32) && (other != level ==> ((r >> other) & 1u32) == ((reg
        >> other) & 1u32))) by (bit_vector)
        requires
            r == reg | (1u32 << level),
            level < 16,
            other < 32,
    ;
}

/// Writing the clear word of a level clears its bit and keeps every other bit.
pub proof fn lemma_clear_word(reg: u32, level: u32, other: u32)
    requires
        level < 16,
        other < 32,
    ensures
        !bit_of(csr_apply(reg, clear_word(level as int)), level as int),
        other != level ==> bit_of(csr_apply(reg, clear_word(level as int)), other as int)
            == bit_of(reg, other as int),
{
    let w = clear_word(level as int);
    assert(w == 0x4000_0000u32 | (1u32 << level));
    assert(w >> 30u32 == 1u32 && w & 0x3fff_ffffu32 == (1u32 << level)) by (bit_vector)
        requires
            w == 0x4000_0000u32 | (1u32 << level),
            level < 16,
    ;
    let r = reg & !(1u32 << level);
    assert(((r >> level) & 1u32 != 1u32) && (other != level ==> ((r >> other) & 1u32) == ((reg
        >> other) & 1u32))) by (bit_vector)
        requires
            r == reg & !(1u32 << level),
            level < 16,
            other < 32,
    ;
}

/// The register value after `word` is written to a register holding `reg`.
pub fn csr_write(reg: u32, word: u32) -> (r: u32)
    ensures
        r == csr_apply(reg, word),
{
    let mask = word & CSR_MASK_BITS;
    let op = word >> 30u32;
    if op == 2 {
        reg | mask
    } else if op == 1 {
        reg & !mask
    } else if op == 0 {
        mask
    } else {
        reg
    }
}

/// One step of servicing a software interrupt, in the order the trap
/// handler performs them.
#[derive(Clone, Copy, Debug, PartialEq, Eq, Structural)]
pub enum SoftIrqAction {
    /// Write a word to the request register.
    WriteRequest(u32),
    /// Write a word to the active register.
    WriteActive(u32),
    /// Re-enable global interrupt delivery, opening the preemption window.
    EnableInterrupts,
    /// Run one poll pass of the executor slot of this level.
    PollExecutor(usize),
    /// Disable global interrupt delivery, closing the preemption window.
    DisableInterrupts,
}

/// The request and active registers of the software-interrupt controller.
#[derive(Clone, Copy, Debug, PartialEq, Eq, Structural)]
pub struct SoftIrqController {
    pub request: u32,
    pub active: u32,
}

impl SoftIrqController {
    /// The controller after one action; only register writes change it.
    pub open spec fn apply(self, a: SoftIrqAction) -> SoftIrqController {
        match a {
            SoftIrqAction::WriteRequest(w) => SoftIrqController {
                request: csr_apply(self.request, w),
                active: self.active,
            },
            SoftIrqAction::WriteActive(w) => SoftIrqController {
                request: self.request,
                active: csr_apply(self.active, w),
            },
            _ => self,
        }
    }

    /// The controller after a sequence of actions, performed first to last.
    pub open spec fn run(self, acts: Seq<SoftIrqAction>) -> SoftIrqController
        decreases acts.len(),
    {
        if acts.len() == 0 {
            self
        } else {
            self.run(acts.drop_last()).apply(acts.last())
        }
    }

    /// Whether `level` has a pending request.
    pub open spec fn pending(self, level: int) -> bool {
        bit_of(self.request, level)
    }

    /// Whether `level` is marked in service.
    pub open spec fn in_service(self, level: int) -> bool {
        bit_of(self.active, level)
    }

    /// A controller with no request pending and no level in service.
    pub fn new() -> (r: SoftIrqController)
        ensures
            r.request == 0,
            r.active == 0,
    {
        SoftIrqController { request: 0, active: 0 }
    }

    /// Performs one action on the registers.
    pub fn perform(&mut self, a: SoftIrqAction)
        ensures
            *final(self) == old(self).apply(a),
    {
        match a {
            SoftIrqAction::WriteRequest(w) => {
                self.request = csr_write(self.request, w);
            },
            SoftIrqAction::WriteActive(w) => {
                self.active = csr_write(self.active, w);
            },
            _ => {},
        }
    }

    /// Whether `level` has a pending request.
    pub fn is_pending(&self, level: u32) -> (r: bool)
        requires
            level < 32,
        ensures
            r == self.pending(level as int),
    {
        (self.request >> level) & 1u32 == 1u32
    }

    /// Whether `level` is marked in service.
    pub fn is_active(&self, level: u32) -> (r: bool)
        requires
            level < 32,
        ensures
            r == self.in_service(level as int),
    {
        (self.active >> level) & 1u32 == 1u32
    }
}

/// Running `acts` then `a` is running `acts` and applying `a`.
pub proof fn lemma_run_push(s: SoftIrqController, acts: Seq<SoftIrqAction>, a: SoftIrqAction)
    ensures
        s.run(acts.push(a)) == s.run(acts).apply(a),
{
    assert(acts.push(a).drop_last() =~= acts);
}

/// Running two sequences one after the other is running their concatenation.
pub proof fn lemma_run_append(s: SoftIrqController, a: Seq<SoftIrqAction>, b: Seq<SoftIrqAction>)
    ensures
        s.run(a + b) == s.run(a).run(b),
    decreases b.len(),
{
    if b.len() == 0 {
        assert(a + b =~= a);
    } else {
        lemma_run_append(s, a, b.drop_last());
        assert((a + b).drop_last() =~= a + b.drop_last());
        assert((a + b).last() == b.last());
    }
}

/// The word written to the request register to pend `context`'s level, if
/// `context` names a level.
pub open spec fn pend_word(context: int) -> Option<u32> {
    if 0 <= context < MAX_LEVELS {
        Some(set_word(context))
    } else {
        None
    }
}

/// The write a waker of executor slot `context` makes to pend its level;
/// contexts that name no level are dropped.
pub fn pend_request(context: usize) -> (r: Option<u32>)
    ensures
        r == pend_word(context as int),
{
    if context < MAX_LEVELS {
        Some(CSR_OPERATION_SET | (1u32 << (context as u32)))
    } else {
        None
    }
}

/// The actions that claim `level` up to its poll: the pend bit is cleared
/// twice (a single clear can be missed by the hardware), the active bit is
/// set, and interrupt delivery is re-enabled.
pub open spec fn claim_actions(level: int) -> Seq<SoftIrqAction> {
    Seq::empty().push(SoftIrqAction::WriteRequest(clear_word(level))).push(
        SoftIrqAction::WriteRequest(clear_word(level)),
    ).push(SoftIrqAction::WriteActive(set_word(level))).push(SoftIrqAction::EnableInterrupts)
}

/// The whole service of `level`: its claim, one poll of its slot, then
/// interrupt delivery disabled and the active bit cleared.
pub open spec fn service_actions(level: int) -> Seq<SoftIrqAction> {
    claim_actions(level).push(SoftIrqAction::PollExecutor(level as usize)).push(
        SoftIrqAction::DisableInterrupts,
    ).push(SoftIrqAction::WriteActive(clear_word(level)))
}

/// The actions of the software-interrupt trap for the level that the status
/// register names; a status that names no level is absorbed with no action.
pub fn soft_interrupt_actions(status: u32) -> (r: Vec<SoftIrqAction>)
    ensures
        r@ == if status < MAX_LEVELS {
            service_actions(status as int)
        } else {
            Seq::empty()
        },
{
    let mut r: Vec<SoftIrqAction> = Vec::new();
    if (status as usize) < MAX_LEVELS {
        let bit = 1u32 << status;
        r.push(SoftIrqAction::WriteRequest(CSR_OPERATION_CLEAR | bit));
        r.push(SoftIrqAction::WriteRequest(CSR_OPERATION_CLEAR | bit));
        r.push(SoftIrqAction::WriteActive(CSR_OPERATION_SET | bit));
        r.push(SoftIrqAction::EnableInterrupts);
        r.push(SoftIrqAction::PollExecutor(status as usize));
        r.push(SoftIrqAction::DisableInterrupts);
        r.push(SoftIrqAction::WriteActive(CSR_OPERATION_CLEAR | bit));
    }
    r
}

/// Servicing a level marks it active before its poll and clears that mark
/// after, clears its pending request before the poll, brackets the poll by
/// enabling and then disabling interrupt delivery, polls no other slot, and
/// leaves the bits of every other level alone.
pub proof fn lemma_service_brackets_poll(s: SoftIrqController, level: u32)
    requires
        level < MAX_LEVELS,
    ensures
        s.run(claim_actions(level as int)).in_service(level as int),
        !s.run(claim_actions(level as int)).pending(level as int),
        !s.run(service_actions(level as int)).in_service(level as int),
        claim_actions(level as int).last() == SoftIrqAction::EnableInterrupts,
        service_actions(level as int)[4] == SoftIrqAction::PollExecutor(level as usize),
        service_actions(level as int)[5] == SoftIrqAction::DisableInterrupts,
        forall|i: int|
            0 <= i < service_actions(level as int).len() && i != 4 ==> !(
            #[trigger] service_actions(level as int)[i] is PollExecutor),
        forall|o: int|
            0 <= o < MAX_LEVELS && o != level ==> (#[trigger] s.run(
                claim_actions(level as int),
            ).in_service(o)) == s.in_service(o),
        forall|o: int|
            0 <= o < MAX_LEVELS && o != level ==> (#[trigger] s.run(
                service_actions(level as int),
            ).in_service(o)) == s.in_service(o),
        forall|o: int|
            0 <= o < MAX_LEVELS && o != level ==> (#[trigger] s.run(
                claim_actions(level as int),
            ).pending(o)) == s.pending(o),
        forall|o: int|
            0 <= o < MAX_LEVELS && o != level ==> (#[trigger] s.run(
                service_actions(level as int),
            ).pending(o)) == s.pending(o),
{
    let l = level as int;
    let a0 = SoftIrqAction::WriteRequest(clear_word(l));
    let a2 = SoftIrqAction::WriteActive(set_word(l));
    let a3 = SoftIrqAction::EnableInterrupts;
    let a4 = SoftIrqAction::PollExecutor(level as usize);
    let a5 = SoftIrqAction::DisableInterrupts;
    let a6 = SoftIrqAction::WriteActive(clear_word(l));
    let p1 = Seq::empty().push(a0);
    let p2 = p1.push(a0);
    let p3 = p2.push(a2);
    let p4 = p3.push(a3);
    let p5 = p4.push(a4);
    let p6 = p5.push(a5);
    let p7 = p6.push(a6);
    lemma_run_push(s, Seq::empty(), a0);
    lemma_run_push(s, p1, a0);
    lemma_run_push(s, p2, a2);
    lemma_run_push(s, p3, a3);
    lemma_run_push(s, p4, a4);
    lemma_run_push(s, p5, a5);
    lemma_run_push(s, p6, a6);
    let s1 = s.run(p1);
    let s2 = s.run(p2);
    let s3 = s.run(p3);
    let s7 = s.run(p7);
    assert(s1.request == csr_apply(s.request, clear_word(l)) && s1.active == s.active);
    assert(s2.request == csr_apply(s1.request, clear_word(l)) && s2.active == s.active);
    assert(s3.request == s2.request && s3.active == csr_apply(s.active, set_word(l)));
    assert(s7.request == s2.request && s7.active == csr_apply(s3.active, clear_word(l)));
    lemma_clear_word(s1.request, level, level);
    lemma_set_word(s.active, level, level);
    lemma_clear_word(s3.active, level, level);
    assert(claim_actions(l) == p4);
    assert(service_actions(l) == p7);
    assert forall|o: int| 0 <= o < MAX_LEVELS && o != level implies {
        &&& s.run(p4).in_service(o) == s.in_service(o)
        &&& s.run(p7).in_service(o) == s.in_service(o)
        &&& s.run(p4).pending(o) == s.pending(o)
        &&& s.run(p7).pending(o) == s.pending(o)
    } by {
        lemma_clear_word(s.request, level, o as u32);
        lemma_clear_word(s1.request, level, o as u32);
        lemma_set_word(s.active, level, o as u32);
        lemma_clear_word(s3.active, level, o as u32);
    }
    assert forall|i: int| 0 <= i < service_actions(l).len() && i != 4 implies !(
    #[trigger] service_actions(l)[i] is PollExecutor) by {}
}

/// Two levels serviced back to back are each in service during their own
/// poll, and neither is left in service afterwards.
pub proof fn lemma_back_to_back_service(s: SoftIrqController, first: u32, second: u32)
    requires
        first < MAX_LEVELS,
        second < MAX_LEVELS,
    ensures
        s.run(claim_actions(first as int)).in_service(first as int),
        s.run(service_actions(first as int) + claim_actions(second as int)).in_service(
            second as int,
        ),
        !s.run(service_actions(first as int) + service_actions(second as int)).in_service(
            first as int,
        ),
        !s.run(service_actions(first as int) + service_actions(second as int)).in_service(
            second as int,
        ),
{
    let mid = s.run(service_actions(first as int));
    lemma_service_brackets_poll(s, first);
    lemma_service_brackets_poll(mid, second);
    lemma_run_append(s, service_actions(first as int), claim_actions(second as int));
    lemma_run_append(s, service_actions(first as int), service_actions(second as int));
    if first != second {
        assert(mid.run(service_actions(second as int)).in_service(first as int) == mid.in_service(
            first as int,
        ));
    }
}

/// A level serviced inside the preemption window of another level leaves
/// that other level in service, so the hardware keeps masking it until its
/// own poll has returned.
pub proof fn lemma_nested_service(s: SoftIrqController, outer: u32, inner: u32)
    requires
        outer < MAX_LEVELS,
        inner < MAX_LEVELS,
        inner != outer,
    ensures
        s.run(claim_actions(outer as int) + service_actions(inner as int)).in_service(
            outer as int,
        ),
{
    let c = s.run(claim_actions(outer as int));
    lemma_service_brackets_poll(s, outer);
    lemma_service_brackets_poll(c, inner);
    lemma_run_append(s, claim_actions(outer as int), service_actions(inner as int));
    assert(c.run(service_actions(inner as int)).in_service(outer as int) == c.in_service(
        outer as int,
    ));
}

} // verus!
