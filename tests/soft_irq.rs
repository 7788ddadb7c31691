use embassy_litex::soft_irq::{
    csr_write, pend_request, soft_interrupt_actions, SoftIrqAction, SoftIrqController,
    CSR_OPERATION_CLEAR, CSR_OPERATION_SET,
};

fn run(ctl: &mut SoftIrqController, acts: &[SoftIrqAction]) {
    for a in acts {
        ctl.perform(*a);
    }
}

fn poll_index(acts: &[SoftIrqAction]) -> usize {
    acts.iter().position(|a| matches!(a, SoftIrqAction::PollExecutor(_))).unwrap()
}

#[test]
fn csr_write_operations() {
    assert_eq!(csr_write(0b0101, CSR_OPERATION_SET | 0b0010), 0b0111);
    assert_eq!(csr_write(0b0111, CSR_OPERATION_CLEAR | 0b0010), 0b0101);
    assert_eq!(csr_write(0b0111, 0b1000), 0b1000);
}

#[test]
fn pender_sets_request_bit() {
    assert_eq!(pend_request(0), Some(0x8000_0001));
    assert_eq!(pend_request(3), Some(0x8000_0008));
    assert_eq!(pend_request(15), Some(0x8000_8000));
    assert_eq!(pend_request(16), None);
    assert_eq!(pend_request(usize::MAX), None);
}

#[test]
fn out_of_range_status_is_absorbed() {
    assert!(soft_interrupt_actions(16).is_empty());
    assert!(soft_interrupt_actions(31).is_empty());
    assert!(soft_interrupt_actions(u32::MAX).is_empty());
}

#[test]
fn claim_plan_for_level_five() {
    let acts = soft_interrupt_actions(5);
    assert_eq!(
        acts,
        vec![
            SoftIrqAction::WriteRequest(0x4000_0020),
            SoftIrqAction::WriteRequest(0x4000_0020),
            SoftIrqAction::WriteActive(0x8000_0020),
            SoftIrqAction::EnableInterrupts,
            SoftIrqAction::PollExecutor(5),
            SoftIrqAction::DisableInterrupts,
            SoftIrqAction::WriteActive(0x4000_0020),
        ]
    );
}

#[test]
fn active_bit_brackets_poll_for_every_level() {
    for level in 0..16u32 {
        let mut ctl = SoftIrqController::new();
        ctl.perform(SoftIrqAction::WriteRequest(pend_request(level as usize).unwrap()));
        assert!(ctl.is_pending(level));
        let acts = soft_interrupt_actions(level);
        let p = poll_index(&acts);
        assert_eq!(acts[p], SoftIrqAction::PollExecutor(level as usize));
        run(&mut ctl, &acts[..p]);
        assert!(ctl.is_active(level));
        assert!(!ctl.is_pending(level));
        run(&mut ctl, &acts[p..]);
        assert!(!ctl.is_active(level));
        assert_eq!(ctl.active, 0);
    }
}

#[test]
fn back_to_back_claims_of_different_levels() {
    let mut ctl = SoftIrqController::new();
    ctl.perform(SoftIrqAction::WriteRequest(pend_request(2).unwrap()));
    ctl.perform(SoftIrqAction::WriteRequest(pend_request(9).unwrap()));
    for level in [9u32, 2u32] {
        let acts = soft_interrupt_actions(level);
        let p = poll_index(&acts);
        run(&mut ctl, &acts[..p]);
        assert!(ctl.is_active(level));
        assert_eq!(ctl.active, 1 << level);
        run(&mut ctl, &acts[p..]);
        assert!(!ctl.is_active(level));
    }
    assert_eq!(ctl.request, 0);
    assert_eq!(ctl.active, 0);
}

#[test]
fn task_spawned_mid_poll_waits_for_its_own_claim() {
    let mut ctl = SoftIrqController::new();
    let outer = soft_interrupt_actions(10);
    let p = poll_index(&outer);
    run(&mut ctl, &outer[..p]);
    // A task for level 3 becomes ready while level 10 polls: its waker pends
    // level 3, and level 10's poll polls no other slot.
    ctl.perform(SoftIrqAction::WriteRequest(pend_request(3).unwrap()));
    assert!(ctl.is_pending(3));
    assert!(!ctl.is_active(3));
    assert!(outer
        .iter()
        .all(|a| !matches!(a, SoftIrqAction::PollExecutor(l) if *l != 10)));
    run(&mut ctl, &outer[p..]);
    assert!(ctl.is_pending(3));
    assert!(!ctl.is_active(3));
    // Only the claim of level 3 runs its slot.
    let inner = soft_interrupt_actions(3);
    let q = poll_index(&inner);
    run(&mut ctl, &inner[..q]);
    assert_eq!(inner[q], SoftIrqAction::PollExecutor(3));
    assert!(ctl.is_active(3));
    assert!(!ctl.is_pending(3));
}

#[test]
fn nested_service_keeps_outer_level_active() {
    let mut ctl = SoftIrqController::new();
    let outer = soft_interrupt_actions(4);
    let p = poll_index(&outer);
    run(&mut ctl, &outer[..p]);
    run(&mut ctl, &soft_interrupt_actions(12));
    assert!(ctl.is_active(4));
    assert!(!ctl.is_active(12));
    run(&mut ctl, &outer[p..]);
    assert_eq!(ctl.active, 0);
}
