use k3_drivers::script::Op;
use k3_drivers::ufs::desc::{
    UPIU_QUERY_OPCODE_READ_FLAG, UPIU_TRANSACTION_NOP_IN, UPIU_TRANSACTION_QUERY_RSP,
};
use k3_drivers::ufs::error::{Failure, InitFailure, UfsError};
use k3_drivers::ufs::host::{K3UfsHost, UpiuSlotKind};
use k3_drivers::ufs::link::{
    apply_dev_quirks, dump_regs, host_init, link_startup, link_startup_post, link_startup_pre,
    mphy_init, must_set, program_transfer_lists, recover_controller, try_set, unipro_init, wait,
    LinkNext, LinkOp, LinkRun,
};
use k3_drivers::ufs::power::{
    candidate_mode, choose_mode, DeviceCaps, HsStep, HsUpgrade, SideGear,
};
use k3_drivers::ufs::regs::{PA_PWR_FAST_MODE, PA_PWR_SLOW_MODE};
use k3_drivers::ufs::transfer::{
    nop_message, query_flag, query_result, Attempt, DevInit, Exchange, ExchangeStep, NopOut,
    SubmitStep,
};
use k3_drivers::ufs::uic::{dme_get, dme_peer_get, dme_set, UicNext, UicStep};

#[test]
fn exchange_rings_the_doorbell_and_collects() {
    let mut exchange = Exchange::new(3);
    exchange.resume(0);
    assert_eq!(exchange.step, ExchangeStep::Ring);
    assert!(matches!(exchange.script().ops[0], Op::Write { value: 8, .. }));
    exchange.resume(8);
    assert_eq!(exchange.step, ExchangeStep::Doorbell { look: 0 });
    exchange.resume(8);
    assert_eq!(exchange.step, ExchangeStep::Status { look: 0, ended: false });
    exchange.resume(0);
    assert_eq!(exchange.step, ExchangeStep::Pause { look: 0 });
    exchange.resume(0);
    exchange.resume(0);
    assert_eq!(exchange.step, ExchangeStep::Collect);
    exchange.resume(0);
    exchange.resume(0);
    assert_eq!(exchange.step, ExchangeStep::Over { result: Ok(()) });
}

#[test]
fn exchange_reports_a_bad_status() {
    let mut exchange = Exchange { slot: 0, step: ExchangeStep::Collect };
    exchange.resume(0x3);
    assert_eq!(exchange.step, ExchangeStep::Dump { error: UfsError::OcsError });
    assert_eq!(exchange.script().ops.len(), 10);
    exchange.resume(0);
    exchange.resume(0);
    assert_eq!(exchange.step, ExchangeStep::Over { result: Err(UfsError::OcsError) });
}

#[test]
fn exchange_gives_up() {
    let mut exchange = Exchange { slot: 0, step: ExchangeStep::Pause { look: 9999 } };
    exchange.resume(0);
    exchange.resume(0);
    assert_eq!(exchange.step, ExchangeStep::Over { result: Err(UfsError::Timeout) });
    let mut fatal = Exchange { slot: 0, step: ExchangeStep::Status { look: 0, ended: true } };
    fatal.resume(u32::MAX);
    assert_eq!(fatal.step, ExchangeStep::Dump { error: UfsError::ControllerFatal });
}

fn host() -> K3UfsHost {
    let mut host = K3UfsHost::new();
    host.setup_transfer_lists(31);
    host
}

#[test]
fn submission_tries_again_after_a_recovery() {
    let mut host = host();
    let mut submission = host.submit_upiu(UpiuSlotKind::ScsiIo);
    assert_eq!(submission.step, SubmitStep::First { slot: 0 });
    submission.resume(&mut host, Err(UfsError::Timeout));
    assert_eq!(submission.step, SubmitStep::Recover);
    submission.resume(&mut host, Ok(0));
    assert_eq!(submission.step, SubmitStep::Verify { slot: 31 });
    submission.resume(&mut host, Ok(UPIU_TRANSACTION_NOP_IN));
    assert_eq!(submission.step, SubmitStep::Second { slot: 1 });
    submission.resume(&mut host, Ok(0x21));
    assert_eq!(submission.step, SubmitStep::Over { result: Ok(()) });
    assert!(!host.fatal);
}

#[test]
fn nothing_is_sent_after_a_failed_recovery() {
    let mut host = host();
    let mut submission = host.submit_upiu(UpiuSlotKind::DevCmd);
    assert_eq!(submission.step, SubmitStep::First { slot: 31 });
    submission.resume(&mut host, Err(UfsError::OcsError));
    submission.resume(&mut host, Err(UfsError::Init(InitFailure::PllLock)));
    assert_eq!(
        submission.step,
        SubmitStep::Over { result: Err(UfsError::Other(Failure::RecoveryFailed)) }
    );
    assert!(host.fatal);
    let refused = host.submit_upiu(UpiuSlotKind::ScsiIo);
    assert_eq!(refused.step, SubmitStep::Over { result: Err(UfsError::ControllerFatal) });
}

#[test]
fn other_errors_do_not_recover() {
    let mut host = host();
    let mut submission = host.submit_upiu(UpiuSlotKind::ScsiIo);
    let error = UfsError::Other(Failure::Allocation);
    submission.resume(&mut host, Err(error));
    assert_eq!(submission.step, SubmitStep::Over { result: Err(error) });
}

#[test]
fn presence_is_asked_for_ten_times() {
    let mut nop = NopOut::new();
    assert_eq!(nop_message()[0], 0);
    for _ in 0..9 {
        assert_eq!(nop.resume(Err(UfsError::Timeout)), Attempt::Again);
    }
    assert_eq!(
        nop.resume(Ok(0x21)),
        Attempt::Done(Err(UfsError::Other(Failure::NopFailed)))
    );
    let mut nop = NopOut::new();
    assert_eq!(nop.resume(Ok(UPIU_TRANSACTION_NOP_IN)), Attempt::Done(Ok(())));
}

#[test]
fn flags_are_queried() {
    let message = query_flag(UPIU_QUERY_OPCODE_READ_FLAG, 1);
    assert_eq!(message[0], 0x16);
    assert_eq!(message[5], 0x01);
    assert_eq!(message[12], 5);
    let mut response = [0u8; 512];
    assert_eq!(query_result(&response), Err(UfsError::Other(Failure::QueryInvalid)));
    response[0] = UPIU_TRANSACTION_QUERY_RSP;
    response[23] = 1;
    assert_eq!(query_result(&response), Ok(true));
}

#[test]
fn device_init_is_raised_then_awaited() {
    let mut init = DevInit::new();
    assert_eq!(init.message()[12], 6);
    assert_eq!(init.resume(Ok(true)), Attempt::Again);
    assert_eq!(init.message()[12], 5);
    assert_eq!(init.resume(Ok(true)), Attempt::Wait { ms: 10 });
    assert_eq!(init.resume(Ok(false)), Attempt::Done(Ok(())));
}

#[test]
fn device_init_is_given_up_after_the_last_wait() {
    let mut init = DevInit::new();
    assert_eq!(init.resume(Ok(true)), Attempt::Again);
    for _ in 0..999 {
        assert_eq!(init.resume(Ok(true)), Attempt::Wait { ms: 10 });
    }
    assert_eq!(
        init.resume(Ok(true)),
        Attempt::GiveUp { ms: 10, error: UfsError::Other(Failure::InitTimeout) }
    );
}

#[test]
fn link_commands() {
    let set = dme_set(0x1552_0000, 3);
    assert_eq!((set.arg1, set.arg3), (0x1552_0000, 3));
    assert_ne!(dme_get(1).cmd, dme_peer_get(1).cmd);
    assert_eq!(UicStep::Send.resume(Some(0)), UicNext::Step(UicStep::Check));
    assert_eq!(UicStep::Check.resume(Some(0)), UicNext::Step(UicStep::Fetch));
    assert_eq!(UicStep::Check.resume(Some(2)), UicNext::Step(UicStep::Report));
    assert_eq!(UicStep::Fetch.resume(Some(9)), UicNext::Done(Ok(9)));
    assert_eq!(
        UicStep::Send.resume(None),
        UicNext::Done(Err(UfsError::Init(InitFailure::CommandTimeout)))
    );
}

#[test]
fn plans_are_carried_out_step_by_step() {
    let mut run = LinkRun::new(vec![wait(5), must_set(0x1552, 1)]);
    assert_eq!(run.script().ops, vec![Op::Delay { us: 5 }]);
    assert_eq!(run.resume(Some(0)), LinkNext::Continue);
    assert_eq!(run.resume(Some(0)), LinkNext::Continue);
    assert_eq!(run.resume(Some(0)), LinkNext::Continue);
    assert_eq!(run.resume(Some(7)), LinkNext::Done(Ok(7)));
    assert!(!run.is_running());
}

#[test]
fn tolerated_commands_do_not_end_a_plan() {
    let mut strict = LinkRun::new(vec![must_set(0x1552, 1)]);
    assert_eq!(
        strict.resume(None),
        LinkNext::Done(Err(UfsError::Init(InitFailure::CommandTimeout)))
    );
    let mut lenient = LinkRun::new(vec![try_set(0x1552, 1)]);
    assert_eq!(lenient.resume(None), LinkNext::Done(Ok(0)));
}

#[test]
fn plans_of_the_bring_up() {
    for plan in [
        mphy_init(),
        host_init(),
        link_startup_pre(491_520_000),
        unipro_init(),
        link_startup(),
        link_startup_post(),
        apply_dev_quirks(),
    ] {
        assert!(!plan.is_empty());
    }
    assert!(!dump_regs().ops.is_empty());
    let lists = program_transfer_lists(0x1_0000_2000, 0x3000);
    let recovery = recover_controller(0x1_0000_2000, 0x3000);
    assert_eq!(&recovery[recovery.len() - lists.len()..], &lists[..]);
    assert!(lists.iter().any(
        |op| matches!(op, LinkOp::Access { op: Op::Write { value: 0x2000, .. } })
    ));
}

#[test]
fn modes_are_chosen_within_the_capabilities() {
    let fast = |gear| SideGear { gear, pwr: PA_PWR_FAST_MODE };
    assert_eq!(choose_mode(DeviceCaps { lanes: 2, rx: fast(4), tx: fast(3) }), Some((3, 2)));
    assert_eq!(choose_mode(DeviceCaps { lanes: 4, rx: fast(1), tx: fast(3) }), Some((1, 2)));
    let slow = SideGear { gear: 4, pwr: PA_PWR_SLOW_MODE };
    assert_eq!(choose_mode(DeviceCaps { lanes: 2, rx: fast(3), tx: slow }), None);
    assert!(candidate_mode(3, 0).is_some());
    assert_eq!(candidate_mode(3, 3), None);
}

#[test]
fn upgrade_reads_both_sides_and_changes_the_mode() {
    let mut upgrade = HsUpgrade::new(2);
    assert_eq!(upgrade.plan().len(), 1);
    for value in [2u32, 2, 3, 3] {
        upgrade.resume(Ok(value));
    }
    assert!(matches!(upgrade.step, HsStep::Change { gear: 3, lanes: 2, attempt: 0, .. }));
    assert!(upgrade.plan().len() > 1);
    upgrade.resume(Ok(0));
    assert!(matches!(upgrade.step, HsStep::Upgraded { gear: 3, lanes: 2, .. }));
    assert!(upgrade.plan().is_empty());
}

#[test]
fn upgrade_falls_back_after_failed_changes() {
    let mut upgrade = HsUpgrade::new(2);
    let error = Err(UfsError::Init(InitFailure::CommandFailed));
    upgrade.resume(error);
    upgrade.resume(Ok(0));
    assert_eq!(upgrade.step, HsStep::TxConnected { lane_rx: 2 });
    for value in [1u32, 3, 3] {
        upgrade.resume(Ok(value));
    }
    let mut changes = 0;
    while let HsStep::Change { lanes, .. } = upgrade.step {
        assert_eq!(lanes, 1);
        changes += 1;
        upgrade.resume(error);
        upgrade.resume(Ok(0));
        upgrade.resume(Ok(0));
    }
    assert_eq!(upgrade.step, HsStep::Stayed);
    assert!(changes >= 2);
}
