use see_core::call::{
    call_outcome, CallOutcome, CallResult, EID_HSM, EID_SRST, HART_STOP, HART_SUSPEND,
    HART_SUSPEND_TYPE_NON_RETENTIVE, RESET_TYPE_COLD_REBOOT, RESET_TYPE_WARM_REBOOT, SYSTEM_RESET,
};
use see_core::context::{Context, Supervisor};
use see_core::emulate::RDTIME_PATTERN;
use see_core::forward::{previous_mode, ForwardError, PreviousMode};
use see_core::switch::{enter_supervisor, trap_to_machine, RegisterBank};
use see_core::trap::{Action, TrapCause, TrapEvent, INTERRUPT_BIT};

const BASE_EID: usize = 0x10;
const NOT_SUPPORTED: usize = (-2isize) as usize;
/// Status word with MPP = supervisor and SIE set.
const STATUS_FROM_S: usize = (1 << 11) | (1 << 1);

fn session() -> Context {
    let mut ctx = Context::new(Supervisor { start_addr: 0x8020_0000, opaque: 0x8220_0000 }, STATUS_FROM_S);
    for n in 1..=31 {
        ctx.set_x(n, 0x1000 + n);
    }
    ctx
}

fn event(mcause: usize, mtval: usize) -> TrapEvent {
    TrapEvent { mcause, mtval, time: 0x1234_5678, stvec: 0x8020_1001 }
}

fn regs(ctx: &Context) -> Vec<usize> {
    (1..=31).map(|n| ctx.x(n)).collect()
}

#[test]
fn new_context_seeds_entry_and_argument() {
    let ctx = Context::new(Supervisor { start_addr: 0x8020_0000, opaque: 0xdead }, 0xa00);
    assert_eq!(ctx.mepc, 0x8020_0000);
    assert_eq!(ctx.mstatus, 0xa00);
    assert_eq!(ctx.msp, 0);
    assert_eq!(ctx.a(0), 0);
    assert_eq!(ctx.a(1), 0xdead);
    assert_eq!(ctx.x(11), 0xdead);
    for n in (1..=31).filter(|&n| n != 11) {
        assert_eq!(ctx.x(n), 0);
    }
}

#[test]
fn scenario_successful_call_writes_result_and_advances() {
    let mut ctx = session();
    ctx.set_a(7, BASE_EID);
    ctx.set_a(6, 0);
    let before = ctx;
    match ctx.step(event(9, 0), None) {
        Action::Call { extension, function, args } => {
            assert_eq!(extension, BASE_EID);
            assert_eq!(function, 0);
            assert_eq!(args, [0x100a, 0x100b, 0x100c, 0x100d, 0x100e, 0x100f]);
        }
        other => panic!("unexpected {other:?}"),
    }
    assert_eq!(regs(&ctx), regs(&before));
    let action = ctx.step(event(9, 0), Some(CallResult { error: 0, value: 0x42 }));
    assert!(matches!(action, Action::Resume));
    assert_eq!(ctx.x(10), 0);
    assert_eq!(ctx.x(11), 0x42);
    assert_eq!(ctx.mepc, before.mepc + 4);
    for n in (1..=31).filter(|&n| n != 10 && n != 11) {
        assert_eq!(ctx.x(n), before.x(n));
    }
}

#[test]
fn scenario_rdtime_fills_destination() {
    let mut ctx = session();
    let before = ctx;
    let ins = RDTIME_PATTERN | (5 << 7);
    assert!(matches!(ctx.step(event(2, ins), None), Action::Resume));
    assert_eq!(ctx.x(5), 0x1234_5678);
    assert_eq!(ctx.mepc, before.mepc + 4);
    for n in (1..=31).filter(|&n| n != 5) {
        assert_eq!(ctx.x(n), before.x(n));
    }
}

#[test]
fn rdtime_into_zero_register_only_advances() {
    let mut ctx = session();
    let before = ctx;
    assert!(ctx.emulate_rdtime(RDTIME_PATTERN, 99));
    assert_eq!(regs(&ctx), regs(&before));
    assert_eq!(ctx.mepc, before.mepc + 4);
}

#[test]
fn rdtime_pattern_ignores_destination_field() {
    for rd in 0..32usize {
        let mut ctx = session();
        assert!(ctx.emulate_rdtime(RDTIME_PATTERN | (rd << 7), 7));
        let mut other = session();
        assert!(!other.emulate_rdtime(RDTIME_PATTERN | (rd << 7) | (1 << 12), 7));
    }
}

#[test]
fn scenario_hart_stop_ends_session() {
    let mut ctx = session();
    ctx.set_a(7, EID_HSM);
    ctx.set_a(6, HART_STOP);
    let before = ctx;
    let action = ctx.step(event(9, 0), Some(CallResult { error: 0, value: 5 }));
    assert!(matches!(action, Action::Stop));
    assert_eq!(regs(&ctx), regs(&before));
    assert_eq!(ctx.mepc, before.mepc);
}

#[test]
fn scenario_timer_interrupt_is_leveled() {
    let mut ctx = session();
    ctx.mstatus |= 1 << 5;
    let before = ctx;
    let action = ctx.step(event(INTERRUPT_BIT | 7, 0), None);
    assert!(matches!(action, Action::RaiseSupervisorTimer));
    assert_eq!(ctx.mepc, before.mepc);
    assert_eq!(ctx.mstatus, before.mstatus);
    assert_eq!(regs(&ctx), regs(&before));
}

#[test]
fn software_interrupt_is_leveled() {
    let mut ctx = session();
    let action = ctx.step(event(INTERRUPT_BIT | 3, 0), None);
    assert!(matches!(action, Action::RaiseSupervisorSoft));
}

#[test]
fn scenario_unknown_illegal_instruction_is_forwarded() {
    let mut ctx = session();
    ctx.mepc = 0x8020_0abc;
    let before = ctx;
    match ctx.step(event(2, 0xffff_ffff), None) {
        Action::Forward(t) => {
            assert_eq!(t.scause, 2);
            assert_eq!(t.stval, 0xffff_ffff);
            assert_eq!(t.sepc, 0x8020_0abc);
        }
        other => panic!("unexpected {other:?}"),
    }
    assert_eq!(ctx.mepc, 0x8020_1000);
    // MPP supervisor, SPP supervisor, SIE moved to SPIE.
    assert_eq!(ctx.mstatus, (1 << 11) | (1 << 8) | (1 << 5));
    assert_eq!(regs(&ctx), regs(&before));
}

#[test]
fn forwarding_from_user_clears_spp() {
    let mut ctx = session();
    ctx.mstatus = (1 << 8) | (1 << 5);
    let t = ctx.forward_trap(8, 0, 0x8000_0000).unwrap();
    assert_eq!(t.scause, 8);
    assert_eq!(ctx.mstatus, (1 << 11) | (1 << 5));
    assert_eq!(ctx.mepc, 0x8000_0000);
}

#[test]
fn forwarding_from_machine_aborts() {
    for mpp in [2usize, 3] {
        let mut ctx = session();
        ctx.mstatus = mpp << 11;
        let before = ctx;
        assert_eq!(ctx.forward_trap(2, 0, 0x8000_0000), Err(ForwardError::InvalidPreviousPrivilege(mpp)));
        assert_eq!(ctx.mstatus, before.mstatus);
        assert_eq!(ctx.mepc, before.mepc);
        let action = ctx.step(event(2, 0), None);
        assert!(matches!(action, Action::Abort(ForwardError::InvalidPreviousPrivilege(m)) if m == mpp));
    }
}

#[test]
fn previous_mode_mapping() {
    assert_eq!(previous_mode(0), Some(PreviousMode::User));
    assert_eq!(previous_mode(1), Some(PreviousMode::Supervisor));
    assert_eq!(previous_mode(2), None);
    assert_eq!(previous_mode(3), None);
}

#[test]
fn other_causes_halt() {
    let mut ctx = session();
    let action = ctx.step(event(13, 0), None);
    assert!(matches!(action, Action::Halt(TrapCause::Other(13))));
    let action = ctx.step(event(INTERRUPT_BIT | 11, 0), None);
    assert!(matches!(action, Action::Halt(TrapCause::Other(c)) if c == INTERRUPT_BIT | 11));
}

#[test]
fn cause_decoding() {
    assert_eq!(TrapCause::from_mcause(INTERRUPT_BIT | 7), TrapCause::MachineTimer);
    assert_eq!(TrapCause::from_mcause(INTERRUPT_BIT | 3), TrapCause::MachineSoft);
    assert_eq!(TrapCause::from_mcause(9), TrapCause::SupervisorEnvCall);
    assert_eq!(TrapCause::from_mcause(2), TrapCause::IllegalInstruction);
    assert_eq!(TrapCause::from_mcause(7), TrapCause::Other(7));
    assert_eq!(TrapCause::from_mcause(INTERRUPT_BIT | 9), TrapCause::Other(INTERRUPT_BIT | 9));
}

#[test]
fn only_four_calls_end_the_session() {
    let ok = CallResult { error: 0, value: 0 };
    let nret = HART_SUSPEND_TYPE_NON_RETENTIVE;
    assert_eq!(call_outcome(EID_HSM, HART_STOP, 123, ok), CallOutcome::Stop);
    assert_eq!(call_outcome(EID_HSM, HART_SUSPEND, nret, ok), CallOutcome::Stop);
    assert_eq!(call_outcome(EID_SRST, SYSTEM_RESET, RESET_TYPE_COLD_REBOOT, ok), CallOutcome::Stop);
    assert_eq!(call_outcome(EID_SRST, SYSTEM_RESET, RESET_TYPE_WARM_REBOOT, ok), CallOutcome::Stop);
    let cont = CallOutcome::Continue { error: 0, value: 0 };
    assert_eq!(call_outcome(EID_HSM, HART_SUSPEND, 0, ok), cont);
    assert_eq!(call_outcome(EID_HSM, 0, 0, ok), cont);
    assert_eq!(call_outcome(EID_SRST, SYSTEM_RESET, 0, ok), cont);
    assert_eq!(call_outcome(EID_SRST, SYSTEM_RESET, 3, ok), cont);
    assert_eq!(call_outcome(EID_SRST, 1, RESET_TYPE_COLD_REBOOT, ok), cont);
    assert_eq!(call_outcome(BASE_EID, HART_STOP, 0, ok), cont);
    assert_eq!(call_outcome(EID_HSM, HART_SUSPEND, nret | (1 << 32), ok), cont);
}

#[test]
fn failed_stop_call_continues_with_error() {
    let mut ctx = session();
    ctx.set_a(7, EID_HSM);
    ctx.set_a(6, HART_STOP);
    let pc = ctx.mepc;
    assert!(ctx.handle_ecall(CallResult { error: NOT_SUPPORTED, value: 0 }));
    assert_eq!(ctx.a(0), NOT_SUPPORTED);
    assert_eq!(ctx.a(1), 0);
    assert_eq!(ctx.mepc, pc + 4);
}

#[test]
fn program_counter_wraps_on_advance() {
    let mut ctx = session();
    ctx.mepc = usize::MAX - 1;
    assert!(ctx.handle_ecall(CallResult { error: 0, value: 1 }));
    assert_eq!(ctx.mepc, 2);
}

#[test]
fn switch_round_trip_keeps_registers() {
    let mut ctx = session();
    ctx.mstatus = 0x8000_0000_0000_0a00;
    ctx.mepc = 0x8020_0004;
    let original = ctx;
    let mut machine = [0usize; 32];
    for (n, slot) in machine.iter_mut().enumerate() {
        *slot = 0xa000 + n;
    }
    let mut bank = RegisterBank { x: machine, mscratch: 0, mstatus: 0x1880, mepc: 0 };
    let frame = enter_supervisor(&mut bank, &mut ctx, 0x9000);
    assert_eq!(bank.mscratch, 0x9000);
    assert_eq!(bank.mstatus, original.mstatus);
    assert_eq!(bank.mepc, original.mepc);
    for n in 1..32 {
        assert_eq!(bank.x[n], original.x(n));
    }
    assert_eq!(ctx.msp, 0xa002 - 256);
    trap_to_machine(&mut bank, &mut ctx, &frame);
    assert_eq!(regs(&ctx), regs(&original));
    assert_eq!(ctx.mstatus, original.mstatus);
    assert_eq!(ctx.mepc, original.mepc);
    assert_eq!(bank.x, machine);
}

#[test]
fn capture_records_supervisor_changes() {
    let mut ctx = session();
    let mut bank = RegisterBank { x: [7usize; 32], mscratch: 0, mstatus: 0, mepc: 0 };
    let frame = enter_supervisor(&mut bank, &mut ctx, 0x9000);
    bank.x[5] = 0x55;
    bank.x[2] = 0x7700;
    bank.mepc = 0x8020_0010;
    bank.mstatus = 0x100;
    trap_to_machine(&mut bank, &mut ctx, &frame);
    assert_eq!(ctx.x(5), 0x55);
    assert_eq!(ctx.x(2), 0x7700);
    assert_eq!(ctx.mepc, 0x8020_0010);
    assert_eq!(ctx.mstatus, 0x100);
    assert_eq!(bank.x, [7usize; 32]);
    assert_eq!(bank.mscratch, 0x7700);
}
