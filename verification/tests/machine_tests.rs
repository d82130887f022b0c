use marty_core::machine::{
    code_address, device_cycles, judge_step, next_move, same_place, step_over_timed_out,
    CpuAddress, ExecutionControl, ExecutionOperation, ExecutionState, RunMove, RunPlan,
    StepOverState, StepReport, StepResult, StepVerdict, STEP_OVER_TIMEOUT,
};

fn control(state: ExecutionState, op: ExecutionOperation) -> ExecutionControl {
    let mut ctl = ExecutionControl::new();
    ctl.set_state(state);
    ctl.set_op(op);
    ctl.set_state(state);
    ctl
}

fn execute(cycle_target: u32, skip_breakpoint: bool, step_over: bool, clear_breakpoint: bool) -> RunPlan {
    RunPlan::Execute { cycle_target, skip_breakpoint, step_over, clear_breakpoint }
}

#[test]
fn control_starts_paused_and_idle() {
    let mut ctl = ExecutionControl::new();
    assert_eq!(ctl.get_state(), ExecutionState::Paused);
    assert_eq!(ctl.peek_op(), ExecutionOperation::NoOperation);
    assert_eq!(ctl.get_op(), ExecutionOperation::NoOperation);
}

#[test]
fn pause_is_accepted_only_while_running() {
    let mut ctl = ExecutionControl::new();
    ctl.set_op(ExecutionOperation::Pause);
    assert_eq!(ctl.peek_op(), ExecutionOperation::NoOperation);
    assert_eq!(ctl.get_state(), ExecutionState::Paused);
    ctl.set_state(ExecutionState::Running);
    ctl.set_op(ExecutionOperation::Pause);
    assert_eq!(ctl.get_state(), ExecutionState::Paused);
    assert_eq!(ctl.peek_op(), ExecutionOperation::Pause);
}

#[test]
fn step_and_run_are_accepted_only_while_stopped() {
    for op in [ExecutionOperation::Step, ExecutionOperation::StepOver, ExecutionOperation::Run] {
        for state in [ExecutionState::Paused, ExecutionState::BreakpointHit] {
            let mut ctl = ExecutionControl::new();
            ctl.set_state(state);
            ctl.set_op(op);
            assert_eq!(ctl.peek_op(), op);
            assert_eq!(ctl.get_state(), state);
        }
        for state in [ExecutionState::Running, ExecutionState::Halted] {
            let mut ctl = ExecutionControl::new();
            ctl.set_state(state);
            ctl.set_op(op);
            assert_eq!(ctl.peek_op(), ExecutionOperation::NoOperation);
            assert_eq!(ctl.get_state(), state);
        }
    }
}

#[test]
fn reset_is_accepted_in_every_state() {
    for state in [
        ExecutionState::Paused,
        ExecutionState::BreakpointHit,
        ExecutionState::Running,
        ExecutionState::Halted,
    ] {
        let mut ctl = ExecutionControl::new();
        ctl.set_state(state);
        ctl.set_op(ExecutionOperation::Reset);
        assert_eq!(ctl.peek_op(), ExecutionOperation::Reset);
    }
}

#[test]
fn get_op_takes_the_operation() {
    let mut ctl = ExecutionControl::new();
    ctl.set_op(ExecutionOperation::Step);
    assert_eq!(ctl.peek_op(), ExecutionOperation::Step);
    assert_eq!(ctl.peek_op(), ExecutionOperation::Step);
    assert_eq!(ctl.get_op(), ExecutionOperation::Step);
    assert_eq!(ctl.get_op(), ExecutionOperation::NoOperation);
}

#[test]
fn a_rejected_operation_leaves_the_waiting_one() {
    let mut ctl = ExecutionControl::new();
    ctl.set_op(ExecutionOperation::Run);
    ctl.set_op(ExecutionOperation::Pause);
    assert_eq!(ctl.peek_op(), ExecutionOperation::Run);
    ctl.set_op(ExecutionOperation::NoOperation);
    assert_eq!(ctl.peek_op(), ExecutionOperation::Run);
}

#[test]
fn plan_for_reset() {
    let mut ctl = control(ExecutionState::Running, ExecutionOperation::Reset);
    assert_eq!(ctl.plan_run(1000), RunPlan::Reset);
    assert_eq!(ctl.get_state(), ExecutionState::Paused);
    assert_eq!(ctl.peek_op(), ExecutionOperation::NoOperation);
}

#[test]
fn plan_while_paused() {
    let mut ctl = control(ExecutionState::Paused, ExecutionOperation::Step);
    assert_eq!(ctl.plan_run(1000), execute(1, true, false, false));
    assert_eq!(ctl.get_state(), ExecutionState::Paused);
    let mut ctl = control(ExecutionState::Paused, ExecutionOperation::StepOver);
    assert_eq!(ctl.plan_run(1000), execute(1, true, true, false));
    assert_eq!(ctl.get_state(), ExecutionState::Paused);
    let mut ctl = control(ExecutionState::Paused, ExecutionOperation::Run);
    assert_eq!(ctl.plan_run(1000), execute(1000, false, false, false));
    assert_eq!(ctl.get_state(), ExecutionState::Running);
    let mut ctl = ExecutionControl::new();
    assert_eq!(ctl.plan_run(1000), RunPlan::Idle);
    assert_eq!(ctl.get_state(), ExecutionState::Paused);
}

#[test]
fn plan_while_running() {
    let mut ctl = ExecutionControl::new();
    ctl.set_state(ExecutionState::Running);
    assert_eq!(ctl.plan_run(777), execute(777, false, false, false));
    assert_eq!(ctl.get_state(), ExecutionState::Running);
}

#[test]
fn plan_at_a_breakpoint() {
    let mut ctl = control(ExecutionState::BreakpointHit, ExecutionOperation::Step);
    assert_eq!(ctl.plan_run(1000), execute(1, true, false, true));
    assert_eq!(ctl.get_state(), ExecutionState::Paused);
    let mut ctl = control(ExecutionState::BreakpointHit, ExecutionOperation::StepOver);
    assert_eq!(ctl.plan_run(1000), execute(1, true, true, true));
    assert_eq!(ctl.get_state(), ExecutionState::Paused);
    let mut ctl = control(ExecutionState::BreakpointHit, ExecutionOperation::Run);
    assert_eq!(ctl.plan_run(1000), execute(1000, true, false, true));
    assert_eq!(ctl.get_state(), ExecutionState::Running);
    let mut ctl = ExecutionControl::new();
    ctl.set_state(ExecutionState::BreakpointHit);
    assert_eq!(ctl.plan_run(1000), RunPlan::Idle);
    assert_eq!(ctl.get_state(), ExecutionState::BreakpointHit);
}

#[test]
fn plan_while_halted() {
    let mut ctl = ExecutionControl::new();
    ctl.set_op(ExecutionOperation::Run);
    ctl.set_state(ExecutionState::Halted);
    assert_eq!(ctl.plan_run(1000), execute(1000, false, false, false));
    assert_eq!(ctl.get_state(), ExecutionState::Running);
    let mut ctl = ExecutionControl::new();
    ctl.set_op(ExecutionOperation::Step);
    ctl.set_state(ExecutionState::Halted);
    assert_eq!(ctl.plan_run(1000), RunPlan::Idle);
    assert_eq!(ctl.get_state(), ExecutionState::Halted);
    assert_eq!(ctl.peek_op(), ExecutionOperation::NoOperation);
}

#[test]
fn instructions_without_cycles_are_charged_seven() {
    assert_eq!(device_cycles(0), 7);
    assert_eq!(device_cycles(1), 1);
    assert_eq!(device_cycles(200), 200);
}

#[test]
fn step_over_times_out_past_the_limit() {
    assert!(!step_over_timed_out(0));
    assert!(!step_over_timed_out(STEP_OVER_TIMEOUT));
    assert!(step_over_timed_out(STEP_OVER_TIMEOUT + 1));
}

#[test]
fn an_executed_step_takes_its_cycles() {
    let verdict = judge_step(
        StepReport::Done { result: StepResult::Normal, cycles: 12 },
        ExecutionState::Running,
    );
    assert_eq!(
        verdict,
        StepVerdict {
            at_breakpoint: false,
            cycles: 12,
            device_cycles: 12,
            step_over_target: None,
            error: false,
            state: ExecutionState::Running,
        }
    );
    let verdict =
        judge_step(StepReport::Done { result: StepResult::Normal, cycles: 0 }, ExecutionState::Paused);
    assert_eq!((verdict.cycles, verdict.device_cycles, verdict.error), (0, 7, false));
    assert_eq!(verdict.state, ExecutionState::Paused);
}

#[test]
fn a_call_names_the_address_to_step_over_to() {
    let target = CpuAddress::Segmented(0xF000, 0x1234);
    let verdict = judge_step(
        StepReport::Done { result: StepResult::Call(target), cycles: 23 },
        ExecutionState::Paused,
    );
    assert_eq!(verdict.step_over_target, Some(target));
    assert_eq!((verdict.cycles, verdict.device_cycles), (23, 23));
    assert!(!verdict.at_breakpoint && !verdict.error);
    assert_eq!(verdict.state, ExecutionState::Paused);
}

#[test]
fn a_breakpoint_ends_the_run() {
    let verdict = judge_step(
        StepReport::Done { result: StepResult::BreakpointHit, cycles: 9 },
        ExecutionState::Running,
    );
    assert_eq!(
        verdict,
        StepVerdict {
            at_breakpoint: true,
            cycles: 0,
            device_cycles: 0,
            step_over_target: None,
            error: false,
            state: ExecutionState::BreakpointHit,
        }
    );
}

#[test]
fn a_halted_cpu_halts_the_machine() {
    let verdict = judge_step(StepReport::Halted, ExecutionState::Running);
    assert_eq!(
        verdict,
        StepVerdict {
            at_breakpoint: false,
            cycles: 0,
            device_cycles: 7,
            step_over_target: None,
            error: true,
            state: ExecutionState::Halted,
        }
    );
    let verdict = judge_step(StepReport::Failed, ExecutionState::Running);
    assert_eq!((verdict.error, verdict.state), (true, ExecutionState::Running));
    assert_eq!((verdict.cycles, verdict.device_cycles), (0, 7));
}

#[test]
fn a_run_steps_while_cycles_are_left_and_the_core_is_sound() {
    assert_eq!(next_move(100, 0, false, None), RunMove::Step);
    assert_eq!(next_move(100, 99, false, None), RunMove::Step);
    assert_eq!(next_move(100, 100, false, None), RunMove::Finish);
    assert_eq!(next_move(100, 101, false, None), RunMove::Finish);
    assert_eq!(next_move(0, 0, false, None), RunMove::Finish);
    assert_eq!(next_move(100, 0, true, None), RunMove::Finish);
}

#[test]
fn a_run_goes_on_with_a_routine_until_it_returns_or_takes_too_long() {
    let target = CpuAddress::Segmented(0x1000, 0x0103);
    let inside = StepOverState { at: CpuAddress::Segmented(0x2000, 0), target, cycles: 0 };
    assert_eq!(next_move(100, 0, false, Some(inside)), RunMove::StepOver);
    assert_eq!(next_move(100, 500, false, Some(inside)), RunMove::StepOver);
    assert_eq!(next_move(100, 0, true, Some(inside)), RunMove::StepOver);
    let at_limit = StepOverState { cycles: STEP_OVER_TIMEOUT, ..inside };
    assert_eq!(next_move(100, 500, false, Some(at_limit)), RunMove::StepOver);
    let late = StepOverState { cycles: STEP_OVER_TIMEOUT + 1, ..inside };
    assert_eq!(next_move(100, 500, false, Some(late)), RunMove::Finish);
    assert_eq!(next_move(1000, 500, false, Some(late)), RunMove::Step);
    let back = StepOverState { at: target, target, cycles: 10 };
    assert_eq!(next_move(100, 50, false, Some(back)), RunMove::Step);
    assert_eq!(next_move(100, 100, false, Some(back)), RunMove::Finish);
}

#[test]
fn places_in_the_code_are_compared_as_they_are_written() {
    assert!(same_place(CpuAddress::Flat(0x10100), CpuAddress::Flat(0x10100)));
    assert!(!same_place(CpuAddress::Flat(0x10100), CpuAddress::Flat(0x10101)));
    assert!(same_place(CpuAddress::Segmented(0x1000, 0x100), CpuAddress::Segmented(0x1000, 0x100)));
    assert!(!same_place(CpuAddress::Segmented(0x1000, 0x100), CpuAddress::Segmented(0x1010, 0)));
    assert!(!same_place(CpuAddress::Segmented(0x1000, 0x100), CpuAddress::Flat(0x10100)));
}

#[test]
fn a_place_in_the_code_has_its_place_in_memory() {
    assert_eq!(code_address(CpuAddress::Flat(0x12345)), 0x12345);
    assert_eq!(code_address(CpuAddress::Segmented(0x1000, 0x0100)), 0x10100);
    assert_eq!(code_address(CpuAddress::Segmented(0xFFFF, 0x0010)), 0);
    assert_eq!(code_address(CpuAddress::Segmented(0xF000, 0xFFFF)), 0xFFFFF);
}
