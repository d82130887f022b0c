//! The control of execution: running, pausing and stepping the machine.
//!
//! A front end asks for an operation; the machine takes it up when it next
//! runs. What a run does is decided from the state and the operation alone,
//! before any instruction executes.
use vstd::prelude::*;
use std::collections::VecDeque;
use ringbuf::Producer;
use crate::bus::BusInterface;
use crate::cpu::{flat, flat_address, Cpu};
use crate::device::{
    DeviceSet, DmaDevice, FloppyDevice, HardDiskDevice, InterruptController, KeybufferEntry,
    KeyboardDevice, KeyboardModifiers, MouseDevice, PpiDevice, SerialDevice, TimerDevice,
    VideoCard, VideoCardDispatch,
};
use crate::event::{slice_representable, DeviceEvent, DeviceRunContext};
use crate::scheduler::schedulable_event;
use crate::timing::{table_sys_ticks, table_us, Microseconds};

verus! {

/// An operation that steps over a call gives up after this many cycles.
pub const STEP_OVER_TIMEOUT: u32 = 320000;

/// The number of floppy drives of a machine.
pub const NUM_FLOPPIES: u32 = 2;

/// The number of hard disks of a machine.
pub const NUM_HDDS: u32 = 2;

/// The highest address of memory.
pub const MAX_MEMORY_ADDRESS: usize = 0xFFFFF;

/// The cycles charged to the devices for an instruction that reports none.
pub const FAKE_CYCLES: u32 = 7;

/// The segment that the CPU starts to execute in after a reset.
pub const RESET_SEGMENT: u16 = 0xFFFF;

/// The offset that the CPU starts to execute at after a reset.
pub const RESET_OFFSET: u16 = 0x0000;

/// Whether the machine executes.
#[derive(Copy, Clone, Debug, PartialEq, Eq, Structural)]
pub enum ExecutionState {
    Paused,
    BreakpointHit,
    Running,
    Halted,
}

/// What a front end asks the machine to do.
#[derive(Copy, Clone, Debug, PartialEq, Eq, Structural)]
pub enum ExecutionOperation {
    NoOperation,
    Pause,
    Step,
    StepOver,
    Run,
    Reset,
}

/// The state of execution and the operation that waits to be taken up.
pub struct ExecutionControl {
    pub state: ExecutionState,
    op: ExecutionOperation,
}

/// The machine is stopped where it can be stepped or set running: it is
/// paused or at a breakpoint.
pub open spec fn stopped(state: ExecutionState) -> bool {
    state is Paused || state is BreakpointHit
}

/// An operation is accepted in a state: pausing while running; stepping,
/// stepping over and running while stopped; a reset always; nothing never.
pub open spec fn accepts(state: ExecutionState, op: ExecutionOperation) -> bool {
    match op {
        ExecutionOperation::Pause => state is Running,
        ExecutionOperation::Step => stopped(state),
        ExecutionOperation::StepOver => stopped(state),
        ExecutionOperation::Run => stopped(state),
        ExecutionOperation::Reset => true,
        ExecutionOperation::NoOperation => false,
    }
}

/// What a run of the machine is to do.
#[derive(Copy, Clone, Debug, PartialEq, Eq, Structural)]
pub enum RunPlan {
    /// Reset the machine and execute nothing.
    Reset,
    /// Execute nothing.
    Idle,
    /// Execute until `cycle_target` cycles have passed.
    Execute {
        cycle_target: u32,
        /// Pass the breakpoint at the current instruction.
        skip_breakpoint: bool,
        /// Run through a call or interrupt to the instruction behind it.
        step_over: bool,
        /// Take back the CPU's note that it stopped at a breakpoint.
        clear_breakpoint: bool,
    },
}

/// The plan of a run in a state for the operation that waits, given the
/// cycles that a full run executes. Stepping executes one cycle's worth, that
/// is one instruction.
pub open spec fn plan_of(state: ExecutionState, op: ExecutionOperation, cycle_target: u32) -> RunPlan {
    if op is Reset {
        RunPlan::Reset
    } else {
        match state {
            ExecutionState::Paused => match op {
                ExecutionOperation::Step => RunPlan::Execute {
                    cycle_target: 1,
                    skip_breakpoint: true,
                    step_over: false,
                    clear_breakpoint: false,
                },
                ExecutionOperation::StepOver => RunPlan::Execute {
                    cycle_target: 1,
                    skip_breakpoint: true,
                    step_over: true,
                    clear_breakpoint: false,
                },
                ExecutionOperation::Run => RunPlan::Execute {
                    cycle_target,
                    skip_breakpoint: false,
                    step_over: false,
                    clear_breakpoint: false,
                },
                _ => RunPlan::Idle,
            },
            ExecutionState::Running => RunPlan::Execute {
                cycle_target,
                skip_breakpoint: false,
                step_over: false,
                clear_breakpoint: false,
            },
            ExecutionState::BreakpointHit => match op {
                ExecutionOperation::Step => RunPlan::Execute {
                    cycle_target: 1,
                    skip_breakpoint: true,
                    step_over: false,
                    clear_breakpoint: true,
                },
                ExecutionOperation::StepOver => RunPlan::Execute {
                    cycle_target: 1,
                    skip_breakpoint: true,
                    step_over: true,
                    clear_breakpoint: true,
                },
                ExecutionOperation::Run => RunPlan::Execute {
                    cycle_target,
                    skip_breakpoint: true,
                    step_over: false,
                    clear_breakpoint: true,
                },
                _ => RunPlan::Idle,
            },
            ExecutionState::Halted => match op {
                ExecutionOperation::Run => RunPlan::Execute {
                    cycle_target,
                    skip_breakpoint: false,
                    step_over: false,
                    clear_breakpoint: false,
                },
                _ => RunPlan::Idle,
            },
        }
    }
}

/// The state in which a run leaves the machine before it executes: paused
/// after a reset and when a breakpoint is stepped away from, running when it
/// is set running, unchanged otherwise.
pub open spec fn state_after_plan(state: ExecutionState, op: ExecutionOperation) -> ExecutionState {
    if op is Reset {
        ExecutionState::Paused
    } else if op is Run && !(state is Running) {
        ExecutionState::Running
    } else if state is BreakpointHit && (op is Step || op is StepOver) {
        ExecutionState::Paused
    } else {
        state
    }
}

impl ExecutionControl {
    /// The state of execution.
    pub closed spec fn current(self) -> ExecutionState {
        self.state
    }

    /// The operation that waits to be taken up.
    pub closed spec fn pending(self) -> ExecutionOperation {
        self.op
    }

    /// A paused machine with nothing asked of it.
    pub fn new() -> (ctl: ExecutionControl)
        ensures
            ctl.current() == ExecutionState::Paused,
            ctl.pending() == ExecutionOperation::NoOperation,
    {
        ExecutionControl { state: ExecutionState::Paused, op: ExecutionOperation::NoOperation }
    }

    /// Sets the state of execution.
    pub fn set_state(&mut self, state: ExecutionState)
        ensures
            final(self).current() == state,
            final(self).pending() == old(self).pending(),
    {
        self.state = state
    }

    /// The state of execution.
    pub fn get_state(&self) -> (state: ExecutionState)
        ensures
            state == self.current(),
    {
        self.state
    }

    /// Asks for an operation. An operation that the state accepts waits to be
    /// taken up, in place of any that waited before; one that the state does
    /// not accept is dropped. Pausing a running machine takes effect at once.
    pub fn set_op(&mut self, op: ExecutionOperation)
        ensures
            final(self).pending() == (if accepts(old(self).current(), op) {
                op
            } else {
                old(self).pending()
            }),
            final(self).current() == (if op is Pause && old(self).current() is Running {
                ExecutionState::Paused
            } else {
                old(self).current()
            }),
    {
        match op {
            ExecutionOperation::Pause => {
                if let ExecutionState::Running = self.state {
                    self.state = ExecutionState::Paused;
                    self.op = op;
                }
            },
            ExecutionOperation::Step => {
                if let ExecutionState::Paused | ExecutionState::BreakpointHit = self.state {
                    self.op = op;
                }
            },
            ExecutionOperation::StepOver => {
                if let ExecutionState::Paused | ExecutionState::BreakpointHit = self.state {
                    self.op = op;
                }
            },
            ExecutionOperation::Run => {
                if let ExecutionState::Paused | ExecutionState::BreakpointHit = self.state {
                    self.op = op;
                }
            },
            ExecutionOperation::Reset => {
                self.op = op;
            },
            ExecutionOperation::NoOperation => {},
        }
    }

    /// Takes up the operation that waits: returns it and leaves none waiting.
    pub fn get_op(&mut self) -> (op: ExecutionOperation)
        ensures
            op == old(self).pending(),
            final(self).pending() == ExecutionOperation::NoOperation,
            final(self).current() == old(self).current(),
    {
        let op = self.op;
        self.op = ExecutionOperation::NoOperation;
        op
    }

    /// The operation that waits, which goes on waiting.
    pub fn peek_op(&mut self) -> (op: ExecutionOperation)
        ensures
            op == old(self).pending(),
            *final(self) == *old(self),
    {
        self.op
    }

    /// Decides what a run of the machine is to do, takes up the operation
    /// that waits and moves to the state that the run starts in.
    pub fn plan_run(&mut self, cycle_target: u32) -> (plan: RunPlan)
        ensures
            plan == plan_of(old(self).current(), old(self).pending(), cycle_target),
            final(self).current() == state_after_plan(old(self).current(), old(self).pending()),
            final(self).pending() == ExecutionOperation::NoOperation,
    {
        if let ExecutionOperation::Reset = self.peek_op() {
            let _ = self.get_op();
            self.state = ExecutionState::Paused;
            return RunPlan::Reset;
        }
        match self.state {
            ExecutionState::Paused => match self.get_op() {
                ExecutionOperation::Step => RunPlan::Execute {
                    cycle_target: 1,
                    skip_breakpoint: true,
                    step_over: false,
                    clear_breakpoint: false,
                },
                ExecutionOperation::StepOver => RunPlan::Execute {
                    cycle_target: 1,
                    skip_breakpoint: true,
                    step_over: true,
                    clear_breakpoint: false,
                },
                ExecutionOperation::Run => {
                    self.state = ExecutionState::Running;
                    RunPlan::Execute {
                        cycle_target,
                        skip_breakpoint: false,
                        step_over: false,
                        clear_breakpoint: false,
                    }
                },
                _ => RunPlan::Idle,
            },
            ExecutionState::Running => {
                let _ = self.get_op();
                RunPlan::Execute {
                    cycle_target,
                    skip_breakpoint: false,
                    step_over: false,
                    clear_breakpoint: false,
                }
            },
            ExecutionState::BreakpointHit => match self.get_op() {
                ExecutionOperation::Step => {
                    self.state = ExecutionState::Paused;
                    RunPlan::Execute {
                        cycle_target: 1,
                        skip_breakpoint: true,
                        step_over: false,
                        clear_breakpoint: true,
                    }
                },
                ExecutionOperation::StepOver => {
                    self.state = ExecutionState::Paused;
                    RunPlan::Execute {
                        cycle_target: 1,
                        skip_breakpoint: true,
                        step_over: true,
                        clear_breakpoint: true,
                    }
                },
                ExecutionOperation::Run => {
                    self.state = ExecutionState::Running;
                    RunPlan::Execute {
                        cycle_target,
                        skip_breakpoint: true,
                        step_over: false,
                        clear_breakpoint: true,
                    }
                },
                _ => RunPlan::Idle,
            },
            ExecutionState::Halted => match self.get_op() {
                ExecutionOperation::Run => {
                    self.state = ExecutionState::Running;
                    RunPlan::Execute {
                        cycle_target,
                        skip_breakpoint: false,
                        step_over: false,
                        clear_breakpoint: false,
                    }
                },
                _ => RunPlan::Idle,
            },
        }
    }
}

/// A place in the code.
#[derive(Copy, Clone, Debug, PartialEq, Eq, Structural)]
pub enum CpuAddress {
    Flat(u32),
    Segmented(u16, u16),
}

/// How an instruction ended.
#[derive(Copy, Clone, Debug, PartialEq, Eq, Structural)]
pub enum StepResult {
    /// It was executed.
    Normal,
    /// It was executed and called a routine that returns to this address.
    Call(CpuAddress),
    /// It was not executed, because a breakpoint is set on it.
    BreakpointHit,
}

/// What the CPU reports of one step.
#[derive(Copy, Clone, Debug, PartialEq, Eq, Structural)]
pub enum StepReport {
    /// The step ended as `result` says, after `cycles` cycles.
    Done { result: StepResult, cycles: u32 },
    /// The CPU is halted for good.
    Halted,
    /// The CPU could not execute the instruction.
    Failed,
}

/// What the machine does after a step of the CPU.
#[derive(Copy, Clone, Debug, PartialEq, Eq, Structural)]
pub struct StepVerdict {
    /// The run ends here, at a breakpoint: the step counts for nothing and
    /// the devices are not advanced.
    pub at_breakpoint: bool,
    /// The cycles that the step took.
    pub cycles: u32,
    /// The cycles that the devices are advanced by.
    pub device_cycles: u32,
    /// Where the routine returns to that the step called.
    pub step_over_target: Option<CpuAddress>,
    /// The step is an error of the machine.
    pub error: bool,
    /// The state of execution after the step.
    pub state: ExecutionState,
}

/// The verdict on a step in a state. A step that was executed takes its
/// cycles and leaves the state. A breakpoint ends the run. A halted CPU and
/// a failed step are errors that take no cycles; a halted CPU halts the
/// machine. The devices are advanced by the cycles of the step, or by a
/// handful if it took none.
pub open spec fn verdict_of(report: StepReport, state: ExecutionState) -> StepVerdict {
    match report {
        StepReport::Done { result: StepResult::BreakpointHit, cycles } => StepVerdict {
            at_breakpoint: true,
            cycles: 0,
            device_cycles: 0,
            step_over_target: None,
            error: false,
            state: ExecutionState::BreakpointHit,
        },
        StepReport::Done { result: StepResult::Call(target), cycles } => StepVerdict {
            at_breakpoint: false,
            cycles,
            device_cycles: if cycles == 0 {
                FAKE_CYCLES
            } else {
                cycles
            },
            step_over_target: Some(target),
            error: false,
            state,
        },
        StepReport::Done { result: StepResult::Normal, cycles } => StepVerdict {
            at_breakpoint: false,
            cycles,
            device_cycles: if cycles == 0 {
                FAKE_CYCLES
            } else {
                cycles
            },
            step_over_target: None,
            error: false,
            state,
        },
        StepReport::Halted => StepVerdict {
            at_breakpoint: false,
            cycles: 0,
            device_cycles: FAKE_CYCLES,
            step_over_target: None,
            error: true,
            state: ExecutionState::Halted,
        },
        StepReport::Failed => StepVerdict {
            at_breakpoint: false,
            cycles: 0,
            device_cycles: FAKE_CYCLES,
            step_over_target: None,
            error: true,
            state,
        },
    }
}

/// Decides what the machine does after a step of the CPU.
pub fn judge_step(report: StepReport, state: ExecutionState) -> (verdict: StepVerdict)
    ensures
        verdict == verdict_of(report, state),
{
    match report {
        StepReport::Done { result, cycles } => match result {
            StepResult::BreakpointHit => StepVerdict {
                at_breakpoint: true,
                cycles: 0,
                device_cycles: 0,
                step_over_target: None,
                error: false,
                state: ExecutionState::BreakpointHit,
            },
            StepResult::Call(target) => StepVerdict {
                at_breakpoint: false,
                cycles,
                device_cycles: device_cycles(cycles),
                step_over_target: Some(target),
                error: false,
                state,
            },
            StepResult::Normal => StepVerdict {
                at_breakpoint: false,
                cycles,
                device_cycles: device_cycles(cycles),
                step_over_target: None,
                error: false,
                state,
            },
        },
        StepReport::Halted => StepVerdict {
            at_breakpoint: false,
            cycles: 0,
            device_cycles: device_cycles(0),
            step_over_target: None,
            error: true,
            state: ExecutionState::Halted,
        },
        StepReport::Failed => StepVerdict {
            at_breakpoint: false,
            cycles: 0,
            device_cycles: device_cycles(0),
            step_over_target: None,
            error: true,
            state,
        },
    }
}

/// The cycles that the devices are advanced by for an instruction: those
/// that the instruction took, or a handful if it reports none.
pub fn device_cycles(cpu_cycles: u32) -> (cycles: u32)
    ensures
        cycles == (if cpu_cycles == 0 {
            FAKE_CYCLES
        } else {
            cpu_cycles
        }),
{
    if cpu_cycles == 0 {
        FAKE_CYCLES
    } else {
        cpu_cycles
    }
}

/// Where a run is while it steps over a routine: the address of the next
/// instruction, the address that the routine returns to, and the cycles that
/// stepping over has taken so far.
#[derive(Copy, Clone, Debug, PartialEq, Eq, Structural)]
pub struct StepOverState {
    pub at: CpuAddress,
    pub target: CpuAddress,
    pub cycles: u32,
}

/// What a run does next.
#[derive(Copy, Clone, Debug, PartialEq, Eq, Structural)]
pub enum RunMove {
    /// The run is over.
    Finish,
    /// The next instruction of the run is executed.
    Step,
    /// The next instruction of the routine that is stepped over is executed.
    StepOver,
}

/// What a run does next. While it steps over a routine, it goes on with the
/// routine until the routine has returned or has taken too long. Otherwise
/// it executes the next instruction as long as cycles are left of those it
/// is to execute and the core has not failed.
pub open spec fn move_of(
    cycle_target: u32,
    cycles_elapsed: u32,
    core_failed: bool,
    step_over: Option<StepOverState>,
) -> RunMove {
    if step_over matches Some(over) && over.at != over.target && over.cycles <= STEP_OVER_TIMEOUT {
        RunMove::StepOver
    } else if cycles_elapsed < cycle_target && !core_failed {
        RunMove::Step
    } else {
        RunMove::Finish
    }
}

/// Decides what a run does next.
pub fn next_move(
    cycle_target: u32,
    cycles_elapsed: u32,
    core_failed: bool,
    step_over: Option<StepOverState>,
) -> (m: RunMove)
    ensures
        m == move_of(cycle_target, cycles_elapsed, core_failed, step_over),
{
    if let Some(over) = step_over {
        if !same_place(over.at, over.target) && !step_over_timed_out(over.cycles) {
            return RunMove::StepOver;
        }
    }
    if cycles_elapsed < cycle_target && !core_failed {
        RunMove::Step
    } else {
        RunMove::Finish
    }
}

/// Tells whether two places in the code are written alike.
pub fn same_place(a: CpuAddress, b: CpuAddress) -> (r: bool)
    ensures
        r == (a == b),
{
    match (a, b) {
        (CpuAddress::Flat(x), CpuAddress::Flat(y)) => x == y,
        (CpuAddress::Segmented(s, o), CpuAddress::Segmented(t, p)) => s == t && o == p,
        _ => false,
    }
}

/// The place in memory of a place in the code.
pub open spec fn place_in_memory(address: CpuAddress) -> int {
    match address {
        CpuAddress::Flat(a) => a as int,
        CpuAddress::Segmented(segment, offset) => flat_address(segment, offset) as int,
    }
}

/// Computes the place in memory of a place in the code.
pub fn code_address(address: CpuAddress) -> (place: u32)
    ensures
        place == place_in_memory(address),
{
    match address {
        CpuAddress::Flat(a) => a,
        CpuAddress::Segmented(segment, offset) => {
            let place = flat(segment, offset);
            assert(place < 0x10_0000);
            place as u32
        },
    }
}

/// Tells whether stepping over a call has gone on for too long.
pub fn step_over_timed_out(step_over_cycles: u32) -> (r: bool)
    ensures
        r == (step_over_cycles > STEP_OVER_TIMEOUT),
{
    step_over_cycles > STEP_OVER_TIMEOUT
}

/// The machine: a CPU with its bus, the keys that wait to be typed, and the
/// count of what has been executed.
pub struct Machine<D: DeviceSet> {
    pub cpu: Cpu<D>,
    pub kb_buf: VecDeque<KeybufferEntry>,
    pub error: bool,
    pub error_str: Option<String>,
    pub cpu_cycles: u64,
}

/// The key event for a key that goes down or up with no modifier held.
pub open spec fn plain_key(code: u8, pressed: bool) -> KeybufferEntry {
    KeybufferEntry {
        keycode: code,
        pressed,
        modifiers: KeyboardModifiers { control: false, alt: false, shift: false, meta: false },
        translate: false,
    }
}

/// The CPU cycles counted after `cycles` more, held at the largest count.
pub open spec fn cycles_counted(total: u64, cycles: u32) -> u64 {
    if total + cycles <= u64::MAX {
        (total + cycles) as u64
    } else {
        u64::MAX
    }
}

impl<D: DeviceSet> Machine<D> {
    /// The machine's bus is well formed.
    pub open spec fn wf(self) -> bool {
        self.cpu.bus.wf()
    }

    /// The elapsed ticks and time of a slice of `cpu_cycles` CPU cycles fit
    /// their types.
    pub open spec fn slice_runs(self, cpu_cycles: u32) -> bool {
        &&& table_sys_ticks(self.cpu.bus.factor(), cpu_cycles as int) <= u32::MAX
        &&& table_us(self.cpu.bus.factor(), self.cpu.bus.crystal() as int, cpu_cycles as int)
            <= u64::MAX
    }

    /// The key event that the next slice takes: the key that has waited
    /// longest, unless a key was taken in this frame already.
    pub open spec fn next_key(self, processed: bool) -> Option<KeybufferEntry> {
        if self.kb_buf@.len() > 0 && !processed {
            Some(self.kb_buf@[0])
        } else {
            None
        }
    }

    /// The keys that go on waiting once the next slice has taken its key
    /// event.
    pub open spec fn keys_left(self, processed: bool) -> Seq<KeybufferEntry> {
        if self.kb_buf@.len() > 0 && !processed {
            self.kb_buf@.subrange(1, self.kb_buf@.len() as int)
        } else {
            self.kb_buf@
        }
    }

    /// The elapsed time of a slice of `cpu_cycles` CPU cycles, as the timing
    /// table gives it.
    pub open spec fn slice_us(self, cpu_cycles: u32) -> Microseconds {
        Microseconds {
            millionths: table_us(
                self.cpu.bus.factor(),
                self.cpu.bus.crystal() as int,
                cpu_cycles as int,
            ) as u64,
        }
    }

    /// The elapsed system ticks of a slice of `cpu_cycles` CPU cycles, as the
    /// timing table gives them.
    pub open spec fn slice_ticks(self, cpu_cycles: u32) -> u32 {
        table_sys_ticks(self.cpu.bus.factor(), cpu_cycles as int) as u32
    }

    /// A machine around a CPU, with no keys waiting and nothing executed.
    pub fn new(cpu: Cpu<D>) -> (machine: Machine<D>)
        ensures
            machine.cpu == cpu,
            machine.kb_buf@ == Seq::<KeybufferEntry>::empty(),
            !machine.error,
            machine.error_str is None,
            machine.cpu_cycles == 0,
    {
        Machine { cpu, kb_buf: VecDeque::new(), error: false, error_str: None, cpu_cycles: 0 }
    }

    /// The machine's bus.
    pub fn bus(&self) -> (bus: &BusInterface<D>)
        ensures
            *bus == self.cpu.bus,
    {
        self.cpu.bus()
    }

    /// The machine's bus, to work on.
    pub fn bus_mut(&mut self) -> (bus: &mut BusInterface<D>)
        ensures
            *bus == old(self).cpu.bus,
            final(self).cpu.bus == *final(bus),
            final(self).cpu.same_registers(old(self).cpu),
            final(self).kb_buf == old(self).kb_buf,
            final(self).error == old(self).error,
            final(self).error_str == old(self).error_str,
            final(self).cpu_cycles == old(self).cpu_cycles,
    {
        self.cpu.bus_mut()
    }

    /// The machine's CPU.
    pub fn cpu(&self) -> (cpu: &Cpu<D>)
        ensures
            *cpu == self.cpu,
    {
        &self.cpu
    }

    /// The CPU cycles executed so far.
    pub fn cpu_cycles(&self) -> (cycles: u64)
        ensures
            cycles == self.cpu_cycles,
    {
        self.cpu_cycles
    }

    /// The description of the machine's last error, if it has met one.
    pub fn get_error_str(&self) -> (description: &Option<String>)
        ensures
            *description == self.error_str,
    {
        &self.error_str
    }

    /// A key goes down: the event joins the keys that wait.
    pub fn key_press(&mut self, code: u8)
        ensures
            final(self).kb_buf@ == old(self).kb_buf@.push(plain_key(code, true)),
            final(self).cpu == old(self).cpu,
            final(self).error == old(self).error,
            final(self).error_str == old(self).error_str,
            final(self).cpu_cycles == old(self).cpu_cycles,
    {
        self.kb_buf.push_back(
            KeybufferEntry {
                keycode: code,
                pressed: true,
                modifiers: KeyboardModifiers { control: false, alt: false, shift: false, meta: false },
                translate: false,
            },
        );
    }

    /// A key goes up: the event joins the keys that wait.
    pub fn key_release(&mut self, code: u8)
        ensures
            final(self).kb_buf@ == old(self).kb_buf@.push(plain_key(code, false)),
            final(self).cpu == old(self).cpu,
            final(self).error == old(self).error,
            final(self).error_str == old(self).error_str,
            final(self).cpu_cycles == old(self).cpu_cycles,
    {
        self.kb_buf.push_back(
            KeybufferEntry {
                keycode: code,
                pressed: false,
                modifiers: KeyboardModifiers { control: false, alt: false, shift: false, meta: false },
                translate: false,
            },
        );
    }

    /// Takes the key event for the next slice. At most one event is taken
    /// in a frame: none is taken once `kb_event_processed` is set, and
    /// taking one sets it.
    pub fn take_key_event(&mut self, kb_event_processed: &mut bool) -> (event: Option<KeybufferEntry>)
        ensures
            final(self).cpu == old(self).cpu,
            final(self).error == old(self).error,
            final(self).error_str == old(self).error_str,
            final(self).cpu_cycles == old(self).cpu_cycles,
            old(self).kb_buf@.len() > 0 && !*old(kb_event_processed) ==> {
                &&& event == Some(old(self).kb_buf@[0])
                &&& final(self).kb_buf@ == old(self).kb_buf@.subrange(1, old(self).kb_buf@.len() as int)
                &&& *final(kb_event_processed)
            },
            !(old(self).kb_buf@.len() > 0 && !*old(kb_event_processed)) ==> {
                &&& event is None
                &&& final(self).kb_buf@ == old(self).kb_buf@
                &&& *final(kb_event_processed) == *old(kb_event_processed)
            },
    {
        if self.kb_buf.len() > 0 && !*kb_event_processed {
            let event = self.kb_buf.pop_front();
            if event.is_some() {
                *kb_event_processed = true;
            }
            event
        } else {
            None
        }
    }

    /// Counts a step of the CPU: its cycles join those executed, and an
    /// error is remembered with its description.
    pub fn record_step(&mut self, verdict: StepVerdict, description: String)
        ensures
            final(self).cpu == old(self).cpu,
            final(self).kb_buf == old(self).kb_buf,
            final(self).cpu_cycles == cycles_counted(old(self).cpu_cycles, verdict.cycles),
            final(self).error == (old(self).error || verdict.error),
            verdict.error ==> final(self).error_str == Some(description),
            !verdict.error ==> final(self).error_str == old(self).error_str,
    {
        self.cpu_cycles = self.cpu_cycles.saturating_add(verdict.cycles as u64);
        if verdict.error {
            self.error = true;
            self.error_str = Some(description);
        }
    }

    /// The slot of the mouse.
    pub fn mouse_mut(&mut self) -> (slot: &mut Option<D::Mouse>)
        ensures
            *slot == old(self).cpu.bus.mouse_slot(),
            final(self).cpu.bus.mouse_slot() == *final(slot),
            final(self).cpu.bus.same_but_slots(old(self).cpu.bus),
            final(self).wf() == old(self).wf(),
    {
        self.cpu.bus_mut().mouse_mut()
    }

    /// The slot of the floppy disk controller.
    pub fn fdc(&mut self) -> (slot: &mut Option<D::Fdc>)
        ensures
            *slot == old(self).cpu.bus.fdc_slot(),
            final(self).cpu.bus.fdc_slot() == *final(slot),
            final(self).cpu.bus.same_but_slots(old(self).cpu.bus),
            final(self).wf() == old(self).wf(),
    {
        self.cpu.bus_mut().fdc_mut()
    }

    /// The slot of the hard disk controller.
    pub fn hdc(&mut self) -> (slot: &mut Option<D::Hdc>)
        ensures
            *slot == old(self).cpu.bus.hdc_slot(),
            final(self).cpu.bus.hdc_slot() == *final(slot),
            final(self).cpu.bus.same_but_slots(old(self).cpu.bus),
            final(self).wf() == old(self).wf(),
    {
        self.cpu.bus_mut().hdc_mut()
    }

    /// The primary video card of the machine's bus, to work on: the card
    /// under the identity that was installed first, if there is one. Whatever
    /// is done to the card is done to the card in its place on the bus;
    /// nothing else of the machine changes.
    pub fn videocard(&mut self) -> (card: Option<&mut VideoCardDispatch<D>>)
        requires
            old(self).wf(),
        ensures
            final(self).wf(),
            card is Some <==> old(self).cpu.bus.primary_card_index() is Some,
            card matches Some(c) ==> {
                &&& old(self).cpu.bus.primary_card_index() matches Some(i)
                &&& *c == old(self).cpu.bus.cards()[i as int].card
                &&& final(self).cpu.bus.cards() == old(self).cpu.bus.cards().update(
                    i as int,
                    crate::device::VideoCardSlot {
                        id: old(self).cpu.bus.cards()[i as int].id,
                        card: *final(c),
                    },
                )
            },
            card is None ==> final(self).cpu.bus == old(self).cpu.bus,
            old(self).cpu.bus.card_ids().len() == 0 ==> card is None,
            final(self).cpu.same_registers(old(self).cpu),
            final(self).cpu.bus.same_memory(old(self).cpu.bus),
            final(self).cpu.bus.same_maps(old(self).cpu.bus),
            final(self).cpu.bus.same_clock(old(self).cpu.bus),
            final(self).cpu.bus.same_schedule(old(self).cpu.bus),
            final(self).cpu.bus.same_slots(old(self).cpu.bus),
            final(self).cpu.bus.card_ids() == old(self).cpu.bus.card_ids(),
            final(self).kb_buf == old(self).kb_buf,
            final(self).error == old(self).error,
            final(self).error_str == old(self).error_str,
            final(self).cpu_cycles == old(self).cpu_cycles,
    {
        self.cpu.bus_mut().primary_video_mut()
    }
}

impl<D: DeviceSet> Machine<D> where
    D::Keyboard: KeyboardDevice,
    D::Ppi: PpiDevice<D>,
    D::Pit: TimerDevice<D>,
    D::Dma: DmaDevice<D>,
    D::Pic: InterruptController<D>,
    D::Serial: SerialDevice<D>,
    D::Fdc: FloppyDevice<D>,
    D::Hdc: HardDiskDevice<D>,
    D::Mouse: MouseDevice<D>,
    D::Mda: VideoCard<D>,
    D::Cga: VideoCard<D>,
    D::Ega: VideoCard<D>,
    D::Vga: VideoCard<D>,
 {
    /// Tells whether the devices can be advanced by a slice of `cpu_cycles`
    /// CPU cycles.
    pub fn can_run_devices(&self, cpu_cycles: u32) -> (r: bool)
        requires
            self.wf(),
        ensures
            r == self.slice_runs(cpu_cycles),
    {
        slice_representable(cpu_cycles, self.cpu.bus.cpu_factor, self.cpu.bus.crystal_hz)
    }

    /// Advances the devices by the time that `cpu_cycles` CPU cycles take,
    /// and hands them the next key event unless one was handed over in this
    /// frame already. Returns the event that the devices produced.
    pub fn run_devices(
        &mut self,
        cpu_cycles: u32,
        kb_event_processed: &mut bool,
        speaker: &mut Producer<u8>,
    ) -> (event: Option<DeviceEvent>)
        requires
            old(self).wf(),
            old(self).slice_runs(cpu_cycles),
        ensures
            final(self).wf(),
            schedulable_event(event),
            final(self).cpu.same_registers(old(self).cpu),
            final(self).error == old(self).error,
            final(self).error_str == old(self).error_str,
            final(self).cpu_cycles == old(self).cpu_cycles,
            !old(self).cpu.bus.has_timer() ==> event is None,
            *final(kb_event_processed) == (*old(kb_event_processed) || old(self).kb_buf@.len() > 0),
            exists|queue: VecDeque<KeybufferEntry>|
                queue@ == old(self).keys_left(*old(kb_event_processed)) && #[trigger] old(
                    self,
                ).cpu.bus.slice_ran(
                    final(self).cpu.bus,
                    old(self).slice_us(cpu_cycles),
                    old(self).slice_ticks(cpu_cycles),
                    old(self).next_key(*old(kb_event_processed)),
                    queue,
                    final(self).kb_buf,
                    *old(speaker),
                    *final(speaker),
                    event,
                ),
            !old(self).cpu.bus.has_keyboard() || !(old(self).next_key(*old(kb_event_processed)) matches Some(
                key,
            ) && key.pressed) ==> final(self).kb_buf@ == old(self).keys_left(*old(kb_event_processed)),
    {
        let slice = DeviceRunContext::new(cpu_cycles, self.cpu.bus.cpu_factor, self.cpu.bus.crystal_hz);
        let kb_event_opt = self.take_key_event(kb_event_processed);
        let ghost queue = self.kb_buf;
        let event = self.cpu.bus.run_devices(
            slice.delta_us,
            slice.delta_ticks,
            kb_event_opt,
            &mut self.kb_buf,
            speaker,
        );
        proof {
            assert(slice.delta_us == old(self).slice_us(cpu_cycles));
            assert(old(self).cpu.bus.slice_ran(
                self.cpu.bus,
                old(self).slice_us(cpu_cycles),
                old(self).slice_ticks(cpu_cycles),
                old(self).next_key(*old(kb_event_processed)),
                queue,
                self.kb_buf,
                *old(speaker),
                *speaker,
                event,
            ));
        }
        event
    }

    /// Resets the machine: its error is forgotten, the CPU is reset, memory
    /// is cleared and the devices are reset. Keys that wait go on waiting.
    pub fn reset(&mut self)
        requires
            old(self).wf(),
        ensures
            final(self).wf(),
            !final(self).error,
            final(self).error_str is None,
            final(self).cpu.cs == RESET_SEGMENT,
            final(self).cpu.ip == RESET_OFFSET,
            final(self).cpu.bus.mem() == Seq::new(crate::memory::ADDRESS_SPACE as nat, |a: int| 0u8),
            final(self).cpu.bus.same_maps(old(self).cpu.bus),
            final(self).cpu.bus.same_clock(old(self).cpu.bus),
            final(self).kb_buf == old(self).kb_buf,
            final(self).cpu_cycles == old(self).cpu_cycles,
    {
        self.error = false;
        self.error_str = None;
        self.cpu.reset(RESET_SEGMENT, RESET_OFFSET);
        self.cpu.bus.clear();
        self.cpu.bus.reset_devices();
    }
}

} // verus!
