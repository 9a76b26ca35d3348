//! Coarse orchestration state.
//!
//! Above the boot/login machine sits a three-stage flow — bring-up,
//! parallel subsystem testing, finalization — each with its own small step
//! sequence and a set of parallel-task completion flags. The state is a
//! plain value; the caller supplies a millisecond timestamp with each
//! mutation so durations need no clock here.

use vstd::prelude::*;

verus! {

/// The three top-level stages of a device run.
#[derive(Debug, Clone, Copy, PartialEq, Eq, Structural)]
pub enum MainState {
    /// Bring-up: detection, boot, login, identification.
    State1,
    /// Parallel subsystem testing.
    State2,
    /// Finalization and reporting.
    State3,
}

/// Steps within the bring-up stage.
#[derive(Debug, Clone, Copy, PartialEq, Eq, Structural)]
pub enum SubState1 {
    /// Initialization.
    Step1,
    /// Preparation.
    Step2,
    /// Ready.
    Step3,
}

/// Steps within the parallel-testing stage.
#[derive(Debug, Clone, Copy, PartialEq, Eq, Structural)]
pub enum SubState2 {
    /// Connect.
    Step1,
    /// Validate.
    Step2,
    /// Configure.
    Step3,
    /// Run.
    Step4,
}

/// Steps within the finalization stage.
#[derive(Debug, Clone, Copy, PartialEq, Eq, Structural)]
pub enum SubState3 {
    /// Monitor.
    Step1,
    /// Settle.
    Step2,
    /// Done.
    Step3,
}

/// Completion flags of the parallel tasks.
#[derive(Debug, Clone, Copy, PartialEq, Eq, Structural)]
pub struct ParallelFlags {
    pub task1_completed: bool,
    pub task2_completed: bool,
    pub task3_completed: bool,
}

impl Default for ParallelFlags {
    /// All tasks still pending.
    fn default() -> (r: ParallelFlags)
        ensures
            !r.task1_completed && !r.task2_completed && !r.task3_completed,
    {
        ParallelFlags { task1_completed: false, task2_completed: false, task3_completed: false }
    }
}

/// The whole orchestration state: the stage, the step of each stage (only
/// the current stage's step is set), the parallel flags, the disconnect
/// marker, and the timestamp of the last change.
#[derive(Debug, Clone, Copy)]
pub struct GlobalState {
    pub main_state: MainState,
    pub sub_state1: Option<SubState1>,
    pub sub_state2: Option<SubState2>,
    pub sub_state3: Option<SubState3>,
    pub parallel_flags: ParallelFlags,
    /// Set by a disconnect until the caller acknowledges it.
    pub disconnected: bool,
    /// Timestamp (ms) of the last state change, as supplied by the caller.
    pub last_change_ms: u64,
}

/// The state a run starts in.
pub open spec fn initial_flow_state(s: GlobalState) -> bool {
    &&& s.main_state == MainState::State1
    &&& s.sub_state1 == Some(SubState1::Step1)
    &&& s.sub_state2 is None
    &&& s.sub_state3 is None
    &&& !s.parallel_flags.task1_completed
    &&& !s.parallel_flags.task2_completed
    &&& !s.parallel_flags.task3_completed
}

impl Default for GlobalState {
    /// A fresh run at the first step of bring-up.
    fn default() -> (r: GlobalState)
        ensures
            initial_flow_state(r),
            !r.disconnected,
            r.last_change_ms == 0,
    {
        GlobalState {
            main_state: MainState::State1,
            sub_state1: Some(SubState1::Step1),
            sub_state2: None,
            sub_state3: None,
            parallel_flags: ParallelFlags::default(),
            disconnected: false,
            last_change_ms: 0,
        }
    }
}

/// Refused stage changes.
#[derive(Debug, Clone, Copy, PartialEq, Eq, Structural)]
pub enum StateError {
    /// The requested stage cannot follow the current one.
    InvalidTransition,
    /// No parallel task carries the given number.
    InvalidTaskId,
}

/// Stage changes the flow accepts: forward one stage at a time, a restart
/// of bring-up, and a reset to bring-up from anywhere (on disconnect).
pub open spec fn is_valid_transition(from: MainState, to: MainState) -> bool {
    ||| (from == MainState::State1 && to == MainState::State2)
    ||| (from == MainState::State2 && to == MainState::State3)
    ||| to == MainState::State1
}

/// A copy of the current state.
pub fn get_current_state(state: &GlobalState) -> (r: GlobalState)
    ensures
        r == *state,
{
    *state
}

/// Moves the flow to `new_state`, resetting the entered stage to its first
/// step and clearing later stages and the parallel flags. A change the
/// flow does not accept is refused and leaves the state untouched.
pub fn set_main_state(state: &mut GlobalState, new_state: MainState, now_ms: u64) -> (r: Result<
    (),
    StateError,
>)
    ensures
        r is Ok <==> is_valid_transition(old(state).main_state, new_state),
        r is Err ==> *final(state) == *old(state) && r == Err::<(), StateError>(
            StateError::InvalidTransition,
        ),
        r is Ok ==> {
            &&& final(state).main_state == new_state
            &&& final(state).last_change_ms == now_ms
            &&& final(state).disconnected == old(state).disconnected
            &&& !final(state).parallel_flags.task1_completed
            &&& !final(state).parallel_flags.task2_completed
            &&& !final(state).parallel_flags.task3_completed
            &&& (new_state == MainState::State1 ==> final(state).sub_state1 == Some(
                SubState1::Step1,
            ) && final(state).sub_state2 is None && final(state).sub_state3 is None)
            &&& (new_state == MainState::State2 ==> final(state).sub_state1 == old(state).sub_state1 && final(state).sub_state2 == Some(SubState2::Step1) && final(state).sub_state3 is None)
            &&& (new_state == MainState::State3 ==> final(state).sub_state1 == old(state).sub_state1 && final(state).sub_state2 == old(state).sub_state2 && final(state).sub_state3 == Some(SubState3::Step1))
        },
{
    let valid = match (state.main_state, new_state) {
        (MainState::State1, MainState::State2) => true,
        (MainState::State2, MainState::State3) => true,
        (_, MainState::State1) => true,
        _ => false,
    };
    if !valid {
        return Err(StateError::InvalidTransition);
    }
    state.main_state = new_state;
    state.last_change_ms = now_ms;
    match new_state {
        MainState::State1 => {
            state.sub_state1 = Some(SubState1::Step1);
            state.sub_state2 = None;
            state.sub_state3 = None;
            state.parallel_flags = ParallelFlags::default();
        },
        MainState::State2 => {
            state.sub_state2 = Some(SubState2::Step1);
            state.sub_state3 = None;
            state.parallel_flags = ParallelFlags::default();
        },
        MainState::State3 => {
            state.sub_state3 = Some(SubState3::Step1);
            state.parallel_flags = ParallelFlags::default();
        },
    }
    Ok(())
}

/// The step state after advancing one step within the current stage; a
/// stage whose last step is done rolls over to the next stage (the final
/// stage holds at its last step).
pub open spec fn advanced_spec(s: GlobalState, now_ms: u64) -> GlobalState {
    let t = match s.main_state {
        MainState::State1 => match s.sub_state1 {
            Some(SubState1::Step1) => GlobalState { sub_state1: Some(SubState1::Step2), ..s },
            Some(SubState1::Step2) => GlobalState { sub_state1: Some(SubState1::Step3), ..s },
            Some(SubState1::Step3) => GlobalState {
                main_state: MainState::State2,
                sub_state1: None,
                sub_state2: Some(SubState2::Step1),
                ..s
            },
            None => s,
        },
        MainState::State2 => match s.sub_state2 {
            Some(SubState2::Step1) => GlobalState { sub_state2: Some(SubState2::Step2), ..s },
            Some(SubState2::Step2) => GlobalState { sub_state2: Some(SubState2::Step3), ..s },
            Some(SubState2::Step3) => GlobalState { sub_state2: Some(SubState2::Step4), ..s },
            Some(SubState2::Step4) => GlobalState {
                main_state: MainState::State3,
                sub_state2: None,
                sub_state3: Some(SubState3::Step1),
                ..s
            },
            None => s,
        },
        MainState::State3 => match s.sub_state3 {
            Some(SubState3::Step1) => GlobalState { sub_state3: Some(SubState3::Step2), ..s },
            Some(SubState3::Step2) => GlobalState { sub_state3: Some(SubState3::Step3), ..s },
            Some(SubState3::Step3) => s,
            None => s,
        },
    };
    GlobalState { last_change_ms: now_ms, ..t }
}

/// Advances one step within the current stage.
pub fn advance_sub_state(state: &mut GlobalState, now_ms: u64)
    ensures
        *final(state) == advanced_spec(*old(state), now_ms),
{
    match state.main_state {
        MainState::State1 => {
            match state.sub_state1 {
                Some(SubState1::Step1) => {
                    state.sub_state1 = Some(SubState1::Step2);
                },
                Some(SubState1::Step2) => {
                    state.sub_state1 = Some(SubState1::Step3);
                },
                Some(SubState1::Step3) => {
                    state.main_state = MainState::State2;
                    state.sub_state1 = None;
                    state.sub_state2 = Some(SubState2::Step1);
                },
                None => {},
            }
        },
        MainState::State2 => {
            match state.sub_state2 {
                Some(SubState2::Step1) => {
                    state.sub_state2 = Some(SubState2::Step2);
                },
                Some(SubState2::Step2) => {
                    state.sub_state2 = Some(SubState2::Step3);
                },
                Some(SubState2::Step3) => {
                    state.sub_state2 = Some(SubState2::Step4);
                },
                Some(SubState2::Step4) => {
                    state.main_state = MainState::State3;
                    state.sub_state2 = None;
                    state.sub_state3 = Some(SubState3::Step1);
                },
                None => {},
            }
        },
        MainState::State3 => {
            match state.sub_state3 {
                Some(SubState3::Step1) => {
                    state.sub_state3 = Some(SubState3::Step2);
                },
                Some(SubState3::Step2) => {
                    state.sub_state3 = Some(SubState3::Step3);
                },
                Some(SubState3::Step3) => {},
                None => {},
            }
        },
    }
    state.last_change_ms = now_ms;
}

/// Marks one parallel task as completed. Task numbers run 1 to 3; any
/// other is refused and leaves the state untouched.
pub fn set_parallel_task_completed(state: &mut GlobalState, task_id: u32, now_ms: u64) -> (r:
    Result<(), StateError>)
    ensures
        r is Ok <==> (task_id == 1 || task_id == 2 || task_id == 3),
        r is Err ==> *final(state) == *old(state) && r == Err::<(), StateError>(
            StateError::InvalidTaskId,
        ),
        r is Ok ==> {
            &&& final(state).parallel_flags.task1_completed == (task_id == 1 || old(state).parallel_flags.task1_completed)
            &&& final(state).parallel_flags.task2_completed == (task_id == 2 || old(state).parallel_flags.task2_completed)
            &&& final(state).parallel_flags.task3_completed == (task_id == 3 || old(state).parallel_flags.task3_completed)
            &&& final(state).last_change_ms == now_ms
            &&& *final(state) == (GlobalState {
                parallel_flags: final(state).parallel_flags,
                last_change_ms: now_ms,
                ..*old(state)
            })
        },
{
    match task_id {
        1u32 => state.parallel_flags.task1_completed = true,
        2u32 => state.parallel_flags.task2_completed = true,
        3u32 => state.parallel_flags.task3_completed = true,
        _ => {
            return Err(StateError::InvalidTaskId);
        },
    }
    state.last_change_ms = now_ms;
    Ok(())
}

/// Whether every parallel task has completed.
pub fn are_all_parallel_tasks_completed(state: &GlobalState) -> (r: bool)
    ensures
        r == (state.parallel_flags.task1_completed && state.parallel_flags.task2_completed
            && state.parallel_flags.task3_completed),
{
    state.parallel_flags.task1_completed && state.parallel_flags.task2_completed
        && state.parallel_flags.task3_completed
}

/// A disconnect outranks everything: the flow resets to the first step of
/// bring-up and the disconnect marker is set until acknowledged.
pub fn handle_disconnect(state: &mut GlobalState, now_ms: u64)
    ensures
        initial_flow_state(*final(state)),
        final(state).disconnected,
        final(state).last_change_ms == now_ms,
{
    state.main_state = MainState::State1;
    state.sub_state1 = Some(SubState1::Step1);
    state.sub_state2 = None;
    state.sub_state3 = None;
    state.parallel_flags = ParallelFlags::default();
    state.disconnected = true;
    state.last_change_ms = now_ms;
}

/// Acknowledges a disconnect.
pub fn clear_disconnect_flag(state: &mut GlobalState, now_ms: u64)
    ensures
        !final(state).disconnected,
        final(state).last_change_ms == now_ms,
        *final(state) == (GlobalState {
            disconnected: false,
            last_change_ms: now_ms,
            ..*old(state)
        }),
{
    state.disconnected = false;
    state.last_change_ms = now_ms;
}

/// Milliseconds since the last state change, given the current time; zero
/// when the supplied clock reads earlier than the recorded change.
pub fn get_state_duration(state: &GlobalState, now_ms: u64) -> (r: u64)
    ensures
        r == if now_ms >= state.last_change_ms {
            now_ms - state.last_change_ms
        } else {
            0int
        },
{
    if now_ms >= state.last_change_ms {
        now_ms - state.last_change_ms
    } else {
        0
    }
}

} // verus!
