//! Constant-Rate synthesizer: a trivial three-state machine that blocks
//! genuine traffic and emits one padding packet at a fixed interval.
use vstd::prelude::*;

use crate::model::{
    Dist, Event, Machine, MachineV, Scalar, State, StateV, Target, Transition, PACKET_SIZE,
};
use crate::model::{lemma_transition_to_wf, transition_to};

verus! {

/// Index of the blocking state.
pub const BLOCK_STATE_INDEX: usize = 1;

/// Index of the constant-rate padding state.
pub const CONST_STATE_INDEX: usize = 2;

/// The start state: it moves to the blocking state on the first genuine
/// packet in either direction.
pub open spec fn const_start_v() -> StateV {
    StateV {
        transitions: seq![
            transition_to(Event::NonPaddingSent, Target::Idx(BLOCK_STATE_INDEX)),
            transition_to(Event::NonPaddingRecv, Target::Idx(BLOCK_STATE_INDEX)),
        ],
        timeout: Dist::disabled(),
        action: Dist::disabled(),
        limit: Dist::disabled(),
        action_is_block: false,
        bypass: false,
        replace: false,
        limit_includes_nonpadding: false,
    }
}

/// The blocking state: absorbing and always blocking; it moves to the
/// constant-rate state once blocking is confirmed.
pub open spec fn const_block_v() -> StateV {
    StateV {
        transitions: seq![transition_to(Event::BlockingBegin, Target::Idx(CONST_STATE_INDEX))],
        timeout: Dist::fixed(Scalar::Finite(0)),
        action: Dist::fixed(Scalar::Infinite),
        limit: Dist::disabled(),
        action_is_block: true,
        bypass: true,
        replace: true,
        limit_includes_nonpadding: false,
    }
}

/// The constant-rate state: it self-loops, emitting one padding packet
/// per fixed interval.
pub open spec fn const_send_v(interval: u64) -> StateV {
    StateV {
        transitions: seq![transition_to(Event::PaddingSent, Target::Idx(CONST_STATE_INDEX))],
        timeout: Dist::fixed(Scalar::Finite(interval)),
        action: Dist::fixed(Scalar::Finite(PACKET_SIZE)),
        limit: Dist::disabled(),
        action_is_block: false,
        bypass: true,
        replace: true,
        limit_includes_nonpadding: false,
    }
}

/// The whole constant-rate machine, with both budgets disabled.
pub open spec fn spec_constant_machine(interval: u64) -> MachineV {
    MachineV {
        states: seq![const_start_v(), const_block_v(), const_send_v(interval)],
        allowed_padding_bytes: 0,
        max_padding_frac: 0,
        allowed_blocked_micros: 0,
        max_blocking_frac: 0,
        include_small_packets: false,
    }
}

/// Generate the START state for a constant-rate machine.
pub fn generate_start_state() -> (s: State)
    ensures
        s@ == const_start_v(),
{
    let mut transitions: Vec<Transition> = Vec::new();
    transitions.push(Transition::to(Event::NonPaddingSent, Target::Idx(BLOCK_STATE_INDEX)));
    transitions.push(Transition::to(Event::NonPaddingRecv, Target::Idx(BLOCK_STATE_INDEX)));
    let s = State {
        transitions,
        timeout: Dist::disabled(),
        action: Dist::disabled(),
        limit: Dist::disabled(),
        action_is_block: false,
        bypass: false,
        replace: false,
        limit_includes_nonpadding: false,
    };
    proof {
        assert(s@.transitions =~= const_start_v().transitions);
    }
    s
}

/// Generate the BLOCK state for a constant-rate machine.
pub fn generate_block_state() -> (s: State)
    ensures
        s@ == const_block_v(),
{
    let mut transitions: Vec<Transition> = Vec::new();
    transitions.push(Transition::to(Event::BlockingBegin, Target::Idx(CONST_STATE_INDEX)));
    let s = State {
        transitions,
        timeout: Dist::fixed(Scalar::Finite(0)),
        action: Dist::fixed(Scalar::Infinite),
        limit: Dist::disabled(),
        action_is_block: true,
        bypass: true,
        replace: true,
        limit_includes_nonpadding: false,
    };
    proof {
        assert(s@.transitions =~= const_block_v().transitions);
    }
    s
}

/// Generate the CONST state for a constant-rate machine.
pub fn generate_const_state(interval: u64) -> (s: State)
    ensures
        s@ == const_send_v(interval),
{
    let mut transitions: Vec<Transition> = Vec::new();
    transitions.push(Transition::to(Event::PaddingSent, Target::Idx(CONST_STATE_INDEX)));
    let s = State {
        transitions,
        timeout: Dist::fixed(Scalar::Finite(interval)),
        action: Dist::fixed(Scalar::Finite(PACKET_SIZE)),
        limit: Dist::disabled(),
        action_is_block: false,
        bypass: true,
        replace: true,
        limit_includes_nonpadding: false,
    };
    proof {
        assert(s@.transitions =~= const_send_v(interval).transitions);
    }
    s
}

/// Generate a constant-rate machine that emits one padding packet every
/// `interval` microseconds (in millionths).
pub fn generate_machine(interval: u64) -> (m: Machine)
    ensures
        m@ == spec_constant_machine(interval),
        m@.wf(),
{
    let ghost target = spec_constant_machine(interval);
    let mut states: Vec<State> = Vec::new();
    states.push(generate_start_state());
    states.push(generate_block_state());
    states.push(generate_const_state(interval));
    let m = Machine::assemble(states);
    proof {
        assert(m@.states =~= target.states);
        lemma_constant_machine_wf(interval);
    }
    m
}

/// Every constant-rate machine is well formed: each transition entry's
/// probabilities sum to exactly one unit and every target index is one
/// of its three states.
pub proof fn lemma_constant_machine_wf(interval: u64)
    ensures
        spec_constant_machine(interval).wf(),
{
    let m = spec_constant_machine(interval);
    let n = m.states.len();
    assert(n == 3);
    lemma_transition_to_wf(Event::NonPaddingSent, Target::Idx(BLOCK_STATE_INDEX), n);
    lemma_transition_to_wf(Event::NonPaddingRecv, Target::Idx(BLOCK_STATE_INDEX), n);
    lemma_transition_to_wf(Event::BlockingBegin, Target::Idx(CONST_STATE_INDEX), n);
    lemma_transition_to_wf(Event::PaddingSent, Target::Idx(CONST_STATE_INDEX), n);
    assert forall|k: int| 0 <= k < n implies (#[trigger] m.states[k]).wf(n) by {
    }
}

/// Synthesis of the constant-rate machine is a pure function of its
/// parameter: any two machines that meet its contract for the same
/// interval are structurally identical.
pub proof fn lemma_constant_machine_deterministic(m1: Machine, m2: Machine, interval: u64)
    requires
        m1@ == spec_constant_machine(interval),
        m2@ == spec_constant_machine(interval),
    ensures
        m1@ == m2@,
{
}

} // verus!
