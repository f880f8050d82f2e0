//! Segment-Scrambler synthesizer: two cooperating machines that
//! regularize intra-segment packet timing and randomize the trailing
//! padding around each segment boundary.
//!
//! The first machine pads every segment at a fixed interval up to a
//! minimum count and then keeps padding for a randomized trailing count,
//! alternating between a left and a right state whenever genuine traffic
//! is observed; a secondary left/right pair with quartered trailing
//! ranges takes over when blocking begins during the primary pair.  The
//! second machine is an independent early-termination signal: two
//! mirrored counting states that track genuine sends and, past a higher
//! threshold, fall into a permanently blocking signal state.
use vstd::prelude::*;

use crate::model::{
    Dist, Event, Machine, MachineV, Scalar, State, StateV, Target, Transition, PACKET_SIZE,
};
use crate::model::{lemma_transition_to_wf, transition_to};

verus! {

/// Index of the first machine's start state.
pub const START_STATE_INDEX: usize = 0;

/// Index of the first machine's blocking state.
pub const BLOCK_STATE_INDEX: usize = 1;

/// Index of the first machine's minimum-count padding state.
pub const MIN_STATE_INDEX: usize = 2;

/// Index of the primary left trailing state; the secondary pair sits two
/// positions further.
pub const LEFT_STATE_INDEX: usize = 3;

/// Index of the primary right trailing state.
pub const RIGHT_STATE_INDEX: usize = 4;

/// Index of the second machine's left counting state.
pub const COUNT_LEFT_INDEX: usize = 0;

/// Index of the second machine's right counting state.
pub const COUNT_RIGHT_INDEX: usize = 1;

/// Index of the second machine's signal state.
pub const SIGNAL_INDEX: usize = 2;

// ---------------------------------------------------------------------
// Machine 1: in-segment timing regularization
// ---------------------------------------------------------------------

/// The first machine's start state: on the first outgoing non-padding
/// packet it moves to the blocking state.
pub open spec fn scrambler_start_v() -> StateV {
    StateV {
        transitions: seq![transition_to(Event::NonPaddingSent, Target::Idx(BLOCK_STATE_INDEX))],
        timeout: Dist::fixed(Scalar::Finite(0)),
        action: Dist::fixed(Scalar::Finite(0)),
        limit: Dist::disabled(),
        action_is_block: true,
        bypass: true,
        replace: true,
        limit_includes_nonpadding: false,
    }
}

/// The first machine's blocking state: it blocks indefinitely and moves
/// to the minimum-count state once blocking is confirmed.
pub open spec fn scrambler_block_v() -> StateV {
    StateV {
        transitions: seq![transition_to(Event::BlockingBegin, Target::Idx(MIN_STATE_INDEX))],
        timeout: Dist::fixed(Scalar::Finite(0)),
        action: Dist::fixed(Scalar::Infinite),
        limit: Dist::disabled(),
        action_is_block: true,
        bypass: true,
        replace: true,
        limit_includes_nonpadding: false,
    }
}

/// The minimum-count state: it emits padding at the fixed interval for
/// `min_count` packets and then hands control to the primary right
/// trailing state.
pub open spec fn min_state_v(interval: u64, min_count: u64) -> StateV {
    StateV {
        transitions: seq![
            transition_to(Event::PaddingSent, Target::Idx(MIN_STATE_INDEX)),
            transition_to(Event::LimitReached, Target::Idx(RIGHT_STATE_INDEX)),
        ],
        timeout: Dist::fixed(Scalar::Finite(interval)),
        action: Dist::fixed(Scalar::Finite(PACKET_SIZE)),
        limit: Dist::fixed(Scalar::Finite(min_count)),
        action_is_block: false,
        bypass: true,
        replace: true,
        limit_includes_nonpadding: false,
    }
}

/// The left trailing state of pair `idx` (0 primary, 1 secondary): it
/// pads itself, hands control to its right counterpart on genuine
/// outgoing traffic, and returns to the start state when its randomized
/// repeat limit, drawn from `[lo, hi]`, is reached.  The primary state
/// additionally yields to the secondary left state when blocking begins.
pub open spec fn left_state_v(idx: int, interval: u64, lo: u64, hi: u64) -> StateV {
    let here = Target::Idx((LEFT_STATE_INDEX + 2 * idx) as usize);
    let other = Target::Idx((RIGHT_STATE_INDEX + 2 * idx) as usize);
    let base = seq![
        transition_to(Event::PaddingSent, here),
        transition_to(Event::NonPaddingSent, other),
        transition_to(Event::LimitReached, Target::Idx(START_STATE_INDEX)),
    ];
    let transitions = if idx == 0 {
        base + seq![
            transition_to(Event::BlockingBegin, Target::Idx((LEFT_STATE_INDEX + 2) as usize)),
        ]
    } else {
        base
    };
    StateV {
        transitions,
        timeout: Dist::fixed(Scalar::Finite(interval)),
        action: Dist::fixed(Scalar::Finite(PACKET_SIZE)),
        limit: Dist::range(Scalar::Finite(lo), Scalar::Finite(hi)),
        action_is_block: false,
        bypass: true,
        replace: true,
        limit_includes_nonpadding: false,
    }
}

/// The right trailing state of pair `idx`: the mirror image of the left
/// one.
pub open spec fn right_state_v(idx: int, interval: u64, lo: u64, hi: u64) -> StateV {
    let here = Target::Idx((RIGHT_STATE_INDEX + 2 * idx) as usize);
    let other = Target::Idx((LEFT_STATE_INDEX + 2 * idx) as usize);
    let base = seq![
        transition_to(Event::PaddingSent, here),
        transition_to(Event::NonPaddingSent, other),
        transition_to(Event::LimitReached, Target::Idx(START_STATE_INDEX)),
    ];
    let transitions = if idx == 0 {
        base + seq![
            transition_to(Event::BlockingBegin, Target::Idx((RIGHT_STATE_INDEX + 2) as usize)),
        ]
    } else {
        base
    };
    StateV {
        transitions,
        timeout: Dist::fixed(Scalar::Finite(interval)),
        action: Dist::fixed(Scalar::Finite(PACKET_SIZE)),
        limit: Dist::range(Scalar::Finite(lo), Scalar::Finite(hi)),
        action_is_block: false,
        bypass: true,
        replace: true,
        limit_includes_nonpadding: false,
    }
}

/// The whole first machine: start, block and minimum-count states, the
/// primary trailing pair with repeat limits drawn from
/// `[min_trail, max_trail]`, and the secondary pair with the quartered
/// range.
pub open spec fn spec_machine_one(
    interval: u64,
    min_count: u64,
    min_trail: u64,
    max_trail: u64,
) -> MachineV {
    MachineV {
        states: seq![
            scrambler_start_v(),
            scrambler_block_v(),
            min_state_v(interval, min_count),
            left_state_v(0, interval, min_trail, max_trail),
            right_state_v(0, interval, min_trail, max_trail),
            left_state_v(1, interval, (min_trail / 4) as u64, (max_trail / 4) as u64),
            right_state_v(1, interval, (min_trail / 4) as u64, (max_trail / 4) as u64),
        ],
        allowed_padding_bytes: 0,
        max_padding_frac: 0,
        allowed_blocked_micros: 0,
        max_blocking_frac: 0,
        include_small_packets: false,
    }
}

/// Generate the START state for the first machine.
pub fn generate_start_state() -> (s: State)
    ensures
        s@ == scrambler_start_v(),
{
    let mut transitions: Vec<Transition> = Vec::new();
    transitions.push(Transition::to(Event::NonPaddingSent, Target::Idx(BLOCK_STATE_INDEX)));
    let s = State {
        transitions,
        timeout: Dist::fixed(Scalar::Finite(0)),
        action: Dist::fixed(Scalar::Finite(0)),
        limit: Dist::disabled(),
        action_is_block: true,
        bypass: true,
        replace: true,
        limit_includes_nonpadding: false,
    };
    proof {
        assert(s@.transitions =~= scrambler_start_v().transitions);
    }
    s
}

/// Generate the BLOCK state for the first machine.
pub fn generate_block_state() -> (s: State)
    ensures
        s@ == scrambler_block_v(),
{
    let mut transitions: Vec<Transition> = Vec::new();
    transitions.push(Transition::to(Event::BlockingBegin, Target::Idx(MIN_STATE_INDEX)));
    let s = State {
        transitions,
        timeout: Dist::fixed(Scalar::Finite(0)),
        action: Dist::fixed(Scalar::Infinite),
        limit: Dist::disabled(),
        action_is_block: true,
        bypass: true,
        replace: true,
        limit_includes_nonpadding: false,
    };
    proof {
        assert(s@.transitions =~= scrambler_block_v().transitions);
    }
    s
}

/// Generate the MIN state for the first machine.
pub fn generate_min_state(interval: u64, min_count: u64) -> (s: State)
    ensures
        s@ == min_state_v(interval, min_count),
{
    let mut transitions: Vec<Transition> = Vec::new();
    transitions.push(Transition::to(Event::PaddingSent, Target::Idx(MIN_STATE_INDEX)));
    transitions.push(Transition::to(Event::LimitReached, Target::Idx(RIGHT_STATE_INDEX)));
    let s = State {
        transitions,
        timeout: Dist::fixed(Scalar::Finite(interval)),
        action: Dist::fixed(Scalar::Finite(PACKET_SIZE)),
        limit: Dist::fixed(Scalar::Finite(min_count)),
        action_is_block: false,
        bypass: true,
        replace: true,
        limit_includes_nonpadding: false,
    };
    proof {
        assert(s@.transitions =~= min_state_v(interval, min_count).transitions);
    }
    s
}

/// Generate the left trailing state of pair `idx` for the first machine.
pub fn generate_left_state(idx: usize, interval: u64, lo: u64, hi: u64) -> (s: State)
    requires
        idx <= 1,
    ensures
        s@ == left_state_v(idx as int, interval, lo, hi),
{
    let here = Target::Idx(LEFT_STATE_INDEX + 2 * idx);
    let other = Target::Idx(RIGHT_STATE_INDEX + 2 * idx);
    let mut transitions: Vec<Transition> = Vec::new();
    transitions.push(Transition::to(Event::PaddingSent, here));
    transitions.push(Transition::to(Event::NonPaddingSent, other));
    transitions.push(Transition::to(Event::LimitReached, Target::Idx(START_STATE_INDEX)));
    if idx == 0 {
        transitions.push(Transition::to(Event::BlockingBegin, Target::Idx(LEFT_STATE_INDEX + 2)));
    }
    let s = State {
        transitions,
        timeout: Dist::fixed(Scalar::Finite(interval)),
        action: Dist::fixed(Scalar::Finite(PACKET_SIZE)),
        limit: Dist::range(Scalar::Finite(lo), Scalar::Finite(hi)),
        action_is_block: false,
        bypass: true,
        replace: true,
        limit_includes_nonpadding: false,
    };
    proof {
        assert(s@.transitions =~= left_state_v(idx as int, interval, lo, hi).transitions);
    }
    s
}

/// Generate the right trailing state of pair `idx` for the first machine.
pub fn generate_right_state(idx: usize, interval: u64, lo: u64, hi: u64) -> (s: State)
    requires
        idx <= 1,
    ensures
        s@ == right_state_v(idx as int, interval, lo, hi),
{
    let here = Target::Idx(RIGHT_STATE_INDEX + 2 * idx);
    let other = Target::Idx(LEFT_STATE_INDEX + 2 * idx);
    let mut transitions: Vec<Transition> = Vec::new();
    transitions.push(Transition::to(Event::PaddingSent, here));
    transitions.push(Transition::to(Event::NonPaddingSent, other));
    transitions.push(Transition::to(Event::LimitReached, Target::Idx(START_STATE_INDEX)));
    if idx == 0 {
        transitions.push(Transition::to(Event::BlockingBegin, Target::Idx(RIGHT_STATE_INDEX + 2)));
    }
    let s = State {
        transitions,
        timeout: Dist::fixed(Scalar::Finite(interval)),
        action: Dist::fixed(Scalar::Finite(PACKET_SIZE)),
        limit: Dist::range(Scalar::Finite(lo), Scalar::Finite(hi)),
        action_is_block: false,
        bypass: true,
        replace: true,
        limit_includes_nonpadding: false,
    };
    proof {
        assert(s@.transitions =~= right_state_v(idx as int, interval, lo, hi).transitions);
    }
    s
}

/// Generate the first Segment-Scrambler machine: fixed-interval padding
/// up to `min_count` packets per segment, then a trailing count drawn
/// from `[min_trail, max_trail]` (quartered for the secondary pair), all
/// scalars in millionths.
pub fn generate_machine_one(interval: u64, min_count: u64, min_trail: u64, max_trail: u64) -> (m:
    Machine)
    requires
        min_trail <= max_trail,
    ensures
        m@ == spec_machine_one(interval, min_count, min_trail, max_trail),
        m@.wf(),
{
    let ghost target = spec_machine_one(interval, min_count, min_trail, max_trail);
    let mut states: Vec<State> = Vec::new();
    states.push(generate_start_state());
    states.push(generate_block_state());
    states.push(generate_min_state(interval, min_count));
    states.push(generate_left_state(0, interval, min_trail, max_trail));
    states.push(generate_right_state(0, interval, min_trail, max_trail));
    states.push(generate_left_state(1, interval, min_trail / 4, max_trail / 4));
    states.push(generate_right_state(1, interval, min_trail / 4, max_trail / 4));
    let m = Machine::assemble(states);
    proof {
        assert(m@.states =~= target.states);
        lemma_machine_one_wf(interval, min_count, min_trail, max_trail);
    }
    m
}

/// The first machine is well formed: each transition entry's
/// probabilities sum to exactly one unit, every target index is one of
/// its seven states, and each trailing range is ordered.
pub proof fn lemma_machine_one_wf(interval: u64, min_count: u64, min_trail: u64, max_trail: u64)
    requires
        min_trail <= max_trail,
    ensures
        spec_machine_one(interval, min_count, min_trail, max_trail).wf(),
{
    let m = spec_machine_one(interval, min_count, min_trail, max_trail);
    let n = m.states.len();
    assert(n == 7);
    assert(scrambler_start_v().wf(n)) by {
        lemma_transition_to_wf(Event::NonPaddingSent, Target::Idx(BLOCK_STATE_INDEX), n);
    }
    assert(scrambler_block_v().wf(n)) by {
        lemma_transition_to_wf(Event::BlockingBegin, Target::Idx(MIN_STATE_INDEX), n);
    }
    assert(min_state_v(interval, min_count).wf(n)) by {
        lemma_transition_to_wf(Event::PaddingSent, Target::Idx(MIN_STATE_INDEX), n);
        lemma_transition_to_wf(Event::LimitReached, Target::Idx(RIGHT_STATE_INDEX), n);
    }
    let lo1 = (min_trail / 4) as u64;
    let hi1 = (max_trail / 4) as u64;
    assert(lo1 <= hi1);
    assert(left_state_v(0, interval, min_trail, max_trail).wf(n) && left_state_v(
        1,
        interval,
        lo1,
        hi1,
    ).wf(n)) by {
        lemma_transition_to_wf(Event::PaddingSent, Target::Idx(LEFT_STATE_INDEX), n);
        lemma_transition_to_wf(Event::PaddingSent, Target::Idx((LEFT_STATE_INDEX + 2) as usize), n);
        lemma_transition_to_wf(Event::NonPaddingSent, Target::Idx(RIGHT_STATE_INDEX), n);
        lemma_transition_to_wf(Event::NonPaddingSent, Target::Idx((RIGHT_STATE_INDEX + 2) as usize), n);
        lemma_transition_to_wf(Event::LimitReached, Target::Idx(START_STATE_INDEX), n);
        lemma_transition_to_wf(Event::BlockingBegin, Target::Idx((LEFT_STATE_INDEX + 2) as usize), n);
    }
    assert(right_state_v(0, interval, min_trail, max_trail).wf(n) && right_state_v(
        1,
        interval,
        lo1,
        hi1,
    ).wf(n)) by {
        lemma_transition_to_wf(Event::PaddingSent, Target::Idx(RIGHT_STATE_INDEX), n);
        lemma_transition_to_wf(Event::PaddingSent, Target::Idx((RIGHT_STATE_INDEX + 2) as usize), n);
        lemma_transition_to_wf(Event::NonPaddingSent, Target::Idx(LEFT_STATE_INDEX), n);
        lemma_transition_to_wf(Event::NonPaddingSent, Target::Idx((LEFT_STATE_INDEX + 2) as usize), n);
        lemma_transition_to_wf(Event::LimitReached, Target::Idx(START_STATE_INDEX), n);
        lemma_transition_to_wf(Event::BlockingBegin, Target::Idx((RIGHT_STATE_INDEX + 2) as usize), n);
    }
    assert forall|k: int| 0 <= k < n implies (#[trigger] m.states[k]).wf(n) by {
    }
}

/// Synthesis of the first machine is a pure function of its parameters:
/// any two machines that meet its contract for the same parameters are
/// structurally identical.
pub proof fn lemma_machine_one_deterministic(
    m1: Machine,
    m2: Machine,
    interval: u64,
    min_count: u64,
    min_trail: u64,
    max_trail: u64,
)
    requires
        m1@ == spec_machine_one(interval, min_count, min_trail, max_trail),
        m2@ == spec_machine_one(interval, min_count, min_trail, max_trail),
    ensures
        m1@ == m2@,
{
}

// ---------------------------------------------------------------------
// Machine 2: early-termination signal
// ---------------------------------------------------------------------

/// The repeat limit of a counting state: one and a quarter times the
/// segment's minimum count, in millionths.
pub open spec fn signal_threshold(min_count: u64) -> u64 {
    (min_count * 5 / 4) as u64
}

/// The second machine's left counting state: it counts genuine outgoing
/// packets against a threshold of one and a quarter times the segment's
/// minimum count, swaps roles with the right state when blocking begins,
/// and falls into the signal state at the threshold.
pub open spec fn count_left_v(min_count: u64) -> StateV {
    StateV {
        transitions: seq![
            transition_to(Event::NonPaddingSent, Target::Idx(COUNT_LEFT_INDEX)),
            transition_to(Event::BlockingBegin, Target::Idx(COUNT_RIGHT_INDEX)),
            transition_to(Event::LimitReached, Target::Idx(SIGNAL_INDEX)),
        ],
        timeout: Dist::fixed(Scalar::Finite(0)),
        action: Dist::fixed(Scalar::Finite(0)),
        limit: Dist::fixed(Scalar::Finite(signal_threshold(min_count))),
        action_is_block: true,
        bypass: true,
        replace: false,
        limit_includes_nonpadding: false,
    }
}

/// The second machine's right counting state: the mirror image of the
/// left one.
pub open spec fn count_right_v(min_count: u64) -> StateV {
    StateV {
        transitions: seq![
            transition_to(Event::NonPaddingSent, Target::Idx(COUNT_RIGHT_INDEX)),
            transition_to(Event::BlockingBegin, Target::Idx(COUNT_LEFT_INDEX)),
            transition_to(Event::LimitReached, Target::Idx(SIGNAL_INDEX)),
        ],
        timeout: Dist::fixed(Scalar::Finite(0)),
        action: Dist::fixed(Scalar::Finite(0)),
        limit: Dist::fixed(Scalar::Finite(signal_threshold(min_count))),
        action_is_block: true,
        bypass: true,
        replace: false,
        limit_includes_nonpadding: false,
    }
}

/// The second machine's signal state: permanently blocking, so the
/// engine's cross-machine coordination can see that a segment overran.
pub open spec fn signal_v() -> StateV {
    StateV {
        transitions: seq![transition_to(Event::BlockingBegin, Target::Idx(COUNT_RIGHT_INDEX))],
        timeout: Dist::fixed(Scalar::Finite(0)),
        action: Dist::fixed(Scalar::Infinite),
        limit: Dist::disabled(),
        action_is_block: true,
        bypass: true,
        replace: true,
        limit_includes_nonpadding: false,
    }
}

/// The whole second machine: the two mirrored counting states and the
/// signal state, with both budgets disabled.
pub open spec fn spec_machine_two(min_count: u64) -> MachineV {
    MachineV {
        states: seq![count_left_v(min_count), count_right_v(min_count), signal_v()],
        allowed_padding_bytes: 0,
        max_padding_frac: 0,
        allowed_blocked_micros: 0,
        max_blocking_frac: 0,
        include_small_packets: false,
    }
}

/// Generate the left counting state for the second machine.
pub fn generate_count_left_state(min_count: u64) -> (s: State)
    requires
        min_count <= u64::MAX / 5,
    ensures
        s@ == count_left_v(min_count),
{
    let mut transitions: Vec<Transition> = Vec::new();
    transitions.push(Transition::to(Event::NonPaddingSent, Target::Idx(COUNT_LEFT_INDEX)));
    transitions.push(Transition::to(Event::BlockingBegin, Target::Idx(COUNT_RIGHT_INDEX)));
    transitions.push(Transition::to(Event::LimitReached, Target::Idx(SIGNAL_INDEX)));
    let s = State {
        transitions,
        timeout: Dist::fixed(Scalar::Finite(0)),
        action: Dist::fixed(Scalar::Finite(0)),
        limit: Dist::fixed(Scalar::Finite(min_count * 5 / 4)),
        action_is_block: true,
        bypass: true,
        replace: false,
        limit_includes_nonpadding: false,
    };
    proof {
        assert(s@.transitions =~= count_left_v(min_count).transitions);
    }
    s
}

/// Generate the right counting state for the second machine.
pub fn generate_count_right_state(min_count: u64) -> (s: State)
    requires
        min_count <= u64::MAX / 5,
    ensures
        s@ == count_right_v(min_count),
{
    let mut transitions: Vec<Transition> = Vec::new();
    transitions.push(Transition::to(Event::NonPaddingSent, Target::Idx(COUNT_RIGHT_INDEX)));
    transitions.push(Transition::to(Event::BlockingBegin, Target::Idx(COUNT_LEFT_INDEX)));
    transitions.push(Transition::to(Event::LimitReached, Target::Idx(SIGNAL_INDEX)));
    let s = State {
        transitions,
        timeout: Dist::fixed(Scalar::Finite(0)),
        action: Dist::fixed(Scalar::Finite(0)),
        limit: Dist::fixed(Scalar::Finite(min_count * 5 / 4)),
        action_is_block: true,
        bypass: true,
        replace: false,
        limit_includes_nonpadding: false,
    };
    proof {
        assert(s@.transitions =~= count_right_v(min_count).transitions);
    }
    s
}

/// Generate the signal state for the second machine.
pub fn generate_signal_state() -> (s: State)
    ensures
        s@ == signal_v(),
{
    let mut transitions: Vec<Transition> = Vec::new();
    transitions.push(Transition::to(Event::BlockingBegin, Target::Idx(COUNT_RIGHT_INDEX)));
    let s = State {
        transitions,
        timeout: Dist::fixed(Scalar::Finite(0)),
        action: Dist::fixed(Scalar::Infinite),
        limit: Dist::disabled(),
        action_is_block: true,
        bypass: true,
        replace: true,
        limit_includes_nonpadding: false,
    };
    proof {
        assert(s@.transitions =~= signal_v().transitions);
    }
    s
}

/// Generate the second Segment-Scrambler machine for a segment whose
/// minimum count is `min_count`, in millionths.
pub fn generate_machine_two(min_count: u64) -> (m: Machine)
    requires
        min_count <= u64::MAX / 5,
    ensures
        m@ == spec_machine_two(min_count),
        m@.wf(),
{
    let ghost target = spec_machine_two(min_count);
    let mut states: Vec<State> = Vec::new();
    states.push(generate_count_left_state(min_count));
    states.push(generate_count_right_state(min_count));
    states.push(generate_signal_state());
    let m = Machine::assemble(states);
    proof {
        assert(m@.states =~= target.states);
        lemma_machine_two_wf(min_count);
    }
    m
}

/// The second machine is well formed: each transition entry's
/// probabilities sum to exactly one unit and every target index is one
/// of its three states.
pub proof fn lemma_machine_two_wf(min_count: u64)
    ensures
        spec_machine_two(min_count).wf(),
{
    let m = spec_machine_two(min_count);
    let n = m.states.len();
    assert(n == 3);
    lemma_transition_to_wf(Event::NonPaddingSent, Target::Idx(COUNT_LEFT_INDEX), n);
    lemma_transition_to_wf(Event::NonPaddingSent, Target::Idx(COUNT_RIGHT_INDEX), n);
    lemma_transition_to_wf(Event::BlockingBegin, Target::Idx(COUNT_RIGHT_INDEX), n);
    lemma_transition_to_wf(Event::BlockingBegin, Target::Idx(COUNT_LEFT_INDEX), n);
    lemma_transition_to_wf(Event::LimitReached, Target::Idx(SIGNAL_INDEX), n);
    assert forall|k: int| 0 <= k < n implies (#[trigger] m.states[k]).wf(n) by {
    }
}

/// Synthesis of the second machine is a pure function of its parameter:
/// any two machines that meet its contract for the same minimum count
/// are structurally identical.
pub proof fn lemma_machine_two_deterministic(m1: Machine, m2: Machine, min_count: u64)
    requires
        m1@ == spec_machine_two(min_count),
        m2@ == spec_machine_two(min_count),
    ensures
        m1@ == m2@,
{
}

} // verus!
