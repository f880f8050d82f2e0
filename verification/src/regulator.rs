//! Adapted RegulaTor synthesizers: the relay-side rate-decay machine and
//! the client-side counter chain.
//!
//! The relay machine approximates an exponential rate-decay curve by a
//! finite sequence of discrete-rate send states.  The numeric search that
//! sizes each interval runs on the decay curve outside this crate; this
//! module takes the measured intervals and builds the machine, which is
//! where the structural invariants live.  The client machine paces one
//! padding packet per `U` received packets, with a single Bernoulli split
//! at the chain's tail to realize a fractional ratio.
use vstd::prelude::*;

use crate::model::{
    transition_split, transition_to, Dist, Event, Machine, MachineV, Scalar, State, StateV,
    Target, Transition, PACKET_SIZE, PROB_ONE,
};
use crate::model::{lemma_transition_split_wf, lemma_transition_to_wf};

verus! {

/// Index of the relay machine's blocking state.
pub const BLOCK_STATE_INDEX: usize = 1;

/// Index of the relay machine's first send state.
pub const FIRST_SEND_STATE_INDEX: usize = 2;

/// Timeout of the final, decayed-below-threshold send state: one second
/// per packet (1,000,000 microseconds), in millionths.
pub const TERMINAL_TIMEOUT: u64 = 1_000_000 * 1_000_000;

/// Repeat limit of a counting state: two counted events, in millionths.
pub const CLIENT_COUNT_LIMIT: u64 = 2 * 1_000_000;

// ---------------------------------------------------------------------
// Client-side counter chain
// ---------------------------------------------------------------------

/// Number of counting states for an upload ratio given as a whole part
/// and a fractional part in parts per billion: the ratio's ceiling.
pub open spec fn client_count_states(whole: usize, frac: u64) -> int {
    whole + if frac > 0 {
        1int
    } else {
        0int
    }
}

/// The counting state at position `i` of a chain of `n_count` counting
/// states.  It advances to `i + 1` on received traffic; the final state
/// advances only with probability `1 - frac` and otherwise stays, exiting
/// through its repeat limit after two counted events.
pub open spec fn client_count_v(i: int, n_count: int, frac: u64) -> StateV {
    let next = Target::Idx((i + 1) as usize);
    let stay = Target::Idx(i as usize);
    let advance = (PROB_ONE - frac) as u64;
    let transitions = if i == n_count - 1 && frac > 0 {
        seq![
            transition_split(Event::PaddingRecv, next, advance, stay),
            transition_split(Event::NonPaddingRecv, next, advance, stay),
            transition_to(Event::LimitReached, next),
        ]
    } else {
        seq![
            transition_to(Event::PaddingRecv, next),
            transition_to(Event::NonPaddingRecv, next),
        ]
    };
    StateV {
        transitions,
        timeout: Dist::fixed(Scalar::Finite(0)),
        action: Dist::fixed(Scalar::Infinite),
        limit: Dist::fixed(Scalar::Finite(CLIENT_COUNT_LIMIT)),
        action_is_block: true,
        bypass: true,
        replace: true,
        limit_includes_nonpadding: false,
    }
}

/// The send state that closes the client chain: it emits one padding
/// packet immediately and loops back to the first counting state.
pub open spec fn client_send_v() -> StateV {
    StateV {
        transitions: seq![transition_to(Event::PaddingSent, Target::Idx(0))],
        timeout: Dist::fixed(Scalar::Finite(0)),
        action: Dist::fixed(Scalar::Finite(PACKET_SIZE)),
        limit: Dist::disabled(),
        action_is_block: false,
        bypass: true,
        replace: true,
        limit_includes_nonpadding: false,
    }
}

/// The whole client machine: the counting chain followed by the send
/// state, with both machine-wide budgets disabled.
pub open spec fn spec_client_machine(whole: usize, frac: u64) -> MachineV {
    let n = client_count_states(whole, frac);
    MachineV {
        states: Seq::new(
            (n + 1) as nat,
            |i: int|
                if i < n {
                    client_count_v(i, n, frac)
                } else {
                    client_send_v()
                },
        ),
        allowed_padding_bytes: 0,
        max_padding_frac: 0,
        allowed_blocked_micros: 0,
        max_blocking_frac: 0,
        include_small_packets: false,
    }
}

/// Generate a counting state for a client-side machine.
pub fn generate_client_count_state(i: usize, n_count: usize, frac: u64) -> (s: State)
    requires
        i < n_count,
        n_count < usize::MAX,
        frac < PROB_ONE,
    ensures
        s@ == client_count_v(i as int, n_count as int, frac),
{
    let next = Target::Idx(i + 1);
    let stay = Target::Idx(i);
    let mut transitions: Vec<Transition> = Vec::new();
    if i == n_count - 1 && frac > 0 {
        let advance = PROB_ONE - frac;
        transitions.push(Transition::split(Event::PaddingRecv, next, advance, stay));
        transitions.push(Transition::split(Event::NonPaddingRecv, next, advance, stay));
        transitions.push(Transition::to(Event::LimitReached, next));
    } else {
        transitions.push(Transition::to(Event::PaddingRecv, next));
        transitions.push(Transition::to(Event::NonPaddingRecv, next));
    }
    let s = State {
        transitions,
        timeout: Dist::fixed(Scalar::Finite(0)),
        action: Dist::fixed(Scalar::Infinite),
        limit: Dist::fixed(Scalar::Finite(CLIENT_COUNT_LIMIT)),
        action_is_block: true,
        bypass: true,
        replace: true,
        limit_includes_nonpadding: false,
    };
    proof {
        assert(s@.transitions =~= client_count_v(i as int, n_count as int, frac).transitions);
    }
    s
}

/// Generate the send state for a client-side machine.
pub fn generate_client_send_state() -> (s: State)
    ensures
        s@ == client_send_v(),
{
    let mut transitions: Vec<Transition> = Vec::new();
    transitions.push(Transition::to(Event::PaddingSent, Target::Idx(0)));
    let s = State {
        transitions,
        timeout: Dist::fixed(Scalar::Finite(0)),
        action: Dist::fixed(Scalar::Finite(PACKET_SIZE)),
        limit: Dist::disabled(),
        action_is_block: false,
        bypass: true,
        replace: true,
        limit_includes_nonpadding: false,
    };
    proof {
        assert(s@.transitions =~= client_send_v().transitions);
    }
    s
}

/// Generate an Adapted RegulaTor client-side machine for the upload ratio
/// `whole + frac / PROB_ONE` (download packets per upload packet).
pub fn generate_client_machine(whole: usize, frac: u64) -> (m: Machine)
    requires
        whole < usize::MAX - 1,
        frac < PROB_ONE,
        whole > 0 || frac > 0,
    ensures
        m@ == spec_client_machine(whole, frac),
        m@.wf(),
{
    let n_count: usize = if frac > 0 {
        whole + 1
    } else {
        whole
    };
    let ghost target = spec_client_machine(whole, frac);
    let mut states: Vec<State> = Vec::new();
    let mut i: usize = 0;
    while i < n_count
        invariant
            i <= n_count,
            n_count == client_count_states(whole, frac),
            n_count < usize::MAX,
            frac < PROB_ONE,
            target == spec_client_machine(whole, frac),
            states@.len() == i,
            forall|k: int| 0 <= k < i ==> #[trigger] states@[k]@ == target.states[k],
        decreases n_count - i,
    {
        let ghost prefix = states@;
        let st = generate_client_count_state(i, n_count, frac);
        states.push(st);
        proof {
            assert forall|k: int| 0 <= k < i + 1 implies #[trigger] states@[k]@ == target.states[k] by {
                if k < i {
                    assert(states@[k] == prefix[k]);
                } else {
                    assert(states@[k] == st);
                }
            }
        }
        i = i + 1;
    }
    let ghost prefix = states@;
    let st = generate_client_send_state();
    states.push(st);
    let m = Machine::assemble(states);
    proof {
        assert forall|k: int| 0 <= k < states@.len() implies #[trigger] states@[k]@ == target.states[k] by {
            if k < n_count {
                assert(states@[k] == prefix[k]);
            } else {
                assert(states@[k] == st);
            }
        }
        assert(m@.states =~= target.states);
        lemma_client_machine_wf(whole, frac);
    }
    m
}

/// Every client machine is well formed: each transition entry's
/// probabilities sum to exactly one unit and every target index is a
/// position in the machine (or the end sentinel, which the chain never
/// uses).
pub proof fn lemma_client_machine_wf(whole: usize, frac: u64)
    requires
        whole < usize::MAX - 1,
        frac < PROB_ONE,
        whole > 0 || frac > 0,
    ensures
        spec_client_machine(whole, frac).wf(),
{
    let m = spec_client_machine(whole, frac);
    let n_count = client_count_states(whole, frac);
    let n = m.states.len();
    assert(n == n_count + 1);
    assert forall|i: int| 0 <= i < n implies (#[trigger] m.states[i]).wf(n) by {
        if i < n_count {
            let st = client_count_v(i, n_count, frac);
            let next = Target::Idx((i + 1) as usize);
            let stay = Target::Idx(i as usize);
            let advance = (PROB_ONE - frac) as u64;
            if i == n_count - 1 && frac > 0 {
                lemma_transition_split_wf(Event::PaddingRecv, next, advance, stay, n);
                lemma_transition_split_wf(Event::NonPaddingRecv, next, advance, stay, n);
                lemma_transition_to_wf(Event::LimitReached, next, n);
            } else {
                lemma_transition_to_wf(Event::PaddingRecv, next, n);
                lemma_transition_to_wf(Event::NonPaddingRecv, next, n);
            }
        } else {
            lemma_transition_to_wf(Event::PaddingSent, Target::Idx(0), n);
        }
    }
}

/// The client chain has one counting state per unit of the upload
/// ratio's ceiling, plus one send state.  When the ratio is fractional,
/// the final counting state advances on received traffic with
/// probability `1 - frac` and stays put with the remainder; for a whole
/// ratio every counting state advances with certainty.
pub proof fn lemma_client_chain_shape(whole: usize, frac: u64)
    requires
        whole < usize::MAX - 1,
        frac < PROB_ONE,
        whole > 0 || frac > 0,
    ensures
        spec_client_machine(whole, frac).states.len() == client_count_states(whole, frac) + 1,
        frac > 0 ==> spec_client_machine(whole, frac).states[client_count_states(whole, frac)
            - 1].transitions[0].choices[0].prob == PROB_ONE - frac,
        frac > 0 ==> spec_client_machine(whole, frac).states[client_count_states(whole, frac)
            - 1].transitions[0].choices[1].prob == frac,
        frac == 0 ==> spec_client_machine(whole, frac).states[client_count_states(whole, frac)
            - 1].transitions[0].choices[0].prob == PROB_ONE,
{
    let n = client_count_states(whole, frac);
    assert(spec_client_machine(whole, frac).states[n - 1] == client_count_v(n - 1, n, frac));
}

/// Synthesis of the client machine is a pure function of its parameters:
/// any two machines that meet its contract for the same upload ratio are
/// structurally identical.
pub proof fn lemma_client_machine_deterministic(m1: Machine, m2: Machine, whole: usize, frac: u64)
    requires
        m1@ == spec_client_machine(whole, frac),
        m2@ == spec_client_machine(whole, frac),
    ensures
        m1@ == m2@,
{
}

// ---------------------------------------------------------------------
// Relay-side rate-decay machine
// ---------------------------------------------------------------------

/// One measured interval of the decay curve `R * D^t`, as handed in by
/// the caller that ran the numeric interval-width search: the per-packet
/// timeout implied by the midpoint rate, and whether that rate is slow.
#[derive(Clone, Copy, PartialEq, Eq, Structural, Debug)]
pub struct RelayInterval {
    /// Microseconds per packet at the interval's midpoint rate, in
    /// millionths.
    pub timeout: Scalar,
    /// The midpoint rate is below the reset threshold of 200 packets per
    /// second, so observed genuine outgoing traffic restarts the decay
    /// from the first send state.
    pub slow: bool,
}

/// The relay machine's start state: it waits for the first outgoing
/// non-padding packet and then moves to the blocking state.
pub open spec fn relay_start_v() -> StateV {
    StateV {
        transitions: seq![transition_to(Event::NonPaddingSent, Target::Idx(BLOCK_STATE_INDEX))],
        timeout: Dist::disabled(),
        action: Dist::disabled(),
        limit: Dist::disabled(),
        action_is_block: false,
        bypass: false,
        replace: false,
        limit_includes_nonpadding: false,
    }
}

/// The relay machine's blocking state: it blocks genuine traffic
/// indefinitely and moves to the first send state once the engine
/// confirms that blocking began.
pub open spec fn relay_block_v() -> StateV {
    StateV {
        transitions: seq![
            transition_to(Event::BlockingBegin, Target::Idx(FIRST_SEND_STATE_INDEX)),
        ],
        timeout: Dist::fixed(Scalar::Finite(0)),
        action: Dist::fixed(Scalar::Infinite),
        limit: Dist::disabled(),
        action_is_block: true,
        bypass: true,
        replace: true,
        limit_includes_nonpadding: false,
    }
}

/// The send state for interval `i` of `n_send`: it emits one padding
/// packet per timeout, loops on itself, and advances to the next send
/// state once `pps` packets have been sent.  The final state carries the
/// one-second terminal timeout and exits to the end sentinel; it and
/// every slow state restart the decay on genuine outgoing traffic.
pub open spec fn relay_send_v(i: int, n_send: int, pps: u64, interval: RelayInterval) -> StateV {
    let here = Target::Idx((FIRST_SEND_STATE_INDEX + i) as usize);
    let last = i == n_send - 1;
    let next = if last {
        Target::End
    } else {
        Target::Idx((FIRST_SEND_STATE_INDEX + i + 1) as usize)
    };
    let base = seq![
        transition_to(Event::PaddingSent, here),
        transition_to(Event::LimitReached, next),
    ];
    let transitions = if last || interval.slow {
        base + seq![transition_to(Event::NonPaddingSent, Target::Idx(FIRST_SEND_STATE_INDEX))]
    } else {
        base
    };
    StateV {
        transitions,
        timeout: Dist::fixed(
            if last {
                Scalar::Finite(TERMINAL_TIMEOUT)
            } else {
                interval.timeout
            },
        ),
        action: Dist::fixed(Scalar::Finite(PACKET_SIZE)),
        limit: Dist::fixed(Scalar::Finite(pps)),
        action_is_block: false,
        bypass: true,
        replace: true,
        limit_includes_nonpadding: false,
    }
}

/// The whole relay machine: start and blocking states followed by one
/// send state per measured interval, with both budgets disabled.
pub open spec fn spec_relay_machine(intervals: Seq<RelayInterval>, pps: u64) -> MachineV {
    MachineV {
        states: seq![relay_start_v(), relay_block_v()] + Seq::new(
            intervals.len(),
            |i: int| relay_send_v(i, intervals.len() as int, pps, intervals[i]),
        ),
        allowed_padding_bytes: 0,
        max_padding_frac: 0,
        allowed_blocked_micros: 0,
        max_blocking_frac: 0,
        include_small_packets: false,
    }
}

/// Generate the START state for a relay-side machine.
pub fn generate_relay_start_state() -> (s: State)
    ensures
        s@ == relay_start_v(),
{
    let mut transitions: Vec<Transition> = Vec::new();
    transitions.push(Transition::to(Event::NonPaddingSent, Target::Idx(BLOCK_STATE_INDEX)));
    let s = State {
        transitions,
        timeout: Dist::disabled(),
        action: Dist::disabled(),
        limit: Dist::disabled(),
        action_is_block: false,
        bypass: false,
        replace: false,
        limit_includes_nonpadding: false,
    };
    proof {
        assert(s@.transitions =~= relay_start_v().transitions);
    }
    s
}

/// Generate the BLOCK state for a relay-side machine.
pub fn generate_relay_block_state() -> (s: State)
    ensures
        s@ == relay_block_v(),
{
    let mut transitions: Vec<Transition> = Vec::new();
    transitions.push(Transition::to(Event::BlockingBegin, Target::Idx(FIRST_SEND_STATE_INDEX)));
    let s = State {
        transitions,
        timeout: Dist::fixed(Scalar::Finite(0)),
        action: Dist::fixed(Scalar::Infinite),
        limit: Dist::disabled(),
        action_is_block: true,
        bypass: true,
        replace: true,
        limit_includes_nonpadding: false,
    };
    proof {
        assert(s@.transitions =~= relay_block_v().transitions);
    }
    s
}

/// Generate the send state for interval `i` of a relay-side machine with
/// `n_send` send states.
pub fn generate_relay_send_state(i: usize, n_send: usize, pps: u64, interval: RelayInterval) -> (s:
    State)
    requires
        i < n_send,
        n_send <= usize::MAX - 2,
    ensures
        s@ == relay_send_v(i as int, n_send as int, pps, interval),
{
    let here = Target::Idx(FIRST_SEND_STATE_INDEX + i);
    let last = i == n_send - 1;
    let next = if last {
        Target::End
    } else {
        Target::Idx(FIRST_SEND_STATE_INDEX + i + 1)
    };
    let mut transitions: Vec<Transition> = Vec::new();
    transitions.push(Transition::to(Event::PaddingSent, here));
    transitions.push(Transition::to(Event::LimitReached, next));
    if last || interval.slow {
        transitions.push(
            Transition::to(Event::NonPaddingSent, Target::Idx(FIRST_SEND_STATE_INDEX)),
        );
    }
    let timeout = if last {
        Scalar::Finite(TERMINAL_TIMEOUT)
    } else {
        interval.timeout
    };
    let s = State {
        transitions,
        timeout: Dist::fixed(timeout),
        action: Dist::fixed(Scalar::Finite(PACKET_SIZE)),
        limit: Dist::fixed(Scalar::Finite(pps)),
        action_is_block: false,
        bypass: true,
        replace: true,
        limit_includes_nonpadding: false,
    };
    proof {
        assert(s@.transitions =~= relay_send_v(i as int, n_send as int, pps, interval).transitions);
    }
    s
}

/// Generate an Adapted RegulaTor relay-side machine from the measured
/// decay intervals, whose last element is the terminal, decayed interval,
/// and the packet count each send state is limited to.
pub fn generate_relay_machine(intervals: &Vec<RelayInterval>, pps: u64) -> (m: Machine)
    requires
        1 <= intervals@.len() <= usize::MAX - 2,
    ensures
        m@ == spec_relay_machine(intervals@, pps),
        m@.wf(),
{
    let n_send = intervals.len();
    let ghost target = spec_relay_machine(intervals@, pps);
    let mut states: Vec<State> = Vec::new();
    states.push(generate_relay_start_state());
    states.push(generate_relay_block_state());
    let mut i: usize = 0;
    while i < n_send
        invariant
            i <= n_send,
            n_send == intervals@.len(),
            n_send <= usize::MAX - 2,
            target == spec_relay_machine(intervals@, pps),
            states@.len() == i + 2,
            forall|k: int| 0 <= k < i + 2 ==> #[trigger] states@[k]@ == target.states[k],
        decreases n_send - i,
    {
        let ghost prefix = states@;
        let st = generate_relay_send_state(i, n_send, pps, intervals[i]);
        states.push(st);
        proof {
            assert forall|k: int| 0 <= k < i + 3 implies #[trigger] states@[k]@
                == target.states[k] by {
                if k < i + 2 {
                    assert(states@[k] == prefix[k]);
                } else {
                    assert(states@[k] == st);
                }
            }
        }
        i = i + 1;
    }
    let m = Machine::assemble(states);
    proof {
        assert(m@.states =~= target.states);
        lemma_relay_machine_wf(intervals@, pps);
    }
    m
}

/// Every relay machine is well formed: each transition entry's
/// probabilities sum to exactly one unit and every target is a position
/// in the machine or the end sentinel, which only the final send state's
/// limit-reached entry uses.
pub proof fn lemma_relay_machine_wf(intervals: Seq<RelayInterval>, pps: u64)
    requires
        1 <= intervals.len() <= usize::MAX - 2,
    ensures
        spec_relay_machine(intervals, pps).wf(),
{
    let m = spec_relay_machine(intervals, pps);
    let n = m.states.len();
    assert(n == intervals.len() + 2);
    assert forall|k: int| 0 <= k < n implies (#[trigger] m.states[k]).wf(n) by {
        if k == 0 {
            lemma_transition_to_wf(Event::NonPaddingSent, Target::Idx(BLOCK_STATE_INDEX), n);
        } else if k == 1 {
            lemma_transition_to_wf(Event::BlockingBegin, Target::Idx(FIRST_SEND_STATE_INDEX), n);
        } else {
            let i = k - 2;
            let st = relay_send_v(i, intervals.len() as int, pps, intervals[i]);
            assert(m.states[k] == st);
            let here = Target::Idx((FIRST_SEND_STATE_INDEX + i) as usize);
            let last = i == intervals.len() - 1;
            let next = if last {
                Target::End
            } else {
                Target::Idx((FIRST_SEND_STATE_INDEX + i + 1) as usize)
            };
            lemma_transition_to_wf(Event::PaddingSent, here, n);
            lemma_transition_to_wf(Event::LimitReached, next, n);
            lemma_transition_to_wf(Event::NonPaddingSent, Target::Idx(FIRST_SEND_STATE_INDEX), n);
        }
    }
}

/// The relay machine has exactly one send state per measured decay
/// interval, after the start and blocking states.  Every send state but
/// the last advances to the following send state when its packet limit
/// is reached; the final send state's limit-reached entry targets the
/// end sentinel, not another send state.
pub proof fn lemma_relay_machine_send_states(intervals: Seq<RelayInterval>, pps: u64)
    requires
        1 <= intervals.len() <= usize::MAX - 2,
    ensures
        spec_relay_machine(intervals, pps).states.len() == intervals.len() + 2,
        spec_relay_machine(intervals, pps).states.last().transitions[1] == transition_to(
            Event::LimitReached,
            Target::End,
        ),
        forall|i: int|
            0 <= i < intervals.len() - 1 ==> #[trigger] spec_relay_machine(
                intervals,
                pps,
            ).states[i + 2].transitions[1] == transition_to(
                Event::LimitReached,
                Target::Idx((FIRST_SEND_STATE_INDEX + i + 1) as usize),
            ),
{
    let m = spec_relay_machine(intervals, pps);
    let n_send = intervals.len() as int;
    assert(m.states.last() == relay_send_v(n_send - 1, n_send, pps, intervals[n_send - 1]));
    assert forall|i: int| 0 <= i < intervals.len() - 1 implies #[trigger] m.states[i
        + 2].transitions[1] == transition_to(
        Event::LimitReached,
        Target::Idx((FIRST_SEND_STATE_INDEX + i + 1) as usize),
    ) by {
        assert(m.states[i + 2] == relay_send_v(i, n_send, pps, intervals[i]));
    }
}

/// Synthesis of the relay machine is a pure function of its parameters:
/// any two machines that meet its contract for the same intervals and
/// packet count are structurally identical.
pub proof fn lemma_relay_machine_deterministic(
    m1: Machine,
    m2: Machine,
    intervals: Seq<RelayInterval>,
    pps: u64,
)
    requires
        m1@ == spec_relay_machine(intervals, pps),
        m2@ == spec_relay_machine(intervals, pps),
    ensures
        m1@ == m2@,
{
}

} // verus!
