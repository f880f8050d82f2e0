//! The generic data model: events, distributions, transition tables,
//! states and machines, together with their well-formedness invariants.
use vstd::prelude::*;

verus! {

/// One probability unit: probabilities are integers in parts per billion,
/// so a transition entry is well formed when its parts sum to exactly this.
pub const PROB_ONE: u64 = 1_000_000_000;

/// One scalar unit: scalar quantities (microseconds, packet counts, byte
/// sizes) are fixed-point integers counting millionths of a unit.
pub const UNIT: u64 = 1_000_000;

/// Padding packet size in bytes, in millionths.
pub const PACKET_SIZE: u64 = 1500 * 1_000_000;

/// An observable occurrence that the behavior engine reports to a machine
/// and that may trigger a state transition.
#[derive(Clone, Copy, PartialEq, Eq, Structural, Debug)]
pub enum Event {
    /// Non-padding traffic was received.
    NonPaddingRecv,
    /// Padding traffic was received.
    PaddingRecv,
    /// Non-padding traffic was sent.
    NonPaddingSent,
    /// Padding traffic was sent.
    PaddingSent,
    /// Blocking of outgoing traffic began.
    BlockingBegin,
    /// A state's repeat limit was reached (internal completion signal).
    LimitReached,
}

/// A scalar parameter of a distribution, in millionths of a unit, or the
/// unbounded value (used as the action "size" of permanently blocking
/// states).
#[derive(Clone, Copy, PartialEq, Eq, Structural, Debug)]
pub enum Scalar {
    /// A finite value, counting millionths of a unit.
    Finite(u64),
    /// The unbounded value.
    Infinite,
}

/// `a` is at most `b` in the scalar order, where the unbounded value sits
/// above every finite one.
pub open spec fn scalar_le(a: Scalar, b: Scalar) -> bool {
    match (a, b) {
        (Scalar::Finite(x), Scalar::Finite(y)) => x <= y,
        (Scalar::Finite(_), Scalar::Infinite) => true,
        (Scalar::Infinite, Scalar::Finite(_)) => false,
        (Scalar::Infinite, Scalar::Infinite) => true,
    }
}

/// The family a distribution samples from.  Machines built here either
/// disable a distribution or draw uniformly from a closed range (a range
/// with equal endpoints being a fixed value).
#[derive(Clone, Copy, PartialEq, Eq, Structural, Debug)]
pub enum DistKind {
    /// The distribution is not sampled at all.
    Disabled,
    /// Uniformly random over `[param1, param2]`; a fixed value when the
    /// endpoints coincide.
    Uniform,
}

/// How to sample one scalar (a delay, a size, or a repeat count): a kind,
/// its two parameters, a starting offset added to the sample, and a cap.
#[derive(Clone, Copy, PartialEq, Eq, Structural, Debug)]
pub struct Dist {
    /// The distribution family.
    pub kind: DistKind,
    /// First parameter; the low endpoint for `Uniform`.
    pub param1: Scalar,
    /// Second parameter; the high endpoint for `Uniform`.
    pub param2: Scalar,
    /// Offset added to each sampled value.
    pub start: Scalar,
    /// Cap applied to each sampled value.
    pub max: Scalar,
}

impl Dist {
    /// A uniform range is ordered low to high.
    pub open spec fn wf(self) -> bool {
        self.kind is Uniform ==> scalar_le(self.param1, self.param2)
    }

    /// A distribution that is never sampled.
    pub open spec fn spec_disabled() -> Dist {
        Dist {
            kind: DistKind::Disabled,
            param1: Scalar::Finite(0),
            param2: Scalar::Finite(0),
            start: Scalar::Finite(0),
            max: Scalar::Finite(0),
        }
    }

    /// A distribution that always yields `v`.
    pub open spec fn spec_fixed(v: Scalar) -> Dist {
        Dist {
            kind: DistKind::Uniform,
            param1: v,
            param2: v,
            start: Scalar::Finite(0),
            max: Scalar::Finite(0),
        }
    }

    /// A distribution uniform over `[lo, hi]`.
    pub open spec fn spec_range(lo: Scalar, hi: Scalar) -> Dist {
        Dist {
            kind: DistKind::Uniform,
            param1: lo,
            param2: hi,
            start: Scalar::Finite(0),
            max: Scalar::Finite(0),
        }
    }

    /// A distribution that is never sampled.
    #[verifier::when_used_as_spec(spec_disabled)]
    pub fn disabled() -> (d: Dist)
        ensures
            d == Dist::spec_disabled(),
    {
        Dist {
            kind: DistKind::Disabled,
            param1: Scalar::Finite(0),
            param2: Scalar::Finite(0),
            start: Scalar::Finite(0),
            max: Scalar::Finite(0),
        }
    }

    /// A distribution that always yields `v`.
    #[verifier::when_used_as_spec(spec_fixed)]
    pub fn fixed(v: Scalar) -> (d: Dist)
        ensures
            d == Dist::spec_fixed(v),
    {
        Dist {
            kind: DistKind::Uniform,
            param1: v,
            param2: v,
            start: Scalar::Finite(0),
            max: Scalar::Finite(0),
        }
    }

    /// A distribution uniform over `[lo, hi]`.
    #[verifier::when_used_as_spec(spec_range)]
    pub fn range(lo: Scalar, hi: Scalar) -> (d: Dist)
        ensures
            d == Dist::spec_range(lo, hi),
    {
        Dist {
            kind: DistKind::Uniform,
            param1: lo,
            param2: hi,
            start: Scalar::Finite(0),
            max: Scalar::Finite(0),
        }
    }
}

/// Where a transition leads: a position in the same machine's state
/// sequence, or the reserved sentinel that ends the machine.
#[derive(Clone, Copy, PartialEq, Eq, Structural, Debug)]
pub enum Target {
    /// The state at this position in the machine's state sequence.
    Idx(usize),
    /// The machine stops.
    End,
}

/// One weighted outcome of a transition entry.
#[derive(Clone, Copy, PartialEq, Eq, Structural, Debug)]
pub struct Choice {
    /// Where this outcome leads.
    pub target: Target,
    /// Its probability, in parts per billion.
    pub prob: u64,
}

impl Choice {
    /// The probability is positive and at most one unit, and an index
    /// target is a valid position among `n` states.
    pub open spec fn wf(self, n: nat) -> bool {
        &&& 0 < self.prob <= PROB_ONE
        &&& (self.target matches Target::Idx(j) ==> j < n)
    }
}

/// The probabilities of a sequence of choices, summed exactly.
pub open spec fn choice_sum(s: Seq<Choice>) -> int
    decreases s.len(),
{
    if s.len() == 0 {
        0
    } else {
        choice_sum(s.drop_last()) + s.last().prob
    }
}

/// One entry of a transition table: for one event, the weighted outcomes.
#[derive(Clone, PartialEq, Eq, Debug)]
pub struct Transition {
    /// The observed event this entry answers.
    pub event: Event,
    /// The weighted outcomes; their probabilities sum to one unit.
    pub choices: Vec<Choice>,
}

/// The mathematical value of a `Transition`.
pub struct TransitionV {
    /// The observed event this entry answers.
    pub event: Event,
    /// The weighted outcomes.
    pub choices: Seq<Choice>,
}

impl View for Transition {
    type V = TransitionV;

    open spec fn view(&self) -> TransitionV {
        TransitionV { event: self.event, choices: self.choices@ }
    }
}

impl TransitionV {
    /// The entry names at least one outcome, the probabilities sum to
    /// exactly one unit, and every outcome is well formed for `n` states.
    pub open spec fn wf(self, n: nat) -> bool {
        &&& self.choices.len() > 0
        &&& choice_sum(self.choices) == PROB_ONE
        &&& forall|i: int|
            0 <= i < self.choices.len() ==> (#[trigger] self.choices[i]).wf(n)
    }
}

/// The entry that, on `event`, always moves to `target`.
pub open spec fn transition_to(event: Event, target: Target) -> TransitionV {
    TransitionV { event, choices: seq![Choice { target, prob: PROB_ONE }] }
}

/// The entry that, on `event`, moves to `to` with probability `p` and to
/// `stay` with the remaining probability.
pub open spec fn transition_split(event: Event, to: Target, p: u64, stay: Target) -> TransitionV {
    TransitionV {
        event,
        choices: seq![
            Choice { target: to, prob: p },
            Choice { target: stay, prob: (PROB_ONE - p) as u64 },
        ],
    }
}

impl Transition {
    /// Build the entry that, on `event`, always moves to `target`.
    pub fn to(event: Event, target: Target) -> (t: Transition)
        ensures
            t@ == transition_to(event, target),
    {
        let mut choices: Vec<Choice> = Vec::new();
        choices.push(Choice { target, prob: PROB_ONE });
        let t = Transition { event, choices };
        proof {
            assert(t@.choices =~= transition_to(event, target).choices);
        }
        t
    }

    /// Build the entry that, on `event`, moves to `to` with probability `p`
    /// and stays at `stay` with the remaining probability.
    pub fn split(event: Event, to: Target, p: u64, stay: Target) -> (t: Transition)
        requires
            p <= PROB_ONE,
        ensures
            t@ == transition_split(event, to, p, stay),
    {
        let mut choices: Vec<Choice> = Vec::new();
        choices.push(Choice { target: to, prob: p });
        choices.push(Choice { target: stay, prob: PROB_ONE - p });
        let t = Transition { event, choices };
        proof {
            assert(t@.choices =~= transition_split(event, to, p, stay).choices);
        }
        t
    }
}

/// An always-move entry is well formed as soon as its target is valid.
pub proof fn lemma_transition_to_wf(event: Event, target: Target, n: nat)
    requires
        target matches Target::Idx(j) ==> j < n,
    ensures
        transition_to(event, target).wf(n),
{
    let cs = transition_to(event, target).choices;
    assert(choice_sum(Seq::<Choice>::empty()) == 0);
    assert(cs.drop_last() =~= Seq::<Choice>::empty());
    assert(choice_sum(cs) == PROB_ONE);
}

/// A two-way split whose probabilities are both positive and sum to one
/// unit is well formed as soon as both targets are valid.
pub proof fn lemma_transition_split_wf(event: Event, to: Target, p: u64, stay: Target, n: nat)
    requires
        0 < p < PROB_ONE,
        to matches Target::Idx(j) ==> j < n,
        stay matches Target::Idx(j) ==> j < n,
    ensures
        transition_split(event, to, p, stay).wf(n),
{
    let cs = transition_split(event, to, p, stay).choices;
    let first = seq![Choice { target: to, prob: p }];
    assert(choice_sum(Seq::<Choice>::empty()) == 0);
    assert(first.drop_last() =~= Seq::<Choice>::empty());
    assert(choice_sum(first) == p);
    assert(cs.drop_last() =~= first);
    assert(choice_sum(cs) == PROB_ONE);
}

/// One node of a machine: its transition table, the distributions for its
/// timeout, its action and its repeat limit, and its behavioral flags.
#[derive(Clone, PartialEq, Eq, Debug)]
pub struct State {
    /// The transition table, one entry per handled event.
    pub transitions: Vec<Transition>,
    /// Sampled on entry: how long until the action fires.
    pub timeout: Dist,
    /// Sampled when the action fires: padding size, or blocking duration.
    pub action: Dist,
    /// Sampled bound on how often the action may fire before the state
    /// raises the limit-reached event to itself.
    pub limit: Dist,
    /// The action blocks outgoing traffic instead of injecting padding.
    pub action_is_block: bool,
    /// Padding may bypass blocking (or blocking may be bypassed).
    pub bypass: bool,
    /// The action may replace a pending one.
    pub replace: bool,
    /// Non-padding traffic also counts against the repeat limit.
    pub limit_includes_nonpadding: bool,
}

/// The mathematical value of a `State`.
pub struct StateV {
    /// The transition table entries.
    pub transitions: Seq<TransitionV>,
    /// Timeout distribution.
    pub timeout: Dist,
    /// Action distribution.
    pub action: Dist,
    /// Repeat-limit distribution.
    pub limit: Dist,
    /// The action blocks instead of padding.
    pub action_is_block: bool,
    /// Padding may bypass blocking.
    pub bypass: bool,
    /// The action may replace a pending one.
    pub replace: bool,
    /// Non-padding traffic also counts against the repeat limit.
    pub limit_includes_nonpadding: bool,
}

impl View for State {
    type V = StateV;

    open spec fn view(&self) -> StateV {
        StateV {
            transitions: self.transitions@.map_values(|t: Transition| t@),
            timeout: self.timeout,
            action: self.action,
            limit: self.limit,
            action_is_block: self.action_is_block,
            bypass: self.bypass,
            replace: self.replace,
            limit_includes_nonpadding: self.limit_includes_nonpadding,
        }
    }
}

impl StateV {
    /// Every entry is well formed for a machine of `n` states, no event
    /// has two entries, and the distributions are well formed.
    pub open spec fn wf(self, n: nat) -> bool {
        &&& forall|i: int|
            0 <= i < self.transitions.len() ==> (#[trigger] self.transitions[i]).wf(n)
        &&& forall|i: int, j: int|
            0 <= i < j < self.transitions.len()
                ==> self.transitions[i].event != self.transitions[j].event
        &&& self.timeout.wf()
        &&& self.action.wf()
        &&& self.limit.wf()
    }
}

/// An ordered sequence of states plus machine-wide budgets; the unit
/// handed to the behavior engine.  The first state is the implicit start
/// state.  Budget fractions are probabilities in parts per billion.
#[derive(Clone, PartialEq, Eq, Debug)]
pub struct Machine {
    /// The states, addressed only by their position here.
    pub states: Vec<State>,
    /// Padding-byte budget; zero when disabled.
    pub allowed_padding_bytes: u64,
    /// Maximum padding fraction; zero when disabled.
    pub max_padding_frac: u64,
    /// Blocking-time budget in microseconds; zero when disabled.
    pub allowed_blocked_micros: u64,
    /// Maximum blocking fraction; zero when disabled.
    pub max_blocking_frac: u64,
    /// Whether small packets count for the engine's accounting.
    pub include_small_packets: bool,
}

/// The mathematical value of a `Machine`.
pub struct MachineV {
    /// The states, addressed only by their position here.
    pub states: Seq<StateV>,
    /// Padding-byte budget.
    pub allowed_padding_bytes: u64,
    /// Maximum padding fraction.
    pub max_padding_frac: u64,
    /// Blocking-time budget in microseconds.
    pub allowed_blocked_micros: u64,
    /// Maximum blocking fraction.
    pub max_blocking_frac: u64,
    /// Whether small packets count.
    pub include_small_packets: bool,
}

impl View for Machine {
    type V = MachineV;

    open spec fn view(&self) -> MachineV {
        MachineV {
            states: self.states@.map_values(|s: State| s@),
            allowed_padding_bytes: self.allowed_padding_bytes,
            max_padding_frac: self.max_padding_frac,
            allowed_blocked_micros: self.allowed_blocked_micros,
            max_blocking_frac: self.max_blocking_frac,
            include_small_packets: self.include_small_packets,
        }
    }
}

impl MachineV {
    /// The machine has at least one state, every state is well formed with
    /// respect to the machine's own length, and the budget fractions are
    /// genuine probabilities.
    pub open spec fn wf(self) -> bool {
        &&& self.states.len() > 0
        &&& forall|i: int|
            0 <= i < self.states.len() ==> (#[trigger] self.states[i]).wf(self.states.len())
        &&& self.max_padding_frac <= PROB_ONE
        &&& self.max_blocking_frac <= PROB_ONE
    }
}

impl Machine {
    /// Assemble a machine from a caller-supplied state sequence, with both
    /// machine-wide budgets disabled, ready for encoding.  Pure
    /// construction: no validation beyond what the caller's states carry.
    pub fn assemble(states: Vec<State>) -> (m: Machine)
        ensures
            m@ == (MachineV {
                states: states@.map_values(|s: State| s@),
                allowed_padding_bytes: 0,
                max_padding_frac: 0,
                allowed_blocked_micros: 0,
                max_blocking_frac: 0,
                include_small_packets: false,
            }),
    {
        Machine {
            states,
            allowed_padding_bytes: 0,
            max_padding_frac: 0,
            allowed_blocked_micros: 0,
            max_blocking_frac: 0,
            include_small_packets: false,
        }
    }
}

} // verus!
