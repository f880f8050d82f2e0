use defenses::model::{
    Choice, Dist, DistKind, Event, Machine, Scalar, State, Target, Transition, PACKET_SIZE,
    PROB_ONE, UNIT,
};

#[test]
fn dist_disabled_has_zero_parameters() {
    let d = Dist::disabled();
    assert_eq!(d.kind, DistKind::Disabled);
    assert_eq!(d.param1, Scalar::Finite(0));
    assert_eq!(d.param2, Scalar::Finite(0));
    assert_eq!(d.start, Scalar::Finite(0));
    assert_eq!(d.max, Scalar::Finite(0));
}

#[test]
fn dist_fixed_collapses_the_range() {
    let d = Dist::fixed(Scalar::Finite(7 * UNIT));
    assert_eq!(d.kind, DistKind::Uniform);
    assert_eq!(d.param1, Scalar::Finite(7 * UNIT));
    assert_eq!(d.param2, Scalar::Finite(7 * UNIT));
    let inf = Dist::fixed(Scalar::Infinite);
    assert_eq!(inf.param1, Scalar::Infinite);
    assert_eq!(inf.param2, Scalar::Infinite);
}

#[test]
fn dist_range_keeps_both_endpoints() {
    let d = Dist::range(Scalar::Finite(3 * UNIT), Scalar::Finite(9 * UNIT));
    assert_eq!(d.kind, DistKind::Uniform);
    assert_eq!(d.param1, Scalar::Finite(3 * UNIT));
    assert_eq!(d.param2, Scalar::Finite(9 * UNIT));
    assert_eq!(d.start, Scalar::Finite(0));
    assert_eq!(d.max, Scalar::Finite(0));
}

#[test]
fn transition_to_carries_full_probability() {
    let t = Transition::to(Event::PaddingSent, Target::Idx(4));
    assert_eq!(t.event, Event::PaddingSent);
    assert_eq!(t.choices.len(), 1);
    assert_eq!(t.choices[0], Choice { target: Target::Idx(4), prob: PROB_ONE });
}

#[test]
fn transition_split_probabilities_sum_to_one_unit() {
    let t = Transition::split(Event::PaddingRecv, Target::Idx(1), 300_000_000, Target::Idx(0));
    assert_eq!(t.event, Event::PaddingRecv);
    assert_eq!(t.choices.len(), 2);
    assert_eq!(t.choices[0], Choice { target: Target::Idx(1), prob: 300_000_000 });
    assert_eq!(t.choices[1], Choice { target: Target::Idx(0), prob: 700_000_000 });
    assert_eq!(t.choices[0].prob + t.choices[1].prob, PROB_ONE);
}

#[test]
fn transition_split_accepts_end_sentinel() {
    let t = Transition::split(Event::LimitReached, Target::End, 250_000_000, Target::Idx(2));
    assert_eq!(t.choices[0].target, Target::End);
    assert_eq!(t.choices[1].prob, 750_000_000);
}

#[test]
fn assemble_disables_both_budgets() {
    let send = State {
        transitions: vec![Transition::to(Event::PaddingSent, Target::Idx(0))],
        timeout: Dist::fixed(Scalar::Finite(UNIT)),
        action: Dist::fixed(Scalar::Finite(PACKET_SIZE)),
        limit: Dist::disabled(),
        action_is_block: false,
        bypass: true,
        replace: true,
        limit_includes_nonpadding: false,
    };
    let m: Machine = Machine::assemble(vec![send]);
    assert_eq!(m.states.len(), 1);
    assert_eq!(m.allowed_padding_bytes, 0);
    assert_eq!(m.max_padding_frac, 0);
    assert_eq!(m.allowed_blocked_micros, 0);
    assert_eq!(m.max_blocking_frac, 0);
    assert!(!m.include_small_packets);
    assert_eq!(m.states[0].action.param1, Scalar::Finite(PACKET_SIZE));
}

#[test]
fn packet_size_is_fifteen_hundred_bytes() {
    assert_eq!(PACKET_SIZE, 1500 * UNIT);
}
