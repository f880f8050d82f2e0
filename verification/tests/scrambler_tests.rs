use defenses::model::{Dist, Event, Machine, Scalar, Target, PACKET_SIZE, PROB_ONE, UNIT};
use defenses::scrambler::{generate_machine_one, generate_machine_two};

fn sum_check(m: &Machine) {
    for state in &m.states {
        for entry in &state.transitions {
            assert!(!entry.choices.is_empty());
            let total: u64 = entry.choices.iter().map(|c| c.prob).sum();
            assert_eq!(total, PROB_ONE);
        }
    }
}

fn target_of(m: &Machine, state: usize, event: Event) -> Target {
    let entry = m.states[state]
        .transitions
        .iter()
        .find(|t| t.event == event)
        .expect("missing transition entry");
    assert_eq!(entry.choices.len(), 1);
    assert_eq!(entry.choices[0].prob, PROB_ONE);
    entry.choices[0].target
}

#[test]
fn machine_one_has_seven_states() {
    let m = generate_machine_one(5_000 * UNIT, 600 * UNIT, 40 * UNIT, 100 * UNIT);
    assert_eq!(m.states.len(), 7);
}

#[test]
fn machine_one_trailing_ranges() {
    // The primary left/right pair draws its repeat limit from
    // [min_trail, max_trail]; the secondary pair from the quartered range.
    let m = generate_machine_one(5_000 * UNIT, 600 * UNIT, 40 * UNIT, 100 * UNIT);
    let primary = Dist::range(Scalar::Finite(40 * UNIT), Scalar::Finite(100 * UNIT));
    let secondary = Dist::range(Scalar::Finite(10 * UNIT), Scalar::Finite(25 * UNIT));
    assert_eq!(m.states[3].limit, primary);
    assert_eq!(m.states[4].limit, primary);
    assert_eq!(m.states[5].limit, secondary);
    assert_eq!(m.states[6].limit, secondary);
}

#[test]
fn machine_one_wiring() {
    let m = generate_machine_one(5_000 * UNIT, 600 * UNIT, 40 * UNIT, 100 * UNIT);
    // START -> BLOCK -> MIN.
    assert_eq!(target_of(&m, 0, Event::NonPaddingSent), Target::Idx(1));
    assert_eq!(target_of(&m, 1, Event::BlockingBegin), Target::Idx(2));
    // MIN pads itself and exits to the primary right state.
    assert_eq!(target_of(&m, 2, Event::PaddingSent), Target::Idx(2));
    assert_eq!(target_of(&m, 2, Event::LimitReached), Target::Idx(4));
    assert_eq!(m.states[2].limit, Dist::fixed(Scalar::Finite(600 * UNIT)));
    assert_eq!(m.states[2].timeout, Dist::fixed(Scalar::Finite(5_000 * UNIT)));
    // The primary pair alternates on genuine traffic and returns to START
    // on its limit; blocking hands over to the secondary pair.
    assert_eq!(target_of(&m, 3, Event::PaddingSent), Target::Idx(3));
    assert_eq!(target_of(&m, 3, Event::NonPaddingSent), Target::Idx(4));
    assert_eq!(target_of(&m, 3, Event::LimitReached), Target::Idx(0));
    assert_eq!(target_of(&m, 3, Event::BlockingBegin), Target::Idx(5));
    assert_eq!(target_of(&m, 4, Event::PaddingSent), Target::Idx(4));
    assert_eq!(target_of(&m, 4, Event::NonPaddingSent), Target::Idx(3));
    assert_eq!(target_of(&m, 4, Event::LimitReached), Target::Idx(0));
    assert_eq!(target_of(&m, 4, Event::BlockingBegin), Target::Idx(6));
    // The secondary pair has no further blocking hand-over.
    assert_eq!(m.states[5].transitions.len(), 3);
    assert_eq!(m.states[6].transitions.len(), 3);
    assert_eq!(target_of(&m, 5, Event::NonPaddingSent), Target::Idx(6));
    assert_eq!(target_of(&m, 6, Event::NonPaddingSent), Target::Idx(5));
    assert_eq!(target_of(&m, 5, Event::LimitReached), Target::Idx(0));
    assert_eq!(target_of(&m, 6, Event::LimitReached), Target::Idx(0));
}

#[test]
fn machine_one_padding_states_send_packets() {
    let m = generate_machine_one(5_000 * UNIT, 600 * UNIT, 40 * UNIT, 100 * UNIT);
    for i in [2usize, 3, 4, 5, 6] {
        assert_eq!(m.states[i].action, Dist::fixed(Scalar::Finite(PACKET_SIZE)));
        assert!(!m.states[i].action_is_block);
        assert!(m.states[i].bypass);
        assert!(m.states[i].replace);
    }
    assert!(m.states[0].action_is_block);
    assert!(m.states[1].action_is_block);
    assert_eq!(m.states[1].action, Dist::fixed(Scalar::Infinite));
    assert_eq!(m.states[0].action, Dist::fixed(Scalar::Finite(0)));
}

#[test]
fn machine_one_probabilities_sum_to_one() {
    sum_check(&generate_machine_one(5_000 * UNIT, 600 * UNIT, 40 * UNIT, 100 * UNIT));
}

#[test]
fn machine_one_is_deterministic() {
    let a = generate_machine_one(5_000 * UNIT, 600 * UNIT, 40 * UNIT, 100 * UNIT);
    let b = generate_machine_one(5_000 * UNIT, 600 * UNIT, 40 * UNIT, 100 * UNIT);
    assert_eq!(a, b);
}

#[test]
fn machine_two_threshold_is_one_and_a_quarter_minimum() {
    let m = generate_machine_two(600 * UNIT);
    assert_eq!(m.states.len(), 3);
    assert_eq!(m.states[0].limit, Dist::fixed(Scalar::Finite(750 * UNIT)));
    assert_eq!(m.states[1].limit, Dist::fixed(Scalar::Finite(750 * UNIT)));
}

#[test]
fn machine_two_wiring() {
    let m = generate_machine_two(600 * UNIT);
    // The counting states track genuine sends on themselves, swap roles
    // when blocking begins, and fall into the signal state at the limit.
    assert_eq!(target_of(&m, 0, Event::NonPaddingSent), Target::Idx(0));
    assert_eq!(target_of(&m, 0, Event::BlockingBegin), Target::Idx(1));
    assert_eq!(target_of(&m, 0, Event::LimitReached), Target::Idx(2));
    assert_eq!(target_of(&m, 1, Event::NonPaddingSent), Target::Idx(1));
    assert_eq!(target_of(&m, 1, Event::BlockingBegin), Target::Idx(0));
    assert_eq!(target_of(&m, 1, Event::LimitReached), Target::Idx(2));
    // The signal state blocks permanently.
    assert_eq!(m.states[2].transitions.len(), 1);
    assert_eq!(target_of(&m, 2, Event::BlockingBegin), Target::Idx(1));
    assert!(m.states[2].action_is_block);
    assert_eq!(m.states[2].action, Dist::fixed(Scalar::Infinite));
    // The counting states block but never replace pending actions.
    assert!(m.states[0].action_is_block);
    assert!(m.states[0].bypass);
    assert!(!m.states[0].replace);
}

#[test]
fn machine_two_probabilities_sum_to_one() {
    sum_check(&generate_machine_two(600 * UNIT));
}

#[test]
fn machine_two_is_deterministic() {
    let a = generate_machine_two(600 * UNIT);
    let b = generate_machine_two(600 * UNIT);
    assert_eq!(a, b);
}
