use defenses::model::{
    Dist, DistKind, Event, Machine, Scalar, Target, PACKET_SIZE, PROB_ONE, UNIT,
};
use defenses::regulator::{
    generate_client_machine, generate_relay_machine, RelayInterval, CLIENT_COUNT_LIMIT,
    TERMINAL_TIMEOUT,
};

fn assert_probabilities_sum_to_one(m: &Machine) {
    for state in &m.states {
        for entry in &state.transitions {
            assert!(!entry.choices.is_empty());
            let total: u64 = entry.choices.iter().map(|c| c.prob).sum();
            assert_eq!(total, PROB_ONE);
        }
    }
}

fn entry<'a>(
    m: &'a Machine,
    state: usize,
    event: Event,
) -> &'a defenses::model::Transition {
    m.states[state]
        .transitions
        .iter()
        .find(|t| t.event == event)
        .expect("missing transition entry")
}

#[test]
fn client_machine_ratio_two_and_a_half() {
    // Upload ratio 2.5: three counting states plus one send state, and the
    // final counting state advances with probability 0.5.
    let m = generate_client_machine(2, 500_000_000);
    assert_eq!(m.states.len(), 4);
    for i in 0..2 {
        let padding = entry(&m, i, Event::PaddingRecv);
        assert_eq!(padding.choices.len(), 1);
        assert_eq!(padding.choices[0].target, Target::Idx(i + 1));
        assert_eq!(padding.choices[0].prob, PROB_ONE);
        let nonpadding = entry(&m, i, Event::NonPaddingRecv);
        assert_eq!(nonpadding.choices[0].target, Target::Idx(i + 1));
        assert_eq!(m.states[i].transitions.len(), 2);
    }
    let last = entry(&m, 2, Event::PaddingRecv);
    assert_eq!(last.choices.len(), 2);
    assert_eq!(last.choices[0].target, Target::Idx(3));
    assert_eq!(last.choices[0].prob, 500_000_000);
    assert_eq!(last.choices[1].target, Target::Idx(2));
    assert_eq!(last.choices[1].prob, 500_000_000);
    let exit = entry(&m, 2, Event::LimitReached);
    assert_eq!(exit.choices.len(), 1);
    assert_eq!(exit.choices[0].target, Target::Idx(3));
    assert_eq!(m.states[2].limit, Dist::fixed(Scalar::Finite(CLIENT_COUNT_LIMIT)));
    // The send state loops back to the head of the chain.
    let send = entry(&m, 3, Event::PaddingSent);
    assert_eq!(send.choices[0].target, Target::Idx(0));
    assert_eq!(m.states[3].action, Dist::fixed(Scalar::Finite(PACKET_SIZE)));
    assert_eq!(m.states[3].transitions.len(), 1);
}

#[test]
fn client_machine_whole_ratio_has_no_bernoulli_split() {
    let m = generate_client_machine(3, 0);
    assert_eq!(m.states.len(), 4);
    for i in 0..3 {
        assert_eq!(m.states[i].transitions.len(), 2);
        let padding = entry(&m, i, Event::PaddingRecv);
        assert_eq!(padding.choices.len(), 1);
        assert_eq!(padding.choices[0].prob, PROB_ONE);
        assert_eq!(padding.choices[0].target, Target::Idx(i + 1));
    }
}

#[test]
fn client_machine_fractional_ratio_below_one() {
    let m = generate_client_machine(0, 250_000_000);
    assert_eq!(m.states.len(), 2);
    let padding = entry(&m, 0, Event::PaddingRecv);
    assert_eq!(padding.choices[0].target, Target::Idx(1));
    assert_eq!(padding.choices[0].prob, 750_000_000);
    assert_eq!(padding.choices[1].target, Target::Idx(0));
    assert_eq!(padding.choices[1].prob, 250_000_000);
}

#[test]
fn client_machine_counting_states_block_with_unbounded_action() {
    let m = generate_client_machine(2, 500_000_000);
    for i in 0..3 {
        assert!(m.states[i].action_is_block);
        assert!(m.states[i].bypass);
        assert!(m.states[i].replace);
        assert_eq!(m.states[i].action, Dist::fixed(Scalar::Infinite));
        assert_eq!(m.states[i].timeout, Dist::fixed(Scalar::Finite(0)));
    }
    assert!(!m.states[3].action_is_block);
}

#[test]
fn client_machine_probabilities_sum_to_one() {
    assert_probabilities_sum_to_one(&generate_client_machine(2, 500_000_000));
    assert_probabilities_sum_to_one(&generate_client_machine(0, 333_333_333));
    assert_probabilities_sum_to_one(&generate_client_machine(5, 0));
}

#[test]
fn client_machine_is_deterministic() {
    let a = generate_client_machine(2, 500_000_000);
    let b = generate_client_machine(2, 500_000_000);
    assert_eq!(a, b);
}

#[test]
fn relay_machine_wiring() {
    // Three measured intervals: a fast one, a slow one, and the terminal
    // decayed interval.
    let intervals = vec![
        RelayInterval { timeout: Scalar::Finite(2_500 * UNIT), slow: false },
        RelayInterval { timeout: Scalar::Finite(10_000 * UNIT), slow: true },
        RelayInterval { timeout: Scalar::Infinite, slow: true },
    ];
    let m = generate_relay_machine(&intervals, 100 * UNIT);
    assert_eq!(m.states.len(), 5);

    // START waits for outgoing traffic, BLOCK waits for confirmation.
    let start = entry(&m, 0, Event::NonPaddingSent);
    assert_eq!(start.choices[0].target, Target::Idx(1));
    assert_eq!(m.states[0].transitions.len(), 1);
    let block = entry(&m, 1, Event::BlockingBegin);
    assert_eq!(block.choices[0].target, Target::Idx(2));
    assert!(m.states[1].action_is_block);
    assert_eq!(m.states[1].action, Dist::fixed(Scalar::Infinite));

    // A fast send state has no reset entry.
    assert_eq!(m.states[2].transitions.len(), 2);
    assert_eq!(entry(&m, 2, Event::PaddingSent).choices[0].target, Target::Idx(2));
    assert_eq!(entry(&m, 2, Event::LimitReached).choices[0].target, Target::Idx(3));
    assert_eq!(m.states[2].timeout, Dist::fixed(Scalar::Finite(2_500 * UNIT)));
    assert_eq!(m.states[2].limit, Dist::fixed(Scalar::Finite(100 * UNIT)));
    assert_eq!(m.states[2].action, Dist::fixed(Scalar::Finite(PACKET_SIZE)));

    // A slow send state restarts the decay on genuine outgoing traffic.
    assert_eq!(m.states[3].transitions.len(), 3);
    assert_eq!(entry(&m, 3, Event::NonPaddingSent).choices[0].target, Target::Idx(2));
    assert_eq!(entry(&m, 3, Event::LimitReached).choices[0].target, Target::Idx(4));
    assert_eq!(m.states[3].timeout, Dist::fixed(Scalar::Finite(10_000 * UNIT)));

    // The final send state carries the terminal timeout and exits to the
    // end sentinel.
    assert_eq!(entry(&m, 4, Event::LimitReached).choices[0].target, Target::End);
    assert_eq!(entry(&m, 4, Event::NonPaddingSent).choices[0].target, Target::Idx(2));
    assert_eq!(m.states[4].timeout, Dist::fixed(Scalar::Finite(TERMINAL_TIMEOUT)));
}

#[test]
fn relay_machine_single_interval_exits_directly() {
    // When the first interval is already decayed below one packet per
    // second, the machine has a single send state whose limit-reached
    // entry goes straight to the end sentinel.
    let intervals = vec![RelayInterval { timeout: Scalar::Infinite, slow: true }];
    let m = generate_relay_machine(&intervals, 5_000 * UNIT);
    assert_eq!(m.states.len(), 3);
    assert_eq!(entry(&m, 2, Event::LimitReached).choices[0].target, Target::End);
    assert_eq!(m.states[2].timeout, Dist::fixed(Scalar::Finite(TERMINAL_TIMEOUT)));
    assert_eq!(m.states[2].limit, Dist::fixed(Scalar::Finite(5_000 * UNIT)));
}

#[test]
fn relay_machine_start_state_uses_no_distributions() {
    let intervals = vec![RelayInterval { timeout: Scalar::Infinite, slow: true }];
    let m = generate_relay_machine(&intervals, UNIT);
    assert_eq!(m.states[0].timeout.kind, DistKind::Disabled);
    assert_eq!(m.states[0].action.kind, DistKind::Disabled);
    assert_eq!(m.states[0].limit.kind, DistKind::Disabled);
    assert!(!m.states[0].action_is_block);
}

#[test]
fn relay_machine_probabilities_sum_to_one() {
    let intervals = vec![
        RelayInterval { timeout: Scalar::Finite(500 * UNIT), slow: false },
        RelayInterval { timeout: Scalar::Infinite, slow: true },
    ];
    assert_probabilities_sum_to_one(&generate_relay_machine(&intervals, 77 * UNIT));
}

#[test]
fn relay_machine_is_deterministic() {
    let intervals = vec![
        RelayInterval { timeout: Scalar::Finite(500 * UNIT), slow: false },
        RelayInterval { timeout: Scalar::Infinite, slow: true },
    ];
    let a = generate_relay_machine(&intervals, 10 * UNIT);
    let b = generate_relay_machine(&intervals, 10 * UNIT);
    assert_eq!(a, b);
}

#[test]
fn client_machine_smallest_whole_ratio() {
    let m = generate_client_machine(1, 0);
    assert_eq!(m.states.len(), 2);
    assert_eq!(entry(&m, 0, Event::PaddingRecv).choices[0].target, Target::Idx(1));
    assert_eq!(entry(&m, 1, Event::PaddingSent).choices[0].target, Target::Idx(0));
}

#[test]
fn relay_machine_every_slow_state_resets() {
    let intervals = vec![
        RelayInterval { timeout: Scalar::Finite(50_000 * UNIT), slow: true },
        RelayInterval { timeout: Scalar::Finite(200_000 * UNIT), slow: true },
        RelayInterval { timeout: Scalar::Infinite, slow: true },
    ];
    let m = generate_relay_machine(&intervals, 10 * UNIT);
    for i in 2..5 {
        assert_eq!(entry(&m, i, Event::NonPaddingSent).choices[0].target, Target::Idx(2));
        assert_eq!(m.states[i].transitions.len(), 3);
    }
}
