use dining::channel::Channel;
use dining::channel::Message;
use dining::coordinator::make_philosophers;
use dining::coordinator::run_dinner;
use dining::philosopher::Philosopher;
use dining::protocol::Attempt;
use dining::protocol::BackoffKind;
use dining::protocol::backoff_millis;
use dining::ring::pair_indices;
use dining::table::ForkTable;

fn five_names() -> Vec<String> {
    vec![
        "Socrates".to_string(),
        "Plato".to_string(),
        "Aristotle".to_string(),
        "Thales".to_string(),
        "Kant".to_string(),
    ]
}

#[test]
fn ring_of_five_wraps_around() {
    let pairs = pair_indices(5);
    assert_eq!(pairs, vec![(0, 1), (1, 2), (2, 3), (3, 4), (4, 0)]);
    // the last pair's right fork is the first pair's left fork
    assert_eq!(pairs[4].1, pairs[0].0);
}

#[test]
fn ring_of_two_shares_both_forks() {
    let pairs = pair_indices(2);
    assert_eq!(pairs, vec![(0, 1), (1, 0)]);
}

#[test]
fn table_grants_a_fork_to_one_holder_only() {
    let mut table = ForkTable::new(3);
    assert_eq!(table.len(), 3);
    assert!(table.free(0));
    assert!(table.try_acquire(0, 7));
    assert!(!table.free(0));
    // a second seat cannot take the same fork while it is held
    assert!(!table.try_acquire(0, 8));
    table.release(0, 7);
    assert!(table.free(0));
    assert!(table.try_acquire(0, 8));
}

#[test]
fn attempt_succeeds_only_with_both_forks() {
    let attempt = Attempt::start();
    assert!(!attempt.holds_left);
    assert!(!attempt.holds_right);
    let attempt = attempt.probe_left(true);
    let attempt = attempt.probe_right(true);
    assert!(attempt.is_acquired());
    assert!(attempt.holds_left);
    assert!(attempt.holds_right);
}

#[test]
fn attempt_with_one_fork_retries_and_releases() {
    let attempt = Attempt::start().probe_left(true).probe_right(false);
    assert!(!attempt.is_acquired());
    assert!(attempt.holds_left);
    assert!(!attempt.holds_right);
    let attempt = attempt.release_for_retry();
    assert!(!attempt.holds_left);
    assert!(!attempt.holds_right);
}

#[test]
fn attempt_with_only_right_fork_retries() {
    let attempt = Attempt::start().probe_left(false).probe_right(true);
    assert!(!attempt.is_acquired());
    assert!(!attempt.holds_left);
    assert!(attempt.holds_right);
}

#[test]
fn eating_takes_and_returns_both_forks() {
    let mut table = ForkTable::new(2);
    let p = Philosopher::new("Socrates".to_string(), 0, 0, 1);
    assert!(p.eat(&mut table));
    // release on all paths: both forks are back on the table
    assert!(table.free(0));
    assert!(table.free(1));
}

#[test]
fn eating_fails_while_a_neighbour_holds_a_fork() {
    let mut table = ForkTable::new(2);
    // the neighbour at seat 1 holds fork 1, Socrates' right fork
    assert!(table.try_acquire(1, 1));
    let p = Philosopher::new("Socrates".to_string(), 0, 0, 1);
    assert!(!p.eat(&mut table));
    // the left fork it took went back; the neighbour keeps fork 1
    assert!(table.free(0));
    assert!(!table.free(1));
    table.release(1, 1);
    assert!(p.eat(&mut table));
}

#[test]
fn three_thoughts_arrive_in_the_order_sent() {
    let mut channel = Channel::new();
    let p = Philosopher::new("Plato".to_string(), 1, 1, 2);
    p.think(&mut channel);
    p.think(&mut channel);
    p.think(&mut channel);
    let expected = Message::Thought { name: "Plato".to_string() };
    assert_eq!(channel.messages().len(), 3);
    assert_eq!(channel.messages()[0], expected);
    assert_eq!(channel.messages()[1], expected);
    assert_eq!(channel.messages()[2], expected);
}

#[test]
fn exactly_one_sentinel_and_nothing_after_it() {
    let mut channel = Channel::new();
    assert!(!channel.is_finished());
    let p = Philosopher::new("Kant".to_string(), 4, 4, 0);
    p.think(&mut channel);
    p.think(&mut channel);
    channel.finish();
    assert!(channel.is_finished());
    let msgs = channel.messages();
    assert_eq!(msgs.len(), 3);
    let done_count = msgs.iter().filter(|m| m.is_done()).count();
    assert_eq!(done_count, 1);
    assert!(msgs[2].is_done());
}

#[test]
fn draining_returns_the_thoughts_before_the_sentinel() {
    let mut channel = Channel::new();
    let a = Philosopher::new("Thales".to_string(), 3, 3, 4);
    let b = Philosopher::new("Kant".to_string(), 4, 4, 0);
    a.think(&mut channel);
    b.think(&mut channel);
    channel.finish();
    let thoughts = channel.drain_thoughts();
    assert_eq!(
        thoughts,
        vec![
            Message::Thought { name: "Thales".to_string() },
            Message::Thought { name: "Kant".to_string() },
        ]
    );
}

#[test]
fn backoff_draws_stay_in_their_bounds() {
    for _ in 0..200 {
        let gap = backoff_millis(BackoffKind::ProbeGap);
        assert!((1..1000).contains(&gap));
        // a one-value range: effectively a fixed short delay
        assert_eq!(backoff_millis(BackoffKind::RetryPause), 100);
        let think = backoff_millis(BackoffKind::ThinkDelay);
        assert!((1..10).contains(&think));
        let hold = backoff_millis(BackoffKind::EatHold);
        assert!((1..10).contains(&hold));
    }
}

#[test]
fn seating_binds_each_name_to_its_adjacent_pair() {
    let names = five_names();
    let ps = make_philosophers(&names);
    assert_eq!(ps.len(), 5);
    for (i, p) in ps.iter().enumerate() {
        assert_eq!(p.name, names[i]);
        assert_eq!(p.seat, i);
        assert_eq!(p.left, i);
        assert_eq!(p.right, (i + 1) % 5);
    }
}

#[test]
fn a_full_dinner_completes_every_cycle() {
    let names = five_names();
    let (channel, meals) = run_dinner(&names, 100);
    assert_eq!(meals, 500);
    let msgs = channel.messages();
    assert_eq!(msgs.len(), 501);
    assert!(msgs[500].is_done());
    for k in 0..500 {
        let expected = Message::Thought { name: names[k % 5].clone() };
        assert_eq!(msgs[k], expected);
    }
}

#[test]
fn the_smallest_dinner_runs_one_round() {
    let names = vec!["Socrates".to_string(), "Plato".to_string()];
    let (channel, meals) = run_dinner(&names, 1);
    assert_eq!(meals, 2);
    let thoughts = channel.drain_thoughts();
    assert_eq!(
        thoughts,
        vec![
            Message::Thought { name: "Socrates".to_string() },
            Message::Thought { name: "Plato".to_string() },
        ]
    );
}
