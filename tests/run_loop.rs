use stacks_testnet::run_loop::{Action, Config, Event, Fatal, RunLoop};

/// A deterministic stand-in for the simulator, the nodes and their tenures.
struct Stub {
    winners: Vec<bool>,
    genesis_tenure: bool,
    sortitioned: bool,
    /// Whether the tenure run in a given round produces a block.
    artifacts_in_round: fn(u8) -> bool,
}

/// What a run looked like from outside.
#[derive(Debug, PartialEq)]
struct Record {
    observed: Vec<(&'static str, u8)>,
    batch_sizes: Vec<usize>,
    tenure_leaders: Vec<usize>,
    pauses: usize,
    last: Action,
}

fn always(_: u8) -> bool {
    true
}

fn drive(node_count: usize, rounds: u8, stub: &Stub) -> Record {
    let mut run_loop = RunLoop::new(Config { node_count, burnchain_block_time: 0 });
    let mut action = run_loop.start(rounds);
    let mut pending = 0usize;
    let mut rec = Record { observed: vec![], batch_sizes: vec![], tenure_leaders: vec![], pauses: 0, last: action };
    loop {
        let event = match action {
            Action::MakeGenesisBlock | Action::ProcessTenure { .. } => Event::Done,
            Action::ProcessBurnchainState { node } => {
                Event::Processed { sortitioned: stub.sortitioned, won: stub.winners[node] }
            },
            Action::Setup { .. } | Action::ReceiveTenureArtifacts { .. } => {
                pending += 1;
                Event::Done
            },
            Action::MakeNextBlock => {
                rec.batch_sizes.push(pending);
                pending = 0;
                Event::Done
            },
            Action::InitiateGenesisTenure => Event::Tenure { present: stub.genesis_tenure },
            Action::RunTenure => Event::Artifacts { present: (stub.artifacts_in_round)(run_loop.round_index()) },
            Action::InitiateNewTenure { node } => {
                rec.tenure_leaders.push(node);
                Event::Tenure { present: true }
            },
            Action::NewTenure { round } => {
                rec.observed.push(("tenure", round));
                Event::Done
            },
            Action::NewBurnchainState { round } => {
                rec.observed.push(("burn", round));
                Event::Done
            },
            Action::NewChainState { round, .. } => {
                rec.observed.push(("chain", round));
                Event::Done
            },
            Action::Pause { .. } => {
                rec.pauses += 1;
                Event::Done
            },
            Action::Finish | Action::Abort(_) => {
                rec.last = action;
                return rec;
            },
        };
        action = run_loop.step(event);
    }
}

fn leader_stub(nodes: usize) -> Stub {
    let mut winners = vec![false; nodes];
    winners[0] = true;
    Stub { winners, genesis_tenure: true, sortitioned: true, artifacts_in_round: always }
}

#[test]
fn one_round_one_node_runs_bootstrap_only() {
    let rec = drive(1, 1, &leader_stub(1));
    assert_eq!(rec.observed, vec![("tenure", 0), ("burn", 0), ("chain", 0)]);
    assert_eq!(rec.batch_sizes, vec![1, 1]);
    assert_eq!(rec.last, Action::Finish);
    assert_eq!(rec.pauses, 0);
}

#[test]
fn three_rounds_two_nodes_first_node_leads() {
    let rec = drive(2, 3, &leader_stub(2));
    let mut expected = vec![];
    for r in 0..3u8 {
        expected.push(("tenure", r));
        expected.push(("burn", r));
        expected.push(("chain", r));
        expected.push(("chain", r));
    }
    assert_eq!(rec.observed, expected);
    assert_eq!(rec.tenure_leaders, vec![0, 0, 0]);
    assert_eq!(rec.batch_sizes, vec![2, 1, 2, 2]);
    assert_eq!(rec.last, Action::Finish);
    assert_eq!(rec.pauses, 2);
}

fn none_in_round_one(round: u8) -> bool {
    round != 1
}

#[test]
fn steady_round_without_artifacts_continues() {
    let stub = Stub { artifacts_in_round: none_in_round_one, ..leader_stub(2) };
    let rec = drive(2, 3, &stub);
    assert_eq!(
        rec.observed,
        vec![("tenure", 0), ("burn", 0), ("chain", 0), ("chain", 0), ("tenure", 1), ("burn", 1), ("burn", 2)]
    );
    assert_eq!(rec.batch_sizes, vec![2, 1, 0, 0]);
    assert_eq!(rec.last, Action::Finish);
}

fn never(_: u8) -> bool {
    false
}

#[test]
fn bootstrap_without_artifacts_aborts() {
    let stub = Stub { artifacts_in_round: never, ..leader_stub(2) };
    let rec = drive(2, 3, &stub);
    assert_eq!(rec.observed, vec![("tenure", 0)]);
    assert_eq!(rec.last, Action::Abort(Fatal::BootstrapArtifactsMissing));
}

#[test]
fn bootstrap_without_tenure_aborts() {
    let stub = Stub { genesis_tenure: false, ..leader_stub(1) };
    let rec = drive(1, 2, &stub);
    assert!(rec.observed.is_empty());
    assert_eq!(rec.last, Action::Abort(Fatal::GenesisTenureMissing));
}

#[test]
fn missing_sortitioned_block_aborts() {
    let stub = Stub { sortitioned: false, ..leader_stub(2) };
    let rec = drive(2, 2, &stub);
    assert_eq!(rec.observed, vec![("tenure", 0), ("burn", 0)]);
    assert_eq!(rec.last, Action::Abort(Fatal::NoSortitionedBlock { node: 0, round: 0 }));
}

#[test]
fn observed_rounds_cover_the_budget() {
    let rec = drive(3, 5, &leader_stub(3));
    let burns: Vec<u8> = rec.observed.iter().filter(|o| o.0 == "burn").map(|o| o.1).collect();
    assert_eq!(burns, vec![0, 1, 2, 3, 4]);
    let tenures: Vec<u8> = rec.observed.iter().filter(|o| o.0 == "tenure").map(|o| o.1).collect();
    assert_eq!(tenures, vec![0, 1, 2, 3, 4]);
    for r in 0..5u8 {
        assert_eq!(rec.observed.iter().filter(|o| o.0 == "chain" && o.1 == r).count(), 3);
    }
}

#[test]
fn no_winner_means_no_later_tenure() {
    let stub = Stub { winners: vec![false, false], ..leader_stub(2) };
    let rec = drive(2, 3, &stub);
    let tenures: Vec<u8> = rec.observed.iter().filter(|o| o.0 == "tenure").map(|o| o.1).collect();
    assert_eq!(tenures, vec![0]);
    assert!(rec.observed.iter().all(|o| o.0 != "chain" || o.1 == 0));
    assert_eq!(rec.batch_sizes, vec![2, 1, 0, 0]);
}

#[test]
fn zero_budget_runs_bootstrap_round() {
    let rec = drive(1, 0, &leader_stub(1));
    assert_eq!(rec.observed, vec![("tenure", 0), ("burn", 0), ("chain", 0)]);
    assert_eq!(rec.last, Action::Finish);
}

#[test]
fn identical_runs_observe_identically() {
    let a = drive(2, 4, &leader_stub(2));
    let b = drive(2, 4, &leader_stub(2));
    assert_eq!(a, b);
}

#[test]
fn stub_has_at_most_one_winner() {
    for nodes in 1..5usize {
        let stub = leader_stub(nodes);
        assert!(stub.winners.iter().filter(|w| **w).count() <= 1);
    }
}

#[test]
fn pause_uses_block_time() {
    let mut run_loop = RunLoop::new(Config { node_count: 1, burnchain_block_time: 250 });
    assert_eq!(run_loop.config().burnchain_block_time, 250);
    let mut action = run_loop.start(3);
    let mut steps = 0;
    while !matches!(action, Action::Pause { .. } | Action::Finish | Action::Abort(_)) && steps < 1000 {
        let event = match action {
            Action::ProcessBurnchainState { .. } => Event::Processed { sortitioned: true, won: true },
            Action::InitiateGenesisTenure | Action::InitiateNewTenure { .. } => Event::Tenure { present: true },
            Action::RunTenure => Event::Artifacts { present: true },
            _ => Event::Done,
        };
        action = run_loop.step(event);
        steps += 1;
    }
    assert_eq!(action, Action::Pause { ms: 250 });
    assert_eq!(run_loop.round_index(), 1);
}
