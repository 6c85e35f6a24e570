use vstd::prelude::*;

verus! {

/// What the run loop needs to know of the testnet it drives.
#[derive(Debug, Clone, Copy, PartialEq, Eq)]
pub struct Config {
    /// How many nodes take part; they are addressed by index, in this order, every round.
    pub node_count: usize,
    /// The pause between two steady-state rounds, in milliseconds.
    pub burnchain_block_time: u64,
}

/// A protocol violation that ends the run.
#[derive(Debug, Clone, Copy, PartialEq, Eq)]
pub enum Fatal {
    /// The first node did not open the genesis tenure.
    GenesisTenureMissing,
    /// The genesis tenure produced no block.
    BootstrapArtifactsMissing,
    /// A node found no sortitioned block in the burnchain state of a round.
    NoSortitionedBlock { node: usize, round: u8 },
}

/// Where the run loop stands: the stage names the collaborator call or the
/// observer it waits on.
#[derive(Debug, Clone, Copy, PartialEq, Eq)]
pub enum Stage {
    NotStarted,
    MakeGenesis,
    FeedGenesis,
    Setup,
    FirstBlock,
    FeedFirst,
    GenesisTenure,
    BootFireTenure,
    BootRunTenure,
    BootReceive,
    FireTenure,
    RunTenure,
    Receive,
    NextBlock,
    FireBurn,
    Sortition,
    Ingest,
    FireChain,
    NextTenure,
    Pause,
    Finished,
    Aborted(Fatal),
}

/// What the driver does next. Node indices are positions in the configuration.
#[derive(Debug, Clone, Copy, PartialEq, Eq)]
pub enum Action {
    /// Ask the simulator for the genesis burnchain state.
    MakeGenesisBlock,
    /// Hand the latest burnchain state to a node; reply with `Event::Processed`.
    ProcessBurnchainState { node: usize },
    /// Ask a node for its setup operation and add it to the pending batch.
    Setup { node: usize },
    /// Submit the pending batch (possibly empty) to the simulator and clear it.
    MakeNextBlock,
    /// Ask the first node to open the genesis tenure; reply with `Event::Tenure`.
    InitiateGenesisTenure,
    /// Run the held tenure, giving it up; reply with `Event::Artifacts`.
    RunTenure,
    /// Hand the tenure's block to a node and add the operations it returns to the pending batch.
    ReceiveTenureArtifacts { node: usize },
    /// Let a node ingest the tenure's blocks into its chain state.
    ProcessTenure { node: usize },
    /// Ask a node that won sortition to open the next tenure; reply with `Event::Tenure`.
    InitiateNewTenure { node: usize },
    /// Tell the "new tenure" observer.
    NewTenure { round: u8 },
    /// Tell the "new burnchain state" observer.
    NewBurnchainState { round: u8 },
    /// Tell the "new chain state" observer about a node.
    NewChainState { round: u8, node: usize },
    /// Wait for one burnchain block time.
    Pause { ms: u64 },
    /// The round budget is spent.
    Finish,
    /// The run ends on a protocol violation.
    Abort(Fatal),
}

/// The outcome of the last action, as the driver reports it.
#[derive(Debug, Clone, Copy, PartialEq, Eq)]
pub enum Event {
    /// The action was carried out and returns nothing the run loop reads.
    Done,
    /// A node processed a burnchain state: whether it found a sortitioned block, and whether it won.
    Processed { sortitioned: bool, won: bool },
    /// A node was asked for a tenure: whether it opened one.
    Tenure { present: bool },
    /// The tenure ran: whether it produced a block.
    Artifacts { present: bool },
}

/// The observer events of one round, counted as they complete.
pub struct RoundTally {
    /// A tenure was carried into the round (in the bootstrap round: the genesis tenure).
    pub began_with_tenure: bool,
    /// The round's tenure produced a block.
    pub artifacts: bool,
    pub tenures: nat,
    pub burns: nat,
    pub chains: nat,
}

/// The run loop in the model.
pub struct RunLoopView {
    pub stage: Stage,
    pub round: u8,
    pub budget: u8,
    pub cursor: usize,
    pub nodes: usize,
    pub block_time: u64,
    /// The round's tenure produced a block.
    pub artifacts: bool,
    /// A tenure is held: at most one at any time.
    pub tenure: bool,
    /// The node at `cursor` won sortition in this round.
    pub won: bool,
    /// The current round, so far.
    pub tally: RoundTally,
    /// The last completed round.
    pub closed: RoundTally,
}

/// The reply each stage waits for.
pub open spec fn expects(stage: Stage, e: Event) -> bool {
    match stage {
        Stage::FeedGenesis | Stage::FeedFirst | Stage::Sortition => e is Processed,
        Stage::GenesisTenure | Stage::NextTenure => e is Tenure,
        Stage::BootRunTenure | Stage::RunTenure => e is Artifacts,
        Stage::NotStarted | Stage::Finished | Stage::Aborted(_) => false,
        _ => e is Done,
    }
}

/// The action a state asks of the driver.
pub open spec fn action_of(v: RunLoopView) -> Action {
    match v.stage {
        // nothing to do before `start`
        Stage::NotStarted => Action::Finish,
        Stage::MakeGenesis => Action::MakeGenesisBlock,
        Stage::FeedGenesis => Action::ProcessBurnchainState { node: v.cursor },
        Stage::Setup => Action::Setup { node: v.cursor },
        Stage::FirstBlock => Action::MakeNextBlock,
        Stage::FeedFirst => Action::ProcessBurnchainState { node: v.cursor },
        Stage::GenesisTenure => Action::InitiateGenesisTenure,
        Stage::BootFireTenure => Action::NewTenure { round: v.round },
        Stage::BootRunTenure => Action::RunTenure,
        Stage::BootReceive => Action::ReceiveTenureArtifacts { node: 0 },
        Stage::FireTenure => Action::NewTenure { round: v.round },
        Stage::RunTenure => Action::RunTenure,
        Stage::Receive => Action::ReceiveTenureArtifacts { node: v.cursor },
        Stage::NextBlock => Action::MakeNextBlock,
        Stage::FireBurn => Action::NewBurnchainState { round: v.round },
        Stage::Sortition => Action::ProcessBurnchainState { node: v.cursor },
        Stage::Ingest => Action::ProcessTenure { node: v.cursor },
        Stage::FireChain => Action::NewChainState { round: v.round, node: v.cursor },
        Stage::NextTenure => Action::InitiateNewTenure { node: v.cursor },
        Stage::Pause => Action::Pause { ms: v.block_time },
        Stage::Finished => Action::Finish,
        Stage::Aborted(f) => Action::Abort(f),
    }
}

/// Opens round `v.round`: records the round just completed, and stops when
/// the budget is spent. A held tenure is run first; without one the round
/// submits an empty batch.
pub open spec fn begin_round(v: RunLoopView) -> RunLoopView {
    let w = RunLoopView {
        closed: RoundTally { artifacts: v.artifacts, ..v.tally },
        tally: RoundTally { began_with_tenure: v.tenure, artifacts: false, tenures: 0, burns: 0, chains: 0 },
        artifacts: false,
        cursor: 0,
        ..v
    };
    if v.round >= v.budget {
        RunLoopView { stage: Stage::Finished, ..w }
    } else if v.tenure {
        RunLoopView { stage: Stage::FireTenure, ..w }
    } else {
        RunLoopView { stage: Stage::NextBlock, ..w }
    }
}

/// Moves past the node at `cursor` in the sortition pass: to the next node, or
/// to the end of the round. The bootstrap round is followed at once by round 1;
/// later rounds pause first.
pub open spec fn after_node(v: RunLoopView) -> RunLoopView {
    if v.cursor + 1 < v.nodes {
        RunLoopView { stage: Stage::Sortition, cursor: (v.cursor + 1) as usize, ..v }
    } else if v.round == 0 {
        begin_round(RunLoopView { round: 1, ..v })
    } else {
        RunLoopView { stage: Stage::Pause, ..v }
    }
}

/// Moves a per-node pass to the next node, or to `then` after the last one.
pub open spec fn next_node(v: RunLoopView, then: Stage) -> RunLoopView {
    if v.cursor + 1 < v.nodes {
        RunLoopView { cursor: (v.cursor + 1) as usize, ..v }
    } else {
        RunLoopView { stage: then, cursor: 0, ..v }
    }
}

/// The transition on the reply `e` to the action of `v`.
pub open spec fn advance(v: RunLoopView, e: Event) -> RunLoopView {
    let t = v.tally;
    match v.stage {
        Stage::MakeGenesis => RunLoopView { stage: Stage::FeedGenesis, cursor: 0, ..v },
        Stage::FeedGenesis => next_node(v, Stage::Setup),
        Stage::Setup => next_node(v, Stage::FirstBlock),
        Stage::FirstBlock => RunLoopView { stage: Stage::FeedFirst, cursor: 0, ..v },
        Stage::FeedFirst => next_node(v, Stage::GenesisTenure),
        Stage::GenesisTenure => if e matches Event::Tenure { present } && present {
            RunLoopView {
                stage: Stage::BootFireTenure,
                tenure: true,
                tally: RoundTally { began_with_tenure: true, ..t },
                ..v
            }
        } else {
            RunLoopView { stage: Stage::Aborted(Fatal::GenesisTenureMissing), ..v }
        },
        Stage::BootFireTenure => RunLoopView {
            stage: Stage::BootRunTenure,
            tally: RoundTally { tenures: t.tenures + 1, ..t },
            ..v
        },
        Stage::BootRunTenure => if e matches Event::Artifacts { present } && present {
            RunLoopView { stage: Stage::BootReceive, tenure: false, artifacts: true, ..v }
        } else {
            RunLoopView { stage: Stage::Aborted(Fatal::BootstrapArtifactsMissing), tenure: false, ..v }
        },
        Stage::BootReceive => RunLoopView { stage: Stage::NextBlock, ..v },
        Stage::FireTenure => RunLoopView {
            stage: Stage::RunTenure,
            tally: RoundTally { tenures: t.tenures + 1, ..t },
            ..v
        },
        Stage::RunTenure => if e matches Event::Artifacts { present } && present {
            RunLoopView { stage: Stage::Receive, tenure: false, artifacts: true, cursor: 0, ..v }
        } else {
            RunLoopView { stage: Stage::NextBlock, tenure: false, artifacts: false, ..v }
        },
        Stage::Receive => next_node(v, Stage::NextBlock),
        Stage::NextBlock => RunLoopView { stage: Stage::FireBurn, ..v },
        Stage::FireBurn => RunLoopView {
            stage: Stage::Sortition,
            cursor: 0,
            tenure: false,
            tally: RoundTally { burns: t.burns + 1, ..t },
            ..v
        },
        Stage::Sortition => match e {
            Event::Processed { sortitioned, won } => if !sortitioned {
                RunLoopView {
                    stage: Stage::Aborted(Fatal::NoSortitionedBlock { node: v.cursor, round: v.round }),
                    ..v
                }
            } else if v.artifacts {
                RunLoopView { stage: Stage::Ingest, won, ..v }
            } else {
                after_node(v)
            },
            _ => v,
        },
        Stage::Ingest => RunLoopView { stage: Stage::FireChain, ..v },
        Stage::FireChain => {
            let w = RunLoopView { tally: RoundTally { chains: t.chains + 1, ..t }, ..v };
            if v.won {
                RunLoopView { stage: Stage::NextTenure, ..w }
            } else {
                after_node(w)
            }
        },
        Stage::NextTenure => match e {
            Event::Tenure { present } => after_node(RunLoopView { tenure: present, ..v }),
            _ => v,
        },
        Stage::Pause => begin_round(RunLoopView { round: (v.round + 1) as u8, ..v }),
        _ => v,
    }
}

/// Stages of the bootstrap round only.
pub open spec fn is_bootstrap_stage(s: Stage) -> bool {
    matches!(s, Stage::NotStarted | Stage::MakeGenesis | Stage::FeedGenesis | Stage::Setup
        | Stage::FirstBlock | Stage::FeedFirst | Stage::GenesisTenure | Stage::BootFireTenure
        | Stage::BootRunTenure | Stage::BootReceive)
}

/// Stages of the steady-state rounds only.
pub open spec fn is_steady_stage(s: Stage) -> bool {
    matches!(s, Stage::FireTenure | Stage::RunTenure | Stage::Receive | Stage::Pause)
}

/// Stages at which a tenure is held or has just been handed to `run`.
pub open spec fn holds_tenure_of_round(s: Stage) -> bool {
    matches!(s, Stage::BootFireTenure | Stage::BootRunTenure | Stage::BootReceive | Stage::FireTenure
        | Stage::RunTenure | Stage::Receive)
}

/// Stages that come after the round's "new tenure" observer, if it fired.
pub open spec fn past_tenure_event(s: Stage) -> bool {
    matches!(s, Stage::BootRunTenure | Stage::BootReceive | Stage::RunTenure | Stage::Receive
        | Stage::NextBlock | Stage::FireBurn | Stage::Sortition | Stage::Ingest | Stage::FireChain
        | Stage::NextTenure | Stage::Pause)
}

/// Stages that come after the round's "new burnchain state" observer.
pub open spec fn past_burn_event(s: Stage) -> bool {
    matches!(s, Stage::Sortition | Stage::Ingest | Stage::FireChain | Stage::NextTenure | Stage::Pause)
}

/// The "new chain state" observers completed so far in the round.
pub open spec fn chains_so_far(v: RunLoopView) -> nat {
    match v.stage {
        Stage::Sortition => if v.artifacts { v.cursor as nat } else { 0 },
        Stage::Ingest | Stage::FireChain => v.cursor as nat,
        Stage::NextTenure => v.cursor as nat + 1,
        Stage::Pause => if v.artifacts { v.nodes as nat } else { 0 },
        _ => 0,
    }
}

/// A completed round: one "new burnchain state" event, one "new tenure" event
/// exactly when a tenure was carried in, and one "new chain state" event per
/// node exactly when the tenure produced a block.
pub open spec fn round_complete(c: RoundTally, nodes: usize) -> bool {
    &&& c.burns == 1
    &&& c.tenures == (if c.began_with_tenure { 1nat } else { 0 })
    &&& c.chains == (if c.artifacts { nodes as nat } else { 0 })
}

/// The counts of the current round agree with its stage.
pub open spec fn tally_agrees(v: RunLoopView) -> bool {
    let t = v.tally;
    &&& t.tenures == (if t.began_with_tenure && past_tenure_event(v.stage) { 1nat } else { 0 })
    &&& (holds_tenure_of_round(v.stage) ==> t.began_with_tenure)
    &&& t.burns == (if past_burn_event(v.stage) { 1nat } else { 0 })
    &&& t.chains == chains_so_far(v)
    &&& (matches!(v.stage, Stage::Ingest | Stage::FireChain | Stage::NextTenure | Stage::BootReceive) ==> v.artifacts)
}

/// The run loop's invariant.
pub open spec fn inv(v: RunLoopView) -> bool {
    &&& v.nodes >= 1
    &&& v.cursor < v.nodes
    &&& (is_bootstrap_stage(v.stage) ==> v.round == 0)
    &&& (is_steady_stage(v.stage) ==> v.round >= 1)
    &&& (v.round >= 1 && v.stage != Stage::Finished ==> v.round < v.budget)
    &&& (v.stage == Stage::Finished ==> v.round == (if v.budget == 0 { 1 } else { v.budget }))
    &&& (v.stage !is Aborted ==> tally_agrees(v))
    &&& (v.round >= 1 ==> round_complete(v.closed, v.nodes))
}

/// Every reply the run loop waits for keeps its invariant.
pub proof fn lemma_advance_keeps_inv(v: RunLoopView, e: Event)
    requires
        inv(v),
        expects(v.stage, e),
    ensures
        inv(advance(v, e)),
{
}

/// The round an observer action reports, if the action is one.
pub open spec fn observed_round(a: Action) -> Option<u8> {
    match a {
        Action::NewTenure { round } => Some(round),
        Action::NewBurnchainState { round } => Some(round),
        Action::NewChainState { round, .. } => Some(round),
        _ => None,
    }
}

/// The round index never skips: each reply leaves it or raises it by one.
/// Every observer action reports the current round, which is the bootstrap
/// round 0 or lies below the budget; a finished run stopped at round
/// `max(budget, 1)`, so the rounds observed are exactly `0 .. max(budget, 1) - 1`.
pub proof fn lemma_observer_rounds(v: RunLoopView, e: Event)
    requires
        inv(v),
        expects(v.stage, e),
    ensures
        ({
            let w = advance(v, e);
            &&& w.round == v.round || w.round == v.round + 1
            &&& observed_round(action_of(w)) matches Some(r) ==> r == w.round && (r == 0 || r < w.budget)
            &&& w.stage == Stage::Finished ==> w.round == (if w.budget == 0 { 1 } else { w.budget })
        }),
{
    lemma_advance_keeps_inv(v, e);
}

/// 1 when `a` is the "new tenure" observer action, else 0.
pub open spec fn fires_tenure(a: Action) -> nat {
    if a is NewTenure { 1 } else { 0 }
}

/// 1 when `a` is the "new burnchain state" observer action, else 0.
pub open spec fn fires_burn(a: Action) -> nat {
    if a is NewBurnchainState { 1 } else { 0 }
}

/// 1 when `a` is the "new chain state" observer action, else 0.
pub open spec fn fires_chain(a: Action) -> nat {
    if a is NewChainState { 1 } else { 0 }
}

/// The counts of a round move only when an observer action completes, by one
/// for that observer, and whether the round holds a tenure is fixed when it
/// opens (for the bootstrap round: when the genesis tenure is opened). When a
/// round ends, it had one "new burnchain state" event; one "new tenure" event
/// if and only if it held a tenure; and one "new chain state" event per node
/// if its tenure produced a block, none otherwise.
pub proof fn lemma_round_counts(v: RunLoopView, e: Event)
    requires
        inv(v),
        expects(v.stage, e),
    ensures
        ({
            let w = advance(v, e);
            let a = action_of(v);
            let counted = if w.round == v.round { w.tally } else { w.closed };
            &&& w.stage !is Aborted ==> {
                &&& counted.tenures == v.tally.tenures + fires_tenure(a)
                &&& counted.burns == v.tally.burns + fires_burn(a)
                &&& counted.chains == v.tally.chains + fires_chain(a)
                &&& v.stage != Stage::GenesisTenure ==> counted.began_with_tenure == v.tally.began_with_tenure
            }
            &&& w.round == v.round + 1 ==> round_complete(w.closed, w.nodes)
            &&& w.round == v.round + 1 ==> w.closed.artifacts == v.artifacts
        }),
{
    lemma_advance_keeps_inv(v, e);
}

/// The actions a run loop in state `v` asks for, given the replies `events`,
/// up to the first reply it does not wait for.
pub open spec fn run_actions(v: RunLoopView, events: Seq<Event>) -> Seq<Action>
    decreases events.len(),
{
    if events.len() == 0 || !expects(v.stage, events[0]) {
        Seq::empty()
    } else {
        let w = advance(v, events[0]);
        seq![action_of(w)] + run_actions(w, events.drop_first())
    }
}

/// The state of a run loop fresh from `start`.
pub open spec fn started_view(config: Config, budget: u8) -> RunLoopView {
    RunLoopView {
        stage: Stage::MakeGenesis,
        round: 0,
        budget,
        cursor: 0,
        nodes: config.node_count,
        block_time: config.burnchain_block_time,
        artifacts: false,
        tenure: false,
        won: false,
        tally: RoundTally { began_with_tenure: false, artifacts: false, tenures: 0, burns: 0, chains: 0 },
        closed: RoundTally { began_with_tenure: false, artifacts: false, tenures: 0, burns: 0, chains: 0 },
    }
}

/// Two run loops started with the same configuration and budget, and given
/// the same replies, ask for the same actions, observers included.
pub proof fn lemma_runs_deterministic(c1: Config, c2: Config, budget: u8, events: Seq<Event>)
    requires
        c1 == c2,
    ensures
        run_actions(started_view(c1, budget), events) == run_actions(started_view(c2, budget), events),
{
}

/// Drives the protocol of a simulated testnet, one collaborator call at a time.
pub struct RunLoop {
    config: Config,
    stage: Stage,
    round: u8,
    budget: u8,
    cursor: usize,
    artifacts: bool,
    tenure: bool,
    won: bool,
    tally: Ghost<RoundTally>,
    closed: Ghost<RoundTally>,
}

impl View for RunLoop {
    type V = RunLoopView;

    closed spec fn view(&self) -> RunLoopView {
        RunLoopView {
            stage: self.stage,
            round: self.round,
            budget: self.budget,
            cursor: self.cursor,
            nodes: self.config.node_count,
            block_time: self.config.burnchain_block_time,
            artifacts: self.artifacts,
            tenure: self.tenure,
            won: self.won,
            tally: self.tally@,
            closed: self.closed@,
        }
    }
}

impl RunLoop {
    pub open spec fn wf(&self) -> bool {
        inv(self@)
    }

    /// A run loop over `config`'s nodes that has not started.
    pub fn new(config: Config) -> (r: RunLoop)
        requires
            config.node_count >= 1,
        ensures
            r.wf(),
            r@ == (RunLoopView { stage: Stage::NotStarted, ..started_view(config, 0) }),
    {
        RunLoop {
            config,
            stage: Stage::NotStarted,
            round: 0,
            budget: 0,
            cursor: 0,
            artifacts: false,
            tenure: false,
            won: false,
            tally: Ghost(RoundTally { began_with_tenure: false, artifacts: false, tenures: 0, burns: 0, chains: 0 }),
            closed: Ghost(RoundTally { began_with_tenure: false, artifacts: false, tenures: 0, burns: 0, chains: 0 }),
        }
    }

    pub fn config(&self) -> (r: Config)
        ensures
            r.node_count == self@.nodes,
            r.burnchain_block_time == self@.block_time,
    {
        self.config
    }

    pub fn stage(&self) -> (r: Stage)
        ensures
            r == self@.stage,
    {
        self.stage
    }

    pub fn round_index(&self) -> (r: u8)
        ensures
            r == self@.round,
    {
        self.round
    }

    /// Starts a run of the bootstrap round followed by steady-state rounds
    /// until `expected_num_rounds` rounds, the bootstrap round included, have
    /// run. The bootstrap round always runs, so a budget of 0 runs it alone.
    /// Returns the first action.
    pub fn start(&mut self, expected_num_rounds: u8) -> (a: Action)
        requires
            old(self).wf(),
            old(self)@.stage == Stage::NotStarted,
        ensures
            final(self).wf(),
            final(self)@ == (RunLoopView { stage: Stage::MakeGenesis, budget: expected_num_rounds, ..old(self)@ }),
            a == Action::MakeGenesisBlock,
    {
        self.budget = expected_num_rounds;
        self.stage = Stage::MakeGenesis;
        Action::MakeGenesisBlock
    }

    fn open_round(&mut self)
        requires
            old(self)@.nodes >= 1,
        ensures
            final(self)@ == begin_round(old(self)@),
    {
        let ghost t = self.tally@;
        self.closed = Ghost(RoundTally { artifacts: self.artifacts, ..t });
        self.tally = Ghost(RoundTally { began_with_tenure: self.tenure, artifacts: false, tenures: 0, burns: 0, chains: 0 });
        self.artifacts = false;
        self.cursor = 0;
        if self.round >= self.budget {
            self.stage = Stage::Finished;
        } else if self.tenure {
            self.stage = Stage::FireTenure;
        } else {
            self.stage = Stage::NextBlock;
        }
    }

    fn pass_node(&mut self)
        requires
            old(self)@.cursor < old(self)@.nodes,
        ensures
            final(self)@ == after_node(old(self)@),
    {
        if self.cursor + 1 < self.config.node_count {
            self.stage = Stage::Sortition;
            self.cursor = self.cursor + 1;
        } else if self.round == 0 {
            self.round = 1;
            self.open_round();
        } else {
            self.stage = Stage::Pause;
        }
    }

    fn step_node(&mut self, then: Stage)
        requires
            old(self)@.cursor < old(self)@.nodes,
        ensures
            final(self)@ == next_node(old(self)@, then),
    {
        if self.cursor + 1 < self.config.node_count {
            self.cursor = self.cursor + 1;
        } else {
            self.stage = then;
            self.cursor = 0;
        }
    }

    /// Takes the reply to the last action and returns the next one.
    pub fn step(&mut self, event: Event) -> (a: Action)
        requires
            old(self).wf(),
            expects(old(self)@.stage, event),
        ensures
            final(self).wf(),
            final(self)@ == advance(old(self)@, event),
            a == action_of(final(self)@),
    {
        proof {
            lemma_advance_keeps_inv(self@, event);
        }
        let ghost t = self.tally@;
        match self.stage {
            Stage::MakeGenesis => {
                self.stage = Stage::FeedGenesis;
                self.cursor = 0;
            },
            Stage::FeedGenesis => self.step_node(Stage::Setup),
            Stage::Setup => self.step_node(Stage::FirstBlock),
            Stage::FirstBlock => {
                self.stage = Stage::FeedFirst;
                self.cursor = 0;
            },
            Stage::FeedFirst => self.step_node(Stage::GenesisTenure),
            Stage::GenesisTenure => {
                if let Event::Tenure { present: true } = event {
                    self.stage = Stage::BootFireTenure;
                    self.tenure = true;
                    self.tally = Ghost(RoundTally { began_with_tenure: true, ..t });
                } else {
                    self.stage = Stage::Aborted(Fatal::GenesisTenureMissing);
                }
            },
            Stage::BootFireTenure => {
                self.stage = Stage::BootRunTenure;
                self.tally = Ghost(RoundTally { tenures: t.tenures + 1, ..t });
            },
            Stage::BootRunTenure => {
                self.tenure = false;
                if let Event::Artifacts { present: true } = event {
                    self.stage = Stage::BootReceive;
                    self.artifacts = true;
                } else {
                    self.stage = Stage::Aborted(Fatal::BootstrapArtifactsMissing);
                }
            },
            Stage::BootReceive => self.stage = Stage::NextBlock,
            Stage::FireTenure => {
                self.stage = Stage::RunTenure;
                self.tally = Ghost(RoundTally { tenures: t.tenures + 1, ..t });
            },
            Stage::RunTenure => {
                self.tenure = false;
                if let Event::Artifacts { present: true } = event {
                    self.stage = Stage::Receive;
                    self.artifacts = true;
                    self.cursor = 0;
                } else {
                    self.stage = Stage::NextBlock;
                    self.artifacts = false;
                }
            },
            Stage::Receive => self.step_node(Stage::NextBlock),
            Stage::NextBlock => self.stage = Stage::FireBurn,
            Stage::FireBurn => {
                self.stage = Stage::Sortition;
                self.cursor = 0;
                self.tenure = false;
                self.tally = Ghost(RoundTally { burns: t.burns + 1, ..t });
            },
            Stage::Sortition => {
                if let Event::Processed { sortitioned, won } = event {
                    if !sortitioned {
                        self.stage = Stage::Aborted(Fatal::NoSortitionedBlock { node: self.cursor, round: self.round });
                    } else if self.artifacts {
                        self.stage = Stage::Ingest;
                        self.won = won;
                    } else {
                        self.pass_node();
                    }
                }
            },
            Stage::Ingest => self.stage = Stage::FireChain,
            Stage::FireChain => {
                self.tally = Ghost(RoundTally { chains: t.chains + 1, ..t });
                if self.won {
                    self.stage = Stage::NextTenure;
                } else {
                    self.pass_node();
                }
            },
            Stage::NextTenure => {
                if let Event::Tenure { present } = event {
                    self.tenure = present;
                    self.pass_node();
                }
            },
            Stage::Pause => {
                self.round = self.round + 1;
                self.open_round();
            },
            _ => {},
        }
        self.action()
    }

    /// The action the run loop waits on.
    pub fn action(&self) -> (a: Action)
        ensures
            a == action_of(self@),
    {
        match self.stage {
            Stage::NotStarted => Action::Finish,
            Stage::MakeGenesis => Action::MakeGenesisBlock,
            Stage::FeedGenesis => Action::ProcessBurnchainState { node: self.cursor },
            Stage::Setup => Action::Setup { node: self.cursor },
            Stage::FirstBlock => Action::MakeNextBlock,
            Stage::FeedFirst => Action::ProcessBurnchainState { node: self.cursor },
            Stage::GenesisTenure => Action::InitiateGenesisTenure,
            Stage::BootFireTenure => Action::NewTenure { round: self.round },
            Stage::BootRunTenure => Action::RunTenure,
            Stage::BootReceive => Action::ReceiveTenureArtifacts { node: 0 },
            Stage::FireTenure => Action::NewTenure { round: self.round },
            Stage::RunTenure => Action::RunTenure,
            Stage::Receive => Action::ReceiveTenureArtifacts { node: self.cursor },
            Stage::NextBlock => Action::MakeNextBlock,
            Stage::FireBurn => Action::NewBurnchainState { round: self.round },
            Stage::Sortition => Action::ProcessBurnchainState { node: self.cursor },
            Stage::Ingest => Action::ProcessTenure { node: self.cursor },
            Stage::FireChain => Action::NewChainState { round: self.round, node: self.cursor },
            Stage::NextTenure => Action::InitiateNewTenure { node: self.cursor },
            Stage::Pause => Action::Pause { ms: self.config.burnchain_block_time },
            Stage::Finished => Action::Finish,
            Stage::Aborted(f) => Action::Abort(f),
        }
    }
}

} // verus!
