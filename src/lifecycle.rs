use vstd::prelude::*;
use crate::keys::IDENTITY_COUNT;
use crate::resources::{funding_amount, funding_amount_spec, Chain, Resource, PEER_COUNT};

verus! {

/// The stages of a run, in the order a successful run passes them.
#[derive(Clone, Copy, Debug, PartialEq, Eq, Structural)]
pub enum Stage {
    Idle,
    LockAcquiring,
    NetworkCreating,
    NodesStarting,
    NodesFunding,
    EnvFileWriting,
    PeersStarting,
    Running,
    ShuttingDown,
    Terminated,
}

/// How far one node has come: started or not, and how many identities it
/// has funded, in identity order.
#[derive(Clone, Copy, Debug, PartialEq, Eq, Structural)]
pub struct ChainProgress {
    pub started: bool,
    pub funded: usize,
}

/// What became of one peer-daemon start.
#[derive(Clone, Copy, Debug, PartialEq, Eq, Structural)]
pub enum PeerOutcome {
    Pending,
    Started,
    Failed,
}

/// Why provisioning failed, with the cause as the collaborator reported it.
#[derive(Clone, Debug, PartialEq, Eq)]
pub enum Failure {
    BitcoinFunding(String),
    EtherFunding(String),
    Docker(String),
    CreateDir(String),
    WriteConfig(String),
    Unimplemented,
}

/// What the outside world reports back to the orchestrator.
#[derive(Clone, Debug, PartialEq, Eq)]
pub enum Event {
    /// The run begins; `lock_present` tells whether a run lock already exists.
    Launch { lock_present: bool },
    LockAcquired,
    /// The run lock (and the env file in it) could not be created.
    LockFailed(String),
    NetworkCreated,
    NetworkFailed(String),
    NodeStarted(Chain),
    NodeFailed(Chain, String),
    /// The pending funding call of the chain succeeded.
    Funded(Chain),
    FundingFailed(Chain, String),
    EnvFileWritten,
    EnvFileFailed(String),
    PeerStarted(usize),
    PeerFailed(usize, Failure),
    /// The block-production timer fired.
    Tick,
    /// A termination signal arrived.
    Signal,
    /// The teardown pass finished (its own errors are not reported).
    TeardownDone,
}

/// What the orchestrator asks the outside world to do.
#[derive(Clone, Copy, Debug, PartialEq, Eq, Structural)]
pub enum Action {
    /// End the process with this status.
    Exit(i32),
    /// Create the run lock (the temporary tree) and the empty env file in it.
    AcquireLock,
    CreateNetwork,
    StartNode(Chain),
    /// Fund identity `identity` on `chain` with `amount`.
    Fund { chain: Chain, identity: usize, amount: u64 },
    /// Write the key material to the env file.
    WriteEnvFile,
    StartPeer(usize),
    /// Provisioning is done: start block production and wait for a signal.
    Serve,
    GenerateBlock,
    /// Run one teardown pass (see `teardown_plan`).
    Teardown,
}

/// The orchestrator's state as a mathematical value.
pub struct State {
    pub stage: Stage,
    pub bitcoin: ChainProgress,
    pub ethereum: ChainProgress,
    pub peers: Seq<PeerOutcome>,
    pub failure: Option<Failure>,
    pub created: Seq<Resource>,
    pub teardowns: nat,
    pub exit_code: Option<i32>,
}

/// The lifecycle orchestrator: it takes events and answers with actions.
pub struct Orchestrator {
    pub stage: Stage,
    pub bitcoin: ChainProgress,
    pub ethereum: ChainProgress,
    pub peers: Vec<PeerOutcome>,
    /// The failure that started shutdown (while peers start, the first one
    /// reported, kept until every start has answered).
    pub failure: Option<Failure>,
    /// The resources created so far, in creation order.
    pub created: Vec<Resource>,
    /// How many teardown passes were asked for.
    pub teardowns: usize,
    pub exit_code: Option<i32>,
}

impl View for Orchestrator {
    type V = State;

    open spec fn view(&self) -> State {
        State {
            stage: self.stage,
            bitcoin: self.bitcoin,
            ethereum: self.ethereum,
            peers: self.peers@,
            failure: self.failure,
            created: self.created@,
            teardowns: self.teardowns as nat,
            exit_code: self.exit_code,
        }
    }
}

pub open spec fn initial_state() -> State {
    State {
        stage: Stage::Idle,
        bitcoin: ChainProgress { started: false, funded: 0 },
        ethereum: ChainProgress { started: false, funded: 0 },
        peers: Seq::new(PEER_COUNT as nat, |i: int| PeerOutcome::Pending),
        failure: None,
        created: Seq::empty(),
        teardowns: 0,
        exit_code: None,
    }
}

pub open spec fn is_provisioning(stage: Stage) -> bool {
    ||| stage is LockAcquiring
    ||| stage is NetworkCreating
    ||| stage is NodesStarting
    ||| stage is NodesFunding
    ||| stage is EnvFileWriting
    ||| stage is PeersStarting
}

pub open spec fn is_node_phase(stage: Stage) -> bool {
    stage is NodesStarting || stage is NodesFunding
}

pub open spec fn progress(s: State, chain: Chain) -> ChainProgress {
    match chain {
        Chain::Bitcoin => s.bitcoin,
        Chain::Ethereum => s.ethereum,
    }
}

pub open spec fn other(chain: Chain) -> Chain {
    match chain {
        Chain::Bitcoin => Chain::Ethereum,
        Chain::Ethereum => Chain::Bitcoin,
    }
}

pub open spec fn with_progress(s: State, chain: Chain, p: ChainProgress) -> State {
    match chain {
        Chain::Bitcoin => State { bitcoin: p, ..s },
        Chain::Ethereum => State { ethereum: p, ..s },
    }
}

/// A node that is started and has funded every identity.
pub open spec fn is_done(p: ChainProgress) -> bool {
    p.started && p.funded == IDENTITY_COUNT
}

/// The node-phase stage: funding once both nodes are up.
pub open spec fn node_stage(s: State) -> Stage {
    if s.bitcoin.started && s.ethereum.started {
        Stage::NodesFunding
    } else {
        Stage::NodesStarting
    }
}

pub open spec fn fund_action(chain: Chain, identity: nat) -> Action {
    Action::Fund { chain, identity: identity as usize, amount: funding_amount_spec(chain) }
}

pub open spec fn funding_failure(chain: Chain, cause: String) -> Failure {
    match chain {
        Chain::Bitcoin => Failure::BitcoinFunding(cause),
        Chain::Ethereum => Failure::EtherFunding(cause),
    }
}

/// Leaving for shutdown with failure `f`: one teardown pass is asked for.
pub open spec fn fail(s: State, f: Failure) -> (State, Seq<Action>) {
    (
        State { stage: Stage::ShuttingDown, failure: Some(f), teardowns: s.teardowns + 1, ..s },
        seq![Action::Teardown],
    )
}

/// Once every peer start has answered: shutdown if one failed, else running.
pub open spec fn settle(s: State) -> (State, Seq<Action>) {
    if s.peers.contains(PeerOutcome::Pending) {
        (s, Seq::empty())
    } else if s.failure is Some {
        (State { stage: Stage::ShuttingDown, teardowns: s.teardowns + 1, ..s }, seq![Action::Teardown])
    } else {
        (State { stage: Stage::Running, ..s }, seq![Action::Serve])
    }
}

pub open spec fn peer_starts() -> Seq<Action> {
    Seq::new(PEER_COUNT as nat, |i: int| Action::StartPeer(i as usize))
}

/// The transition of the lifecycle: the next state and the actions to take.
/// An event that does not fit the current stage changes nothing.
pub open spec fn next(s: State, e: Event) -> (State, Seq<Action>) {
    let ignore = (s, Seq::<Action>::empty());
    match e {
        Event::Launch { lock_present } => {
            if !(s.stage is Idle) {
                ignore
            } else if lock_present {
                (State { stage: Stage::Terminated, exit_code: Some(1), ..s }, seq![Action::Exit(1)])
            } else {
                (
                    State {
                        stage: Stage::LockAcquiring,
                        created: s.created.push(Resource::TempTree),
                        ..s
                    },
                    seq![Action::AcquireLock],
                )
            }
        },
        Event::LockAcquired => {
            if s.stage is LockAcquiring {
                (State { stage: Stage::NetworkCreating, ..s }, seq![Action::CreateNetwork])
            } else {
                ignore
            }
        },
        Event::LockFailed(cause) => {
            if s.stage is LockAcquiring { fail(s, Failure::CreateDir(cause)) } else { ignore }
        },
        Event::NetworkCreated => {
            if s.stage is NetworkCreating {
                (
                    State { stage: Stage::NodesStarting, created: s.created.push(Resource::Network), ..s },
                    seq![Action::StartNode(Chain::Bitcoin), Action::StartNode(Chain::Ethereum)],
                )
            } else {
                ignore
            }
        },
        Event::NetworkFailed(cause) => {
            if s.stage is NetworkCreating { fail(s, Failure::Docker(cause)) } else { ignore }
        },
        Event::NodeStarted(chain) => {
            if is_node_phase(s.stage) && !progress(s, chain).started {
                let s1 = with_progress(s, chain, ChainProgress { started: true, funded: 0 });
                (
                    State { stage: node_stage(s1), created: s.created.push(Resource::Node(chain)), ..s1 },
                    seq![fund_action(chain, 0)],
                )
            } else {
                ignore
            }
        },
        Event::NodeFailed(chain, cause) => {
            if is_node_phase(s.stage) && !progress(s, chain).started {
                fail(s, Failure::Docker(cause))
            } else {
                ignore
            }
        },
        Event::Funded(chain) => {
            let p = progress(s, chain);
            if is_node_phase(s.stage) && p.started && p.funded < IDENTITY_COUNT {
                let n = (p.funded + 1) as usize;
                let s1 = with_progress(s, chain, ChainProgress { started: true, funded: n });
                if n < IDENTITY_COUNT {
                    (State { stage: node_stage(s1), ..s1 }, seq![fund_action(chain, n as nat)])
                } else if is_done(progress(s, other(chain))) {
                    (State { stage: Stage::EnvFileWriting, ..s1 }, seq![Action::WriteEnvFile])
                } else {
                    (State { stage: node_stage(s1), ..s1 }, Seq::empty())
                }
            } else {
                ignore
            }
        },
        Event::FundingFailed(chain, cause) => {
            let p = progress(s, chain);
            if is_node_phase(s.stage) && p.started && p.funded < IDENTITY_COUNT {
                fail(s, funding_failure(chain, cause))
            } else {
                ignore
            }
        },
        Event::EnvFileWritten => {
            if s.stage is EnvFileWriting {
                (State { stage: Stage::PeersStarting, ..s }, peer_starts())
            } else {
                ignore
            }
        },
        Event::EnvFileFailed(cause) => {
            if s.stage is EnvFileWriting { fail(s, Failure::WriteConfig(cause)) } else { ignore }
        },
        Event::PeerStarted(i) => {
            if s.stage is PeersStarting && i < s.peers.len() && s.peers[i as int] is Pending {
                settle(
                    State {
                        peers: s.peers.update(i as int, PeerOutcome::Started),
                        created: s.created.push(Resource::Peer(i)),
                        ..s
                    },
                )
            } else {
                ignore
            }
        },
        Event::PeerFailed(i, f) => {
            if s.stage is PeersStarting && i < s.peers.len() && s.peers[i as int] is Pending {
                settle(
                    State {
                        peers: s.peers.update(i as int, PeerOutcome::Failed),
                        failure: if s.failure is Some { s.failure } else { Some(f) },
                        ..s
                    },
                )
            } else {
                ignore
            }
        },
        Event::Tick => {
            if s.stage is Running { (s, seq![Action::GenerateBlock]) } else { ignore }
        },
        Event::Signal => {
            if s.stage is Running {
                (State { stage: Stage::ShuttingDown, teardowns: s.teardowns + 1, ..s }, seq![Action::Teardown])
            } else {
                ignore
            }
        },
        Event::TeardownDone => {
            if s.stage is ShuttingDown {
                let code: i32 = if s.failure is Some { 1 } else { 0 };
                (State { stage: Stage::Terminated, exit_code: Some(code), ..s }, seq![Action::Exit(code)])
            } else {
                ignore
            }
        },
    }
}

impl State {
    /// The invariant of every reachable state.
    pub open spec fn wf(self) -> bool {
        &&& self.peers.len() == PEER_COUNT
        &&& self.bitcoin.funded <= IDENTITY_COUNT
        &&& self.ethereum.funded <= IDENTITY_COUNT
        &&& !self.bitcoin.started ==> self.bitcoin.funded == 0
        &&& !self.ethereum.started ==> self.ethereum.funded == 0
        &&& self.teardowns <= 1
        &&& (self.stage is ShuttingDown ==> self.teardowns == 1)
        &&& (self.stage is Idle || self.stage is Running || is_provisioning(self.stage))
            ==> self.teardowns == 0
        &&& (self.stage is Idle ==> self.created.len() == 0)
        &&& (self.stage is Terminated ==> (self.teardowns == 1 <==> self.created.len() > 0))
        &&& (!(self.stage is Idle) && !(self.stage is Terminated)) ==> self.created.len() > 0
        &&& forall|k: int| 0 <= k < self.created.len() ==> (#[trigger] self.created[k]).is_valid()
        &&& (self.failure is Some && !(self.stage is PeersStarting)) ==> self.teardowns == 1
        &&& (self.stage is Running ==> self.failure is None)
    }
}

/// Every transition keeps the invariant.
pub proof fn lemma_next_wf(s: State, e: Event)
    requires
        s.wf(),
    ensures
        next(s, e).0.wf(),
{
    let r = next(s, e).0;
    assert forall|k: int| 0 <= k < r.created.len() implies (#[trigger] r.created[k]).is_valid() by {
        if k < s.created.len() {
            assert(s.created[k].is_valid());
        }
    }
}

impl Orchestrator {
    /// A fresh orchestrator, before launch.
    pub fn new() -> (r: Orchestrator)
        ensures
            r@ == initial_state(),
            r@.wf(),
    {
        let mut peers: Vec<PeerOutcome> = Vec::new();
        let mut i: usize = 0;
        while i < PEER_COUNT
            invariant
                i <= PEER_COUNT,
                peers@ =~= Seq::new(i as nat, |k: int| PeerOutcome::Pending),
            decreases PEER_COUNT - i,
        {
            peers.push(PeerOutcome::Pending);
            i = i + 1;
        }
        let r = Orchestrator {
            stage: Stage::Idle,
            bitcoin: ChainProgress { started: false, funded: 0 },
            ethereum: ChainProgress { started: false, funded: 0 },
            peers,
            failure: None,
            created: Vec::new(),
            teardowns: 0,
            exit_code: None,
        };
        assert(r@.created =~= Seq::<Resource>::empty());
        r
    }

    fn progress_of(&self, chain: Chain) -> (r: ChainProgress)
        ensures
            r == progress(self@, chain),
    {
        match chain {
            Chain::Bitcoin => self.bitcoin,
            Chain::Ethereum => self.ethereum,
        }
    }

    fn set_progress(&mut self, chain: Chain, p: ChainProgress)
        ensures
            final(self)@ == with_progress(old(self)@, chain, p),
    {
        match chain {
            Chain::Bitcoin => { self.bitcoin = p; },
            Chain::Ethereum => { self.ethereum = p; },
        }
    }

    fn node_stage_of(&self) -> (r: Stage)
        ensures
            r == node_stage(self@),
    {
        if self.bitcoin.started && self.ethereum.started {
            Stage::NodesFunding
        } else {
            Stage::NodesStarting
        }
    }

    fn in_node_phase(&self) -> (r: bool)
        ensures
            r == is_node_phase(self.stage),
    {
        match self.stage {
            Stage::NodesStarting | Stage::NodesFunding => true,
            _ => false,
        }
    }

    fn fail(&mut self, f: Failure) -> (r: Vec<Action>)
        requires
            old(self).teardowns == 0,
        ensures
            (final(self)@, r@) == fail(old(self)@, f),
    {
        self.stage = Stage::ShuttingDown;
        self.failure = Some(f);
        self.teardowns = self.teardowns + 1;
        let r: Vec<Action> = vec![Action::Teardown];
        assert(r@ =~= seq![Action::Teardown]);
        r
    }

    fn settle(&mut self) -> (r: Vec<Action>)
        requires
            old(self).teardowns == 0,
        ensures
            (final(self)@, r@) == settle(old(self)@),
    {
        let mut i: usize = 0;
        while i < self.peers.len()
            invariant
                i <= self.peers@.len(),
                forall|k: int| 0 <= k < i ==> self.peers@[k] != PeerOutcome::Pending,
            decreases self.peers@.len() - i,
        {
            if self.peers[i] == PeerOutcome::Pending {
                assert(self.peers@[i as int] == PeerOutcome::Pending);
                return Vec::new();
            }
            i = i + 1;
        }
        assert(!self.peers@.contains(PeerOutcome::Pending));
        if self.failure.is_some() {
            self.stage = Stage::ShuttingDown;
            self.teardowns = self.teardowns + 1;
            let r: Vec<Action> = vec![Action::Teardown];
            assert(r@ =~= seq![Action::Teardown]);
            r
        } else {
            self.stage = Stage::Running;
            let r: Vec<Action> = vec![Action::Serve];
            assert(r@ =~= seq![Action::Serve]);
            r
        }
    }

    /// Takes one event and answers with the actions it calls for, as `next`
    /// states.
    pub fn handle(&mut self, event: Event) -> (r: Vec<Action>)
        requires
            old(self)@.wf(),
        ensures
            (final(self)@, r@) == next(old(self)@, event),
            final(self)@.wf(),
    {
        proof {
            lemma_next_wf(self@, event);
        }
        let ghost pre = self@;
        let r: Vec<Action> = match event {
            Event::Launch { lock_present } => {
                if self.stage != Stage::Idle {
                    Vec::new()
                } else if lock_present {
                    self.stage = Stage::Terminated;
                    self.exit_code = Some(1);
                    let r: Vec<Action> = vec![Action::Exit(1)];
                    assert(r@ =~= seq![Action::Exit(1)]);
                    r
                } else {
                    self.stage = Stage::LockAcquiring;
                    self.created.push(Resource::TempTree);
                    let r: Vec<Action> = vec![Action::AcquireLock];
                    assert(r@ =~= seq![Action::AcquireLock]);
                    r
                }
            },
            Event::LockAcquired => {
                if self.stage == Stage::LockAcquiring {
                    self.stage = Stage::NetworkCreating;
                    let r: Vec<Action> = vec![Action::CreateNetwork];
                    assert(r@ =~= seq![Action::CreateNetwork]);
                    r
                } else {
                    Vec::new()
                }
            },
            Event::LockFailed(cause) => {
                if self.stage == Stage::LockAcquiring {
                    self.fail(Failure::CreateDir(cause))
                } else {
                    Vec::new()
                }
            },
            Event::NetworkCreated => {
                if self.stage == Stage::NetworkCreating {
                    self.stage = Stage::NodesStarting;
                    self.created.push(Resource::Network);
                    let r: Vec<Action> = vec![Action::StartNode(Chain::Bitcoin), Action::StartNode(Chain::Ethereum)];
                    assert(r@ =~= seq![Action::StartNode(Chain::Bitcoin), Action::StartNode(Chain::Ethereum)]);
                    r
                } else {
                    Vec::new()
                }
            },
            Event::NetworkFailed(cause) => {
                if self.stage == Stage::NetworkCreating {
                    self.fail(Failure::Docker(cause))
                } else {
                    Vec::new()
                }
            },
            Event::NodeStarted(chain) => {
                if self.in_node_phase() && !self.progress_of(chain).started {
                    self.set_progress(chain, ChainProgress { started: true, funded: 0 });
                    self.stage = self.node_stage_of();
                    self.created.push(Resource::Node(chain));
                    let r: Vec<Action> = vec![Action::Fund { chain, identity: 0, amount: funding_amount(chain) }];
                    assert(r@ =~= seq![fund_action(chain, 0)]);
                    r
                } else {
                    Vec::new()
                }
            },
            Event::NodeFailed(chain, cause) => {
                if self.in_node_phase() && !self.progress_of(chain).started {
                    self.fail(Failure::Docker(cause))
                } else {
                    Vec::new()
                }
            },
            Event::Funded(chain) => {
                let p = self.progress_of(chain);
                if self.in_node_phase() && p.started && p.funded < IDENTITY_COUNT {
                    let n: usize = p.funded + 1;
                    let done_other = {
                        let q = match chain {
                            Chain::Bitcoin => self.ethereum,
                            Chain::Ethereum => self.bitcoin,
                        };
                        q.started && q.funded == IDENTITY_COUNT
                    };
                    self.set_progress(chain, ChainProgress { started: true, funded: n });
                    if n < IDENTITY_COUNT {
                        self.stage = self.node_stage_of();
                        let r: Vec<Action> = vec![Action::Fund { chain, identity: n, amount: funding_amount(chain) }];
                        assert(r@ =~= seq![fund_action(chain, n as nat)]);
                        r
                    } else if done_other {
                        self.stage = Stage::EnvFileWriting;
                        let r: Vec<Action> = vec![Action::WriteEnvFile];
                        assert(r@ =~= seq![Action::WriteEnvFile]);
                        r
                    } else {
                        self.stage = self.node_stage_of();
                        Vec::new()
                    }
                } else {
                    Vec::new()
                }
            },
            Event::FundingFailed(chain, cause) => {
                let p = self.progress_of(chain);
                if self.in_node_phase() && p.started && p.funded < IDENTITY_COUNT {
                    let f = match chain {
                        Chain::Bitcoin => Failure::BitcoinFunding(cause),
                        Chain::Ethereum => Failure::EtherFunding(cause),
                    };
                    self.fail(f)
                } else {
                    Vec::new()
                }
            },
            Event::EnvFileWritten => {
                if self.stage == Stage::EnvFileWriting {
                    self.stage = Stage::PeersStarting;
                    let mut r: Vec<Action> = Vec::new();
                    let mut i: usize = 0;
                    while i < PEER_COUNT
                        invariant
                            i <= PEER_COUNT,
                            r@ =~= Seq::new(i as nat, |k: int| Action::StartPeer(k as usize)),
                        decreases PEER_COUNT - i,
                    {
                        r.push(Action::StartPeer(i));
                        i = i + 1;
                    }
                    r
                } else {
                    Vec::new()
                }
            },
            Event::EnvFileFailed(cause) => {
                if self.stage == Stage::EnvFileWriting {
                    self.fail(Failure::WriteConfig(cause))
                } else {
                    Vec::new()
                }
            },
            Event::PeerStarted(i) => {
                if self.stage == Stage::PeersStarting && i < self.peers.len()
                    && self.peers[i] == PeerOutcome::Pending {
                    self.peers.set(i, PeerOutcome::Started);
                    self.created.push(Resource::Peer(i));
                    self.settle()
                } else {
                    Vec::new()
                }
            },
            Event::PeerFailed(i, f) => {
                if self.stage == Stage::PeersStarting && i < self.peers.len()
                    && self.peers[i] == PeerOutcome::Pending {
                    self.peers.set(i, PeerOutcome::Failed);
                    if self.failure.is_none() {
                        self.failure = Some(f);
                    }
                    self.settle()
                } else {
                    Vec::new()
                }
            },
            Event::Tick => {
                if self.stage == Stage::Running {
                    let r: Vec<Action> = vec![Action::GenerateBlock];
                    assert(r@ =~= seq![Action::GenerateBlock]);
                    r
                } else {
                    Vec::new()
                }
            },
            Event::Signal => {
                if self.stage == Stage::Running {
                    self.stage = Stage::ShuttingDown;
                    self.teardowns = self.teardowns + 1;
                    let r: Vec<Action> = vec![Action::Teardown];
                    assert(r@ =~= seq![Action::Teardown]);
                    r
                } else {
                    Vec::new()
                }
            },
            Event::TeardownDone => {
                if self.stage == Stage::ShuttingDown {
                    let code: i32 = if self.failure.is_some() { 1 } else { 0 };
                    self.stage = Stage::Terminated;
                    self.exit_code = Some(code);
                    let r: Vec<Action> = vec![Action::Exit(code)];
                    assert(r@ =~= seq![Action::Exit(code)]);
                    r
                } else {
                    Vec::new()
                }
            },
        };
        assert(self@.created =~= next(pre, event).0.created);
        assert(self@.peers =~= next(pre, event).0.peers);
        assert(r@ =~= next(pre, event).1);
        r
    }
}

} // verus!
