use create_comit_app::lifecycle::{Action, Event, Failure, Orchestrator, PeerOutcome, Stage};
use create_comit_app::resources::{
    funding_amount, node_name, peer_launch, peer_name, teardown_plan, Chain, Resource,
    BITCOIN_FUNDING_SATS, ETHER_FUNDING_WEI, PEER_COUNT,
};
use create_comit_app::settings::Comit;

/// A stand-in for the container runtime, the RPC nodes and the file system.
struct FakeWorld {
    existing: Vec<Resource>,
    lock_present: bool,
    fail_lock: bool,
    fail_ethereum_start: bool,
    fail_peer: Option<usize>,
    fail_bitcoin_funding_at: Option<usize>,
    log: Vec<Action>,
    teardown_passes: usize,
    blocks: usize,
    exit: Option<i32>,
}

impl FakeWorld {
    fn new() -> FakeWorld {
        FakeWorld {
            existing: Vec::new(),
            lock_present: false,
            fail_lock: false,
            fail_ethereum_start: false,
            fail_peer: None,
            fail_bitcoin_funding_at: None,
            log: Vec::new(),
            teardown_passes: 0,
            blocks: 0,
            exit: None,
        }
    }

    fn create(&mut self, r: Resource) {
        if !self.existing.contains(&r) {
            self.existing.push(r);
        }
    }

    fn teardown(&mut self) -> usize {
        let mut removed = 0;
        for r in teardown_plan() {
            if let Some(pos) = self.existing.iter().position(|e| *e == r) {
                self.existing.remove(pos);
                removed += 1;
            }
        }
        removed
    }

    /// Performs one action and reports what came of it.
    fn perform(&mut self, action: Action) -> Option<Event> {
        self.log.push(action);
        match action {
            Action::Exit(code) => {
                self.exit = Some(code);
                None
            }
            Action::AcquireLock => {
                if self.fail_lock {
                    Some(Event::LockFailed("permission denied".to_string()))
                } else {
                    self.create(Resource::TempTree);
                    Some(Event::LockAcquired)
                }
            }
            Action::CreateNetwork => {
                self.create(Resource::Network);
                Some(Event::NetworkCreated)
            }
            Action::StartNode(Chain::Ethereum) if self.fail_ethereum_start => {
                Some(Event::NodeFailed(Chain::Ethereum, "no image".to_string()))
            }
            Action::StartNode(chain) => {
                self.create(Resource::Node(chain));
                Some(Event::NodeStarted(chain))
            }
            Action::Fund { chain, identity, .. } => {
                if chain == Chain::Bitcoin && self.fail_bitcoin_funding_at == Some(identity) {
                    Some(Event::FundingFailed(chain, "rpc down".to_string()))
                } else {
                    Some(Event::Funded(chain))
                }
            }
            Action::WriteEnvFile => Some(Event::EnvFileWritten),
            Action::StartPeer(i) => {
                if self.fail_peer == Some(i) {
                    Some(Event::PeerFailed(i, Failure::Docker("port taken".to_string())))
                } else {
                    self.create(Resource::Peer(i));
                    Some(Event::PeerStarted(i))
                }
            }
            Action::Serve => None,
            Action::GenerateBlock => {
                self.blocks += 1;
                None
            }
            Action::Teardown => {
                self.teardown_passes += 1;
                self.teardown();
                Some(Event::TeardownDone)
            }
        }
    }
}

/// Feeds `event` and every event that follows from the actions, in order.
fn drive(orch: &mut Orchestrator, world: &mut FakeWorld, event: Event) {
    let mut queue = vec![event];
    while let Some(e) = queue.pop() {
        let actions = orch.handle(e);
        let mut follow = Vec::new();
        for a in actions {
            if let Some(ev) = world.perform(a) {
                follow.push(ev);
            }
        }
        follow.reverse();
        queue.extend(follow);
    }
}

fn launch(world: &mut FakeWorld) -> Orchestrator {
    let mut orch = Orchestrator::new();
    let lock_present = world.lock_present;
    drive(&mut orch, world, Event::Launch { lock_present });
    orch
}

#[test]
fn scenario_fresh_run_until_signal() {
    let mut world = FakeWorld::new();
    let mut orch = launch(&mut world);
    assert_eq!(orch.stage, Stage::Running);
    assert!(world.existing.contains(&Resource::Network));
    assert!(world.existing.contains(&Resource::Node(Chain::Bitcoin)));
    assert!(world.existing.contains(&Resource::Node(Chain::Ethereum)));
    assert!(world.existing.contains(&Resource::Peer(0)));
    assert!(world.existing.contains(&Resource::Peer(1)));
    let funds = world.log.iter().filter(|a| matches!(a, Action::Fund { .. })).count();
    assert_eq!(funds, 4);
    assert_eq!(world.log.iter().filter(|a| **a == Action::WriteEnvFile).count(), 1);
    assert!(world.log.contains(&Action::Serve));

    drive(&mut orch, &mut world, Event::Tick);
    drive(&mut orch, &mut world, Event::Tick);
    assert_eq!(world.blocks, 2);

    drive(&mut orch, &mut world, Event::Signal);
    assert_eq!(orch.stage, Stage::Terminated);
    assert_eq!(world.teardown_passes, 1);
    assert!(world.existing.is_empty());
    assert_eq!(orch.exit_code, Some(0));
    assert_eq!(world.exit, Some(0));
}

#[test]
fn scenario_lock_already_present() {
    let mut world = FakeWorld::new();
    world.lock_present = true;
    let orch = launch(&mut world);
    assert_eq!(orch.stage, Stage::Terminated);
    assert_eq!(world.log, vec![Action::Exit(1)]);
    assert!(world.existing.is_empty());
    assert_eq!(world.teardown_passes, 0);
    assert_eq!(world.exit, Some(1));
}

#[test]
fn scenario_ethereum_start_fails() {
    let mut world = FakeWorld::new();
    world.fail_ethereum_start = true;
    let orch = launch(&mut world);
    assert_eq!(orch.stage, Stage::Terminated);
    assert_eq!(orch.failure, Some(Failure::Docker("no image".to_string())));
    assert!(!world.log.iter().any(|a| matches!(a, Action::StartPeer(_))));
    assert_eq!(world.teardown_passes, 1);
    assert!(world.existing.is_empty());
    assert_eq!(world.exit, Some(1));
}

#[test]
fn scenario_one_peer_start_fails() {
    let mut world = FakeWorld::new();
    world.fail_peer = Some(1);
    let orch = launch(&mut world);
    assert!(world.log.contains(&Action::StartPeer(0)));
    assert!(world.log.contains(&Action::StartPeer(1)));
    assert_eq!(orch.peers, vec![PeerOutcome::Started, PeerOutcome::Failed]);
    assert_eq!(orch.stage, Stage::Terminated);
    assert_eq!(world.teardown_passes, 1);
    assert!(world.existing.is_empty());
    assert_eq!(world.exit, Some(1));
}

#[test]
fn failure_at_each_stage_tears_down_once() {
    for stage in 0..5 {
        let mut world = FakeWorld::new();
        match stage {
            4 => world.fail_lock = true,
            0 => world.fail_ethereum_start = true,
            1 => world.fail_bitcoin_funding_at = Some(0),
            2 => world.fail_bitcoin_funding_at = Some(1),
            _ => world.fail_peer = Some(0),
        }
        let mut orch = launch(&mut world);
        assert_eq!(world.teardown_passes, 1);
        assert!(world.existing.is_empty());
        assert_eq!(orch.exit_code, Some(1));
        // A second pass finds nothing left to remove.
        assert_eq!(world.teardown(), 0);
        // Late events change nothing once terminated.
        let before = world.log.len();
        drive(&mut orch, &mut world, Event::Signal);
        drive(&mut orch, &mut world, Event::TeardownDone);
        assert_eq!(world.log.len(), before);
    }
}

#[test]
fn funding_failure_is_tagged_by_chain() {
    let mut world = FakeWorld::new();
    world.fail_bitcoin_funding_at = Some(1);
    let orch = launch(&mut world);
    assert_eq!(orch.failure, Some(Failure::BitcoinFunding("rpc down".to_string())));
    let calls: Vec<usize> = world
        .log
        .iter()
        .filter_map(|a| match a {
            Action::Fund { chain: Chain::Bitcoin, identity, .. } => Some(*identity),
            _ => None,
        })
        .collect();
    assert_eq!(calls, vec![0, 1]);
}

#[test]
fn funding_calls_follow_identity_order() {
    let mut world = FakeWorld::new();
    let _orch = launch(&mut world);
    for chain in [Chain::Bitcoin, Chain::Ethereum] {
        let calls: Vec<(usize, u64)> = world
            .log
            .iter()
            .filter_map(|a| match a {
                Action::Fund { chain: c, identity, amount } if *c == chain => Some((*identity, *amount)),
                _ => None,
            })
            .collect();
        let amount = funding_amount(chain);
        assert_eq!(calls, vec![(0, amount), (1, amount)]);
    }
    assert_eq!(funding_amount(Chain::Bitcoin), 1_000_000_000);
    assert_eq!(funding_amount(Chain::Ethereum), 9_000_000_000_000_000_000);
    assert_eq!(BITCOIN_FUNDING_SATS, 1_000_000_000);
    assert_eq!(ETHER_FUNDING_WEI, 9_000_000_000_000_000_000);
}

#[test]
fn peers_reported_out_of_order() {
    let mut orch = Orchestrator::new();
    orch.handle(Event::Launch { lock_present: false });
    orch.handle(Event::LockAcquired);
    orch.handle(Event::NetworkCreated);
    orch.handle(Event::NodeStarted(Chain::Ethereum));
    orch.handle(Event::NodeStarted(Chain::Bitcoin));
    assert_eq!(orch.stage, Stage::NodesFunding);
    for _ in 0..2 {
        orch.handle(Event::Funded(Chain::Bitcoin));
    }
    assert_eq!(orch.stage, Stage::NodesFunding);
    orch.handle(Event::Funded(Chain::Ethereum));
    let last = orch.handle(Event::Funded(Chain::Ethereum));
    assert_eq!(last, vec![Action::WriteEnvFile]);
    let starts = orch.handle(Event::EnvFileWritten);
    assert_eq!(starts, vec![Action::StartPeer(0), Action::StartPeer(1)]);
    assert!(orch.handle(Event::PeerStarted(1)).is_empty());
    assert_eq!(orch.handle(Event::PeerStarted(1)), Vec::<Action>::new());
    assert_eq!(orch.handle(Event::PeerStarted(0)), vec![Action::Serve]);
    assert_eq!(orch.stage, Stage::Running);
}

#[test]
fn events_out_of_stage_are_ignored() {
    let mut orch = Orchestrator::new();
    assert!(orch.handle(Event::Signal).is_empty());
    assert!(orch.handle(Event::NetworkCreated).is_empty());
    assert_eq!(orch.stage, Stage::Idle);
    orch.handle(Event::Launch { lock_present: false });
    assert!(orch.handle(Event::Launch { lock_present: false }).is_empty());
    assert!(orch.handle(Event::Tick).is_empty());
    assert_eq!(orch.created, vec![Resource::TempTree]);
}

#[test]
fn env_file_failure_is_write_config() {
    let mut orch = Orchestrator::new();
    orch.handle(Event::Launch { lock_present: false });
    orch.handle(Event::LockAcquired);
    orch.handle(Event::NetworkCreated);
    orch.handle(Event::NodeStarted(Chain::Bitcoin));
    orch.handle(Event::NodeStarted(Chain::Ethereum));
    for _ in 0..2 {
        orch.handle(Event::Funded(Chain::Bitcoin));
        orch.handle(Event::Funded(Chain::Ethereum));
    }
    assert_eq!(orch.stage, Stage::EnvFileWriting);
    assert_eq!(orch.handle(Event::EnvFileFailed("disk full".to_string())), vec![Action::Teardown]);
    assert_eq!(orch.failure, Some(Failure::WriteConfig("disk full".to_string())));
    assert_eq!(orch.teardowns, 1);
    assert_eq!(orch.handle(Event::TeardownDone), vec![Action::Exit(1)]);
}

#[test]
fn network_failure_is_docker() {
    let mut orch = Orchestrator::new();
    orch.handle(Event::Launch { lock_present: false });
    assert_eq!(orch.handle(Event::LockAcquired), vec![Action::CreateNetwork]);
    assert_eq!(orch.handle(Event::NetworkFailed("daemon".to_string())), vec![Action::Teardown]);
    assert_eq!(orch.failure, Some(Failure::Docker("daemon".to_string())));
    assert_eq!(orch.stage, Stage::ShuttingDown);
}

#[test]
fn ether_funding_failure() {
    let mut orch = Orchestrator::new();
    orch.handle(Event::Launch { lock_present: false });
    orch.handle(Event::LockAcquired);
    orch.handle(Event::NetworkCreated);
    orch.handle(Event::NodeStarted(Chain::Ethereum));
    orch.handle(Event::FundingFailed(Chain::Ethereum, "nonce".to_string()));
    assert_eq!(orch.failure, Some(Failure::EtherFunding("nonce".to_string())));
}

#[test]
fn peer_failure_kinds_are_kept() {
    let mut orch = Orchestrator::new();
    orch.handle(Event::Launch { lock_present: false });
    orch.handle(Event::LockAcquired);
    orch.handle(Event::NetworkCreated);
    orch.handle(Event::NodeStarted(Chain::Bitcoin));
    orch.handle(Event::NodeStarted(Chain::Ethereum));
    for _ in 0..2 {
        orch.handle(Event::Funded(Chain::Bitcoin));
        orch.handle(Event::Funded(Chain::Ethereum));
    }
    orch.handle(Event::EnvFileWritten);
    assert!(orch.handle(Event::PeerFailed(0, Failure::CreateDir("perm".to_string()))).is_empty());
    assert_eq!(orch.stage, Stage::PeersStarting);
    let last = orch.handle(Event::PeerFailed(1, Failure::WriteConfig("ro".to_string())));
    assert_eq!(last, vec![Action::Teardown]);
    assert_eq!(orch.failure, Some(Failure::CreateDir("perm".to_string())));
}

#[test]
fn teardown_plan_covers_every_resource() {
    let plan = teardown_plan();
    assert_eq!(
        plan,
        vec![
            Resource::Node(Chain::Bitcoin),
            Resource::Node(Chain::Ethereum),
            Resource::Peer(0),
            Resource::Peer(1),
            Resource::Network,
            Resource::TempTree,
        ]
    );
    assert_eq!(PEER_COUNT, 2);
}

#[test]
fn container_names() {
    assert_eq!(node_name(Chain::Bitcoin), "bitcoin");
    assert_eq!(node_name(Chain::Ethereum), "ethereum");
    assert_eq!(peer_name(0), "cnd_0");
    assert_eq!(peer_name(1), "cnd_1");
    assert_eq!(peer_name(12), "cnd_12");
}

#[test]
fn peer_launch_uses_its_directory_and_seed() {
    let comit = Comit { secret_seed: [7u8; 32] };
    let launch = peer_launch(1, "/tmp/run/abc", comit);
    assert_eq!(launch.name, "cnd_1");
    assert_eq!(launch.volume, "/tmp/run/abc:/config:ro");
    assert_eq!(launch.config_file, "/tmp/run/abc/cnd.toml");
    assert_eq!(launch.settings.base.comit.secret_seed, [7u8; 32]);
    assert_eq!(launch.settings.bitcoin.network, "regtest");
    assert_eq!(launch.settings.bitcoin.node_url, "http://bitcoin:18443");
    assert_eq!(launch.settings.ethereum.network, "regtest");
    assert_eq!(launch.settings.ethereum.node_url, "http://ethereum:8545");
}

#[test]
fn lock_failure_is_create_dir_and_rolls_back() {
    let mut world = FakeWorld::new();
    world.fail_lock = true;
    let orch = launch(&mut world);
    assert_eq!(orch.failure, Some(Failure::CreateDir("permission denied".to_string())));
    assert!(!world.log.contains(&Action::CreateNetwork));
    assert_eq!(world.teardown_passes, 1);
    assert_eq!(world.exit, Some(1));
}

#[test]
fn peer_failure_reported_before_success() {
    let mut orch = Orchestrator::new();
    orch.handle(Event::Launch { lock_present: false });
    orch.handle(Event::LockAcquired);
    orch.handle(Event::NetworkCreated);
    orch.handle(Event::NodeStarted(Chain::Bitcoin));
    orch.handle(Event::NodeStarted(Chain::Ethereum));
    for _ in 0..2 {
        orch.handle(Event::Funded(Chain::Ethereum));
        orch.handle(Event::Funded(Chain::Bitcoin));
    }
    orch.handle(Event::EnvFileWritten);
    assert!(orch.handle(Event::PeerFailed(1, Failure::Docker("x".to_string()))).is_empty());
    assert_eq!(orch.handle(Event::PeerStarted(0)), vec![Action::Teardown]);
    assert!(orch.created.contains(&Resource::Peer(0)));
    assert!(!orch.created.contains(&Resource::Peer(1)));
    for r in &orch.created {
        assert!(teardown_plan().contains(r));
    }
    assert!(orch.handle(Event::Tick).is_empty());
    assert_eq!(orch.handle(Event::TeardownDone), vec![Action::Exit(1)]);
}
