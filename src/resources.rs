use vstd::prelude::*;
use vstd::string::*;
use crate::settings::{Comit, Settings};
use crate::text::{decimal, numbered};

verus! {

/// How many peer-daemon instances a run starts.
pub const PEER_COUNT: usize = 2;

/// The two blockchain nodes of the environment.
#[derive(Clone, Copy, Debug, PartialEq, Eq, Structural)]
pub enum Chain {
    Bitcoin,
    Ethereum,
}

/// Something a run creates and teardown removes.
#[derive(Clone, Copy, Debug, PartialEq, Eq, Structural)]
pub enum Resource {
    /// The run's lock directory, which also holds the env file and the
    /// peer daemons' config directories.
    TempTree,
    /// The container network.
    Network,
    /// The container of a blockchain node.
    Node(Chain),
    /// The container of peer daemon `i`.
    Peer(usize),
}

impl Resource {
    /// A resource that a run can create: peer indices are below `PEER_COUNT`.
    pub open spec fn is_valid(self) -> bool {
        self matches Resource::Peer(i) ==> i < PEER_COUNT
    }
}

/// What teardown removes, in order: the node containers, each peer-daemon
/// container, the network, then the temporary tree.
pub open spec fn teardown_plan_spec() -> Seq<Resource> {
    seq![
        Resource::Node(Chain::Bitcoin),
        Resource::Node(Chain::Ethereum),
        Resource::Peer(0),
        Resource::Peer(1),
        Resource::Network,
        Resource::TempTree,
    ]
}

/// The deletions of one teardown pass. Each is attempted whatever happened
/// to the others, and whether or not the resource was ever created.
pub fn teardown_plan() -> (r: Vec<Resource>)
    ensures
        r@ == teardown_plan_spec(),
{
    let r: Vec<Resource> = vec![
        Resource::Node(Chain::Bitcoin),
        Resource::Node(Chain::Ethereum),
        Resource::Peer(0),
        Resource::Peer(1),
        Resource::Network,
        Resource::TempTree,
    ];
    assert(r@ =~= teardown_plan_spec());
    r
}

/// What is left of a set of existing resources after one teardown pass.
pub open spec fn after_teardown(world: Set<Resource>) -> Set<Resource> {
    world.difference(teardown_plan_spec().to_set())
}

/// Every resource that a run can create is on the teardown plan.
pub proof fn lemma_plan_covers(r: Resource)
    requires
        r.is_valid(),
    ensures
        teardown_plan_spec().contains(r),
{
    match r {
        Resource::Node(Chain::Bitcoin) => assert(teardown_plan_spec()[0] == r),
        Resource::Node(Chain::Ethereum) => assert(teardown_plan_spec()[1] == r),
        Resource::Peer(i) => {
            if i == 0 {
                assert(teardown_plan_spec()[2] == r);
            } else {
                assert(teardown_plan_spec()[3] == r);
            }
        },
        Resource::Network => assert(teardown_plan_spec()[4] == r),
        Resource::TempTree => assert(teardown_plan_spec()[5] == r),
    }
}

/// Teardown is idempotent: a second pass finds none of its targets (each of
/// its deletions meets a missing resource, which counts as success) and
/// leaves the world as the first pass left it.
pub proof fn lemma_teardown_idempotent(world: Set<Resource>)
    ensures
        after_teardown(after_teardown(world)) == after_teardown(world),
        forall|k: int| 0 <= k < teardown_plan_spec().len()
            ==> !after_teardown(world).contains(#[trigger] teardown_plan_spec()[k]),
{
    assert(after_teardown(after_teardown(world)) =~= after_teardown(world));
    assert forall|k: int| 0 <= k < teardown_plan_spec().len()
        implies !after_teardown(world).contains(#[trigger] teardown_plan_spec()[k]) by {
        assert(teardown_plan_spec().to_set().contains(teardown_plan_spec()[k]));
    }
}

/// Teardown leaves nothing that a run can create, whatever existed before.
pub proof fn lemma_teardown_total(world: Set<Resource>, r: Resource)
    requires
        r.is_valid(),
    ensures
        !after_teardown(world).contains(r),
{
    lemma_plan_covers(r);
}

/// The container name of a node.
pub open spec fn node_name_spec(chain: Chain) -> Seq<char> {
    match chain {
        Chain::Bitcoin => "bitcoin"@,
        Chain::Ethereum => "ethereum"@,
    }
}

/// The container name of peer daemon `i`.
pub open spec fn peer_name_spec(i: nat) -> Seq<char> {
    "cnd_"@ + decimal(i)
}

pub fn node_name(chain: Chain) -> (r: String)
    ensures
        r@ == node_name_spec(chain),
{
    match chain {
        Chain::Bitcoin => "bitcoin".to_owned(),
        Chain::Ethereum => "ethereum".to_owned(),
    }
}

pub fn peer_name(i: usize) -> (r: String)
    ensures
        r@ == peer_name_spec(i as nat),
{
    numbered("cnd_", i)
}

/// The funding amount of each identity on Bitcoin, in satoshi.
pub const BITCOIN_FUNDING_SATS: u64 = 1_000_000_000;

/// The funding amount of each identity on Ethereum, in wei.
pub const ETHER_FUNDING_WEI: u64 = 9_000_000_000_000_000_000;

pub open spec fn funding_amount_spec(chain: Chain) -> u64 {
    match chain {
        Chain::Bitcoin => BITCOIN_FUNDING_SATS,
        Chain::Ethereum => ETHER_FUNDING_WEI,
    }
}

/// The balance each identity receives on `chain`.
pub fn funding_amount(chain: Chain) -> (r: u64)
    ensures
        r == funding_amount_spec(chain),
{
    match chain {
        Chain::Bitcoin => BITCOIN_FUNDING_SATS,
        Chain::Ethereum => ETHER_FUNDING_WEI,
    }
}

/// The ledger a peer daemon observes: its network name and node URL.
#[derive(Clone, Debug)]
pub struct LedgerNode {
    pub network: String,
    pub node_url: String,
}

/// The settings document of a peer daemon in this environment.
#[derive(Clone, Debug)]
pub struct PeerSettings {
    pub base: Settings,
    pub bitcoin: LedgerNode,
    pub ethereum: LedgerNode,
}

/// The Bitcoin node's RPC URL on the run's network.
pub open spec fn bitcoin_node_url() -> Seq<char> {
    "http://bitcoin:18443"@
}

/// The Ethereum node's RPC URL on the run's network.
pub open spec fn ethereum_node_url() -> Seq<char> {
    "http://ethereum:8545"@
}

/// Where a peer daemon's config directory is mounted in its container, read-only.
pub open spec fn config_mount() -> Seq<char> {
    ":/config:ro"@
}

/// The name of the settings file inside a config directory.
pub open spec fn config_file_name() -> Seq<char> {
    "/cnd.toml"@
}

/// How peer daemon `index` is started: its container name, the settings it
/// reads, the file they are written to, and the volume that mounts them.
pub struct PeerLaunch {
    pub name: String,
    pub settings: PeerSettings,
    pub config_file: String,
    pub volume: String,
}

/// Settings whose seed is `comit`, with every other part defaulted but the
/// two ledgers, which point at the run's regtest nodes.
pub open spec fn is_peer_settings(s: PeerSettings, comit: Comit) -> bool {
    &&& s.base.is_default_with(comit)
    &&& s.bitcoin.network@ == crate::settings::regtest()
    &&& s.bitcoin.node_url@ == bitcoin_node_url()
    &&& s.ethereum.network@ == crate::settings::regtest()
    &&& s.ethereum.node_url@ == ethereum_node_url()
}

/// The settings of a peer daemon whose network identity is `comit`.
pub fn peer_settings(comit: Comit) -> (r: PeerSettings)
    ensures
        is_peer_settings(r, comit),
{
    PeerSettings {
        base: Settings::with_comit(comit),
        bitcoin: LedgerNode {
            network: "regtest".to_owned(),
            node_url: "http://bitcoin:18443".to_owned(),
        },
        ethereum: LedgerNode {
            network: "regtest".to_owned(),
            node_url: "http://ethereum:8545".to_owned(),
        },
    }
}

/// The launch of peer daemon `index` from the config directory `config_dir`:
/// the container is `cnd_<index>`, its settings carry `comit`, they are
/// written to `<config_dir>/cnd.toml`, and `<config_dir>` is what the
/// container mounts, read-only.
pub fn peer_launch(index: usize, config_dir: &str, comit: Comit) -> (r: PeerLaunch)
    ensures
        r.name@ == peer_name_spec(index as nat),
        is_peer_settings(r.settings, comit),
        r.config_file@ == config_dir@ + config_file_name(),
        r.volume@ == config_dir@ + config_mount(),
{
    let name = peer_name(index);
    let settings = peer_settings(comit);
    let config_file = String::from_str(config_dir).concat("/cnd.toml");
    let volume = String::from_str(config_dir).concat(":/config:ro");
    PeerLaunch { name, settings, config_file, volume }
}

} // verus!
