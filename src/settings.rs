use vstd::prelude::*;
use crate::entropy::random_seed;

verus! {

/// An IP address, held as its octets (IPv4) or segments (IPv6).
#[derive(Clone, Copy, Debug, PartialEq, Eq)]
pub enum IpAddress {
    V4([u8; 4]),
    V6([u16; 8]),
}

/// The settings document of one peer daemon.
#[derive(Clone, Debug)]
pub struct Settings {
    pub comit: Comit,
    pub network: Network,
    pub http_api: HttpSocket,
    pub btsieve: Btsieve,
    pub web_gui: Option<HttpSocket>,
}

/// The daemon's network identity.
#[derive(Clone, Copy, Debug)]
pub struct Comit {
    pub secret_seed: [u8; 32],
}

/// The peer-to-peer listen addresses.
#[derive(Clone, Debug)]
pub struct Network {
    pub listen: Vec<String>,
}

/// An HTTP socket: address and port.
#[derive(Clone, Copy, Debug)]
pub struct HttpSocket {
    pub address: IpAddress,
    pub port: u16,
}

/// The blockchain observer: its URL and the polling of each chain.
#[derive(Clone, Debug)]
pub struct Btsieve {
    pub url: String,
    pub bitcoin: PollParameters,
    pub ethereum: PollParameters,
}

/// How often a chain is polled, and which network it runs.
#[derive(Clone, Debug)]
pub struct PollParameters {
    pub poll_interval_secs: u16,
    pub network: String,
}

/// The default listen address of the peer-to-peer layer.
pub open spec fn default_listen() -> Seq<char> {
    "/ip4/0.0.0.0/tcp/9939"@
}

/// The default HTTP API port.
pub const DEFAULT_HTTP_PORT: u16 = 8080;

/// The network name of a regtest chain.
pub open spec fn regtest() -> Seq<char> {
    "regtest"@
}

/// The default URL of the blockchain observer.
pub open spec fn default_btsieve_url() -> Seq<char> {
    "http://localhost:8181"@
}

impl PollParameters {
    /// Polling once a second on a regtest chain.
    pub open spec fn is_default(&self) -> bool {
        &&& self.poll_interval_secs == 1
        &&& self.network@ == regtest()
    }
}

impl Network {
    pub open spec fn is_default(&self) -> bool {
        self.listen@.len() == 1 && self.listen@[0]@ == default_listen()
    }
}

impl HttpSocket {
    /// The unspecified IPv4 address on the default port.
    pub open spec fn is_default(&self) -> bool {
        &&& self.address == IpAddress::V4([0u8, 0u8, 0u8, 0u8])
        &&& self.port == DEFAULT_HTTP_PORT
    }
}

impl Btsieve {
    pub open spec fn is_default(&self) -> bool {
        &&& self.url@ == default_btsieve_url()
        &&& self.bitcoin.is_default()
        &&& self.ethereum.is_default()
    }
}

impl Settings {
    /// Every part defaulted but the seed, which is whatever `comit` holds.
    pub open spec fn is_default_with(&self, comit: Comit) -> bool {
        &&& self.comit == comit
        &&& self.network.is_default()
        &&& self.http_api.is_default()
        &&& self.btsieve.is_default()
        &&& self.web_gui.is_none()
    }

    /// The default settings around a given network identity.
    pub fn with_comit(comit: Comit) -> (r: Settings)
        ensures
            r.is_default_with(comit),
    {
        Settings {
            comit,
            network: Network::default(),
            http_api: HttpSocket::default(),
            btsieve: Btsieve::default(),
            web_gui: None,
        }
    }
}

impl Default for Comit {
    /// A fresh network identity from 32 random bytes.
    fn default() -> (r: Comit) {
        Comit { secret_seed: random_seed() }
    }
}

impl Default for Network {
    fn default() -> (r: Network)
        ensures
            r.is_default(),
    {
        let mut listen: Vec<String> = Vec::new();
        listen.push("/ip4/0.0.0.0/tcp/9939".to_owned());
        Network { listen }
    }
}

impl Default for HttpSocket {
    fn default() -> (r: HttpSocket)
        ensures
            r.is_default(),
    {
        HttpSocket { address: IpAddress::V4([0u8, 0u8, 0u8, 0u8]), port: DEFAULT_HTTP_PORT }
    }
}

impl Default for Btsieve {
    fn default() -> (r: Btsieve)
        ensures
            r.is_default(),
    {
        Btsieve {
            url: "http://localhost:8181".to_owned(),
            bitcoin: PollParameters { poll_interval_secs: 1, network: "regtest".to_owned() },
            ethereum: PollParameters { poll_interval_secs: 1, network: "regtest".to_owned() },
        }
    }
}

impl Default for Settings {
    /// Default settings around a fresh random network identity.
    fn default() -> (r: Settings)
        ensures
            r.is_default_with(r.comit),
    {
        Settings::with_comit(Comit::default())
    }
}

} // verus!
