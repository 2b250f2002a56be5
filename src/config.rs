//! Configuration of the store and of its RPC endpoint, and the addresses that
//! the server binds and the client dials.
use vstd::prelude::*;
use vstd::string::StringExecFns;

verus! {

/// `a` followed by `b`.
pub(crate) fn concat(a: &str, b: &str) -> (r: String)
    ensures
        r@ == a@ + b@,
{
    a.to_owned().concat(b)
}

/// How the engine trades space against write throughput.
#[derive(PartialEq, Eq, Structural, Clone, Copy, Debug)]
pub enum DbMode {
    LowSpace,
    Fast,
}

impl Default for DbMode {
    fn default() -> (r: DbMode)
        ensures
            r == DbMode::Fast,
    {
        DbMode::Fast
    }
}

/// Options of the on-disk store.
pub struct DbOpts {
    /// if Some, enable compression and set factor to this
    pub compression_factor: Option<i32>,
    /// if true, print profile stats when database is dropped
    pub debug: bool,
    pub mode: Option<DbMode>,
    pub path: String,
    /// size of system page cache in bytes
    pub system_page_cache: Option<u64>,
}

impl Default for DbOpts {
    fn default() -> (r: DbOpts)
        ensures
            r.path@ == seq!['t', 'e', 's', 't', '_', 'i', 'n', 'f', 'o', 's', '.', 'd', 'b'],
            r.system_page_cache is None,
            r.compression_factor is None,
            r.mode is None,
            !r.debug,
    {
        proof {
            reveal_strlit("test_infos.db");
        }
        DbOpts {
            path: "test_infos.db".to_owned(),
            system_page_cache: None,
            compression_factor: None,
            mode: None,
            debug: false,
        }
    }
}

impl DbOpts {
    /// The mode the store runs in: the configured one, `Fast` where none is set.
    pub fn mode_or_default(&self) -> (r: DbMode)
        ensures
            r == match self.mode {
                Some(m) => m,
                None => DbMode::Fast,
            },
    {
        match self.mode {
            Some(m) => m,
            None => DbMode::Fast,
        }
    }
}

/// What the engine is opened with: where, with which page cache, compression
/// factor (compression is on where one is set), mode, and whether it prints a
/// profile when dropped.
pub struct EngineSettings {
    pub path: String,
    pub cache_capacity: Option<u64>,
    pub compression_factor: Option<i32>,
    pub mode: DbMode,
    pub print_profile_on_drop: bool,
}

impl DbOpts {
    /// The settings the options ask for; the mode is `Fast` where none is set.
    pub fn engine_settings(&self) -> (r: EngineSettings)
        ensures
            r.path@ == self.path@,
            r.cache_capacity == self.system_page_cache,
            r.compression_factor == self.compression_factor,
            r.mode == match self.mode {
                Some(m) => m,
                None => DbMode::Fast,
            },
            r.print_profile_on_drop == self.debug,
    {
        EngineSettings {
            path: self.path.clone(),
            cache_capacity: self.system_page_cache,
            compression_factor: self.compression_factor,
            mode: self.mode_or_default(),
            print_profile_on_drop: self.debug,
        }
    }
}

/// Options of a cluster of stores.
pub struct ClusterOpts {
    pub seeds: Vec<String>,
    /// this is the internal rpc service used by the cluster service
    pub cluster_rpc_endpoint: String,
    /// this is the endpoint that nodes in the cluster will connect to
    pub cluster_node_endpoint: String,
    pub cluster_id: Option<String>,
    pub data_center: Option<String>,
    pub repair_interval: Option<String>,
}

/// How the server listens: plain TCP, TLS over TCP (host and port), or a Unix
/// domain socket (its path).
pub enum ConnType {
    HTTP(String, String),
    HTTPS(String, String),
    UDS(String),
}

/// Options of the RPC endpoint.
pub struct RPC {
    pub connection: ConnType,
    /// the bearer token every request must carry; empty disables the check
    pub auth_token: String,
    /// base64 of the PEM certificate, for HTTPS
    pub tls_cert: String,
    /// base64 of the PEM private key, for HTTPS
    pub tls_key: String,
}

/// The address the server binds: `host:port`, or the socket path.
pub open spec fn server_url_of(c: ConnType) -> Seq<char> {
    match c {
        ConnType::HTTP(h, p) => h@ + seq![':'] + p@,
        ConnType::HTTPS(h, p) => h@ + seq![':'] + p@,
        ConnType::UDS(path) => path@,
    }
}

/// The address a client dials: the server's address after its scheme.
pub open spec fn client_url_of(c: ConnType) -> Seq<char> {
    match c {
        ConnType::HTTP(h, p) => seq!['h', 't', 't', 'p', ':', '/', '/'] + server_url_of(c),
        ConnType::HTTPS(h, p) => seq!['h', 't', 't', 'p', 's', ':', '/', '/'] + server_url_of(c),
        ConnType::UDS(path) => seq!['u', 'n', 'i', 'x', ':', '/', '/'] + server_url_of(c),
    }
}

/// The listener the server opens: plain TCP or TLS over TCP at an address,
/// or a Unix domain socket at a path.
pub enum Transport {
    Tcp(String),
    Tls(String),
    Unix(String),
}

impl RPC {
    /// The listener that the connection asks for, at the server's address.
    pub fn transport(&self) -> (r: Transport)
        ensures
            match (self.connection, r) {
                (ConnType::HTTP(_, _), Transport::Tcp(a)) => a@ == server_url_of(self.connection),
                (ConnType::HTTPS(_, _), Transport::Tls(a)) => a@ == server_url_of(self.connection),
                (ConnType::UDS(_), Transport::Unix(p)) => p@ == server_url_of(self.connection),
                _ => false,
            },
    {
        let addr = self.server_url();
        match &self.connection {
            ConnType::HTTP(_, _) => Transport::Tcp(addr),
            ConnType::HTTPS(_, _) => Transport::Tls(addr),
            ConnType::UDS(_) => Transport::Unix(addr),
        }
    }

    /// The address the server binds.
    pub fn server_url(&self) -> (r: String)
        ensures
            r@ == server_url_of(self.connection),
    {
        match &self.connection {
            ConnType::HTTP(host, port) | ConnType::HTTPS(host, port) => {
                proof {
                    reveal_strlit(":");
                }
                let with_colon = concat(host.as_str(), ":");
                concat(with_colon.as_str(), port.as_str())
            },
            ConnType::UDS(path) => path.clone(),
        }
    }

    /// The address a client dials, with its scheme.
    pub fn client_url(&self) -> (r: String)
        ensures
            r@ == client_url_of(self.connection),
    {
        let server = self.server_url();
        let scheme: &str = match &self.connection {
            ConnType::HTTP(_, _) => "http://",
            ConnType::HTTPS(_, _) => "https://",
            ConnType::UDS(_) => "unix://",
        };
        proof {
            reveal_strlit("http://");
            reveal_strlit("https://");
            reveal_strlit("unix://");
        }
        concat(scheme, server.as_str())
    }

    /// Whether requests must carry a token.
    pub fn auth_enabled(&self) -> (r: bool)
        ensures
            r == (self.auth_token@.len() > 0),
    {
        !self.auth_token.as_str().is_empty()
    }
}

impl Default for RPC {
    fn default() -> (r: RPC)
        ensures
            r.connection is HTTP,
            r.auth_token@.len() == 0,
            r.tls_cert@.len() == 0,
            r.tls_key@.len() == 0,
    {
        RPC {
            connection: ConnType::HTTP("127.0.0.1".to_owned(), "8668".to_owned()),
            auth_token: String::new(),
            tls_cert: String::new(),
            tls_key: String::new(),
        }
    }
}

/// The whole configuration: the store and the RPC endpoint.
pub struct Configuration {
    pub db: DbOpts,
    pub rpc: RPC,
}

impl Default for Configuration {
    fn default() -> (r: Configuration)
        ensures
            r.db.mode is None,
            r.rpc.auth_token@.len() == 0,
    {
        Configuration { db: DbOpts::default(), rpc: RPC::default() }
    }
}

} // verus!
