use vstd::prelude::*;

use crate::decimal::{render_decimal, spec_decimal};

verus! {

/// The port an agent listens on unless told otherwise.
pub const DEFAULT_PORT: u16 = 8500;

/// Where a client sends its requests, and the defaults of every call.
#[derive(Clone, Debug, PartialEq, Eq)]
pub struct Config {
    /// The base address, such as `http://127.0.0.1:8500`.
    pub address: String,
    /// The datacenter asked when a call names none.
    pub datacenter: Option<String>,
    /// The token sent when a call names none.
    pub token: Option<String>,
    /// The blocking time, in seconds, when a blocking read names none.
    pub wait_time_secs: Option<u64>,
}

/// The address of an agent on this machine at the default port.
pub open spec fn default_address() -> Seq<char> {
    "http://127.0.0.1:8500"@
}

/// The scheme prefix that an address from the environment may lack.
pub open spec fn http_prefix() -> Seq<char> {
    seq!['h', 't', 't', 'p']
}

/// The address that an address variable of the environment stands for.
pub open spec fn address_from_env(addr: Option<Seq<char>>) -> Seq<char> {
    match addr {
        Some(a) => if a.len() >= 4 && a.take(4) == http_prefix() {
            a
        } else {
            "http://"@ + a
        },
        None => default_address(),
    }
}

fn starts_with_http(s: &str) -> (r: bool)
    ensures
        r == (s@.len() >= 4 && s@.take(4) == http_prefix()),
{
    let n = s.unicode_len();
    if n < 4 {
        return false;
    }
    let r = s.get_char(0) == 'h' && s.get_char(1) == 't' && s.get_char(2) == 't'
        && s.get_char(3) == 'p';
    assert(r ==> s@.take(4) =~= http_prefix());
    assert(s@.take(4) == http_prefix() ==> s@.take(4)[0] == 'h' && s@.take(4)[1] == 't'
        && s@.take(4)[2] == 't' && s@.take(4)[3] == 'p');
    r
}

impl Config {
    /// A configuration from the values of the address and token variables of
    /// an environment: an address without a scheme gets `http://`, no address
    /// means the local agent, no token means unauthenticated requests.
    pub fn new_from_env(http_addr: Option<String>, http_token: Option<String>) -> (r: Config)
        ensures
            r.address@ == address_from_env(
                match http_addr {
                    Some(a) => Some(a@),
                    None => None,
                },
            ),
            r.datacenter is None,
            r.token == http_token,
            r.wait_time_secs is None,
    {
        let address = match http_addr {
            Some(a) => if starts_with_http(a.as_str()) {
                a
            } else {
                String::from_str("http://").concat(a.as_str())
            },
            None => String::from_str("http://127.0.0.1:8500"),
        };
        Config { address, datacenter: None, token: http_token, wait_time_secs: None }
    }

    /// A configuration for the agent at `host`, on `port` or the default port.
    pub fn new_from_consul_host(host: &str, port: Option<u16>, token: Option<String>) -> (r: Config)
        ensures
            r.address@ == host@ + ":"@ + spec_decimal(
                match port {
                    Some(p) => p as nat,
                    None => DEFAULT_PORT as nat,
                },
            ),
            r.datacenter is None,
            r.token == token,
            r.wait_time_secs is None,
    {
        let p = match port {
            Some(p) => p,
            None => DEFAULT_PORT,
        };
        let digits = render_decimal(p as u64);
        let address = String::from_str(host).concat(":").concat(digits.as_str());
        Config { address, datacenter: None, token, wait_time_secs: None }
    }
}

impl Default for Config {
    /// The local agent at the default port, with no token.
    fn default() -> (r: Config)
        ensures
            r.address@ == default_address(),
            r.datacenter is None,
            r.token is None,
            r.wait_time_secs is None,
    {
        Config {
            address: String::from_str("http://127.0.0.1:8500"),
            datacenter: None,
            token: None,
            wait_time_secs: None,
        }
    }
}

/// The client: every resource operation is a method on it.
#[derive(Clone, Debug)]
pub struct Client {
    pub config: Config,
}

impl Client {
    pub fn new(config: Config) -> (r: Client)
        ensures
            r.config == config,
    {
        Client { config }
    }
}

/// Keeps the client's resource traits closed to other implementations.
pub trait Sealed {}

impl Sealed for Client {}

} // verus!
