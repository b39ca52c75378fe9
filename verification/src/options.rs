//! The options of the client as a whole, and what they settle before a
//! command runs.
use vstd::prelude::*;
use vstd::string::*;
use crate::commands::Command;
use crate::message::optional_text;
use crate::sign::SignPayload;

verus! {

/// A tool to interact with the IC NNS.
#[derive(Debug)]
pub struct Opts {
    pub command: Command,
    /// An address and port to connect to, in place of the main network.
    pub endpoint: Option<String>,
    /// Whether to use the identity that a hardware security module holds.
    pub use_hsm: bool,
    /// Whether to sign the message and keep it in a file in place of
    /// sending it.
    pub sign: bool,
    /// The file that receives a signed message.
    pub file: Option<String>,
    /// How long a signed message stays valid.
    pub expire_after: Option<String>,
}

/// What the options settle.
#[derive(Debug)]
pub struct Settings {
    /// The network to talk to.
    pub network: String,
    /// Whether to fetch the root key of the network: only a network other
    /// than the main one needs that.
    pub fetch_root_key: bool,
    /// The signing request, where the call is to be signed.
    pub sign_payload: Option<SignPayload>,
}

/// The address of the main network.
pub open spec fn main_network() -> Seq<char> {
    "https://ic0.app"@
}

/// The file that receives a signed message where none is named.
pub open spec fn default_file() -> Seq<char> {
    "message.json"@
}

/// The time a signed message stays valid where none is given.
pub open spec fn default_expire_after() -> Seq<char> {
    "5m"@
}

/// The network that an endpoint stands for: `http://` and the endpoint, and
/// the main network where there is none.
pub open spec fn network_of(endpoint: Option<Seq<char>>) -> Seq<char> {
    match endpoint {
        Some(e) => "http://"@ + e,
        None => main_network(),
    }
}

/// The text, or the default where there is none.
pub open spec fn text_or(text: Option<Seq<char>>, default: Seq<char>) -> Seq<char> {
    match text {
        Some(t) => t,
        None => default,
    }
}

/// The text, or the default where there is none.
pub fn text_or_default(text: &Option<String>, default: &str) -> (r: String)
    ensures
        r@ == text_or(optional_text(*text), default@),
{
    match text {
        Some(t) => t.clone(),
        None => String::from_str(default),
    }
}

/// What the options settle: the network, whether its root key is fetched,
/// and, where signing is asked for, the signing request for that network
/// with the file and the time to live that were given or their defaults,
/// and no call yet.
pub fn settings(
    endpoint: &Option<String>,
    sign: bool,
    file: &Option<String>,
    expire_after: &Option<String>,
) -> (s: Settings)
    ensures
        s.network@ == network_of(optional_text(*endpoint)),
        s.fetch_root_key == (endpoint is Some),
        s.sign_payload is Some <==> sign,
        s.sign_payload matches Some(p) ==> {
            &&& p.payload is None
            &&& p.network@ == network_of(optional_text(*endpoint))
            &&& p.file@ == text_or(optional_text(*file), default_file())
            &&& p.expire_after@ == text_or(optional_text(*expire_after), default_expire_after())
        },
{
    let network = match endpoint {
        Some(e) => {
            let mut n = String::from_str("http://");
            n.append(e.as_str());
            n
        },
        None => String::from_str("https://ic0.app"),
    };
    let sign_payload = if sign {
        Some(
            SignPayload {
                payload: None,
                network: network.clone(),
                expire_after: text_or_default(expire_after, "5m"),
                file: text_or_default(file, "message.json"),
            },
        )
    } else {
        None
    };
    Settings { network, fetch_root_key: endpoint.is_some(), sign_payload }
}

/// Whether the root key of a network has to be fetched before answers from
/// it can be checked: that of every network but the main one.
pub fn needs_root_key(network: &str) -> (r: bool)
    ensures
        r == (network@ != main_network()),
{
    !crate::call_type::same_text(network, "https://ic0.app")
}

impl Opts {
    /// What these options settle.
    pub fn settings(&self) -> (s: Settings)
        ensures
            s.network@ == network_of(optional_text(self.endpoint)),
            s.fetch_root_key == (self.endpoint is Some),
            s.sign_payload is Some <==> self.sign,
            s.sign_payload matches Some(p) ==> {
                &&& p.payload is None
                &&& p.network@ == network_of(optional_text(self.endpoint))
                &&& p.file@ == text_or(optional_text(self.file), default_file())
                &&& p.expire_after@ == text_or(
                    optional_text(self.expire_after),
                    default_expire_after(),
                )
            },
    {
        settings(&self.endpoint, self.sign, &self.file, &self.expire_after)
    }
}

} // verus!
