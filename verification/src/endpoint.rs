//! Where the daemon is reached, and the clients that are kept for it.

use vstd::prelude::*;

use crate::json::{Json, Tree};
use crate::refusal::Refusal;
use crate::text::{opt_text, same, starts_with, trim_start_text, trimmed_prefix};
use crate::textmap::TextMap;

verus! {

/// A way to the daemon.
#[derive(Debug)]
pub enum Endpoint<T> {
    /// The local socket.
    Local,
    /// A socket, by its URL or its path.
    Socket(T),
    /// A URL that is spoken to over HTTP.
    Http(T),
}

impl Endpoint<String> {
    /// The way with the characters of its text.
    pub open spec fn model(self) -> Endpoint<Seq<char>> {
        match self {
            Endpoint::Local => Endpoint::Local,
            Endpoint::Socket(s) => Endpoint::Socket(s@),
            Endpoint::Http(s) => Endpoint::Http(s@),
        }
    }
}

/// The timeout of a client, in seconds, where a call names none.
pub const CLIENT_TIMEOUT: u64 = 4;

/// The timeout of the helper, in seconds, where none is given.
pub const HELPER_TIMEOUT: u64 = 120;

/// The host that a call is for: its own `host`, else that of the environment, else `default`.
pub open spec fn chosen_host(opts: Tree, env: Option<Seq<char>>) -> Seq<char> {
    match opts.text_at("host"@) {
        Some(h) => h,
        None => match env {
            Some(h) => h,
            None => "default"@,
        },
    }
}

/// The timeout of a client that a call opens, in seconds: its own `timeout`, if it names one.
pub open spec fn chosen_timeout(opts: Tree) -> u64 {
    match opts.u64_at("timeout"@) {
        Some(n) => n,
        None => CLIENT_TIMEOUT,
    }
}

/// The way to a host.
pub open spec fn host_endpoint(host: Seq<char>) -> Endpoint<Seq<char>> {
    if host == "default"@ {
        Endpoint::Local
    } else if "unix://"@.is_prefix_of(host) {
        Endpoint::Socket(host)
    } else {
        Endpoint::Http(host)
    }
}

/// The client that is kept for a call, if there is one.
pub open spec fn kept_client<C>(
    clients: Map<Seq<char>, C>,
    opts: Tree,
    env: Option<Seq<char>>,
) -> Option<C> {
    let host = chosen_host(opts, env);
    if clients.contains_key(host) {
        Some(clients[host])
    } else {
        None
    }
}

/// A client for a call: one that is kept, or where to connect and the host to keep it for.
pub enum Client<'a, C> {
    Kept(&'a C),
    Connect { host: String, endpoint: Endpoint<String>, timeout: u64 },
}

/// Looks for the client of a call; `env` is the host that the environment names.
pub fn get_client<'a, C>(clients: &'a TextMap<C>, opts: &Json, env: Option<String>) -> (r: Client<
    'a,
    C,
>)
    ensures
        match r {
            Client::Kept(c) => kept_client(clients@, opts.tree(), opt_text(env)) == Some(*c),
            Client::Connect { host, endpoint, timeout } => {
                &&& kept_client(clients@, opts.tree(), opt_text(env)) is None
                &&& host@ == chosen_host(opts.tree(), opt_text(env))
                &&& endpoint.model() == host_endpoint(host@)
                &&& timeout == chosen_timeout(opts.tree())
            },
        },
{
    let host: String = match opts.text_at("host") {
        Some(h) => h.to_owned(),
        None => match env {
            Some(h) => h,
            None => "default".to_owned(),
        },
    };
    if let Some(c) = clients.get(host.as_str()) {
        return Client::Kept(c);
    }
    let endpoint = if same(host.as_str(), "default") {
        Endpoint::Local
    } else if starts_with(host.as_str(), "unix://") {
        Endpoint::Socket(host.clone())
    } else {
        Endpoint::Http(host.clone())
    };
    let timeout: u64 = match opts.u64_at("timeout") {
        Some(n) => n,
        None => CLIENT_TIMEOUT,
    };
    Client::Connect { host, endpoint, timeout }
}

/// A client that is kept for the host of a call is found by every call for that host, and the
/// clients of the other hosts stay as they are.
pub proof fn kept_client_is_found<C>(
    clients: Map<Seq<char>, C>,
    client: C,
    opts: Tree,
    env: Option<Seq<char>>,
    later: Tree,
    later_env: Option<Seq<char>>,
)
    ensures
        kept_client(clients.insert(chosen_host(opts, env), client), later, later_env) == if chosen_host(
            later,
            later_env,
        ) == chosen_host(opts, env) {
            Some(client)
        } else {
            kept_client(clients, later, later_env)
        },
{
}

/// A host of the call goes before the host that the environment names.
pub proof fn own_host_goes_first(opts: Tree, env: Option<Seq<char>>)
    ensures
        opts.text_at("host"@) matches Some(h) ==> chosen_host(opts, env) == h,
        opts.text_at("host"@) is None ==> chosen_host(opts, env) == chosen_host(Tree::Null, env),
{
}

/// The way to the host that the helper is given, or why it is refused: a socket by its path, and
/// a URL over HTTP.
pub open spec fn helper_endpoint(host: Option<Seq<char>>) -> Result<
    Endpoint<Seq<char>>,
    Refusal<Seq<char>>,
> {
    match host {
        None => Ok(Endpoint::Local),
        Some(url) => if "unix://"@.is_prefix_of(url) {
            Ok(Endpoint::Socket(trimmed_prefix(url, "unix://"@)))
        } else if "tcp://"@.is_prefix_of(url) || "http://"@.is_prefix_of(url)
            || "https://"@.is_prefix_of(url) {
            Ok(Endpoint::Http(url))
        } else {
            Err(Refusal::UnknownScheme(url))
        },
    }
}

/// The way to the host that the helper is given.
pub fn make_client(host: Option<String>) -> (r: Result<Endpoint<String>, Refusal<String>>)
    ensures
        match r {
            Ok(e) => helper_endpoint(opt_text(host)) == Ok::<
                Endpoint<Seq<char>>,
                Refusal<Seq<char>>,
            >(e.model()),
            Err(e) => helper_endpoint(opt_text(host)) == Err::<
                Endpoint<Seq<char>>,
                Refusal<Seq<char>>,
            >(e.model()),
        },
{
    match host {
        None => Ok(Endpoint::Local),
        Some(url) => {
            let u = url.as_str();
            if starts_with(u, "unix://") {
                Ok(Endpoint::Socket(trim_start_text(u, "unix://").to_owned()))
            } else if starts_with(u, "tcp://") || starts_with(u, "http://") || starts_with(
                u,
                "https://",
            ) {
                Ok(Endpoint::Http(url))
            } else {
                Err(Refusal::UnknownScheme(url))
            }
        },
    }
}

/// The call that opens the connection, as its errors are told.
pub open spec fn connect_label(e: Endpoint<Seq<char>>) -> Seq<char> {
    match e {
        Endpoint::Local => "connect_with_local_defaults"@,
        Endpoint::Socket(_) => "connect_with_unix"@,
        Endpoint::Http(_) => "connect_with_http"@,
    }
}

impl Endpoint<String> {
    /// The call that opens the connection, as its errors are told.
    pub fn label(&self) -> (r: &'static str)
        ensures
            r@ == connect_label(self.model()),
    {
        match self {
            Endpoint::Local => "connect_with_local_defaults",
            Endpoint::Socket(_) => "connect_with_unix",
            Endpoint::Http(_) => "connect_with_http",
        }
    }
}

} // verus!
