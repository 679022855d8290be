//! The one HTTP request each command issues: its method, its URL (plain
//! interpolation of the base URL and the namespace names, with no escaping or
//! validation of the names), and its body.

use vstd::prelude::*;
use vstd::string::StringExecFns;

use crate::json::config_json_text;
use crate::json::config_json_string;
use crate::model::Command;
use crate::model::Config;

verus! {

/// The namespace resource under the base URL.
pub open spec fn spec_namespace_url(base: Seq<char>, ns: Seq<char>) -> Seq<char> {
    base + "/v1/namespaces/"@ + ns
}

/// The create endpoint of a namespace.
pub open spec fn spec_create_url(base: Seq<char>, ns: Seq<char>) -> Seq<char> {
    spec_namespace_url(base, ns) + "/create"@
}

/// The fork endpoint from one namespace to a new one.
pub open spec fn spec_fork_url(base: Seq<char>, from: Seq<char>, to: Seq<char>) -> Seq<char> {
    spec_namespace_url(base, from) + "/fork/"@ + to
}

/// The stats endpoint of a namespace.
pub open spec fn spec_stats_url(base: Seq<char>, ns: Seq<char>) -> Seq<char> {
    spec_namespace_url(base, ns) + "/stats"@
}

/// The config endpoint of a namespace.
pub open spec fn spec_config_url(base: Seq<char>, ns: Seq<char>) -> Seq<char> {
    spec_namespace_url(base, ns) + "/config"@
}

/// The HTTP methods the client uses.
#[derive(Clone, Copy, PartialEq, Eq, Structural, Debug)]
pub enum HttpMethod {
    Get,
    Post,
    Delete,
}

/// One request, ready to be sent: where, how, and with which body.
pub struct HttpRequest {
    pub method: HttpMethod,
    pub url: String,
    pub body: Option<String>,
}

/// Builds the namespace resource URL.
fn namespace_url(base: &str, ns: &str) -> (u: String)
    ensures
        u@ == spec_namespace_url(base@, ns@),
{
    let mut u = base.to_owned();
    u.append("/v1/namespaces/");
    u.append(ns);
    proof {
        assert(u@ =~= spec_namespace_url(base@, ns@));
    }
    u
}

/// What the request of each command must be: a create is posted with an empty
/// JSON object as body, a delete carries no body, a fork is posted with no
/// body, and a stats read is a plain get.
pub open spec fn request_matches(base: Seq<char>, cmd: Command, r: HttpRequest) -> bool {
    match cmd {
        Command::Stats { namespace, .. } => {
            &&& r.method == HttpMethod::Get
            &&& r.url@ == spec_stats_url(base, namespace@)
            &&& r.body is None
        },
        Command::CreateNamespace { name } => {
            &&& r.method == HttpMethod::Post
            &&& r.url@ == spec_create_url(base, name@)
            &&& r.body matches Some(b) && b@ == "{}"@
        },
        Command::DeleteNamespace { name } => {
            &&& r.method == HttpMethod::Delete
            &&& r.url@ == spec_namespace_url(base, name@)
            &&& r.body is None
        },
        Command::Fork { from, to } => {
            &&& r.method == HttpMethod::Post
            &&& r.url@ == spec_fork_url(base, from@, to@)
            &&& r.body is None
        },
    }
}

/// Maps the parsed command to the one request this invocation sends.
pub fn request_for(base: &str, cmd: &Command) -> (r: HttpRequest)
    ensures
        request_matches(base@, *cmd, r),
{
    match cmd {
        Command::Stats { namespace, .. } => {
            let mut u = namespace_url(base, namespace.as_str());
            u.append("/stats");
            proof {
                assert(u@ =~= spec_stats_url(base@, namespace@));
            }
            HttpRequest { method: HttpMethod::Get, url: u, body: None }
        },
        Command::CreateNamespace { name } => {
            let mut u = namespace_url(base, name.as_str());
            u.append("/create");
            proof {
                assert(u@ =~= spec_create_url(base@, name@));
            }
            HttpRequest { method: HttpMethod::Post, url: u, body: Some(String::from_str("{}")) }
        },
        Command::DeleteNamespace { name } => {
            let u = namespace_url(base, name.as_str());
            HttpRequest { method: HttpMethod::Delete, url: u, body: None }
        },
        Command::Fork { from, to } => {
            let mut u = namespace_url(base, from.as_str());
            u.append("/fork/");
            u.append(to.as_str());
            proof {
                assert(u@ =~= spec_fork_url(base@, from@, to@));
            }
            HttpRequest { method: HttpMethod::Post, url: u, body: None }
        },
    }
}

/// The request that reads a namespace's configuration.
pub fn get_config_request(base: &str, ns: &str) -> (r: HttpRequest)
    ensures
        r.method == HttpMethod::Get,
        r.url@ == spec_config_url(base@, ns@),
        r.body is None,
{
    let mut u = namespace_url(base, ns);
    u.append("/config");
    proof {
        assert(u@ =~= spec_config_url(base@, ns@));
    }
    HttpRequest { method: HttpMethod::Get, url: u, body: None }
}

/// The request that writes a namespace's configuration: the configuration is
/// posted to the config endpoint as a compact JSON document.
pub fn set_config_request(base: &str, ns: &str, config: &Config) -> (r: HttpRequest)
    ensures
        r.method == HttpMethod::Post,
        r.url@ == spec_config_url(base@, ns@),
        r.body matches Some(b) && b@ == config_json_text(*config),
{
    let mut u = namespace_url(base, ns);
    u.append("/config");
    proof {
        assert(u@ =~= spec_config_url(base@, ns@));
    }
    HttpRequest { method: HttpMethod::Post, url: u, body: Some(config_json_string(config)) }
}

/// A namespace's create endpoint is a sub-resource of exactly the namespace
/// resource that a later delete addresses: creating and then deleting the
/// same name touch the same namespace, so a create followed by a delete
/// leaves nothing behind on a server that honours the resource paths.
pub proof fn lemma_create_then_delete_same_resource(base: Seq<char>, n: Seq<char>)
    ensures
        spec_create_url(base, n) == spec_namespace_url(base, n) + "/create"@,
        spec_namespace_url(base, n) == spec_create_url(base, n).take(
            spec_namespace_url(base, n).len() as int,
        ),
{
    assert(spec_namespace_url(base, n) == spec_create_url(base, n).take(
        spec_namespace_url(base, n).len() as int,
    )) by {
        assert(spec_create_url(base, n).take(spec_namespace_url(base, n).len() as int)
            =~= spec_namespace_url(base, n));
    }
}

} // verus!
