//! Transport decisions: which channel carries the reports, which credential
//! pair and auth-mode header a push delivery carries, and the destination
//! authority the connectivity probe resolves. The network calls themselves
//! happen outside the library; everything they need is decided here.

use vstd::prelude::*;
use vstd::string::*;
use crate::encode::{encode_record, is_binary_delivery, is_json_delivery};
use crate::model::{Args, StatRequest};
use crate::text::{contains_seq, find_from, find_char_from, is_prefix_of, str_contains, str_starts_with};

verus! {

/// The delivery channel, chosen once at startup from the address scheme.
#[derive(Clone, Copy, PartialEq, Eq, Structural, Debug)]
pub enum Channel {
    /// Request/response delivery of each encoded record (`http`/`https`).
    HttpPush,
    /// Opaque remote-call delivery of the same record (`grpc`).
    GrpcRpc,
}

/// Fatal startup misconfiguration; no reporting begins.
#[derive(Clone, Copy, PartialEq, Eq, Structural, Debug)]
pub enum ConfigError {
    /// The destination address has neither a push nor an RPC scheme.
    UnsupportedScheme,
    /// No destination host can be taken from the address.
    UnresolvableHost,
}

/// Channel-selection rule: scheme prefix `http` (which covers `https`) picks
/// the push channel, `grpc` the RPC channel, anything else is a
/// configuration error.
pub fn select_channel(addr: &str) -> (r: Result<Channel, ConfigError>)
    ensures
        is_prefix_of("http"@, addr@) ==> r == Ok::<Channel, ConfigError>(Channel::HttpPush),
        !is_prefix_of("http"@, addr@) && is_prefix_of("grpc"@, addr@) ==> r == Ok::<
            Channel,
            ConfigError,
        >(Channel::GrpcRpc),
        !is_prefix_of("http"@, addr@) && !is_prefix_of("grpc"@, addr@) ==> r == Err::<
            Channel,
            ConfigError,
        >(ConfigError::UnsupportedScheme),
{
    if str_starts_with(addr, "http") {
        Ok(Channel::HttpPush)
    } else if str_starts_with(addr, "grpc") {
        Ok(Channel::GrpcRpc)
    } else {
        Err(ConfigError::UnsupportedScheme)
    }
}

/// The credential username and auth-mode header of a delivery: the group id
/// under `group` mode when group reporting is active, the single-host user id
/// under `single` mode otherwise.
pub fn auth_for(args: &Args) -> (r: (String, String))
    ensures
        args.gid@.len() == 0 ==> r.0@ == args.user@ && r.1@ == "single"@,
        args.gid@.len() > 0 ==> r.0@ == args.gid@ && r.1@ == "group"@,
{
    if args.gid.as_str().is_empty() {
        (args.user.clone(), String::from_str("single"))
    } else {
        (args.gid.clone(), String::from_str("group"))
    }
}

/// The authority (`host[:port]`) a push address resolves: the run between
/// the second and third `/`, given a default port of 443 or 80 when it names
/// none, chosen by whether the address speaks of `https`.
pub open spec fn spec_host_port(a: Seq<char>) -> Option<Seq<char>> {
    let first = find_from(a, '/', 0);
    let second = find_from(a, '/', first + 1);
    if second >= a.len() {
        None
    } else {
        let stop = find_from(a, '/', second + 1);
        let auth = a.subrange(second + 1, stop);
        if find_from(auth, ':', 0) < auth.len() {
            Some(auth)
        } else if contains_seq(a, "https"@) {
            Some(auth + ":443"@)
        } else {
            Some(auth + ":80"@)
        }
    }
}

/// Derive the authority the connectivity probe should resolve from the push
/// address; an address without one is a fatal startup misconfiguration.
pub fn host_port_of(addr: &str) -> (r: Result<String, ConfigError>)
    ensures
        spec_host_port(addr@) matches Some(h) ==> r matches Ok(v) && v@ == h,
        spec_host_port(addr@) is None ==> r == Err::<String, ConfigError>(
            ConfigError::UnresolvableHost,
        ),
{
    let len = addr.unicode_len();
    let first = find_char_from(addr, '/', 0);
    let second = if first < len {
        find_char_from(addr, '/', first + 1)
    } else {
        len
    };
    if second >= len {
        return Err(ConfigError::UnresolvableHost);
    }
    let stop = find_char_from(addr, '/', second + 1);
    let auth = addr.substring_char(second + 1, stop);
    let alen = auth.unicode_len();
    if find_char_from(auth, ':', 0) < alen {
        Ok(String::from_str(auth))
    } else if str_contains(addr, "https") {
        Ok(String::from_str(auth).concat(":443"))
    } else {
        Ok(String::from_str(auth).concat(":80"))
    }
}

/// Fold the startup connectivity probe's result into the host template: a
/// reachable family is marked online, an unreachable one leaves the
/// configured flag alone.
pub fn apply_connectivity(base: &mut StatRequest, ipv4: bool, ipv6: bool)
    ensures
        *final(base) == (StatRequest {
            online4: old(base).online4 || ipv4,
            online6: old(base).online6 || ipv6,
            ..*old(base)
        }),
{
    if ipv4 {
        base.online4 = true;
    }
    if ipv6 {
        base.online6 = true;
    }
}

/// One push delivery, ready for the wire: destination, credential pair,
/// auth-mode header value, media type and encoded body.
pub struct ReportRequest {
    pub url: String,
    pub auth_user: String,
    pub auth_pass: String,
    /// Value of the auth-mode header: `single` or `group`.
    pub auth_mode: String,
    pub content_type: String,
    pub body: Vec<u8>,
}

/// What a well-built push delivery of record `rec` under configuration
/// `args` looks like: the configured destination and password, the
/// group-or-single credential rule, and a body/media-type pair of exactly
/// the startup-chosen encoding.
pub open spec fn spec_report_request(req: ReportRequest, args: Args, rec: StatRequest) -> bool {
    &&& req.url@ == args.addr@
    &&& req.auth_pass@ == args.pass@
    &&& args.gid@.len() == 0 ==> req.auth_user@ == args.user@ && req.auth_mode@ == "single"@
    &&& args.gid@.len() > 0 ==> req.auth_user@ == args.gid@ && req.auth_mode@ == "group"@
    &&& args.json ==> is_json_delivery(rec, req.body@, req.content_type@)
    &&& !args.json ==> is_binary_delivery(rec, req.body@, req.content_type@)
}

/// Build the push delivery for one assembled record.
pub fn build_report_request(args: &Args, rec: &StatRequest) -> (r: ReportRequest)
    ensures
        spec_report_request(r, *args, *rec),
{
    let enc = encode_record(rec, args.json);
    let auth = auth_for(args);
    ReportRequest {
        url: args.addr.clone(),
        auth_user: auth.0,
        auth_pass: args.pass.clone(),
        auth_mode: auth.1,
        content_type: enc.1,
        body: enc.0,
    }
}

} // verus!
