//! The guest-side launch payload.
//!
//! The command and environment for the guest are not passed through the
//! hypervisor's argv/env interface (which imposes C-string array limits);
//! they are serialized as a single-line JSON document
//! `{"Config":{"Cmd":[...],"Env":[...]}}` written to a transient file, and
//! only one environment variable naming that file crosses the boundary.
//! This module builds the document and the crossing variable; the caller
//! writes the file.

use vstd::prelude::*;
use vstd::string::StringExecFns;
use crate::text::views_of;
use crate::decimal::spec_dec;
use crate::decimal::push_dec;

verus! {

/// The JSON string literal (quoted, escaped) that encodes a text value.
pub uninterp spec fn json_str_of(s: Seq<char>) -> Seq<char>;

/// Relies on serde_json::to_string on a string slice: the result is the
/// JSON string literal for it, a function of the characters alone.
/// Serializing a string slice has no failing path.
#[verifier::external_body]
fn json_string(s: &str) -> (r: String)
    ensures
        r@ == json_str_of(s@),
{
    serde_json::to_string(s).unwrap()
}

/// The command and environment lines for the guest.
pub struct KrunConfig {
    pub args: Vec<String>,
    pub envs: Vec<String>,
}

/// The top-level payload document wrapping [`KrunConfig`].
pub struct KrunBaseConfig {
    pub config: KrunConfig,
}

/// Comma-joined concatenation.
pub open spec fn spec_join_comma(items: Seq<Seq<char>>) -> Seq<char>
    decreases items.len(),
{
    if items.len() == 0 {
        Seq::empty()
    } else if items.len() == 1 {
        items[0]
    } else {
        spec_join_comma(items.drop_last()) + ","@ + items.last()
    }
}

/// Each element as a JSON string literal.
pub open spec fn spec_json_strs(items: Seq<Seq<char>>) -> Seq<Seq<char>> {
    items.map_values(|s: Seq<char>| json_str_of(s))
}

/// A JSON array of string literals.
pub open spec fn spec_json_string_array(items: Seq<Seq<char>>) -> Seq<char> {
    "["@ + spec_join_comma(spec_json_strs(items)) + "]"@
}

/// The whole payload document, on one line.
pub open spec fn spec_config_json(args: Seq<Seq<char>>, envs: Seq<Seq<char>>) -> Seq<char> {
    "{\"Config\":{\"Cmd\":"@ + spec_json_string_array(args) + ",\"Env\":"@
        + spec_json_string_array(envs) + "}}"@
}

fn push_json_string_array(out: &mut String, items: &Vec<String>)
    ensures
        final(out)@ == old(out)@ + spec_json_string_array(views_of(items@)),
{
    let ghost start = out@;
    out.append("[");
    let mut i: usize = 0;
    while i < items.len()
        invariant
            0 <= i <= items@.len(),
            out@ == start + "["@ + spec_join_comma(spec_json_strs(views_of(items@)).subrange(
                0,
                i as int,
            )),
        decreases items@.len() - i,
    {
        if i > 0 {
            out.append(",");
        }
        let encoded = json_string(items[i].as_str());
        out.append(encoded.as_str());
        proof {
            let ghost mapped = spec_json_strs(views_of(items@));
            assert(mapped.subrange(0, i + 1).drop_last() =~= mapped.subrange(0, i as int));
            assert(mapped.subrange(0, i + 1).last() == mapped[i as int]);
            assert(mapped[i as int] == json_str_of(items@[i as int]@));
            if i == 0 {
                assert(spec_join_comma(mapped.subrange(0, 1)) == mapped[0]);
            }
        }
        i = i + 1;
    }
    proof {
        let ghost mapped = spec_json_strs(views_of(items@));
        assert(mapped.subrange(0, items@.len() as int) =~= mapped);
    }
    out.append("]");
}

/// The payload document for the guest: the command and environment of the
/// configuration as one JSON line.
pub fn config_json(cfg: &KrunBaseConfig) -> (r: String)
    ensures
        r@ == spec_config_json(views_of(cfg.config.args@), views_of(cfg.config.envs@)),
{
    let mut out = String::from_str("{\"Config\":{\"Cmd\":");
    push_json_string_array(&mut out, &cfg.config.args);
    out.append(",\"Env\":");
    push_json_string_array(&mut out, &cfg.config.envs);
    out.append("}}");
    out
}

/// One `NAME=value` environment line.
pub open spec fn spec_env_line(name: Seq<char>, value: Seq<char>) -> Seq<char> {
    name + "="@ + value
}

/// The environment lines for the guest: each given pair as `NAME=value`,
/// with the control port appended last as `KRUN_SERVER_PORT`.
pub fn env_lines(env: &Vec<(String, String)>, port: u32) -> (r: Vec<String>)
    ensures
        r@.len() == env@.len() + 1,
        forall|i: int|
            0 <= i < env@.len() ==> r@[i]@ == spec_env_line(env@[i].0@, env@[i].1@),
        r@.last()@ == "KRUN_SERVER_PORT="@ + spec_dec(port as int),
{
    let mut r: Vec<String> = Vec::new();
    let mut i: usize = 0;
    while i < env.len()
        invariant
            0 <= i <= env@.len(),
            r@.len() == i,
            forall|j: int|
                0 <= j < i ==> r@[j]@ == spec_env_line(env@[j].0@, env@[j].1@),
        decreases env@.len() - i,
    {
        let mut line = env[i].0.clone();
        line.append("=");
        line.append(env[i].1.as_str());
        r.push(line);
        i = i + 1;
    }
    let mut port_line = String::from_str("KRUN_SERVER_PORT=");
    push_dec(&mut port_line, port);
    r.push(port_line);
    r
}

/// The single environment variable that crosses the hypervisor boundary:
/// `KRUN_CONFIG=<path of the payload file>`.
pub fn config_env_var(config_path: &String) -> (r: String)
    ensures
        r@ == "KRUN_CONFIG="@ + config_path@,
{
    let mut r = String::from_str("KRUN_CONFIG=");
    r.append(config_path.as_str());
    r
}

/// The guest argv chain: the guest bootstrap executable, the invoking
/// user's name and numeric ids from the host user database, the server
/// supervisor executable, then the requested command and its arguments.
/// The guest reconstructs host identity from this chain without trusting
/// guest-side lookups.
pub fn guest_args(
    guest_path: String,
    username: String,
    uid: u32,
    gid: u32,
    server_path: String,
    command: String,
    command_args: &Vec<String>,
) -> (r: Vec<String>)
    ensures
        r@.len() == 6 + command_args@.len(),
        r@[0] == guest_path,
        r@[1] == username,
        r@[2]@ == spec_dec(uid as int),
        r@[3]@ == spec_dec(gid as int),
        r@[4] == server_path,
        r@[5] == command,
        forall|i: int| 0 <= i < command_args@.len() ==> r@[6 + i] == command_args@[i],
{
    let mut r: Vec<String> = Vec::new();
    r.push(guest_path);
    r.push(username);
    r.push(crate::decimal::u32_to_dec(uid));
    r.push(crate::decimal::u32_to_dec(gid));
    r.push(server_path);
    r.push(command);
    let mut i: usize = 0;
    while i < command_args.len()
        invariant
            0 <= i <= command_args@.len(),
            r@.len() == 6 + i,
            r@[0] == guest_path,
            r@[1] == username,
            r@[2]@ == spec_dec(uid as int),
            r@[3]@ == spec_dec(gid as int),
            r@[4] == server_path,
            r@[5] == command,
            forall|j: int| 0 <= j < i ==> r@[6 + j] == command_args@[j],
        decreases command_args@.len() - i,
    {
        r.push(command_args[i].clone());
        i = i + 1;
    }
    r
}

} // verus!
