//! Decision logic of the tap daemon: what a request body means, which
//! `ip` commands to run, which status code and body to answer.
//!
//! The daemon leases host tap devices to unprivileged launchers. Every
//! device it manages carries the fixed name prefix, so deletion can be
//! refused for anything it does not own. The serving loop around this
//! module parses nothing itself: it hands the raw body in, runs the
//! planned commands, and reports their success.

use vstd::prelude::*;
use vstd::string::StringExecFns;
use vstd::string::StrSliceExecFns;
use crate::ident::{is_ident_char, is_valid_identifier};
use crate::idgen::fresh_tap_suffix;
use crate::wire::{parse_field_object, spec_parse_field};

verus! {

/// The prefix that marks a tap device as daemon-managed.
pub open spec fn spec_managed_prefix() -> Seq<char> {
    "contain-"@
}

/// A name the daemon considers its own: the managed prefix followed by
/// anything.
pub open spec fn is_managed_name(name: Seq<char>) -> bool {
    name.len() >= spec_managed_prefix().len() && name.subrange(0, spec_managed_prefix().len() as int)
        == spec_managed_prefix()
}

/// The argv that creates a tap device for a user: multi-queue, with a
/// virtio network header, owned by the requesting user.
pub open spec fn spec_ip_tuntap_add_argv(name: Seq<char>, user: Seq<char>) -> Seq<Seq<char>> {
    seq![
        "ip"@,
        "tuntap"@,
        "add"@,
        "name"@,
        name,
        "mode"@,
        "tap"@,
        "user"@,
        user,
        "vnet_hdr"@,
        "multi_queue"@,
    ]
}

/// The argv that brings a link up.
pub open spec fn spec_ip_link_up_argv(name: Seq<char>) -> Seq<Seq<char>> {
    seq!["ip"@, "link"@, "set"@, name, "up"@]
}

/// The argv that deletes a link.
pub open spec fn spec_ip_link_delete_argv(name: Seq<char>) -> Seq<Seq<char>> {
    seq!["ip"@, "link"@, "delete"@, name]
}

/// A fresh managed tap device name: the managed prefix and seven
/// random letters or digits. Always a valid identifier, and always
/// recognized as managed.
pub fn fresh_tap_name() -> (r: String)
    ensures
        r@.len() == 15,
        is_managed_name(r@),
        is_valid_identifier(r@),
{
    proof {
        reveal_strlit("contain-");
    }
    let mut name = String::from_str("contain-");
    let suffix = fresh_tap_suffix();
    name.append(suffix.as_str());
    proof {
        assert(name@.subrange(0, 8) =~= spec_managed_prefix());
        assert forall|i: int| 0 <= i < name@.len() implies is_ident_char(
            #[trigger] name@[i],
        ) by {
            if i < 8 {
                assert(name@[i] == spec_managed_prefix()[i]);
            } else {
                assert(name@[i] == suffix@[i - 8]);
            }
        }
    }
    name
}

/// What the daemon answers a create request with.
#[derive(Debug, PartialEq, Eq)]
pub enum TapCreateDecision {
    /// Refuse with this status code, and no body.
    Reject(u16),
    /// Run the two `ip` commands, using this device name.
    Run(TapCreatePlan),
}

/// The commands that create and bring up one tap device.
#[derive(Debug, PartialEq, Eq)]
pub struct TapCreatePlan {
    /// The device name; the managed prefix plus the given suffix.
    pub name: String,
    /// `ip tuntap add ...` for the requesting user.
    pub add_cmd: Vec<String>,
    /// `ip link set <name> up`.
    pub up_cmd: Vec<String>,
}

/// Decides a create request: a malformed body is refused with 400, a
/// user name that is not a valid identifier with 400; otherwise the
/// device name is the managed prefix plus `suffix` and the two `ip`
/// commands are exactly the add and the link-up for that name and
/// user.
pub fn decide_tap_create(body: &str, suffix: &String) -> (r: TapCreateDecision)
    ensures
        match spec_parse_field(body@, "user"@) {
            None => r == TapCreateDecision::Reject(400u16),
            Some(u) => {
                if is_valid_identifier(u) {
                    r matches TapCreateDecision::Run(p) && p.name@ == spec_managed_prefix()
                        + suffix@ && p.add_cmd.deep_view() == spec_ip_tuntap_add_argv(
                        spec_managed_prefix() + suffix@,
                        u,
                    ) && p.up_cmd.deep_view() == spec_ip_link_up_argv(
                        spec_managed_prefix() + suffix@,
                    )
                } else {
                    r == TapCreateDecision::Reject(400u16)
                }
            }
        },
{
    let user = match parse_field_object(body, "user") {
        Some(u) => u,
        None => {
            return TapCreateDecision::Reject(400);
        }
    };
    match crate::ident::check_is_valid_identifier(user) {
        Err(_) => TapCreateDecision::Reject(400),
        Ok(user) => {
            let mut name = String::from_str("contain-");
            name.append(suffix.as_str());
            let mut add_cmd: Vec<String> = Vec::new();
            add_cmd.push(String::from_str("ip"));
            add_cmd.push(String::from_str("tuntap"));
            add_cmd.push(String::from_str("add"));
            add_cmd.push(String::from_str("name"));
            add_cmd.push(name.clone());
            add_cmd.push(String::from_str("mode"));
            add_cmd.push(String::from_str("tap"));
            add_cmd.push(String::from_str("user"));
            add_cmd.push(user.clone());
            add_cmd.push(String::from_str("vnet_hdr"));
            add_cmd.push(String::from_str("multi_queue"));
            let mut up_cmd: Vec<String> = Vec::new();
            up_cmd.push(String::from_str("ip"));
            up_cmd.push(String::from_str("link"));
            up_cmd.push(String::from_str("set"));
            up_cmd.push(name.clone());
            up_cmd.push(String::from_str("up"));
            proof {
                assert(add_cmd.deep_view() =~= spec_ip_tuntap_add_argv(
                    spec_managed_prefix() + suffix@,
                    user@,
                ));
                assert(up_cmd.deep_view() =~= spec_ip_link_up_argv(
                    spec_managed_prefix() + suffix@,
                ));
            }
            TapCreateDecision::Run(TapCreatePlan { name, add_cmd, up_cmd })
        }
    }
}

/// The status of a finished create: 201 when both commands succeeded,
/// 500 as soon as either failed. The driver runs the link-up only
/// after a successful add.
pub fn tap_create_outcome(add_ok: bool, up_ok: bool) -> (code: u16)
    ensures
        code == 201u16 <==> (add_ok && up_ok),
        code == 201u16 || code == 500u16,
{
    if add_ok && up_ok {
        201
    } else {
        500
    }
}

/// What the daemon answers a delete request with.
#[derive(Debug, PartialEq, Eq)]
pub enum TapDeleteDecision {
    /// Refuse with this status code: 400 for a malformed body, 403 for
    /// a name outside the managed prefix.
    Reject(u16),
    /// Run `ip link delete <name>`.
    Run(Vec<String>),
}

/// Decides a delete request: a malformed body is refused with 400; a
/// name that does not carry the managed prefix is refused with 403,
/// so the daemon never deletes a device it does not own; otherwise
/// the command is exactly the link delete for that name.
pub fn decide_tap_delete(body: &str) -> (r: TapDeleteDecision)
    ensures
        match spec_parse_field(body@, "name"@) {
            None => r == TapDeleteDecision::Reject(400u16),
            Some(n) => {
                if is_managed_name(n) {
                    r matches TapDeleteDecision::Run(argv) && argv.deep_view()
                        == spec_ip_link_delete_argv(n)
                } else {
                    r == TapDeleteDecision::Reject(403u16)
                }
            }
        },
{
    let name = match parse_field_object(body, "name") {
        Some(n) => n,
        None => {
            return TapDeleteDecision::Reject(400);
        }
    };
    proof {
        reveal_strlit("contain-");
    }
    let nlen = name.as_str().unicode_len();
    if nlen < 8 {
        proof {
            assert(!is_managed_name(name@));
        }
        return TapDeleteDecision::Reject(403);
    }
    let prefix: &str = "contain-";
    let mut k: usize = 0;
    let mut matches_prefix = true;
    while k < 8
        invariant
            k <= 8,
            nlen == name@.len(),
            nlen >= 8,
            matches_prefix ==> forall|m: int| 0 <= m < k ==> name@[m] == spec_managed_prefix()[m],
            !matches_prefix ==> !is_managed_name(name@),
            prefix@ == spec_managed_prefix(),
            prefix@.len() == 8,
        decreases 8 - k,
    {
        if name.as_str().get_char(k) != prefix.get_char(k) {
            proof {
                assert(name@.subrange(0, 8)[k as int] == name@[k as int]);
            }
            matches_prefix = false;
        }
        k = k + 1;
    }
    if !matches_prefix {
        return TapDeleteDecision::Reject(403);
    }
    proof {
        assert(name@.subrange(0, 8) =~= spec_managed_prefix());
    }
    let ghost namev = name@;
    let mut argv: Vec<String> = Vec::new();
    argv.push(String::from_str("ip"));
    argv.push(String::from_str("link"));
    argv.push(String::from_str("delete"));
    argv.push(name);
    proof {
        assert(argv.deep_view() =~= spec_ip_link_delete_argv(namev));
    }
    TapDeleteDecision::Run(argv)
}

/// The status of a finished delete: 202 when the command succeeded,
/// 500 otherwise.
pub fn tap_delete_outcome(delete_ok: bool) -> (code: u16)
    ensures
        code == 202u16 <==> delete_ok,
        code == 202u16 || code == 500u16,
{
    if delete_ok {
        202
    } else {
        500
    }
}

} // verus!
