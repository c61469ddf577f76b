//! The alert sink's verified half: the alert payload, its exact JSON
//! serialization, the authorization header, and the enabled/disabled
//! gate. Delivery is fire-and-forget and stays with the transport code;
//! a delivery failure is never escalated.

use vstd::prelude::*;
use vstd::string::StringExecFns;
use vstd::string::StringSliceAdditionalSpecFns;
use vstd::utf8::encode_utf8;

use crate::config::Config;
use crate::json::{append_bytes, append_json_string, spec_json_string};

verus! {

/// One responder or viewer entry of an alert payload.
pub struct OpsGenieUser {
    pub name: String,
    pub type_: String,
}

impl OpsGenieUser {
    pub fn new(name: String) -> (r: Self)
        ensures
            r.name@ == name@,
            r.type_@ == "team"@,
    {
        Self { name, type_: "team".to_owned() }
    }
}

/// One alert: a message for a team, visible to that team.
pub struct OpsGeniePayload {
    pub message: String,
    pub responders: Vec<OpsGenieUser>,
    pub visible_to: Vec<OpsGenieUser>,
}

impl OpsGeniePayload {
    pub fn new(message: String, team_name: String) -> (r: Self)
        ensures
            r.message@ == message@,
            r.responders@.len() == 1,
            r.responders@[0].name@ == team_name@,
            r.responders@[0].type_@ == "team"@,
            r.visible_to@.len() == 1,
            r.visible_to@[0].name@ == team_name@,
            r.visible_to@[0].type_@ == "team"@,
    {
        Self {
            message,
            responders: vec![OpsGenieUser::new(team_name.clone())],
            visible_to: vec![OpsGenieUser::new(team_name.clone())],
        }
    }

    /// Serializes the payload to the exact JSON bytes the alert sink is
    /// sent.
    pub fn to_json(&self) -> (r: Vec<u8>)
        ensures
            r@ == spec_payload_json(self),
    {
        let mut out: Vec<u8> = Vec::new();
        append_bytes(&mut out, "{\"message\":".as_bytes());
        append_json_string(&mut out, self.message.as_str().as_bytes());
        append_bytes(&mut out, ",\"responders\":[".as_bytes());
        append_users_json(&mut out, &self.responders);
        append_bytes(&mut out, "],\"visibleTo\":[".as_bytes());
        append_users_json(&mut out, &self.visible_to);
        append_bytes(&mut out, "]}".as_bytes());
        proof {
            assert(out@ =~= spec_payload_json(self));
        }
        out
    }
}

/// One user entry as JSON.
pub open spec fn spec_user_json(u: OpsGenieUser) -> Seq<u8> {
    ("{\"name\":").spec_bytes() + spec_json_string(encode_utf8(u.name@))
        + (",\"type\":").spec_bytes() + spec_json_string(encode_utf8(u.type_@))
        + ("}").spec_bytes()
}

/// A user list's entries from the second on: each preceded by a comma.
pub open spec fn spec_users_rest(s: Seq<OpsGenieUser>) -> Seq<u8>
    decreases s.len(),
{
    if s.len() == 0 {
        Seq::empty()
    } else {
        seq![0x2cu8] + spec_user_json(s[0]) + spec_users_rest(s.drop_first())
    }
}

/// A whole user list as the inside of a JSON array.
pub open spec fn spec_users_json(s: Seq<OpsGenieUser>) -> Seq<u8> {
    if s.len() == 0 {
        Seq::empty()
    } else {
        spec_user_json(s[0]) + spec_users_rest(s.drop_first())
    }
}

/// The payload as a JSON object, fields in declaration order, the
/// `visible_to` field under its wire name.
pub open spec fn spec_payload_json(p: &OpsGeniePayload) -> Seq<u8> {
    ("{\"message\":").spec_bytes() + spec_json_string(encode_utf8(p.message@))
        + (",\"responders\":[").spec_bytes() + spec_users_json(p.responders@)
        + ("],\"visibleTo\":[").spec_bytes() + spec_users_json(p.visible_to@)
        + ("]}").spec_bytes()
}

fn append_user_json(out: &mut Vec<u8>, u: &OpsGenieUser)
    ensures
        final(out)@ == old(out)@ + spec_user_json(*u),
{
    append_bytes(out, "{\"name\":".as_bytes());
    append_json_string(out, u.name.as_str().as_bytes());
    append_bytes(out, ",\"type\":".as_bytes());
    append_json_string(out, u.type_.as_str().as_bytes());
    append_bytes(out, "}".as_bytes());
    proof {
        assert(out@ =~= old(out)@ + spec_user_json(*u));
    }
}

fn append_users_json(out: &mut Vec<u8>, users: &Vec<OpsGenieUser>)
    ensures
        final(out)@ == old(out)@ + spec_users_json(users@),
{
    let n = users.len();
    if n == 0 {
        proof {
            assert(old(out)@ + spec_users_json(users@) =~= out@);
        }
        return ;
    }
    append_user_json(out, &users[0]);
    let mut i: usize = 1;
    proof {
        assert(users@.drop_first() =~= users@.skip(1));
        assert(out@ + spec_users_rest(users@.skip(1)) =~= old(out)@ + spec_users_json(users@));
    }
    while i < n
        invariant
            n == users@.len(),
            1 <= i <= n,
            out@ + spec_users_rest(users@.skip(i as int)) == old(out)@ + spec_users_json(users@),
        decreases n - i,
    {
        let ghost pre = out@;
        proof {
            assert(users@.skip(i as int).drop_first() =~= users@.skip(i + 1));
            assert(spec_users_rest(users@.skip(i as int)) == seq![0x2cu8] + spec_user_json(
                users@[i as int],
            ) + spec_users_rest(users@.skip(i + 1)));
        }
        out.push(0x2c);
        append_user_json(out, &users[i]);
        proof {
            assert(out@ =~= pre + (seq![0x2cu8] + spec_user_json(users@[i as int])));
            assert(out@ + spec_users_rest(users@.skip(i + 1)) =~= pre + spec_users_rest(
                users@.skip(i as int),
            ));
        }
        i += 1;
    }
    proof {
        assert(spec_users_rest(users@.skip(n as int)) =~= Seq::<u8>::empty());
        assert(out@ + spec_users_rest(users@.skip(n as int)) =~= out@);
    }
}

/// The alert sink's client: its settings, and the decision whether an
/// alert is sent at all.
pub struct OpsGenieClientImpl {
    pub enabled: bool,
    pub api_key: String,
    pub url: String,
    pub team: String,
}

impl OpsGenieClientImpl {
    pub fn new(config: &Config) -> (r: Self)
        ensures
            r.enabled == config.opsgenie.enabled,
            r.api_key@ == config.opsgenie.api_key@,
            r.url@ == config.opsgenie.url@,
            r.team@ == config.opsgenie.team@,
    {
        Self {
            enabled: config.opsgenie.enabled,
            api_key: config.opsgenie.api_key.clone(),
            url: config.opsgenie.url.clone(),
            team: config.opsgenie.team.clone(),
        }
    }

    /// The `Authorization` header value carried to the alert sink.
    pub fn auth_header(&self) -> (r: String)
        ensures
            r@ == "GenieKey "@ + self.api_key@,
    {
        let mut header = String::new();
        header.append("GenieKey ");
        header.append(self.api_key.as_str());
        proof {
            assert(header@ =~= "GenieKey "@ + self.api_key@);
        }
        header
    }

    /// The notify decision: the payload to deliver for `message`, or
    /// nothing at all when alerting is disabled.
    pub fn notify(&self, message: String) -> (r: Option<OpsGeniePayload>)
        ensures
            self.enabled ==> (r matches Some(p) && p.message@ == message@ && p.responders@.len()
                == 1 && p.responders@[0].name@ == self.team@ && p.responders@[0].type_@ == "team"@
                && p.visible_to@.len() == 1 && p.visible_to@[0].name@ == self.team@
                && p.visible_to@[0].type_@ == "team"@),
            !self.enabled ==> r is None,
    {
        if self.enabled {
            Some(OpsGeniePayload::new(message, self.team.clone()))
        } else {
            None
        }
    }
}

} // verus!
