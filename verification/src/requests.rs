//! The three message bodies of the tap daemon's API, with their exact
//! wire encodings and parsers.

use vstd::prelude::*;
use vstd::string::StringExecFns;
use crate::text::{spec_dec, u64_to_dec};
use crate::wire::{
    encode_field_object, is_plain_char, lemma_field_object_roundtrip, parse_field_object,
    spec_field_object, spec_parse_field,
};

verus! {

/// Round trip over the `user` field: the body the client encodes for a
/// create request is read back by the daemon as exactly the same user
/// name, whatever characters it holds.
pub proof fn lemma_user_field_roundtrip(user: Seq<char>)
    ensures
        spec_parse_field(spec_field_object("user"@, user), "user"@) == Some(user),
{
    reveal_strlit("user");
    assert forall|i: int| 0 <= i < "user"@.len() implies is_plain_char(
        #[trigger] "user"@[i],
    ) by {
    }
    lemma_field_object_roundtrip("user"@, user);
}

/// Round trip over the `name` field: the device name the daemon encodes
/// in a create response is read back by the client unchanged, and the
/// name the client encodes in a delete request is read back by the
/// daemon unchanged.
pub proof fn lemma_name_field_roundtrip(name: Seq<char>)
    ensures
        spec_parse_field(spec_field_object("name"@, name), "name"@) == Some(name),
{
    reveal_strlit("name");
    assert forall|i: int| 0 <= i < "name"@.len() implies is_plain_char(
        #[trigger] "name"@[i],
    ) by {
    }
    lemma_field_object_roundtrip("name"@, name);
}

/// Why a request to the daemon failed: the transport broke (socket
/// missing, connection refused, protocol error), the daemon answered
/// with a non-2xx status, or its body was not the expected JSON.
#[derive(Debug)]
pub enum RequestError {
    Transport(String),
    BadStatus(u16),
    MalformedResponse,
}

impl RequestError {
    /// The one-line description of the failure.
    pub open spec fn spec_message(&self) -> Seq<char> {
        match self {
            RequestError::Transport(s) => "transport failure: "@ + s@,
            RequestError::BadStatus(c) => "unexpected status "@ + spec_dec(*c as int),
            RequestError::MalformedResponse => "malformed response body"@,
        }
    }

    /// Renders the one-line description.
    pub fn message(&self) -> (m: String)
        ensures
            m@ == self.spec_message(),
    {
        match self {
            RequestError::Transport(s) => {
                let mut m = String::from_str("transport failure: ");
                m.append(s.as_str());
                m
            }
            RequestError::BadStatus(c) => {
                let mut m = String::from_str("unexpected status ");
                let d = u64_to_dec(*c as u64);
                m.append(d.as_str());
                m
            }
            RequestError::MalformedResponse => String::from_str("malformed response body"),
        }
    }
}

/// Body of `POST /api/net/tap`: the requesting user.
#[derive(Debug, PartialEq, Eq)]
pub struct NetTapCreateRequest {
    pub user: String,
}

/// Body of the create response: the name of the new tap device.
#[derive(Debug, PartialEq, Eq)]
pub struct NetTapCreateResponse {
    pub name: String,
}

/// Body of `DELETE /api/net/tap`: the name of the device to delete.
#[derive(Debug, PartialEq, Eq)]
pub struct NetTapDeleteRequest {
    pub name: String,
}

impl NetTapCreateRequest {
    /// The canonical wire form `{"user":"<user>"}`.
    pub fn encode(&self) -> (b: String)
        ensures
            b@ == spec_field_object("user"@, self.user@),
    {
        encode_field_object("user", self.user.as_str())
    }

    /// Parses a request body; `None` on any malformed body.
    pub fn parse(body: &str) -> (r: Option<NetTapCreateRequest>)
        ensures
            match spec_parse_field(body@, "user"@) {
                Some(v) => r matches Some(q) && q.user@ == v,
                None => r is None,
            },
    {
        match parse_field_object(body, "user") {
            Some(u) => Some(NetTapCreateRequest { user: u }),
            None => None,
        }
    }
}

impl NetTapCreateResponse {
    /// The canonical wire form `{"name":"<name>"}`.
    pub fn encode(&self) -> (b: String)
        ensures
            b@ == spec_field_object("name"@, self.name@),
    {
        encode_field_object("name", self.name.as_str())
    }

    /// Parses a response body; `None` on any malformed body.
    pub fn parse(body: &str) -> (r: Option<NetTapCreateResponse>)
        ensures
            match spec_parse_field(body@, "name"@) {
                Some(v) => r matches Some(q) && q.name@ == v,
                None => r is None,
            },
    {
        match parse_field_object(body, "name") {
            Some(n) => Some(NetTapCreateResponse { name: n }),
            None => None,
        }
    }
}

impl NetTapDeleteRequest {
    /// The canonical wire form `{"name":"<name>"}`.
    pub fn encode(&self) -> (b: String)
        ensures
            b@ == spec_field_object("name"@, self.name@),
    {
        encode_field_object("name", self.name.as_str())
    }

    /// Parses a request body; `None` on any malformed body.
    pub fn parse(body: &str) -> (r: Option<NetTapDeleteRequest>)
        ensures
            match spec_parse_field(body@, "name"@) {
                Some(v) => r matches Some(q) && q.name@ == v,
                None => r is None,
            },
    {
        match parse_field_object(body, "name") {
            Some(n) => Some(NetTapDeleteRequest { name: n }),
            None => None,
        }
    }
}

} // verus!
