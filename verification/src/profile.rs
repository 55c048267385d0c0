//! The fixed profile that the service reports as JSON.

use vstd::prelude::*;
use crate::reply::{ContentKind, Reply, STATUS_OK};

verus! {

/// The gender recorded in a profile.
#[derive(Clone, Copy, Debug, PartialEq, Eq, Structural)]
pub enum Gender {
    Male,
    Female,
}

/// A user profile.
#[derive(Debug)]
pub struct User {
    pub name: String,
    pub age: u16,
    pub gender: Gender,
}

/// The profile that the service reports.
pub fn sample_user() -> (user: User)
    ensures
        user.name@ == "Sanndy"@,
        user.age == 10,
        user.gender == Gender::Female,
{
    User { name: String::from_str("Sanndy"), age: 10, gender: Gender::Female }
}

/// The body of a JSON response for a serialization attempt: the serialized
/// text where there is one, an empty JSON object where serialization failed.
pub open spec fn spec_json_body(serialized: Option<String>) -> Seq<char> {
    match serialized {
        Some(text) => text@,
        None => "{}"@,
    }
}

/// The response that reports a profile. `serialized` is the JSON text of the
/// profile, or `None` where serializing it failed; a failure degrades to an
/// empty JSON object and never to an error response.
pub fn profile_reply(serialized: Option<String>) -> (reply: Reply)
    ensures
        reply.status == STATUS_OK,
        reply.content_type == Some(ContentKind::Json),
        reply.body@ == spec_json_body(serialized),
{
    let body = match serialized {
        Some(text) => text,
        None => String::from_str("{}"),
    };
    Reply { status: STATUS_OK, content_type: Some(ContentKind::Json), body }
}

} // verus!
