//! The identity a session stands for, and how it is read from a provider's
//! profile.
use vstd::prelude::*;
use crate::json::{as_text, field, number_text, Json};

verus! {

/// A signed-in user: the provider's subject, and a display name and e-mail
/// address when the profile has them.
#[derive(Debug, PartialEq)]
pub struct OAuthUser {
    pub id: String,
    pub name: Option<String>,
    pub email: Option<String>,
}

/// An identity as text.
pub struct IdentityView {
    pub id: Seq<char>,
    pub name: Option<Seq<char>>,
    pub email: Option<Seq<char>>,
}

/// The text of an optional string.
pub open spec fn text_view(s: Option<String>) -> Option<Seq<char>> {
    match s {
        Some(t) => Some(t@),
        None => None,
    }
}

impl View for OAuthUser {
    type V = IdentityView;

    open spec fn view(&self) -> IdentityView {
        IdentityView { id: self.id@, name: text_view(self.name), email: text_view(self.email) }
    }
}

/// The identity of an optional user, as text.
pub open spec fn identity_view(u: Option<OAuthUser>) -> Option<IdentityView> {
    match u {
        Some(v) => Some(v@),
        None => None,
    }
}

/// The first of three lookups that found something.
pub open spec fn first_found(a: Option<Json>, b: Option<Json>, c: Option<Json>) -> Option<Json> {
    if a is Some {
        a
    } else if b is Some {
        b
    } else {
        c
    }
}

/// Where the subject sits: `sub`, else `id`, else `user.id`.
pub open spec fn subject_field(p: Json) -> Option<Json> {
    first_found(
        field(p, "sub"@),
        field(p, "id"@),
        match field(p, "user"@) {
            Some(u) => field(u, "id"@),
            None => None,
        },
    )
}

/// A subject as text: a string as it is, a number in decimal.
pub open spec fn subject_text(v: Option<Json>) -> Option<Seq<char>> {
    match v {
        Some(Json::String(s)) => Some(s@),
        Some(Json::Number(n)) => Some(number_text(n)),
        _ => None,
    }
}

/// Where the display name sits: `name`, else `preferred_username`, else `login`.
pub open spec fn name_field(p: Json) -> Option<Json> {
    first_found(field(p, "name"@), field(p, "preferred_username"@), field(p, "login"@))
}

/// The identity a profile names: none for `null` or where no subject is found.
pub open spec fn identity_of(p: Json) -> Option<IdentityView> {
    if p is Null {
        None
    } else {
        match subject_text(subject_field(p)) {
            Some(id) => Some(
                IdentityView {
                    id,
                    name: as_text(name_field(p)),
                    email: as_text(field(p, "email"@)),
                },
            ),
            None => None,
        }
    }
}

} // verus!
