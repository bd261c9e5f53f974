//! What the Kimi commands print.

use vstd::prelude::*;

use crate::provider::kimi::auth::{AuthStatus, AuthStatusV};
use crate::text;

verus! {

/// The last four characters of a name at most, and never its first.
pub open spec fn masked_v(s: Seq<char>) -> Seq<char> {
    if s.len() == 0 {
        seq!['…']
    } else if s.len() < 5 {
        seq!['…'] + s.skip(1)
    } else {
        seq!['…'] + s.skip(s.len() - 4)
    }
}

/// A name that must not be shown in full.
pub fn masked(value: &str) -> (r: String)
    ensures
        r@ == masked_v(value@),
{
    let v = text::chars_of(value);
    let mut out = String::new();
    out.push('…');
    assert(out@ =~= seq!['…']);
    if v.len() == 0 {
        return out;
    }
    let from: usize = if v.len() < 5 {
        1
    } else {
        v.len() - 4
    };
    out.push_str(&text::rest_of(&v, from));
    out
}

/// A masked name never shows all of it.
pub proof fn masks_hide_the_beginning(s: Seq<char>)
    requires
        s.len() > 0,
    ensures
        masked_v(s).len() <= 5,
        masked_v(s).skip(1).len() < s.len(),
        text::ends_v(s, masked_v(s).skip(1)),
{
    let shown = masked_v(s).skip(1);
    assert(shown =~= if s.len() < 5 {
        s.skip(1)
    } else {
        s.skip(s.len() - 4)
    });
}

pub open spec fn present_v(present: bool) -> Seq<char> {
    if present {
        "present"@
    } else {
        "missing"@
    }
}

/// What is printed of stored credentials, line by line. `expires_at` is the
/// text of their end.
pub open spec fn status_v(status: AuthStatusV, expires_at: Seq<char>) -> Seq<Seq<char>> {
    let lines = seq![
        "Kimi credential file: "@ + status.path,
        "Expires at: "@ + expires_at,
        "Refresh token: "@ + present_v(status.has_refresh_token),
    ];
    match status.user_id {
        Some(id) => lines.push("User: "@ + masked_v(id)),
        None => lines,
    }
}

pub fn status_lines(status: &AuthStatus, expires_at: &str) -> (r: Vec<String>)
    ensures
        text::views(r@) == status_v(status@, expires_at@),
{
    let token = if status.has_refresh_token {
        "present"
    } else {
        "missing"
    };
    let mut out: Vec<String> = Vec::new();
    out.push(text::cat("Kimi credential file: ", &status.path));
    out.push(text::cat("Expires at: ", expires_at));
    out.push(text::cat("Refresh token: ", token));
    if let Some(id) = &status.user_id {
        out.push(text::cat("User: ", &masked(id)));
    }
    assert(text::views(out@) =~= status_v(status@, expires_at@));
    out
}

} // verus!
