//! What holds of stored sessions.

use vstd::prelude::*;

use crate::auth;
use crate::json::JsonV;

verus! {

/// A refresh keeps what it does not know: every other member of the session,
/// and every other member of its tokens.
pub proof fn refreshes_keep_unknown_members(
    doc: JsonV,
    tokens: JsonV,
    access: Seq<char>,
    refresh: Seq<char>,
    id: Seq<char>,
    claims: Option<JsonV>,
    stamp: Seq<char>,
    k: Seq<char>,
)
    ensures
        k != "tokens"@ && k != "last_refresh"@ ==> auth::refreshed_v(doc, tokens, stamp).get(k)
            == doc.get(k),
        k != "access_token"@ && k != "refresh_token"@ && k != "id_token"@ && k != "account_id"@
            ==> auth::with_account_v(
            auth::merged_v(tokens, access, refresh, id),
            claims,
        ).get(k) == tokens.get(k),
{
}

/// A refresh without a new refresh token keeps the old one.
pub proof fn refresh_tokens_are_kept(
    tokens: JsonV,
    access: Seq<char>,
    id: Seq<char>,
    claims: Option<JsonV>,
)
    ensures
        auth::with_account_v(
            auth::merged_v(tokens, access, Seq::empty(), id),
            claims,
        ).get("refresh_token"@) == tokens.get("refresh_token"@),
{
    reveal_strlit("refresh_token");
    reveal_strlit("access_token");
    reveal_strlit("id_token");
    reveal_strlit("account_id");
    assert("refresh_token"@.len() == 13 && "access_token"@.len() == 12);
    assert("id_token"@.len() == 8 && "account_id"@.len() == 10);
}

/// Credentials that last are used as they are, unless fresh ones are forced.
pub proof fn lasting_credentials_are_used(
    c: auth::CredentialsV,
    refresh: Seq<char>,
    now: u64,
)
    requires
        !auth::ending_v(c.expires_at, now),
    ensures
        auth::access_v(c, refresh, false, now) == Ok::<auth::AccessV, Seq<char>>(
            auth::AccessV::Use(c),
        ),
{
}

/// What is read of stored tokens: the access token, the refresh token, the
/// account that they name or else that their claims name, and the end that the
/// access token claims or else the ID token.
pub proof fn tokens_are_read(tokens: JsonV, id: Option<JsonV>, access: Option<JsonV>)
    ensures
        ({
            let token = match tokens.get_text("access_token"@) {
                Some(s) => crate::text::trim_v(s),
                None => Seq::empty(),
            };
            &&& auth::credentials_v(tokens, id, access) is Ok <==> token.len() > 0
            &&& auth::credentials_v(tokens, id, access) matches Ok((c, refresh)) ==> {
                &&& c.access_token == token
                &&& tokens.get_text("account_id"@) matches Some(a) ==> c.account_id == a
                &&& tokens.get_text("account_id"@) is None ==> (auth::account_v(id) matches Some(a)
                    ==> c.account_id == a)
                &&& tokens.get_text("account_id"@) is None && auth::account_v(id) is None ==> (
                auth::account_v(access) matches Some(a) ==> c.account_id == a)
                &&& auth::expiry_v(access) is Some ==> c.expires_at == auth::expiry_v(access)
                &&& auth::expiry_v(access) is None ==> c.expires_at == auth::expiry_v(id)
                &&& tokens.get_text("refresh_token"@) matches Some(s) ==> refresh
                    == crate::text::trim_v(s)
            }
        }),
{
}

/// Claims end at the second that they state, in milliseconds.
pub proof fn claims_end_when_they_say(claims: JsonV, secs: i64)
    requires
        claims.get("exp"@) matches Some(v) && v.sint() == Some(secs),
        0 <= secs <= 8_210_266_876_799,
    ensures
        auth::expiry_v(Some(claims)) == Some((secs * 1000) as i64),
{
}

/// Claims name the account that stands in the claim of the provider.
pub proof fn claims_name_their_account(claims: JsonV, a: JsonV, id: Seq<char>)
    requires
        claims.get("https://api.openai.com/auth"@) == Some(a),
        a.get_text("chatgpt_account_id"@) == Some(id),
    ensures
        auth::account_v(Some(claims)) == Some(id),
{
}

/// Credentials that end within five minutes are refreshed where they can be, and
/// those that are refused are refreshed in any case.
pub proof fn ending_credentials_are_refreshed(
    c: auth::CredentialsV,
    refresh: Seq<char>,
    force: bool,
    now: u64,
)
    requires
        refresh.len() > 0,
    ensures
        ({
            let due = force || (c.expires_at matches Some(t) && t <= now + 300_000);
            &&& due ==> auth::access_v(c, refresh, force, now) == Ok::<auth::AccessV, Seq<char>>(
                auth::AccessV::Refresh(refresh),
            )
            &&& !due ==> auth::access_v(c, refresh, force, now) == Ok::<auth::AccessV, Seq<char>>(
                auth::AccessV::Use(c),
            )
            &&& auth::access_v(c, Seq::empty(), true, now) is Err
        }),
{
}

/// After a refresh the new tokens are stored, with the time of the refresh and
/// the account that they belong to.
pub proof fn fresh_tokens_are_stored(
    doc: JsonV,
    tokens: JsonV,
    access: Seq<char>,
    refresh: Seq<char>,
    id: Seq<char>,
    claims: Option<JsonV>,
    stamp: Seq<char>,
)
    requires
        doc.is_obj(),
        tokens.is_obj(),
    ensures
        ({
            let t = auth::with_account_v(auth::merged_v(tokens, access, refresh, id), claims);
            let d = auth::refreshed_v(doc, t, stamp);
            &&& d.get("tokens"@) == Some(t)
            &&& d.get_text("last_refresh"@) == Some(stamp)
            &&& t.get_text("access_token"@) == Some(access)
            &&& refresh.len() > 0 ==> t.get_text("refresh_token"@) == Some(refresh)
            &&& id.len() > 0 ==> t.get_text("id_token"@) == Some(id)
            &&& id.len() == 0 ==> t.get("id_token"@) == tokens.get("id_token"@)
            &&& tokens.get_text("account_id"@) matches Some(a) ==> a.len() > 0 ==> t.get_text(
                "account_id"@,
            ) == Some(a)
            &&& tokens.get("account_id"@) is None ==> (auth::account_v(claims) matches Some(a)
                ==> t.get_text("account_id"@) == Some(a))
        }),
{
    crate::words::tokens();
}

} // verus!
