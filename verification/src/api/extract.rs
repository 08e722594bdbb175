//! Who makes a request, and on which tenant.
use vstd::prelude::*;
use crate::api::auth::cookie_of;
use crate::api::error::{
    ApiError,
    AuthError,
    ErrorKind,
    auth_answer,
    auth_error,
    bad_request,
    unauthorized,
};
use crate::oid::{ObjectId, oid_parsed};
use crate::text::{
    before,
    lemma_first_is,
    lemma_trim_end_is,
    lemma_trim_start_is,
    opt_str,
    split,
    trim,
    views,
};

verus! {

/// Something that can be had from a larger state.
pub trait FromRef<T> {
    /// The part of `input` that is asked for.
    fn from_ref(input: &T) -> Self where Self: Sized;
}

/// What a token says of its bearer.
#[derive(Debug)]
#[allow(missing_docs)]
pub struct Claims {
    pub sub: String,
    pub email: String,
    pub username: String,
}

/// The one who makes a request.
#[derive(Debug)]
#[allow(missing_docs)]
pub struct AuthUser {
    pub user_id: ObjectId,
    pub email: String,
    pub username: String,
    pub claims: Claims,
}

/// What follows `prefix`.
pub open spec fn after(s: Seq<char>, prefix: Seq<char>) -> Option<Seq<char>> {
    if prefix.is_prefix_of(s) {
        Some(s.skip(prefix.len() as int))
    } else {
        None
    }
}

/// The access token of the first of these cookies that holds one.
pub open spec fn token_in(cookies: Seq<Seq<char>>) -> Option<Seq<char>>
    decreases cookies.len(),
{
    if cookies.len() == 0 {
        None
    } else {
        match after(trim(cookies[0]), "access_token="@) {
            Some(t) => Some(t),
            None => token_in(cookies.drop_first()),
        }
    }
}

/// The token of a request: that of its `Authorization` header, else that of
/// its cookies.
pub open spec fn token_of(authorization: Option<Seq<char>>, cookies: Option<Seq<char>>) -> Option<
    Seq<char>,
> {
    match authorization {
        Some(a) if after(a, "Bearer "@) is Some => after(a, "Bearer "@),
        _ => match cookies {
            Some(c) => token_in(split(c, ';')),
            None => None,
        },
    }
}

/// The answer to a request without a token.
pub open spec fn no_token() -> (ErrorKind, Seq<char>) {
    (ErrorKind::Unauthorized, "No token provided"@)
}

/// The access token in a `Cookie` header.
fn cookie_token(cookies: &str) -> (r: Option<String>)
    ensures
        crate::text::opt_view(r) == token_in(split(cookies@, ';')),
{
    let list: Vec<String> = crate::text::pieces(cookies, ';');
    let mut i: usize = 0;
    let ghost all = views(list@);
    proof {
        assert(all.skip(0) =~= all);
    }
    while i < list.len()
        invariant
            i <= list@.len(),
            all == views(list@),
            all == split(cookies@, ';'),
            token_in(all) == token_in(all.skip(i as int)),
        decreases list@.len() - i,
    {
        proof {
            assert(all.skip(i as int)[0] == list@[i as int]@);
            assert(all.skip(i as int).drop_first() =~= all.skip(i + 1));
        }
        let cookie: &str = crate::text::trimmed(list[i].as_str());
        match crate::text::stripped(cookie, "access_token=") {
            Some(t) => {
                return Some(t.to_owned());
            },
            None => {},
        }
        i = i + 1;
    }
    None
}

/// The token of a request, by the text of its headers.
pub fn token(authorization: Option<&str>, cookies: Option<&str>) -> (r: Result<String, ApiError>)
    ensures
        match r {
            Ok(t) => token_of(opt_str(authorization), opt_str(cookies)) == Some(t@),
            Err(e) => token_of(opt_str(authorization), opt_str(cookies)) is None && e@
                == no_token(),
        },
{
    match authorization {
        Some(a) => match crate::text::stripped(a, "Bearer ") {
            Some(t) => {
                return Ok(t.to_owned());
            },
            None => {},
        },
        None => {},
    }
    let found: Option<String> = match cookies {
        Some(c) => cookie_token(c),
        None => None,
    };
    match found {
        Some(t) => Ok(t),
        None => Err(unauthorized("No token provided")),
    }
}

/// The one who makes a request, by what its token says.
pub fn auth_user(claims: Result<Claims, AuthError>) -> (r: Result<AuthUser, ApiError>)
    ensures
        match claims {
            Ok(c) => match oid_parsed(c.sub@) {
                Some(o) => r matches Ok(u) && u.user_id == o && u.email@ == c.email@ && u.username@
                    == c.username@ && u.claims == c,
                None => r matches Err(e) && e@ == (
                    ErrorKind::Unauthorized,
                    "Invalid user ID in token"@,
                ),
            },
            Err(e) => r matches Err(a) && a@ == auth_answer(e),
        },
{
    match claims {
        Ok(c) => match ObjectId::parse_str(c.sub.as_str()) {
            Some(user_id) => Ok(
                AuthUser {
                    user_id,
                    email: c.email.as_str().to_owned(),
                    username: c.username.as_str().to_owned(),
                    claims: c,
                },
            ),
            None => Err(unauthorized("Invalid user ID in token")),
        },
        Err(e) => Err(auth_error(e)),
    }
}

/// What the path of a request holds.
#[derive(Debug)]
pub enum PathParams<'a> {
    /// It could not be read.
    Unreadable,
    /// It was read, and this is the tenant that it names.
    Read(Option<&'a str>),
}

/// The tenant of a request, by its path.
#[derive(Debug, Clone, Copy)]
pub struct TenantId(pub ObjectId);

/// The tenant of a request, by its path.
pub fn tenant_id(params: PathParams<'_>) -> (r: Result<TenantId, ApiError>)
    ensures
        match params {
            PathParams::Unreadable => r matches Err(e) && e@ == (
                ErrorKind::BadRequest,
                "Missing path parameters"@,
            ),
            PathParams::Read(None) => r matches Err(e) && e@ == (
                ErrorKind::BadRequest,
                "Missing tenant_id parameter"@,
            ),
            PathParams::Read(Some(t)) => match oid_parsed(t@) {
                Some(o) => r matches Ok(id) && id.0 == o,
                None => r matches Err(e) && e@ == (
                    ErrorKind::BadRequest,
                    "Invalid tenant_id format"@,
                ),
            },
        },
{
    match params {
        PathParams::Unreadable => Err(bad_request("Missing path parameters")),
        PathParams::Read(tenant) => match tenant {
            None => Err(bad_request("Missing tenant_id parameter")),
            Some(t) => match ObjectId::parse_str(t) {
                Some(o) => Ok(TenantId(o)),
                None => Err(bad_request("Invalid tenant_id format")),
            },
        },
    }
}

/// Who was signed in is known by the cookie that they were given: the token in
/// it is the one that was made out. A token holds no semicolon and does not
/// end in white space.
pub proof fn cookies_give_tokens_back(token: Seq<char>, seconds: nat)
    requires
        !token.contains(';'),
        token.len() > 0 ==> !crate::text::is_space(token.last()),
    ensures
        token_of(None, Some(before(cookie_of(token, seconds), ';'))) == Some(token),
{
    let name = "access_token="@;
    let pair = name + token;
    let cookie = cookie_of(token, seconds);
    reveal_strlit("access_token=");
    reveal_strlit("; HttpOnly; Path=/; SameSite=Lax; Max-Age=");
    assert(name.len() == 13 && name[0] == 'a' && name[12] == '=');
    assert(pair.len() == 13 + token.len());
    assert forall|i: int| 0 <= i < pair.len() implies pair[i] != ';' by {
        if i >= 13 {
            assert(token[i - 13] != ';');
        }
    }
    assert(cookie[pair.len() as int] == ';');
    assert forall|i: int| 0 <= i < pair.len() implies cookie[i] == pair[i] by {}
    lemma_first_is(cookie, ';', pair.len() as int);
    assert(before(cookie, ';') =~= pair);
    lemma_first_is(pair, ';', pair.len() as int);
    assert(split(pair, ';') =~= seq![pair]);
    lemma_trim_start_is(pair, 0);
    assert(pair.skip(0) =~= pair);
    assert(!crate::text::is_space(pair.last()));
    lemma_trim_end_is(pair, pair.len() as int);
    assert(pair.take(pair.len() as int) =~= pair);
    assert(pair.take(13) =~= name);
    assert(name.is_prefix_of(pair));
    assert(pair.skip(13) =~= token);
}

/// A bearer token is taken, whatever the cookies hold.
pub proof fn header_goes_before_cookies(token: Seq<char>, cookies: Option<Seq<char>>)
    ensures
        token_of(Some("Bearer "@ + token), cookies) == Some(token),
{
    let h = "Bearer "@ + token;
    assert(h.subrange(0, "Bearer "@.len() as int) =~= "Bearer "@);
    assert(h.skip("Bearer "@.len() as int) =~= token);
}

} // verus!
