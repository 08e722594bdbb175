//! Accounts: registering, activating, signing in and out.
use vstd::prelude::*;
use crate::api::error::{
    ApiError,
    AuthError,
    DaoError,
    ErrorKind,
    auth_answer,
    auth_error,
    bad_request,
    forbidden,
    internal,
    unauthorized,
};
use crate::chance::{nanoid, url_safe};
use crate::models::invite::Invite;
use crate::models::tenant::Tenant;
use crate::models::user::User;
use crate::oid::{ObjectId, oid_hex, oid_parsed};
use crate::text::opt_view;

verus! {

/// An account to make.
#[derive(Debug)]
#[allow(missing_docs)]
pub struct RegisterRequest {
    pub email: String,
    pub username: String,
    pub display_name: String,
    pub password: String,
    pub tenant_name: Option<String>,
    pub tenant_slug: Option<String>,
    pub invite_code: Option<String>,
}

/// The answer to one who signs in.
#[derive(Debug)]
#[allow(missing_docs)]
pub struct AuthResponse {
    pub access_token: String,
    pub refresh_token: String,
    pub expires_in: u64,
    pub user: UserResponse,
    pub invite_tenant: Option<InviteTenantResponse>,
}

/// The tenant that an invite leads to.
#[derive(Debug)]
#[allow(missing_docs)]
pub struct InviteTenantResponse {
    pub tenant_id: String,
    pub tenant_name: String,
    pub tenant_slug: String,
}

/// An account, for clients.
#[derive(Debug)]
#[allow(missing_docs)]
pub struct UserResponse {
    pub id: String,
    pub email: String,
    pub username: String,
    pub display_name: String,
    pub avatar: Option<String>,
}

/// The code that activates an account.
#[derive(Debug)]
#[allow(missing_docs)]
pub struct ActivateRequest {
    pub user_id: String,
    pub token: String,
}

/// An answer in words.
#[derive(Debug)]
#[allow(missing_docs)]
pub struct MessageResponse {
    pub message: String,
}

/// Who signs in.
#[derive(Debug)]
#[allow(missing_docs)]
pub struct LoginRequest {
    pub username: Option<String>,
    pub email: Option<String>,
    pub password: String,
}

/// A token to sign in with again.
#[derive(Debug)]
#[allow(missing_docs)]
pub struct RefreshRequest {
    pub refresh_token: String,
}

/// The tokens that one who signs in gets.
#[derive(Debug)]
#[allow(missing_docs)]
pub struct TokenPair {
    pub access_token: String,
    pub refresh_token: String,
    pub expires_in: u64,
}

/// An account to store.
#[derive(Debug)]
#[allow(missing_docs)]
pub struct NewUser {
    pub email: String,
    pub username: String,
    pub display_name: String,
    pub password_hash: String,
}

/// What is left of a registration once the account is stored.
#[derive(Debug)]
#[allow(missing_docs)]
pub struct Signup {
    pub tenant: Option<(String, String)>,
    pub invite_code: Option<String>,
}

/// The account to store for a request, once its password is hashed, and what
/// is left to do after that: a tenant is made where both its name and its slug
/// are given.
pub fn register(body: RegisterRequest, hash: Result<String, AuthError>) -> (r: Result<
    (NewUser, Signup),
    ApiError,
>)
    ensures
        match hash {
            Ok(h) => r matches Ok((user, rest)) && {
                &&& user.email == body.email
                &&& user.username == body.username
                &&& user.display_name == body.display_name
                &&& user.password_hash == h
                &&& rest.invite_code == body.invite_code
                &&& match (body.tenant_name, body.tenant_slug) {
                    (Some(n), Some(s)) => rest.tenant == Some((n, s)),
                    _ => rest.tenant is None,
                }
            },
            Err(e) => r matches Err(a) && a@ == auth_answer(e),
        },
{
    match hash {
        Err(e) => Err(auth_error(e)),
        Ok(password_hash) => {
            let tenant: Option<(String, String)> = match body.tenant_name {
                Some(n) => match body.tenant_slug {
                    Some(s) => Some((n, s)),
                    None => None,
                },
                None => None,
            };
            Ok(
                (
                    NewUser {
                        email: body.email,
                        username: body.username,
                        display_name: body.display_name,
                        password_hash,
                    },
                    Signup { tenant, invite_code: body.invite_code },
                ),
            )
        },
    }
}

/// The characters of an activation code.
pub const ACTIVATION_CODE_LEN: usize = 7;

/// A new activation code: seven characters that need no escape in a URL, drawn
/// by chance.
pub fn activation_code() -> (r: String)
    ensures
        r@.len() == 7,
        forall|i: int| 0 <= i < r@.len() ==> url_safe(#[trigger] r@[i]),
{
    nanoid(ACTIVATION_CODE_LEN)
}

/// The address that activates an account.
pub open spec fn activation_address(frontend: Seq<char>, user: ObjectId, code: Seq<char>) -> Seq<
    char,
> {
    frontend + "/auth/activate?userId="@ + oid_hex(user) + "&token="@ + code
}

/// The address that activates an account.
pub fn activation_url(frontend: &str, user: ObjectId, code: &str) -> (r: String)
    ensures
        r@ == activation_address(frontend@, user, code@),
{
    let hex: String = user.to_hex();
    let front: String = crate::text::cat3(frontend, "/auth/activate?userId=", hex.as_str());
    crate::text::cat3(front.as_str(), "&token=", code)
}

/// The answer to a registration: its status and what it says.
pub fn registered() -> (r: (u16, MessageResponse))
    ensures
        r.0 == 201,
        r.1.message@
            == "Registration successful. Please check your email to activate your account."@,
{
    (
        201,
        MessageResponse {
            message:
                "Registration successful. Please check your email to activate your account.".to_owned(),
        },
    )
}

/// By what an account is looked up.
#[derive(Debug)]
pub enum LoginBy {
    /// Its user name.
    Username(String),
    /// Its address.
    Email(String),
}

/// By what an account is looked up: by the user name where there is one.
pub fn login(body: &LoginRequest) -> (r: Result<LoginBy, ApiError>)
    ensures
        match body.username {
            Some(u) => r matches Ok(LoginBy::Username(n)) && n@ == u@,
            None => match body.email {
                Some(m) => r matches Ok(LoginBy::Email(n)) && n@ == m@,
                None => r matches Err(e) && e@ == (
                    ErrorKind::BadRequest,
                    "Either username or email is required"@,
                ),
            },
        },
{
    match &body.username {
        Some(u) => Ok(LoginBy::Username(u.clone())),
        None => match &body.email {
            Some(m) => Ok(LoginBy::Email(m.clone())),
            None => Err(bad_request("Either username or email is required")),
        },
    }
}

/// The answer to one who gives the wrong name or the wrong password; it does
/// not say which.
pub open spec fn wrong_credentials() -> (ErrorKind, Seq<char>) {
    (ErrorKind::Unauthorized, "Invalid credentials"@)
}

/// The hash to hold the password against; none of the database's errors shows.
pub fn login_hash(user: &Result<User, DaoError>) -> (r: Result<String, ApiError>)
    ensures
        match *user {
            Ok(u) => match u.password_hash {
                Some(h) => r matches Ok(s) && s@ == h@,
                None => r matches Err(e) && e@ == (ErrorKind::Unauthorized, "No password set"@),
            },
            Err(_) => r matches Err(e) && e@ == wrong_credentials(),
        },
{
    match user {
        Ok(u) => match &u.password_hash {
            Some(h) => Ok(h.clone()),
            None => Err(unauthorized("No password set")),
        },
        Err(_) => Err(unauthorized("Invalid credentials")),
    }
}

/// Whether one may sign in: with the right password, to an account that is
/// activated.
pub open spec fn entry_to(user: User, valid: Result<bool, AuthError>) -> Result<
    (),
    (ErrorKind, Seq<char>),
> {
    match valid {
        Err(e) => Err(auth_answer(e)),
        Ok(false) => Err(wrong_credentials()),
        Ok(true) => if user.is_verified {
            Ok(())
        } else {
            Err(
                (
                    ErrorKind::Unauthorized,
                    "Account not activated. Please check your email for the activation link."@,
                ),
            )
        },
    }
}

/// Whether one may sign in.
pub fn login_allowed(user: &User, valid: Result<bool, AuthError>) -> (r: Result<(), ApiError>)
    ensures
        match r {
            Ok(()) => entry_to(*user, valid) is Ok,
            Err(e) => entry_to(*user, valid) == Err::<(), _>(e@),
        },
{
    match valid {
        Err(e) => Err(auth_error(e)),
        Ok(yes) => {
            if !yes {
                return Err(unauthorized("Invalid credentials"));
            }
            if !user.is_verified {
                return Err(
                    unauthorized(
                        "Account not activated. Please check your email for the activation link.",
                    ),
                );
            }
            Ok(())
        },
    }
}

/// An account as a client sees it.
pub open spec fn shows(r: UserResponse, id: ObjectId, u: User) -> bool {
    &&& r.id@ == oid_hex(id)
    &&& r.email@ == u.email@
    &&& r.username@ == u.username@
    &&& r.display_name@ == u.display_name@
    &&& opt_view(r.avatar) == opt_view(u.avatar)
}

fn user_response(id: ObjectId, u: &User) -> (r: UserResponse)
    ensures
        shows(r, id, *u),
{
    UserResponse {
        id: id.to_hex(),
        email: u.email.clone(),
        username: u.username.clone(),
        display_name: u.display_name.clone(),
        avatar: crate::text::copy_opt(&u.avatar),
    }
}

/// One's own account.
pub fn me(user: &User) -> (r: UserResponse)
    requires
        user.id is Some,
    ensures
        user.id matches Some(id) && shows(r, id, *user),
{
    user_response(user.id.unwrap(), user)
}

/// The cookie that holds an access token for as long as it is good.
pub open spec fn cookie_of(token: Seq<char>, seconds: nat) -> Seq<char> {
    "access_token="@ + token + "; HttpOnly; Path=/; SameSite=Lax; Max-Age="@
        + crate::num::decimal(seconds)
}

/// The cookie and the answer for one who is signed in.
pub fn signed_in(id: ObjectId, user: &User, tokens: TokenPair) -> (r: (String, AuthResponse))
    ensures
        r.0@ == cookie_of(tokens.access_token@, tokens.expires_in as nat),
        r.1.access_token == tokens.access_token,
        r.1.refresh_token == tokens.refresh_token,
        r.1.expires_in == tokens.expires_in,
        shows(r.1.user, id, *user),
        r.1.invite_tenant is None,
{
    let seconds: String = crate::num::to_decimal(tokens.expires_in);
    let front: String = crate::text::cat3(
        "access_token=",
        tokens.access_token.as_str(),
        "; HttpOnly; Path=/; SameSite=Lax; Max-Age=",
    );
    (
        crate::text::cat2(front.as_str(), seconds.as_str()),
        AuthResponse {
            access_token: tokens.access_token,
            refresh_token: tokens.refresh_token,
            expires_in: tokens.expires_in,
            user: user_response(id, user),
            invite_tenant: None,
        },
    )
}

/// The cookie that takes the access token away.
pub const LOGOUT_COOKIE: &'static str = "access_token=; HttpOnly; Path=/; SameSite=Lax; Max-Age=0";

/// The cookie for one who signs out.
pub fn logout() -> (r: &'static str)
    ensures
        r@ == LOGOUT_COOKIE@,
{
    LOGOUT_COOKIE
}

/// Whose token it is that is to be renewed.
pub fn refresh(subject: &str) -> (r: Result<ObjectId, ApiError>)
    ensures
        match oid_parsed(subject@) {
            Some(o) => r == Ok::<ObjectId, ApiError>(o),
            None => r matches Err(e) && e@ == (ErrorKind::Unauthorized, "Invalid user ID"@),
        },
{
    match ObjectId::parse_str(subject) {
        Some(o) => Ok(o),
        None => Err(unauthorized("Invalid user ID")),
    }
}

/// Whose account is to be activated.
pub fn activate(body: &ActivateRequest) -> (r: Result<ObjectId, ApiError>)
    ensures
        match oid_parsed(body.user_id@) {
            Some(o) => r == Ok::<ObjectId, ApiError>(o),
            None => r matches Err(e) && e@ == (ErrorKind::BadRequest, "Invalid user ID"@),
        },
{
    match ObjectId::parse_str(body.user_id.as_str()) {
        Some(o) => Ok(o),
        None => Err(bad_request("Invalid user ID")),
    }
}

/// Whether the code is good; `found` says whether one was found, or the text
/// of the database's error.
pub fn code_checked(found: Result<bool, String>) -> (r: Result<(), ApiError>)
    ensures
        match found {
            Ok(true) => r is Ok,
            Ok(false) => r matches Err(e) && e@ == (
                ErrorKind::BadRequest,
                "Invalid or expired activation token"@,
            ),
            Err(m) => r matches Err(e) && e@ == (ErrorKind::Internal, "Database error: "@ + m@),
        },
{
    match found {
        Ok(yes) => if yes {
            Ok(())
        } else {
            Err(bad_request("Invalid or expired activation token"))
        },
        Err(m) => Err(internal("Database error: ", m.as_str())),
    }
}

/// Whether the account is activated, or the answer to the database's error.
pub fn user_activated(outcome: Result<(), String>) -> (r: Result<(), ApiError>)
    ensures
        match outcome {
            Ok(()) => r is Ok,
            Err(m) => r matches Err(e) && e@ == (
                ErrorKind::Internal,
                "Failed to activate user: "@ + m@,
            ),
        },
{
    match outcome {
        Ok(()) => Ok(()),
        Err(m) => Err(internal("Failed to activate user: ", m.as_str())),
    }
}

/// The letter to one whose account is activated.
#[derive(Debug)]
#[allow(missing_docs)]
pub struct Welcome {
    pub email: String,
    pub display_name: String,
    pub login_url: String,
}

/// The letter to one whose account is activated, or the answer to the
/// database's error.
pub fn welcome(user: Result<User, String>, frontend: &str) -> (r: Result<Welcome, ApiError>)
    ensures
        match user {
            Ok(u) => r matches Ok(w) && {
                &&& w.email == u.email
                &&& w.display_name == u.display_name
                &&& w.login_url@ == frontend@ + "/auth/login"@
            },
            Err(m) => r matches Err(e) && e@ == (ErrorKind::Internal, "User not found: "@ + m@),
        },
{
    match user {
        Ok(u) => Ok(
            Welcome {
                email: u.email,
                display_name: u.display_name,
                login_url: crate::text::cat2(frontend, "/auth/login"),
            },
        ),
        Err(m) => Err(internal("User not found: ", m.as_str())),
    }
}

/// The answer to one whose account is activated.
pub fn activated() -> (r: MessageResponse)
    ensures
        r.message@ == "Account activated successfully. You can now sign in."@,
{
    MessageResponse {
        message: "Account activated successfully. You can now sign in.".to_owned(),
    }
}

/// Whether an invite can be taken up by one who has this address; `valid` says
/// whether it still holds, or why it does not.
pub open spec fn invite_for(invite: Invite, email: Seq<char>, valid: Result<(), Seq<char>>) -> Result<
    (),
    (ErrorKind, Seq<char>),
> {
    match valid {
        Err(m) => Err((ErrorKind::BadRequest, m)),
        Ok(()) => if opt_view(invite.target_email) is Some && opt_view(invite.target_email) != Some(
            email,
        ) {
            Err((ErrorKind::Forbidden, "This invite is for a different email address"@))
        } else {
            Ok(())
        },
    }
}

/// The text of an outcome's error.
pub open spec fn outcome_view(r: Result<(), String>) -> Result<(), Seq<char>> {
    match r {
        Ok(()) => Ok(()),
        Err(m) => Err(m@),
    }
}

/// Whether an invite can be taken up by one who has this address.
pub fn auto_accept_invite(invite: &Invite, email: &str, valid: Result<(), String>) -> (r: Result<
    (),
    ApiError,
>)
    ensures
        match r {
            Ok(()) => invite_for(*invite, email@, outcome_view(valid)) is Ok,
            Err(e) => invite_for(*invite, email@, outcome_view(valid)) == Err::<(), _>(e@),
        },
{
    match valid {
        Err(m) => Err(ApiError::BadRequest(m)),
        Ok(()) => match &invite.target_email {
            Some(t) => if crate::text::same(t.as_str(), email) {
                Ok(())
            } else {
                Err(forbidden("This invite is for a different email address"))
            },
            None => Ok(()),
        },
    }
}

/// The role of those whom an invite gives none.
pub const MEMBER_ROLE: &'static str = "member";

/// Whether the role of members is to be looked up: where an invite gives none.
pub fn needs_member_role(invite: &Invite) -> (r: bool)
    ensures
        r == (invite.assign_role_ids@.len() == 0),
{
    invite.assign_role_ids.is_empty()
}

/// Someone to put into a tenant.
#[derive(Debug)]
#[allow(missing_docs)]
pub struct NewMember {
    pub tenant_id: ObjectId,
    pub user_id: ObjectId,
    pub role_ids: Vec<ObjectId>,
    pub invited_by: Option<ObjectId>,
}

/// Who is put into a tenant by an invite: with the roles that it gives, else
/// with that of members.
pub fn invited(invite: &Invite, user: ObjectId, member_role: Option<ObjectId>) -> (r: NewMember)
    requires
        invite.assign_role_ids@.len() == 0 ==> member_role is Some,
    ensures
        r.tenant_id == invite.tenant_id,
        r.user_id == user,
        r.invited_by == Some(invite.inviter_id),
        r.role_ids@ == (if invite.assign_role_ids@.len() == 0 {
            seq![member_role.unwrap()]
        } else {
            invite.assign_role_ids@
        }),
{
    let mut role_ids: Vec<ObjectId> = Vec::new();
    if invite.assign_role_ids.is_empty() {
        role_ids.push(member_role.unwrap());
    } else {
        let mut i: usize = 0;
        while i < invite.assign_role_ids.len()
            invariant
                i <= invite.assign_role_ids@.len(),
                role_ids@ == invite.assign_role_ids@.take(i as int),
            decreases invite.assign_role_ids@.len() - i,
        {
            role_ids.push(invite.assign_role_ids[i]);
            i = i + 1;
        }
        proof {
            assert(invite.assign_role_ids@.take(invite.assign_role_ids@.len() as int)
                =~= invite.assign_role_ids@);
        }
    }
    NewMember {
        tenant_id: invite.tenant_id,
        user_id: user,
        role_ids,
        invited_by: Some(invite.inviter_id),
    }
}

/// The answer where the use of an invite cannot be counted.
pub fn use_counted(outcome: Result<(), String>) -> (r: Result<(), ApiError>)
    ensures
        match outcome {
            Ok(()) => r is Ok,
            Err(m) => r matches Err(e) && e@ == (ErrorKind::BadRequest, m@),
        },
{
    match outcome {
        Ok(()) => Ok(()),
        Err(m) => Err(ApiError::BadRequest(m)),
    }
}

/// The tenant that an invite has led to, for clients.
pub fn invite_tenant(tenant: Tenant) -> (r: InviteTenantResponse)
    requires
        tenant.id is Some,
    ensures
        tenant.id matches Some(id) && r.tenant_id@ == oid_hex(id),
        r.tenant_name == tenant.name,
        r.tenant_slug == tenant.slug,
{
    InviteTenantResponse {
        tenant_id: tenant.id.unwrap().to_hex(),
        tenant_name: tenant.name,
        tenant_slug: tenant.slug,
    }
}

/// Nobody signs in with a wrong password, or before the account is activated.
pub proof fn only_the_activated_sign_in(user: User, valid: Result<bool, AuthError>)
    ensures
        entry_to(user, valid) is Ok <==> valid == Ok::<bool, AuthError>(true) && user.is_verified,
{
}

/// An invite that is made out to an address is good for nobody else.
pub proof fn invites_are_personal(invite: Invite, email: Seq<char>, valid: Result<(), Seq<char>>)
    requires
        invite_for(invite, email, valid) is Ok,
    ensures
        valid is Ok,
        invite.target_email matches Some(t) ==> t@ == email,
{
}

/// What a client sees of an account is its own, and nothing of its password.
pub proof fn accounts_show_their_own(r: UserResponse, id: ObjectId, u: User)
    requires
        shows(r, id, u),
    ensures
        crate::oid::oid_parsed(r.id@) == Some(id),
        r.email@ == u.email@,
        r.username@ == u.username@,
        r.display_name@ == u.display_name@,
        r.avatar is Some <==> u.avatar is Some,
        r.avatar matches Some(s) ==> s@ == u.avatar.unwrap()@,
{
    crate::oid::hex_round_trip(id);
}

} // verus!
