//! Billing through Stripe.
use vstd::prelude::*;
use crate::api::error::{
    ApiError,
    DaoError,
    ErrorKind,
    bad_request,
    dao_answer,
    dao_error,
    forbidden,
    internal,
    not_found,
    unauthorized,
};
use crate::models::permissions::{MANAGE_TENANT, granted, has};
use crate::models::tenant::Tenant;
use crate::oid::{ObjectId, oid_parsed};

verus! {

/// A plan to buy.
#[derive(Debug)]
#[allow(missing_docs)]
pub struct CheckoutRequest {
    pub tenant_id: String,
    pub plan: String,
    pub success_url: String,
    pub cancel_url: String,
}

/// A tenant whose billing is to be seen.
#[derive(Debug)]
#[allow(missing_docs)]
pub struct PortalRequest {
    pub tenant_id: String,
    pub return_url: String,
}

/// The id in a text.
pub fn parse_oid(s: &str) -> (r: Result<ObjectId, ApiError>)
    ensures
        match oid_parsed(s@) {
            Some(o) => r == Ok::<ObjectId, ApiError>(o),
            None => r matches Err(e) && e@ == (ErrorKind::BadRequest, "Invalid ObjectId: "@ + s@),
        },
{
    match ObjectId::parse_str(s) {
        Some(o) => Ok(o),
        None => Err(ApiError::BadRequest(crate::text::cat2("Invalid ObjectId: ", s))),
    }
}

/// Whether a user owns a tenant; the owner may manage it without further
/// permission.
pub fn owns(tenant: &Tenant, user: ObjectId) -> (r: bool)
    ensures
        r == (tenant.owner_id == user),
{
    tenant.owner_id == user
}

/// Whether a user may manage a tenant.
pub open spec fn manages(tenant: Tenant, user: ObjectId, permissions: u64) -> bool {
    tenant.owner_id == user || granted(permissions, MANAGE_TENANT)
}

/// Whether a user may manage a tenant, by the permissions that they have in
/// it; those of the owner go unread.
pub fn require_manage_tenant(
    tenant: &Tenant,
    user: ObjectId,
    permissions: Result<u64, DaoError>,
) -> (r: Result<(), ApiError>)
    ensures
        tenant.owner_id == user ==> r is Ok,
        tenant.owner_id != user ==> match permissions {
            Ok(p) => {
                &&& r is Ok <==> manages(*tenant, user, p)
                &&& r matches Err(e) ==> e@ == (
                    ErrorKind::Forbidden,
                    "Missing MANAGE_TENANT permission"@,
                )
            },
            Err(d) => r matches Err(e) && e@ == dao_answer(d),
        },
{
    if owns(tenant, user) {
        return Ok(());
    }
    match permissions {
        Ok(p) => if has(p, MANAGE_TENANT) {
            Ok(())
        } else {
            Err(forbidden("Missing MANAGE_TENANT permission"))
        },
        Err(d) => Err(dao_error(d)),
    }
}

/// Why billing fails; the database's own errors as their text.
#[derive(Debug)]
#[allow(missing_docs)]
pub enum StripeError {
    TenantNotFound,
    NoBillingAccount,
    InvalidPlan(String),
    InvalidSignature,
    ApiError(String),
    Mongo(String),
}

/// What a billing error is answered with.
pub open spec fn stripe_answer(e: StripeError) -> (ErrorKind, Seq<char>) {
    match e {
        StripeError::TenantNotFound => (ErrorKind::NotFound, "Tenant not found"@),
        StripeError::NoBillingAccount => (
            ErrorKind::BadRequest,
            "No billing account for this tenant"@,
        ),
        StripeError::InvalidPlan(p) => (ErrorKind::BadRequest, "Invalid plan: "@ + p@),
        StripeError::InvalidSignature => (ErrorKind::Unauthorized, "Invalid webhook signature"@),
        StripeError::ApiError(m) => (ErrorKind::Internal, "Stripe API error: "@ + m@),
        StripeError::Mongo(m) => (ErrorKind::Internal, m@),
    }
}

/// What a billing error is answered with.
pub fn stripe_err(e: StripeError) -> (r: ApiError)
    ensures
        r@ == stripe_answer(e),
{
    match e {
        StripeError::TenantNotFound => not_found("Tenant not found"),
        StripeError::NoBillingAccount => bad_request("No billing account for this tenant"),
        StripeError::InvalidPlan(p) => ApiError::BadRequest(
            crate::text::cat2("Invalid plan: ", p.as_str()),
        ),
        StripeError::InvalidSignature => unauthorized("Invalid webhook signature"),
        StripeError::ApiError(m) => internal("Stripe API error: ", m.as_str()),
        StripeError::Mongo(m) => ApiError::Internal(m),
    }
}

/// The signature of a webhook's call, by the text of its header.
pub fn webhook(signature: Option<String>) -> (r: Result<String, ApiError>)
    ensures
        match signature {
            Some(s) => r == Ok::<String, ApiError>(s),
            None => r matches Err(e) && e@ == (
                ErrorKind::BadRequest,
                "Missing Stripe-Signature header"@,
            ),
        },
{
    match signature {
        Some(s) => Ok(s),
        None => Err(bad_request("Missing Stripe-Signature header")),
    }
}

/// Whether a webhook's call is to be taken up: its signature has to be right
/// and its event readable. The event of a call that is not signed goes unread.
pub fn webhook_event(signed: bool, event: Result<(), String>) -> (r: Result<(), ApiError>)
    ensures
        !signed ==> (r matches Err(e) && e@ == (
            ErrorKind::Unauthorized,
            "Invalid webhook signature"@,
        )),
        signed ==> match event {
            Ok(()) => r is Ok,
            Err(m) => r matches Err(e) && e@ == (
                ErrorKind::BadRequest,
                "Invalid event payload: "@ + m@,
            ),
        },
{
    if !signed {
        return Err(unauthorized("Invalid webhook signature"));
    }
    match event {
        Ok(()) => Ok(()),
        Err(m) => Err(
            ApiError::BadRequest(crate::text::cat2("Invalid event payload: ", m.as_str())),
        ),
    }
}

} // verus!
