//! What the server holds its settings to before it starts, and who does the
//! maintenance when several start at once.
use vstd::prelude::*;
use crate::text::{split, trim, views};

verus! {

/// The secret that everyone knows.
pub const DEFAULT_SECRET: &'static str = "change-me-in-production";

/// The environment in which the known secret is not accepted.
pub const PRODUCTION: &'static str = "production";

/// What the server's settings are held to.
#[derive(Debug)]
#[allow(missing_docs)]
pub struct Posture<'a> {
    pub environment: &'a str,
    pub jwt_secret: &'a str,
    pub previous_secrets: &'a str,
    pub frontend_url: &'a str,
    pub default_frontend_url: &'a str,
    pub stripe_secret_key: &'a str,
    pub stripe_price_pro: &'a str,
    pub stripe_price_business: &'a str,
}

/// Why the server does not start.
#[derive(Debug, Clone, Copy, PartialEq, Eq, Structural)]
pub enum Refusal {
    /// Its secret is the known one.
    KnownSecret,
    /// The known secret is among those that it still accepts.
    KnownPreviousSecret,
}

/// What the server says loudly when it starts.
#[derive(Debug, Clone, Copy, PartialEq, Eq, Structural)]
pub enum Alarm {
    /// Its secret is the known one.
    KnownSecret,
    /// The known secret is among those that it still accepts.
    KnownPreviousSecret,
    /// Links point to where nobody but a developer is.
    DevelopmentFrontend,
    /// Plans cannot be bought.
    StripeWithoutPrices,
}

impl Refusal {
    /// What is said.
    pub open spec fn spec_message(self) -> &'static str {
        match self {
            Refusal::KnownSecret => "Refusing to start: app.environment=production but the JWT secret is still the built-in default — set ROOMLER__JWT__SECRET.",
            Refusal::KnownPreviousSecret => "Refusing to start: app.environment=production but the built-in default secret is listed in ROOMLER__JWT__PREVIOUS_SECRETS — tokens signed with it are still accepted, so this is not a rotation.",
        }
    }

    /// What is said.
    pub fn message(self) -> (r: &'static str)
        ensures
            r@ == self.spec_message()@,
    {
        match self {
            Refusal::KnownSecret => "Refusing to start: app.environment=production but the JWT secret is still the built-in default — set ROOMLER__JWT__SECRET.",
            Refusal::KnownPreviousSecret => "Refusing to start: app.environment=production but the built-in default secret is listed in ROOMLER__JWT__PREVIOUS_SECRETS — tokens signed with it are still accepted, so this is not a rotation.",
        }
    }
}

impl Alarm {
    /// What is said.
    pub open spec fn spec_message(self) -> &'static str {
        match self {
            Alarm::KnownSecret => "JWT secret is the built-in default \"change-me-in-production\" — set ROOMLER__JWT__SECRET before exposing this server.",
            Alarm::KnownPreviousSecret => "The built-in default secret is listed in ROOMLER__JWT__PREVIOUS_SECRETS — tokens signed with it are still accepted.",
            Alarm::DevelopmentFrontend => "app.environment=production but app.frontend_url is still the built-in development default. OAuth returns, invitation and activation links, the CORS origin policy and the SERVER baked into /api/setup/install.{sh,ps1} all resolve from it - set ROOMLER__APP__FRONTEND_URL to this deployment's public URL.",
            Alarm::StripeWithoutPrices => "Stripe secret key is set but price_pro/price_business is empty — checkout WILL fail; set ROOMLER__STRIPE__PRICE_PRO and ROOMLER__STRIPE__PRICE_BUSINESS.",
        }
    }

    /// What is said.
    pub fn message(self) -> (r: &'static str)
        ensures
            r@ == self.spec_message()@,
    {
        match self {
            Alarm::KnownSecret => "JWT secret is the built-in default \"change-me-in-production\" — set ROOMLER__JWT__SECRET before exposing this server.",
            Alarm::KnownPreviousSecret => "The built-in default secret is listed in ROOMLER__JWT__PREVIOUS_SECRETS — tokens signed with it are still accepted.",
            Alarm::DevelopmentFrontend => "app.environment=production but app.frontend_url is still the built-in development default. OAuth returns, invitation and activation links, the CORS origin policy and the SERVER baked into /api/setup/install.{sh,ps1} all resolve from it - set ROOMLER__APP__FRONTEND_URL to this deployment's public URL.",
            Alarm::StripeWithoutPrices => "Stripe secret key is set but price_pro/price_business is empty — checkout WILL fail; set ROOMLER__STRIPE__PRICE_PRO and ROOMLER__STRIPE__PRICE_BUSINESS.",
        }
    }
}

/// The known secret is one of the trimmed pieces.
pub open spec fn among(pieces: Seq<Seq<char>>) -> bool {
    exists|i: int| 0 <= i < pieces.len() && trim(#[trigger] pieces[i]) == DEFAULT_SECRET@
}

/// The secret is the known one.
pub open spec fn secret_known(p: Posture) -> bool {
    p.jwt_secret@ == DEFAULT_SECRET@
}

/// The known secret is among those that are still accepted.
pub open spec fn previous_known(p: Posture) -> bool {
    among(split(p.previous_secrets@, ','))
}

/// The server runs for real.
pub open spec fn for_real(p: Posture) -> bool {
    p.environment@ == PRODUCTION@
}

/// Links point to the built-in address although the server runs for real.
pub open spec fn links_lead_nowhere(p: Posture) -> bool {
    for_real(p) && p.frontend_url@ == p.default_frontend_url@
}

/// Billing is configured, but not what the plans cost.
pub open spec fn plans_unpriced(p: Posture) -> bool {
    p.stripe_secret_key@.len() > 0 && (p.stripe_price_pro@.len() == 0
        || p.stripe_price_business@.len() == 0)
}

/// Why the server does not start, if it does not.
pub open spec fn refusal(p: Posture) -> Option<Refusal> {
    if for_real(p) && secret_known(p) {
        Some(Refusal::KnownSecret)
    } else if for_real(p) && previous_known(p) {
        Some(Refusal::KnownPreviousSecret)
    } else {
        None
    }
}

/// What the server says loudly when it starts, in order.
pub open spec fn alarms(p: Posture) -> Seq<Alarm> {
    let a = if secret_known(p) {
        seq![Alarm::KnownSecret]
    } else {
        seq![]
    };
    let b = if previous_known(p) {
        a.push(Alarm::KnownPreviousSecret)
    } else {
        a
    };
    let c = if links_lead_nowhere(p) {
        b.push(Alarm::DevelopmentFrontend)
    } else {
        b
    };
    if plans_unpriced(p) {
        c.push(Alarm::StripeWithoutPrices)
    } else {
        c
    }
}

fn known_among(list: &str) -> (r: bool)
    ensures
        r == among(split(list@, ',')),
{
    let pieces: Vec<String> = crate::text::pieces(list, ',');
    let ghost all = views(pieces@);
    let mut i: usize = 0;
    while i < pieces.len()
        invariant
            i <= pieces@.len(),
            all == views(pieces@),
            all == split(list@, ','),
            forall|j: int| 0 <= j < i ==> trim(#[trigger] all[j]) != DEFAULT_SECRET@,
        decreases pieces@.len() - i,
    {
        proof {
            assert(all[i as int] == pieces@[i as int]@);
        }
        if crate::text::same(crate::text::trimmed(pieces[i].as_str()), DEFAULT_SECRET) {
            proof {
                assert(trim(all[i as int]) == DEFAULT_SECRET@);
            }
            return true;
        }
        i = i + 1;
    }
    false
}

/// Whether the server starts, and what it says loudly when it does.
pub fn check(p: &Posture) -> (r: Result<Vec<Alarm>, Refusal>)
    ensures
        match r {
            Ok(list) => refusal(*p) is None && list@ == alarms(*p),
            Err(why) => refusal(*p) == Some(why),
        },
{
    let in_production: bool = crate::text::same(p.environment, PRODUCTION);
    let mut out: Vec<Alarm> = Vec::new();
    if crate::text::same(p.jwt_secret, DEFAULT_SECRET) {
        if in_production {
            return Err(Refusal::KnownSecret);
        }
        out.push(Alarm::KnownSecret);
    }
    if known_among(p.previous_secrets) {
        if in_production {
            return Err(Refusal::KnownPreviousSecret);
        }
        out.push(Alarm::KnownPreviousSecret);
    }
    if in_production && crate::text::same(p.frontend_url, p.default_frontend_url) {
        out.push(Alarm::DevelopmentFrontend);
    }
    if !p.stripe_secret_key.is_empty() && (p.stripe_price_pro.is_empty()
        || p.stripe_price_business.is_empty()) {
        out.push(Alarm::StripeWithoutPrices);
    }
    Ok(out)
}

/// A server that runs for real and that starts accepts no token that is signed
/// with the known secret.
pub proof fn no_known_secret_in_production(p: Posture)
    requires
        for_real(p),
        refusal(p) is None,
    ensures
        !secret_known(p),
        !previous_known(p),
{
}

/// A development server always starts, whatever its secrets are.
pub proof fn development_always_starts(p: Posture)
    requires
        !for_real(p),
    ensures
        refusal(p) is None,
        secret_known(p) ==> alarms(p).len() > 0 && alarms(p)[0] == Alarm::KnownSecret,
{
}

/// How long one server holds the maintenance, in milliseconds.
pub const LEASE_MILLIS: i64 = 120000;

/// Until when the maintenance is held by one who takes it now.
pub fn lease_until(now: i64) -> (r: Option<i64>)
    ensures
        r == (if now + LEASE_MILLIS <= i64::MAX {
            Some((now + LEASE_MILLIS) as i64)
        } else {
            None
        }),
{
    now.checked_add(LEASE_MILLIS)
}

/// What came of the attempt to take the maintenance.
#[derive(Debug, Clone, Copy, PartialEq, Eq, Structural)]
pub enum LeaseUpdate {
    /// The database made the change: how many documents it changed, and
    /// whether it made one.
    Updated(u64, bool),
    /// It did not.
    Failed,
}

/// Whether this server does the maintenance: where it took it over, or was the
/// first to take it. Whoever fails leaves it to the others.
pub fn startup_leader(update: LeaseUpdate) -> (r: bool)
    ensures
        r == (match update {
            LeaseUpdate::Updated(modified, upserted) => modified > 0 || upserted,
            LeaseUpdate::Failed => false,
        }),
{
    match update {
        LeaseUpdate::Updated(modified, upserted) => modified > 0 || upserted,
        LeaseUpdate::Failed => false,
    }
}

} // verus!
