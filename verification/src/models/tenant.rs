//! Tenants, their plans and settings.
use vstd::prelude::*;
use crate::oid::{DateTime, ObjectId};

verus! {

/// A tenant.
#[derive(Debug)]
#[allow(missing_docs)]
pub struct Tenant {
    pub id: Option<ObjectId>,
    pub name: String,
    pub slug: String,
    pub description: Option<String>,
    pub icon: Option<String>,
    pub owner_id: ObjectId,
    pub plan: Plan,
    pub features: Vec<String>,
    pub settings: TenantSettings,
    pub billing: Option<BillingInfo>,
    pub integrations: Option<IntegrationSettings>,
    pub is_archived: bool,
    pub created_at: DateTime,
    pub updated_at: DateTime,
    pub deleted_at: Option<DateTime>,
}

/// What a tenant pays for.
#[derive(Debug, Clone, Copy, PartialEq, Eq, Structural)]
#[allow(missing_docs)]
pub enum Plan {
    Free,
    Pro,
    Business,
    Enterprise,
}

impl Default for Plan {
    fn default() -> (r: Self)
        ensures
            r == Plan::Free,
    {
        Plan::Free
    }
}

impl Plan {
    /// The name of the variant.
    pub open spec fn spec_label(self) -> &'static str {
        match self {
            Plan::Free => "Free",
            Plan::Pro => "Pro",
            Plan::Business => "Business",
            Plan::Enterprise => "Enterprise",
        }
    }

    /// The name of the variant.
    pub fn label(self) -> (r: &'static str)
        ensures
            r@ == self.spec_label()@,
    {
        match self {
            Plan::Free => "Free",
            Plan::Pro => "Pro",
            Plan::Business => "Business",
            Plan::Enterprise => "Enterprise",
        }
    }
}

/// The settings of a tenant.
#[derive(Debug)]
#[allow(missing_docs)]
pub struct TenantSettings {
    pub default_locale: String,
    pub default_message_notifications: NotificationLevel,
    pub mfa_required: bool,
    pub allow_guest_access: bool,
    pub max_members: u32,
    pub file_upload_limit: u64,
}

/// Which messages notify a member.
#[derive(Debug, Clone, Copy, PartialEq, Eq, Structural)]
#[allow(missing_docs)]
pub enum NotificationLevel {
    All,
    Mentions,
    Nothing,
}

impl Default for NotificationLevel {
    fn default() -> (r: Self)
        ensures
            r == NotificationLevel::All,
    {
        NotificationLevel::All
    }
}

/// The billing account of a tenant.
#[derive(Debug)]
#[allow(missing_docs)]
pub struct BillingInfo {
    pub customer_id: Option<String>,
    pub subscription_id: Option<String>,
    pub current_period_end: Option<DateTime>,
    pub status: SubscriptionStatus,
    pub cancel_at_period_end: bool,
}

/// Whether a subscription is paid.
#[derive(Debug, Clone, Copy, PartialEq, Eq, Structural)]
#[allow(missing_docs)]
pub enum SubscriptionStatus {
    Active,
    PastDue,
    Canceled,
    Trialing,
    Incomplete,
}

impl Default for SubscriptionStatus {
    fn default() -> (r: Self)
        ensures
            r == SubscriptionStatus::Active,
    {
        SubscriptionStatus::Active
    }
}

/// The cloud drives of a tenant.
#[derive(Debug)]
#[allow(missing_docs)]
pub struct IntegrationSettings {
    pub google_drive: Option<OAuthCredential>,
    pub onedrive: Option<OAuthCredential>,
    pub dropbox: Option<OAuthCredential>,
}

/// The credential of a cloud drive.
#[derive(Debug)]
#[allow(missing_docs)]
pub struct OAuthCredential {
    pub access_token: String,
    pub refresh_token: Option<String>,
    pub expires_at: Option<DateTime>,
}

/// What a plan allows.
#[derive(Debug)]
#[allow(missing_docs)]
pub struct PlanLimits {
    pub max_members: u32,
    pub max_channels: u32,
    pub max_message_history: i64,
    pub storage_bytes: u64,
    pub video_max_participants: u32,
    pub cloud_integrations: bool,
    pub ai_recognition: bool,
    pub recordings: bool,
}

impl Tenant {
    /// The collection that holds these documents.
    pub const COLLECTION: &'static str = "tenants";
}

/// The locale of a tenant that sets none.
pub fn default_locale() -> (r: String)
    ensures
        r@ == "en-US"@,
{
    "en-US".to_owned()
}

/// How many members a tenant may have that sets no limit.
pub fn default_max_members() -> (r: u32)
    ensures
        r == 100,
{
    100
}

/// How many bytes an upload may have where a tenant sets no limit: 10 MB.
pub fn default_file_upload_limit() -> (r: u64)
    ensures
        r == 10 * 1024 * 1024,
{
    10 * 1024 * 1024
}

impl Default for TenantSettings {
    fn default() -> (r: Self)
        ensures
            r.default_locale@ == "en-US"@,
            r.default_message_notifications == NotificationLevel::All,
            !r.mfa_required,
            !r.allow_guest_access,
            r.max_members == 100,
            r.file_upload_limit == 10 * 1024 * 1024,
    {
        TenantSettings {
            default_locale: default_locale(),
            default_message_notifications: NotificationLevel::All,
            mfa_required: false,
            allow_guest_access: false,
            max_members: default_max_members(),
            file_upload_limit: default_file_upload_limit(),
        }
    }
}

/// What a plan allows.
pub open spec fn plan_limits(plan: Plan) -> PlanLimits {
    match plan {
        Plan::Free => PlanLimits {
            max_members: 10,
            max_channels: 5,
            max_message_history: 5_000,
            storage_bytes: 104_857_600,
            video_max_participants: 0,
            cloud_integrations: false,
            ai_recognition: false,
            recordings: false,
        },
        Plan::Pro => PlanLimits {
            max_members: u32::MAX,
            max_channels: u32::MAX,
            max_message_history: (-1) as i64,
            storage_bytes: 10_737_418_240,
            video_max_participants: 10,
            cloud_integrations: true,
            ai_recognition: false,
            recordings: false,
        },
        Plan::Business | Plan::Enterprise => PlanLimits {
            max_members: u32::MAX,
            max_channels: u32::MAX,
            max_message_history: (-1) as i64,
            storage_bytes: 107_374_182_400,
            video_max_participants: 100,
            cloud_integrations: true,
            ai_recognition: true,
            recordings: true,
        },
    }
}

/// What a plan costs a month, in cents.
pub open spec fn plan_price(plan: Plan) -> u32 {
    match plan {
        Plan::Free => 0,
        Plan::Pro => 800,
        Plan::Business => 1600,
        Plan::Enterprise => 1600,
    }
}

impl Plan {
    /// What the plan allows. A history of `-1` is unlimited.
    pub fn limits(&self) -> (r: PlanLimits)
        ensures
            r == plan_limits(*self),
    {
        match self {
            Plan::Free => PlanLimits {
                max_members: 10,
                max_channels: 5,
                max_message_history: 5_000,
                storage_bytes: 100 * 1024 * 1024,
                video_max_participants: 0,
                cloud_integrations: false,
                ai_recognition: false,
                recordings: false,
            },
            Plan::Pro => PlanLimits {
                max_members: u32::MAX,
                max_channels: u32::MAX,
                max_message_history: -1,
                storage_bytes: 10 * 1024 * 1024 * 1024,
                video_max_participants: 10,
                cloud_integrations: true,
                ai_recognition: false,
                recordings: false,
            },
            Plan::Business | Plan::Enterprise => PlanLimits {
                max_members: u32::MAX,
                max_channels: u32::MAX,
                max_message_history: -1,
                storage_bytes: 100 * 1024 * 1024 * 1024,
                video_max_participants: 100,
                cloud_integrations: true,
                ai_recognition: true,
                recordings: true,
            },
        }
    }

    /// What the plan costs a month, in cents.
    pub fn price_monthly_cents(&self) -> (r: u32)
        ensures
            r == plan_price(*self),
    {
        match self {
            Plan::Free => 0,
            Plan::Pro => 800,
            Plan::Business => 1600,
            Plan::Enterprise => 1600,
        }
    }
}

/// How much a plan offers, from the least to the most.
pub open spec fn rank(plan: Plan) -> int {
    match plan {
        Plan::Free => 0,
        Plan::Pro => 1,
        Plan::Business => 2,
        Plan::Enterprise => 3,
    }
}

/// A higher plan never allows less and never costs less.
pub proof fn higher_plans_allow_more(a: Plan, b: Plan)
    requires
        rank(a) <= rank(b),
    ensures
        plan_limits(a).max_members <= plan_limits(b).max_members,
        plan_limits(a).max_channels <= plan_limits(b).max_channels,
        plan_limits(a).storage_bytes <= plan_limits(b).storage_bytes,
        plan_limits(a).video_max_participants <= plan_limits(b).video_max_participants,
        plan_limits(a).max_message_history == -1 ==> plan_limits(b).max_message_history == -1,
        plan_limits(a).cloud_integrations ==> plan_limits(b).cloud_integrations,
        plan_limits(a).ai_recognition ==> plan_limits(b).ai_recognition,
        plan_limits(a).recordings ==> plan_limits(b).recordings,
        plan_price(a) <= plan_price(b),
{
}

} // verus!
