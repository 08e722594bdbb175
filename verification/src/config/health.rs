//! Schema migration and crash bookkeeping: when a run counts as healthy, and
//! when a crash loop calls for a rollback.
use vstd::prelude::*;
use crate::config::agent::{take, AgentConfig};
use crate::text::{begins_with, opt_view, same, trim_end_char, trimmed_end_char};

verus! {

/// The schema that [`migrate`] brings a config to.
pub const CURRENT_SCHEMA_VERSION: &'static str = "0.3.0-rc.300";

/// How long a run must survive before its version counts as known good.
pub const CLEAN_RUN_THRESHOLD_SECS: u64 = 300;

/// How recent a prior crash has to be for the next one to count against the
/// same window.
pub const CRASH_WINDOW_SECS: u64 = 600;

/// How many crashes inside the window trip the rollback.
pub const ROLLBACK_THRESHOLD_CRASHES: u32 = 3;

/// The version belongs to a branch before the rollback counter existed.
pub open spec fn before_rollback(version: Seq<char>) -> bool {
    "0.1."@.is_prefix_of(version) || "0.2."@.is_prefix_of(version)
}

/// `cfg` is on the current schema.
pub open spec fn current_schema(cfg: AgentConfig) -> bool {
    opt_view(cfg.config_schema_version) == Some(CURRENT_SCHEMA_VERSION@)
}

/// The crash record of `cfg` stems from a branch whose counter no longer
/// counts.
pub open spec fn stale_crashes(cfg: AgentConfig) -> bool {
    &&& cfg.last_known_good_version matches Some(v)
    &&& before_rollback(v@)
    &&& cfg.crash_count > 0
}

/// `new` is `old` brought to the current schema: the server URL loses its
/// trailing slashes, a stale crash record is reset, the schema is stamped.
pub open spec fn migrated(old: AgentConfig, new: AgentConfig) -> bool {
    &&& new == (AgentConfig {
        server_url: new.server_url,
        crash_count: if stale_crashes(old) {
            0
        } else {
            old.crash_count
        },
        last_crash_unix: if stale_crashes(old) {
            0
        } else {
            old.last_crash_unix
        },
        config_schema_version: new.config_schema_version,
        ..old
    })
    &&& new.server_url@ == trim_end_char(old.server_url@, '/')
    &&& current_schema(new)
}

fn on_current_schema(cfg: AgentConfig) -> (r: AgentConfig)
    ensures
        migrated(cfg, r),
{
    let stale: bool = match &cfg.last_known_good_version {
        Some(v) => (begins_with(v.as_str(), "0.1.") || begins_with(v.as_str(), "0.2."))
            && cfg.crash_count > 0,
        None => false,
    };
    let server_url: String = trimmed_end_char(cfg.server_url.as_str(), '/').to_owned();
    let stamp: Option<String> = Some(CURRENT_SCHEMA_VERSION.to_owned());
    if stale {
        AgentConfig {
            server_url,
            crash_count: 0,
            last_crash_unix: 0,
            config_schema_version: stamp,
            ..cfg
        }
    } else {
        AgentConfig { server_url, config_schema_version: stamp, ..cfg }
    }
}

/// Brings `cfg` to the current schema. Returns whether it is to be saved,
/// which is so exactly where it was on another schema.
pub fn migrate(cfg: &mut AgentConfig) -> (r: bool)
    ensures
        r == !current_schema(*old(cfg)),
        r ==> migrated(*old(cfg), *final(cfg)),
        !r ==> *final(cfg) == *old(cfg),
{
    let current: bool = match &cfg.config_schema_version {
        Some(v) => same(v.as_str(), CURRENT_SCHEMA_VERSION),
        None => false,
    };
    if current {
        return false;
    }
    let taken: AgentConfig = take(cfg);
    *cfg = on_current_schema(taken);
    true
}

/// Marks the start of a run: unhealthy until proven otherwise.
pub fn mark_run_starting(cfg: &mut AgentConfig)
    ensures
        *final(cfg) == (AgentConfig { last_run_unhealthy: true, ..*old(cfg) }),
{
    cfg.last_run_unhealthy = true;
}

/// `new` is `old` after a run of `version` that survived the threshold.
pub open spec fn ran_clean(old: AgentConfig, version: Seq<char>, new: AgentConfig) -> bool {
    &&& new == (AgentConfig {
        crash_count: 0,
        last_crash_unix: 0,
        rollback_attempted: false,
        last_run_unhealthy: false,
        last_known_good_version: new.last_known_good_version,
        ..old
    })
    &&& opt_view(new.last_known_good_version) == Some(version)
}

/// Records that the run of `current_version` is healthy: the crash record is
/// reset, the version becomes the known good one, and a later crash loop may
/// roll back again.
pub fn record_clean_run_at(cfg: &mut AgentConfig, current_version: &str)
    ensures
        ran_clean(*old(cfg), current_version@, *final(cfg)),
{
    let taken: AgentConfig = take(cfg);
    *cfg =
    AgentConfig {
        crash_count: 0,
        last_crash_unix: 0,
        rollback_attempted: false,
        last_run_unhealthy: false,
        last_known_good_version: Some(current_version.to_owned()),
        ..taken
    };
}

/// Marks a graceful shutdown. The crash counter is kept.
pub fn mark_clean_shutdown(cfg: &mut AgentConfig)
    ensures
        *final(cfg) == (AgentConfig { last_run_unhealthy: false, ..*old(cfg) }),
{
    cfg.last_run_unhealthy = false;
}

/// The recorded crash lies within the window before `now`.
pub open spec fn crash_in_window(cfg: AgentConfig, now: u64) -> bool {
    cfg.last_crash_unix > 0 && now - cfg.last_crash_unix <= CRASH_WINDOW_SECS
}

/// The crash counter after a crash at `now`: one more within the window, one
/// otherwise.
pub open spec fn crashes_after(cfg: AgentConfig, now: u64) -> u32 {
    if crash_in_window(cfg, now) {
        if cfg.crash_count < u32::MAX {
            (cfg.crash_count + 1) as u32
        } else {
            u32::MAX
        }
    } else {
        1
    }
}

/// `cfg` after a crash at `now`.
pub open spec fn crashed(cfg: AgentConfig, now: u64) -> AgentConfig {
    AgentConfig { crash_count: crashes_after(cfg, now), last_crash_unix: now, ..cfg }
}

fn in_window(cfg: &AgentConfig, now_unix: u64) -> (r: bool)
    ensures
        r == crash_in_window(*cfg, now_unix),
{
    let prior: u64 = cfg.last_crash_unix;
    prior > 0 && (now_unix <= prior || now_unix - prior <= CRASH_WINDOW_SECS)
}

fn with_crash(cfg: AgentConfig, now_unix: u64) -> (r: AgentConfig)
    ensures
        r == crashed(cfg, now_unix),
{
    let count: u32 = if in_window(&cfg, now_unix) {
        if cfg.crash_count < u32::MAX {
            cfg.crash_count + 1
        } else {
            u32::MAX
        }
    } else {
        1
    };
    AgentConfig { crash_count: count, last_crash_unix: now_unix, ..cfg }
}

/// Records a crash at a unix time.
pub fn record_crash_at(cfg: &mut AgentConfig, now_unix: u64)
    ensures
        *final(cfg) == crashed(*old(cfg), now_unix),
{
    let taken: AgentConfig = take(cfg);
    *cfg = with_crash(taken, now_unix);
}

/// A rollback is called for: none was attempted, there is another version to
/// go back to, and the crashes within the window reached the threshold.
pub open spec fn rollback_due(cfg: AgentConfig, current_version: Seq<char>, now: u64) -> bool {
    &&& !cfg.rollback_attempted
    &&& cfg.last_known_good_version matches Some(target)
    &&& target@ != current_version
    &&& cfg.crash_count >= ROLLBACK_THRESHOLD_CRASHES
    &&& crash_in_window(cfg, now)
}

/// Whether the record calls for a rollback to the last known good version.
pub fn should_rollback(cfg: &AgentConfig, current_version: &str, now_unix: u64) -> (r: bool)
    ensures
        r == rollback_due(*cfg, current_version@, now_unix),
{
    if cfg.rollback_attempted {
        return false;
    }
    match &cfg.last_known_good_version {
        None => false,
        Some(target) => {
            if same(target.as_str(), current_version) {
                return false;
            }
            if cfg.crash_count < ROLLBACK_THRESHOLD_CRASHES {
                return false;
            }
            in_window(cfg, now_unix)
        },
    }
}

/// Marks that a rollback was started.
pub fn mark_rollback_attempted(cfg: &mut AgentConfig)
    ensures
        *final(cfg) == (AgentConfig { rollback_attempted: true, ..*old(cfg) }),
{
    cfg.rollback_attempted = true;
}

/// Migration settles: what it brought to the current schema needs no second
/// pass, and its server URL has no trailing slash left.
pub proof fn migration_settles(old: AgentConfig, new: AgentConfig)
    requires
        migrated(old, new),
    ensures
        current_schema(new),
        new.server_url@.len() > 0 ==> new.server_url@.last() != '/',
        !stale_crashes(new),
{
    lemma_no_trailing(old.server_url@, '/');
}

proof fn lemma_no_trailing(s: Seq<char>, c: char)
    ensures
        trim_end_char(s, c).len() > 0 ==> trim_end_char(s, c).last() != c,
    decreases s.len(),
{
    if s.len() > 0 && s.last() == c {
        lemma_no_trailing(s.drop_last(), c);
    }
}

/// A healthy run withdraws every reason for a rollback, at any time.
pub proof fn clean_run_rules_out_rollback(
    old: AgentConfig,
    version: Seq<char>,
    new: AgentConfig,
    now: u64,
)
    requires
        ran_clean(old, version, new),
    ensures
        forall|current: Seq<char>| !rollback_due(new, current, now),
{
}

/// At most one rollback per install cycle: once one was attempted, no further
/// crash calls for another.
pub proof fn rollback_fires_once(cfg: AgentConfig, crash: u64, now: u64, version: Seq<char>)
    ensures
        !rollback_due(AgentConfig { rollback_attempted: true, ..cfg }, version, now),
        !rollback_due(
            crashed(AgentConfig { rollback_attempted: true, ..cfg }, crash),
            version,
            now,
        ),
{
}

/// Three crashes, each within the window of the one before, call for a
/// rollback where there is another version to go back to.
pub proof fn crash_loop_calls_for_rollback(
    cfg: AgentConfig,
    version: Seq<char>,
    t1: u64,
    t2: u64,
    t3: u64,
    now: u64,
)
    requires
        !cfg.rollback_attempted,
        cfg.last_known_good_version matches Some(good) && good@ != version,
        0 < t1,
        0 < t2 <= t1 + CRASH_WINDOW_SECS,
        0 < t3 <= t2 + CRASH_WINDOW_SECS,
        now <= t3 + CRASH_WINDOW_SECS,
    ensures
        rollback_due(crashed(crashed(crashed(cfg, t1), t2), t3), version, now),
{
}

/// A crash after a quiet window starts the count anew.
pub proof fn quiet_window_restarts_count(cfg: AgentConfig, now: u64)
    requires
        now > cfg.last_crash_unix + CRASH_WINDOW_SECS,
    ensures
        crashed(cfg, now).crash_count == 1,
        forall|version: Seq<char>, t: u64| !rollback_due(crashed(cfg, now), version, t),
{
}

} // verus!
