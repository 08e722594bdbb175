//! How the configuration is kept: names of its copies, the order of a save,
//! which copy is loaded, and what crashes and clean runs leave.
use vstd::prelude::*;
use crate::config::agent::AgentConfig;
use crate::config::health::{
    crash_in_window,
    crashed,
    crashes_after,
    migrated,
    ran_clean,
    rollback_due,
    stale_crashes,
};
use crate::config::store::{
    FilePath,
    LoadStep,
    SaveStep,
    all_nul,
    load_step,
    save_after,
    save_blame,
    stem_len,
    with_extension,
};
use crate::text::{opt_view, trim_end_char};
use crate::text_laws::the_last_is_the_last;

verus! {

/// A copy of a file lies beside it: its name has another ending in the place
/// of what stands after the last dot, or one more where there is none. A dot
/// at the front begins no ending.
pub proof fn copies_lie_beside_the_file(
    path: FilePath,
    stem: Seq<char>,
    old: Seq<char>,
    ext: Seq<char>,
)
    requires
        !old.contains('.'),
    ensures
        stem.len() > 0 && (path.name matches Some(n) && n@ == stem.push('.') + old)
            ==> with_extension(path, ext) == path.lead@ + stem + "."@ + ext,
        (path.name matches Some(n) && n@ == old) ==> with_extension(path, ext) == path.lead@ + old
            + "."@ + ext,
        (path.name matches Some(n) && n@ == seq!['.'] + old) ==> with_extension(path, ext)
            == path.lead@ + (seq!['.'] + old) + "."@ + ext,
{
    the_last_is_the_last(stem, '.', old);
    the_last_is_the_last(Seq::<char>::empty(), '.', old);
    let full = stem.push('.') + old;
    assert(full.take(stem.len() as int) =~= stem);
    assert(old.take(old.len() as int) =~= old);
    let hidden = seq!['.'] + old;
    assert(Seq::<char>::empty().push('.') + old =~= hidden);
    assert(hidden.take(hidden.len() as int) =~= hidden);
}

/// The live file counts wherever it can be read, the previous copy only where
/// the live one cannot, and there is nothing to load only where neither can.
pub proof fn the_live_file_goes_first(live_ok: bool, prev_ok: bool)
    ensures
        load_step(live_ok, prev_ok) == LoadStep::UseLive <==> live_ok,
        load_step(live_ok, prev_ok) == LoadStep::Recover <==> !live_ok && prev_ok,
        load_step(live_ok, prev_ok) == LoadStep::Fail <==> !live_ok && !prev_ok,
{
}

/// A save moves the text into place only once it is written, on disk and
/// protected; the previous copy is replaced only by a live file that can be
/// read; and it is done only once the move is on disk.
pub proof fn saves_go_in_order(step: SaveStep, ok: bool, live_parses: bool)
    ensures
        save_after(step, ok, live_parses) == SaveStep::Serialise ==> step == SaveStep::MakeDir
            && ok,
        save_after(step, ok, live_parses) == SaveStep::CreateTemp ==> step == SaveStep::Serialise
            && ok,
        save_after(step, ok, live_parses) == SaveStep::WriteTemp ==> step == SaveStep::CreateTemp
            && ok,
        save_after(step, ok, live_parses) == SaveStep::SyncTemp ==> step == SaveStep::WriteTemp
            && ok,
        save_after(step, ok, live_parses) == SaveStep::Protect ==> step == SaveStep::SyncTemp
            && ok,
        save_after(step, ok, live_parses) == SaveStep::Rotate ==> step == SaveStep::Protect && ok
            && live_parses,
        save_after(step, ok, live_parses) == SaveStep::Rename ==> step == SaveStep::Rotate || (step
            == SaveStep::Protect && ok && !live_parses),
        save_after(step, ok, live_parses) == SaveStep::SyncDir ==> step == SaveStep::Rename && ok,
        save_after(step, ok, live_parses) == SaveStep::Discard <==> step == SaveStep::Rename
            && !ok,
        save_after(step, ok, live_parses) == SaveStep::Done <==> step == SaveStep::SyncDir || step
            == SaveStep::Done,
{
}

/// A save that fails says what it was at: at the directory, the temporary
/// file or the file itself.
pub proof fn failed_saves_say_where(dir: Seq<char>, temp: Seq<char>, path: Seq<char>)
    ensures
        save_blame(SaveStep::MakeDir, dir, temp, path) == Some("creating parent dir "@ + dir),
        save_blame(SaveStep::Serialise, dir, temp, path) == Some("serialising config"@),
        save_blame(SaveStep::CreateTemp, dir, temp, path) == Some(
            "creating config temp file "@ + temp,
        ),
        save_blame(SaveStep::WriteTemp, dir, temp, path) == Some(
            "writing config temp file "@ + temp,
        ),
        save_blame(SaveStep::SyncTemp, dir, temp, path) == Some("fsync config temp file "@ + temp),
        save_blame(SaveStep::Rename, dir, temp, path) == Some(
            "renaming config into place at "@ + path,
        ),
{
}

/// A file is of nothing but zeros where it holds something and every byte of
/// it is zero.
pub proof fn zeros_are_told(raw: Seq<u8>, i: int)
    ensures
        !all_nul(Seq::<u8>::empty()),
        0 <= i < raw.len() && raw[i] != 0 ==> !all_nul(raw),
        all_nul(raw.push(0)) <==> raw.len() == 0 || all_nul(raw),
{
    let more = raw.push(0);
    if raw.len() == 0 || all_nul(raw) {
        assert forall|k: int| 0 <= k < more.len() implies #[trigger] more[k] == 0 by {
            if k < raw.len() {
                assert(raw[k] == 0);
            }
        }
    }
    if all_nul(more) && raw.len() > 0 {
        assert forall|k: int| 0 <= k < raw.len() implies #[trigger] raw[k] == 0 by {
            assert(more[k] == 0);
        }
    }
}

/// A crash counts with the last one where at most ten minutes lie between
/// them, and begins a new count otherwise; nothing else of the configuration
/// changes.
pub proof fn crashes_count_for_ten_minutes(cfg: AgentConfig, now: u64)
    ensures
        crash_in_window(cfg, now) <==> cfg.last_crash_unix != 0 && now <= cfg.last_crash_unix
            + 600,
        crashed(cfg, now).last_crash_unix == now,
        cfg.last_crash_unix != 0 && now <= cfg.last_crash_unix + 600 && cfg.crash_count < u32::MAX
            ==> crashed(cfg, now).crash_count == cfg.crash_count + 1,
        cfg.last_crash_unix == 0 || now > cfg.last_crash_unix + 600 ==> crashed(
            cfg,
            now,
        ).crash_count == 1,
        crashed(cfg, now) == (AgentConfig {
            crash_count: crashed(cfg, now).crash_count,
            last_crash_unix: now,
            ..cfg
        }),
        crashes_after(cfg, now) >= 1,
{
}

/// A rollback is due only after three crashes, within ten minutes of the last
/// one, where none was tried yet and another version is known to run.
pub proof fn rollbacks_are_rare(cfg: AgentConfig, version: Seq<char>, now: u64)
    ensures
        cfg.crash_count < 3 ==> !rollback_due(cfg, version, now),
        now > cfg.last_crash_unix + 600 ==> !rollback_due(cfg, version, now),
        cfg.last_crash_unix == 0 ==> !rollback_due(cfg, version, now),
        cfg.rollback_attempted ==> !rollback_due(cfg, version, now),
        cfg.last_known_good_version is None ==> !rollback_due(cfg, version, now),
        opt_view(cfg.last_known_good_version) == Some(version) ==> !rollback_due(
            cfg,
            version,
            now,
        ),
        cfg.crash_count >= 3 && 0 < cfg.last_crash_unix <= now <= cfg.last_crash_unix + 600
            && !cfg.rollback_attempted && (cfg.last_known_good_version matches Some(v) && v@
            != version) ==> rollback_due(cfg, version, now),
{
}

/// A clean run clears the record of crashes, lets a later rollback happen, and
/// makes its version the known one; nothing else changes.
pub proof fn clean_runs_clear_the_record(old: AgentConfig, version: Seq<char>, new: AgentConfig)
    requires
        ran_clean(old, version, new),
    ensures
        new.crash_count == 0,
        new.last_crash_unix == 0,
        !new.rollback_attempted,
        !new.last_run_unhealthy,
        new.last_known_good_version matches Some(v) && v@ == version,
        new.server_url == old.server_url,
        new.tenant_id == old.tenant_id,
        new.agent_id == old.agent_id,
        new.agent_token == old.agent_token,
        new.machine_id == old.machine_id,
        new.orgs == old.orgs,
{
}

/// Bringing a configuration to the current schema keeps whose it is, takes no
/// more than slashes from the server's address, and keeps a record of crashes
/// that still counts.
pub proof fn migrating_spares_the_enrollment(old: AgentConfig, new: AgentConfig)
    requires
        migrated(old, new),
    ensures
        new.server_url@ == trim_end_char(old.server_url@, '/'),
        new.tenant_id == old.tenant_id,
        new.agent_id == old.agent_id,
        new.agent_token == old.agent_token,
        new.machine_id == old.machine_id,
        new.machine_name == old.machine_name,
        new.orgs == old.orgs,
        new.rollback_attempted == old.rollback_attempted,
        new.last_known_good_version == old.last_known_good_version,
        !stale_crashes(old) ==> new.crash_count == old.crash_count && new.last_crash_unix
            == old.last_crash_unix,
        stale_crashes(old) ==> new.crash_count == 0 && new.last_crash_unix == 0,
{
}

/// A record of crashes no longer counts exactly where the version that last
/// ran well is of the first two branches and there is something on record.
pub proof fn old_records_do_not_count(cfg: AgentConfig)
    ensures
        cfg.last_known_good_version is None ==> !stale_crashes(cfg),
        cfg.crash_count == 0 ==> !stale_crashes(cfg),
        cfg.crash_count > 0 ==> (cfg.last_known_good_version matches Some(v) ==> (stale_crashes(cfg)
            <==> "0.1."@.is_prefix_of(v@) || "0.2."@.is_prefix_of(v@))),
{
}

/// The stem of a name is the name up to its last dot.
pub proof fn stems_end_at_the_last_dot(stem: Seq<char>, old: Seq<char>)
    requires
        !old.contains('.'),
        stem.len() > 0,
    ensures
        stem_len(stem.push('.') + old) == stem.len(),
        stem_len(old) == old.len(),
{
    the_last_is_the_last(stem, '.', old);
}

} // verus!
