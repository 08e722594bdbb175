//! Where the configuration lies on disk, and which copy of it counts.
use vstd::prelude::*;
use crate::num::{decimal, to_decimal};
use crate::config::agent::AgentConfig;
use crate::text::{cat2, cat3, chars, last, lemma_last_is, opt_view};

verus! {

/// The place of the configuration file: the profile's, except that root on
/// Linux uses the system path unless only the profile's file exists.
pub fn default_config_path(
    profile: String,
    system: String,
    linux_root: bool,
    system_exists: bool,
    profile_exists: bool,
) -> (r: String)
    ensures
        r == if linux_root && (system_exists || !profile_exists) {
            system
        } else {
            profile
        },
{
    if linux_root {
        if system_exists {
            return system;
        }
        if profile_exists {
            return profile;
        }
        return system;
    }
    profile
}

/// The machine-global configuration file on Windows, under the program data
/// directory: a host with the older directory tree keeps it.
pub fn machine_global_config_path(program_data: &str, older_tree: bool) -> (r: String)
    ensures
        r@ == program_data@ + if older_tree {
            "\\roomler\\roomler-agent\\config.toml"@
        } else {
            "\\roomler\\roomler\\config.toml"@
        },
{
    if older_tree {
        cat2(program_data, "\\roomler\\roomler-agent\\config.toml")
    } else {
        cat2(program_data, "\\roomler\\roomler\\config.toml")
    }
}

/// The path of a file, cut in front of the name of the file. Where that name
/// starts is up to the platform, and trailing separators are dropped with it.
pub struct FilePath {
    /// What stands before the name; the whole path where it has none, as that
    /// of a root or one that ends in `..` has none.
    pub lead: String,
    /// The name of the file.
    pub name: Option<String>,
}

/// How much of a file's name stands before its extension: all up to the last
/// dot, unless the name has none or only one that it begins with.
pub open spec fn stem_len(name: Seq<char>) -> int {
    let dot = last(name, '.');
    if dot > 0 {
        dot
    } else {
        name.len() as int
    }
}

/// The path with another extension; the same path where it names no file.
pub open spec fn with_extension(path: FilePath, ext: Seq<char>) -> Seq<char> {
    match path.name {
        None => path.lead@,
        Some(name) => path.lead@ + name@.take(stem_len(name@)) + "."@ + ext,
    }
}

fn last_index(cs: &Vec<char>, c: char) -> (r: Option<usize>)
    ensures
        match r {
            Some(i) => i == last(cs@, c) && i < cs@.len(),
            None => last(cs@, c) == -1,
        },
{
    let mut k: usize = cs.len();
    while k > 0
        invariant
            k <= cs@.len(),
            forall|j: int| k <= j < cs@.len() ==> cs@[j] != c,
        decreases k,
    {
        if cs[k - 1] == c {
            proof {
                lemma_last_is(cs@, c, k - 1);
            }
            return Some(k - 1);
        }
        k = k - 1;
    }
    proof {
        lemma_last_is(cs@, c, -1);
    }
    None
}

fn replace_extension(path: &FilePath, ext: &str) -> (r: String)
    ensures
        r@ == with_extension(*path, ext@),
{
    match &path.name {
        None => path.lead.as_str().to_owned(),
        Some(name) => {
            let cs: Vec<char> = chars(name.as_str());
            let at: usize = match last_index(&cs, '.') {
                Some(i) => if i > 0 {
                    i
                } else {
                    cs.len()
                },
                None => cs.len(),
            };
            let stem: &str = name.as_str().substring_char(0, at);
            proof {
                assert(name@.subrange(0, at as int) =~= name@.take(at as int));
            }
            let mut out: String = cat3(path.lead.as_str(), stem, ".");
            out.append(ext);
            out
        },
    }
}

/// The copy of the last configuration that was both saved and parsed.
pub fn prev_path(path: &FilePath) -> (r: String)
    ensures
        r@ == with_extension(*path, "toml.prev"@),
{
    replace_extension(path, "toml.prev")
}

/// The temporary file that a process writes before it moves it into place.
pub fn temp_path(path: &FilePath, pid: u32) -> (r: String)
    ensures
        r@ == with_extension(*path, "toml.tmp."@ + decimal(pid as nat)),
{
    let d: String = to_decimal(pid as u64);
    let ext: String = cat2("toml.tmp.", d.as_str());
    replace_extension(path, ext.as_str())
}

/// The file holds bytes, and every one of them is zero.
pub open spec fn all_nul(raw: Seq<u8>) -> bool {
    raw.len() > 0 && forall|i: int| 0 <= i < raw.len() ==> #[trigger] raw[i] == 0
}

/// What is said of a file of zeros.
pub open spec fn nul_text(path: Seq<char>, len: nat) -> Seq<char> {
    "config at "@ + path + " is "@ + decimal(len)
        + " bytes of NUL (truncated by an unclean shutdown)"@
}

/// What is wrong with a file of zeros, which an unclean shutdown leaves;
/// `None` where the file is not one.
pub fn nul_complaint(path: &str, raw: &Vec<u8>) -> (r: Option<String>)
    ensures
        r is Some <==> all_nul(raw@),
        r matches Some(m) ==> m@ == nul_text(path@, raw@.len()),
{
    if raw.len() == 0 {
        return None;
    }
    let mut i: usize = 0;
    while i < raw.len()
        invariant
            i <= raw@.len(),
            forall|j: int| 0 <= j < i ==> #[trigger] raw@[j] == 0,
        decreases raw@.len() - i,
    {
        if raw[i] != 0 {
            return None;
        }
        i = i + 1;
    }
    let d: String = to_decimal(raw.len() as u64);
    let mut m: String = cat3("config at ", path, " is ");
    m.append(d.as_str());
    m.append(" bytes of NUL (truncated by an unclean shutdown)");
    Some(m)
}

/// Whether a file that was read goes on to be parsed, or what is wrong with
/// it; `raw` is what was read, where it could be.
pub fn try_load(path: &str, raw: Option<&Vec<u8>>) -> (r: Result<(), String>)
    ensures
        match raw {
            None => r matches Err(m) && m@ == "reading config at "@ + path@,
            Some(bytes) => {
                &&& r is Ok <==> !all_nul(bytes@)
                &&& r matches Err(m) ==> m@ == nul_text(path@, bytes@.len())
            },
        },
{
    match raw {
        None => Err(cat2("reading config at ", path)),
        Some(bytes) => match nul_complaint(path, bytes) {
            Some(m) => Err(m),
            None => Ok(()),
        },
    }
}

/// What is wrong with a file that does not parse.
pub fn parse_complaint(path: &str) -> (r: String)
    ensures
        r@ == "parsing config at "@ + path@,
{
    cat2("parsing config at ", path)
}

/// A configuration that is expected to be absent: whatever is wrong with it,
/// it is as if it were not there.
pub fn read_if_present(loaded: Result<AgentConfig, String>) -> (r: Option<AgentConfig>)
    ensures
        match loaded {
            Ok(c) => r == Some(c),
            Err(_) => r is None,
        },
{
    match loaded {
        Ok(c) => Some(c),
        Err(_) => None,
    }
}

/// Which copy of the configuration a process runs on.
#[derive(Debug, Clone, Copy, PartialEq, Eq, Structural)]
pub enum LoadStep {
    /// The live file.
    UseLive,
    /// The previous copy, which is also put back as the live file.
    Recover,
    /// Neither can be read: the error of the live file stands.
    Fail,
}

/// Which copy counts: the live file where it can be read, else the previous
/// copy.
pub open spec fn load_step(live_ok: bool, prev_ok: bool) -> LoadStep {
    if live_ok {
        LoadStep::UseLive
    } else if prev_ok {
        LoadStep::Recover
    } else {
        LoadStep::Fail
    }
}

/// Which copy counts, given which of the two can be read.
pub fn load(live_ok: bool, prev_ok: bool) -> (r: LoadStep)
    ensures
        r == load_step(live_ok, prev_ok),
{
    if live_ok {
        LoadStep::UseLive
    } else if prev_ok {
        LoadStep::Recover
    } else {
        LoadStep::Fail
    }
}

/// One step of saving the configuration.
#[derive(Debug, Clone, Copy, PartialEq, Eq, Structural)]
pub enum SaveStep {
    /// Make the directory.
    MakeDir,
    /// Make the text of the configuration.
    Serialise,
    /// Make the temporary file.
    CreateTemp,
    /// Write the text into it.
    WriteTemp,
    /// See to it that the text is on disk.
    SyncTemp,
    /// Keep others from reading it.
    Protect,
    /// Copy the live file to the previous copy.
    Rotate,
    /// Move the temporary file over the live one.
    Rename,
    /// Remove the temporary file and report the failure.
    Discard,
    /// See to it that the move is on disk.
    SyncDir,
    /// Report the failure.
    Abort,
    /// Saved.
    Done,
}

/// The step after `step`. The text is on disk, and nobody else can read it,
/// before the move; a live file that does not parse never overwrites the
/// previous copy; a failed rotation does not stop the save; a failed move
/// leaves no temporary file behind.
pub open spec fn save_after(step: SaveStep, ok: bool, live_parses: bool) -> SaveStep {
    match step {
        SaveStep::Rotate => SaveStep::Rename,
        SaveStep::Rename => if ok {
            SaveStep::SyncDir
        } else {
            SaveStep::Discard
        },
        SaveStep::Discard | SaveStep::Abort => SaveStep::Abort,
        SaveStep::SyncDir | SaveStep::Done => SaveStep::Done,
        _ => if !ok {
            SaveStep::Abort
        } else {
            match step {
                SaveStep::MakeDir => SaveStep::Serialise,
                SaveStep::Serialise => SaveStep::CreateTemp,
                SaveStep::CreateTemp => SaveStep::WriteTemp,
                SaveStep::WriteTemp => SaveStep::SyncTemp,
                SaveStep::SyncTemp => SaveStep::Protect,
                _ => if live_parses {
                    SaveStep::Rotate
                } else {
                    SaveStep::Rename
                },
            }
        },
    }
}

/// The step after `step`, by what came of it; `live_parses` says whether the
/// live file can be parsed.
pub fn save(step: SaveStep, ok: bool, live_parses: bool) -> (r: SaveStep)
    ensures
        r == save_after(step, ok, live_parses),
{
    match step {
        SaveStep::Rotate => SaveStep::Rename,
        SaveStep::Rename => if ok {
            SaveStep::SyncDir
        } else {
            SaveStep::Discard
        },
        SaveStep::Discard | SaveStep::Abort => SaveStep::Abort,
        SaveStep::SyncDir | SaveStep::Done => SaveStep::Done,
        _ => {
            if !ok {
                return SaveStep::Abort;
            }
            match step {
                SaveStep::MakeDir => SaveStep::Serialise,
                SaveStep::Serialise => SaveStep::CreateTemp,
                SaveStep::CreateTemp => SaveStep::WriteTemp,
                SaveStep::WriteTemp => SaveStep::SyncTemp,
                SaveStep::SyncTemp => SaveStep::Protect,
                _ => if live_parses {
                    SaveStep::Rotate
                } else {
                    SaveStep::Rename
                },
            }
        },
    }
}

/// What is said of a step that failed; `dir` is the directory, `temp` the
/// temporary file and `path` the live one. Protecting the file fails without
/// words of its own.
pub open spec fn save_blame(
    step: SaveStep,
    dir: Seq<char>,
    temp: Seq<char>,
    path: Seq<char>,
) -> Option<Seq<char>> {
    match step {
        SaveStep::MakeDir => Some("creating parent dir "@ + dir),
        SaveStep::Serialise => Some("serialising config"@),
        SaveStep::CreateTemp => Some("creating config temp file "@ + temp),
        SaveStep::WriteTemp => Some("writing config temp file "@ + temp),
        SaveStep::SyncTemp => Some("fsync config temp file "@ + temp),
        SaveStep::Rename => Some("renaming config into place at "@ + path),
        _ => None,
    }
}

/// What is said of a step that failed.
pub fn save_complaint(step: SaveStep, dir: &str, temp: &str, path: &str) -> (r: Option<String>)
    ensures
        opt_view(r) == save_blame(step, dir@, temp@, path@),
{
    match step {
        SaveStep::MakeDir => Some(cat2("creating parent dir ", dir)),
        SaveStep::Serialise => Some("serialising config".to_owned()),
        SaveStep::CreateTemp => Some(cat2("creating config temp file ", temp)),
        SaveStep::WriteTemp => Some(cat2("writing config temp file ", temp)),
        SaveStep::SyncTemp => Some(cat2("fsync config temp file ", temp)),
        SaveStep::Rename => Some(cat2("renaming config into place at ", path)),
        _ => None,
    }
}

/// A file that is being written.
pub struct Draft {
    /// What is written to it.
    pub bytes: Seq<u8>,
    /// Whether all of it is known to be on disk.
    pub whole: bool,
    /// Whether others are kept from reading it.
    pub guarded: bool,
}

/// What is on disk: the live file, the previous copy, and the temporary file.
pub struct Disk {
    /// The live file.
    pub live: Option<Seq<u8>>,
    /// Whether others are kept from reading the live file.
    pub guarded: bool,
    /// The previous copy.
    pub prev: Option<Seq<u8>>,
    /// The temporary file.
    pub temp: Option<Draft>,
}

/// What a step leaves on disk. What it writes may be cut short until it is
/// known to be on disk; a copy that fails leaves `left` as the previous copy,
/// which may be a part of the live file, or nothing.
pub open spec fn disk_after(
    disk: Disk,
    step: SaveStep,
    ok: bool,
    left: Option<Seq<u8>>,
    text: Seq<u8>,
) -> Disk {
    match step {
        SaveStep::CreateTemp | SaveStep::WriteTemp => Disk {
            temp: Some(Draft { bytes: text, whole: false, guarded: false }),
            ..disk
        },
        SaveStep::SyncTemp => Disk {
            temp: Some(Draft { bytes: text, whole: ok, guarded: false }),
            ..disk
        },
        SaveStep::Protect => match disk.temp {
            Some(draft) => Disk { temp: Some(Draft { guarded: ok, ..draft }), ..disk },
            None => disk,
        },
        SaveStep::Rotate => Disk {
            prev: if ok {
                disk.live
            } else {
                left
            },
            ..disk
        },
        SaveStep::Rename => match disk.temp {
            Some(draft) if ok => Disk {
                live: Some(draft.bytes),
                guarded: draft.guarded,
                temp: None,
                ..disk
            },
            _ => disk,
        },
        SaveStep::Discard => Disk { temp: None, ..disk },
        _ => disk,
    }
}

/// A save that is under way.
pub struct Saving {
    /// The step to take next.
    pub step: SaveStep,
    /// What is on disk.
    pub disk: Disk,
    /// What came of copying the live file to the previous copy, once that was
    /// tried.
    pub rotated: Option<bool>,
}

/// The save after its next step, by what came of that step.
pub open spec fn saving_after(
    s: Saving,
    ok: bool,
    left: Option<Seq<u8>>,
    text: Seq<u8>,
    live_parses: bool,
) -> Saving {
    Saving {
        step: save_after(s.step, ok, live_parses),
        disk: disk_after(s.disk, s.step, ok, left, text),
        rotated: if s.step == SaveStep::Rotate {
            Some(ok)
        } else {
            s.rotated
        },
    }
}

/// The save of `text` over `before`, after as many steps as there are
/// outcomes: whether each step went well, and what it leaves of the previous
/// copy where that could not be written.
pub open spec fn saving(
    before: Disk,
    outcomes: Seq<(bool, Option<Seq<u8>>)>,
    text: Seq<u8>,
    live_parses: bool,
) -> Saving
    decreases outcomes.len(),
{
    if outcomes.len() == 0 {
        Saving { step: SaveStep::MakeDir, disk: before, rotated: None }
    } else {
        saving_after(
            saving(before, outcomes.drop_last(), text, live_parses),
            outcomes.last().0,
            outcomes.last().1,
            text,
            live_parses,
        )
    }
}

/// What holds while a save is under way from `before`: the live file is the
/// old one until the move, and all of the new one, which nobody else can
/// read, after it. The previous copy is the one that was there until the live
/// file is copied over it, which happens where the live file parses.
pub open spec fn save_sound(
    before: Disk,
    s: Saving,
    text: Seq<u8>,
    live_parses: bool,
) -> bool {
    let moved = s.step == SaveStep::SyncDir || s.step == SaveStep::Done;
    let ready = s.step == SaveStep::Rotate || s.step == SaveStep::Rename;
    &&& if moved {
        s.disk.live == Some(text) && s.disk.guarded && s.disk.temp is None
    } else {
        s.disk.live == before.live && s.disk.guarded == before.guarded
    }
    &&& match s.rotated {
        None => s.disk.prev == before.prev,
        Some(ok) => live_parses && (ok ==> s.disk.prev == before.live),
    }
    &&& s.step == SaveStep::Rotate ==> live_parses
    &&& live_parses && (moved || s.step == SaveStep::Rename) ==> s.rotated is Some
    &&& ready || s.step == SaveStep::Protect ==> (s.disk.temp matches Some(d) && d.bytes == text
        && d.whole && (ready ==> d.guarded))
}

/// However a save goes, at every step of it the live file is all of the old
/// configuration or all of the new one, never a part; and a live file that
/// does not parse leaves the previous copy alone.
pub proof fn saving_never_tears(
    before: Disk,
    outcomes: Seq<(bool, Option<Seq<u8>>)>,
    text: Seq<u8>,
    live_parses: bool,
)
    ensures
        save_sound(before, saving(before, outcomes, text, live_parses), text, live_parses),
        saving(before, outcomes, text, live_parses).disk.live == before.live || saving(
            before,
            outcomes,
            text,
            live_parses,
        ).disk.live == Some(text),
        !live_parses ==> saving(before, outcomes, text, live_parses).disk.prev == before.prev,
    decreases outcomes.len(),
{
    if outcomes.len() > 0 {
        saving_never_tears(before, outcomes.drop_last(), text, live_parses);
    }
}

/// After a save the live file holds all of the new text, nobody else can read
/// it, and no temporary file is left. The previous copy is the old live file
/// where that parses and could be copied, and the one that was there where
/// the old live file does not parse.
pub proof fn finished_save_keeps_the_last_good_copy(
    before: Disk,
    outcomes: Seq<(bool, Option<Seq<u8>>)>,
    text: Seq<u8>,
    live_parses: bool,
)
    requires
        saving(before, outcomes, text, live_parses).step == SaveStep::Done,
    ensures
        ({
            let s = saving(before, outcomes, text, live_parses);
            &&& s.disk.live == Some(text)
            &&& s.disk.guarded
            &&& s.disk.temp is None
            &&& live_parses <==> s.rotated is Some
            &&& s.rotated == Some(true) ==> s.disk.prev == before.live
            &&& !live_parses ==> s.disk.prev == before.prev
        }),
{
    saving_never_tears(before, outcomes, text, live_parses);
}

/// What is made of a file that may be missing.
pub open spec fn read_file<C>(file: Option<Seq<u8>>, read: spec_fn(Seq<u8>) -> Option<C>) -> Option<
    C,
> {
    match file {
        Some(bytes) => read(bytes),
        None => None,
    }
}

/// The configuration that a process runs on, `read` being how a file is read.
pub open spec fn loaded<C>(disk: Disk, read: spec_fn(Seq<u8>) -> Option<C>) -> Option<C> {
    match load_step(read_file(disk.live, read) is Some, read_file(disk.prev, read) is Some) {
        LoadStep::UseLive => read_file(disk.live, read),
        LoadStep::Recover => read_file(disk.prev, read),
        LoadStep::Fail => None,
    }
}

/// However files are read: what is read from the text that was saved is what
/// is loaded after the save. Unless the old live file could not be copied,
/// what was loaded before the save is loaded again once the new live file is
/// lost or can no longer be read.
pub proof fn saved_configuration_is_loaded<C>(
    before: Disk,
    outcomes: Seq<(bool, Option<Seq<u8>>)>,
    text: Seq<u8>,
    read: spec_fn(Seq<u8>) -> Option<C>,
    wreck: Option<Seq<u8>>,
)
    requires
        saving(before, outcomes, text, read_file(before.live, read) is Some).step == SaveStep::Done,
        read(text) is Some,
        read_file(wreck, read) is None,
    ensures
        ({
            let s = saving(before, outcomes, text, read_file(before.live, read) is Some);
            &&& loaded(s.disk, read) == read(text)
            &&& s.rotated != Some(false) ==> loaded(Disk { live: wreck, ..s.disk }, read)
                == loaded(before, read)
        }),
{
    let live_parses = read_file(before.live, read) is Some;
    finished_save_keeps_the_last_good_copy(before, outcomes, text, live_parses);
    let s = saving(before, outcomes, text, live_parses);
    match s.rotated {
        Some(copied) => {
            if copied {
                assert(s.disk.prev == before.live);
            }
        },
        None => assert(s.disk.prev == before.prev),
    }
}

/// A save of which nothing goes wrong is finished after its nine steps, one
/// fewer where the live file does not parse.
pub proof fn saving_finishes(
    before: Disk,
    outcomes: Seq<(bool, Option<Seq<u8>>)>,
    text: Seq<u8>,
    live_parses: bool,
)
    requires
        outcomes.len() == if live_parses {
            9int
        } else {
            8
        },
        forall|i: int| 0 <= i < outcomes.len() ==> (#[trigger] outcomes[i]).0,
    ensures
        saving(before, outcomes, text, live_parses).step == SaveStep::Done,
        saving(before, outcomes, text, live_parses).rotated == if live_parses {
            Some(true)
        } else {
            None
        },
{
    reveal_with_fuel(saving, 10);
}

} // verus!
