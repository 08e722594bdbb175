//! Where the configuration lies, and how it is loaded and saved.
use roomler::config::agent::test_fixture;
use roomler::config::store::{
    default_config_path, load, machine_global_config_path, nul_complaint, parse_complaint,
    prev_path, read_if_present, save, save_complaint, temp_path, try_load, FilePath,
    LoadStep, SaveStep,
};

fn path(linux_root: bool, system_exists: bool, profile_exists: bool) -> String {
    default_config_path(
        "/root/.config/roomler/config.toml".to_string(),
        "/etc/roomler/config.toml".to_string(),
        linux_root,
        system_exists,
        profile_exists,
    )
}

#[test]
fn root_on_linux_prefers_the_system_path() {
    let system = "/etc/roomler/config.toml";
    let profile = "/root/.config/roomler/config.toml";
    assert_eq!(path(true, true, true), system);
    assert_eq!(path(true, true, false), system);
    assert_eq!(path(true, false, true), profile);
    assert_eq!(path(true, false, false), system);
    assert_eq!(path(false, true, false), profile);
}

#[test]
fn machine_global_path_keeps_the_older_tree() {
    assert_eq!(
        machine_global_config_path("C:\\ProgramData", false),
        "C:\\ProgramData\\roomler\\roomler\\config.toml"
    );
    assert_eq!(
        machine_global_config_path("C:\\ProgramData", true),
        "C:\\ProgramData\\roomler\\roomler-agent\\config.toml"
    );
}

#[test]
fn siblings_take_the_place_of_the_extension() {
    let file = |lead: &str, name: &str| FilePath {
        lead: lead.to_string(),
        name: Some(name.to_string()),
    };
    assert_eq!(prev_path(&file("/a/b.c/", "config.toml")), "/a/b.c/config.toml.prev");
    assert_eq!(prev_path(&file("/a/b.c/", "config")), "/a/b.c/config.toml.prev");
    assert_eq!(prev_path(&file("/a/", ".config")), "/a/.config.toml.prev");
    assert_eq!(prev_path(&file("/a/", ".config.old.toml")), "/a/.config.old.toml.prev");
    assert_eq!(prev_path(&file("", "conf")), "conf.toml.prev");
    assert_eq!(prev_path(&file("C:\\x.d\\", "config")), "C:\\x.d\\config.toml.prev");
    assert_eq!(
        temp_path(&file("/a/", "config.toml"), 4711),
        "/a/config.toml.tmp.4711"
    );
}

#[test]
fn a_path_that_names_no_file_stays_as_it_is() {
    for lead in ["", "/", "..", "/a/.."] {
        let path = FilePath { lead: lead.to_string(), name: None };
        assert_eq!(prev_path(&path), lead);
        assert_eq!(temp_path(&path, 1), lead);
    }
}

#[test]
fn siblings_lie_where_the_platform_puts_them() {
    for text in ["/a/b.c/config.toml", "conf/", "a/./b.x/.", ".hidden", "x.y.z", "..", "/", ""] {
        let path = std::path::Path::new(text);
        let name = path.file_name().map(|n| n.to_str().unwrap().to_string());
        let lead = match &name {
            Some(n) => text[..text.rfind(n.as_str()).unwrap()].to_string(),
            None => text.to_string(),
        };
        assert_eq!(
            prev_path(&FilePath { lead, name }),
            path.with_extension("toml.prev").to_str().unwrap()
        );
    }
}

#[test]
fn a_file_of_zeros_is_named() {
    let m = nul_complaint("/a/config.toml", &vec![0u8; 2995]).expect("named");
    assert_eq!(
        m,
        "config at /a/config.toml is 2995 bytes of NUL (truncated by an unclean shutdown)"
    );
    assert_eq!(nul_complaint("/a/config.toml", &vec![]), None);
    assert_eq!(nul_complaint("/a/config.toml", &vec![0, 0, 1]), None);
}

#[test]
fn what_cannot_be_read_is_not_parsed() {
    assert_eq!(
        try_load("/a/config.toml", None),
        Err("reading config at /a/config.toml".to_string())
    );
    assert_eq!(try_load("/a/config.toml", Some(&b"x = 1".to_vec())), Ok(()));
    assert!(try_load("/a/config.toml", Some(&vec![0u8; 4])).is_err());
    assert_eq!(
        parse_complaint("/a/config.toml"),
        "parsing config at /a/config.toml"
    );
}

#[test]
fn the_live_copy_counts_then_the_previous_one() {
    assert_eq!(load(true, true), LoadStep::UseLive);
    assert_eq!(load(true, false), LoadStep::UseLive);
    assert_eq!(load(false, true), LoadStep::Recover);
    assert_eq!(load(false, false), LoadStep::Fail);
}

#[test]
fn a_probe_takes_every_failure_for_absence() {
    assert!(read_if_present(Err("reading config at /x".to_string())).is_none());
    let cfg = read_if_present(Ok(test_fixture())).expect("present");
    assert_eq!(cfg.server_url, test_fixture().server_url);
}

fn steps(live_parses: bool, failing: Option<SaveStep>) -> Vec<SaveStep> {
    let mut seen = vec![SaveStep::MakeDir];
    loop {
        let now = *seen.last().unwrap();
        let next = save(now, Some(now) != failing, live_parses);
        if next == now {
            return seen;
        }
        seen.push(next);
    }
}

#[test]
fn a_save_syncs_before_it_moves() {
    assert_eq!(
        steps(true, None),
        vec![
            SaveStep::MakeDir,
            SaveStep::Serialise,
            SaveStep::CreateTemp,
            SaveStep::WriteTemp,
            SaveStep::SyncTemp,
            SaveStep::Protect,
            SaveStep::Rotate,
            SaveStep::Rename,
            SaveStep::SyncDir,
            SaveStep::Done,
        ]
    );
}

#[test]
fn a_corrupt_live_file_is_not_rotated() {
    assert!(!steps(false, None).contains(&SaveStep::Rotate));
    assert!(steps(false, None).contains(&SaveStep::Rename));
}

#[test]
fn a_failed_step_ends_the_save_unless_it_is_the_rotation() {
    for step in [
        SaveStep::MakeDir,
        SaveStep::Serialise,
        SaveStep::CreateTemp,
        SaveStep::WriteTemp,
        SaveStep::SyncTemp,
        SaveStep::Protect,
    ] {
        let seen = steps(true, Some(step));
        assert_eq!(seen[seen.len() - 2], step);
        assert_eq!(seen[seen.len() - 1], SaveStep::Abort);
        assert!(!seen.contains(&SaveStep::Rename));
    }
    assert_eq!(*steps(true, Some(SaveStep::Rotate)).last().unwrap(), SaveStep::Done);
    let seen = steps(true, Some(SaveStep::Rename));
    assert!(seen.contains(&SaveStep::Discard));
    assert_eq!(*seen.last().unwrap(), SaveStep::Abort);
    assert_eq!(*steps(true, Some(SaveStep::SyncDir)).last().unwrap(), SaveStep::Done);
}

#[test]
fn complaints_name_the_file() {
    let c = |s| save_complaint(s, "/a", "/a/config.toml.tmp.1", "/a/config.toml");
    assert_eq!(c(SaveStep::MakeDir).unwrap(), "creating parent dir /a");
    assert_eq!(c(SaveStep::Serialise).unwrap(), "serialising config");
    assert_eq!(
        c(SaveStep::CreateTemp).unwrap(),
        "creating config temp file /a/config.toml.tmp.1"
    );
    assert_eq!(
        c(SaveStep::WriteTemp).unwrap(),
        "writing config temp file /a/config.toml.tmp.1"
    );
    assert_eq!(
        c(SaveStep::SyncTemp).unwrap(),
        "fsync config temp file /a/config.toml.tmp.1"
    );
    assert_eq!(
        c(SaveStep::Rename).unwrap(),
        "renaming config into place at /a/config.toml"
    );
    assert_eq!(c(SaveStep::Protect), None);
    assert_eq!(c(SaveStep::Rotate), None);
}

/// Runs a save over files held in memory: the live file, the previous copy and
/// whether the save was reported done.
fn saved(
    live: &str,
    prev: &str,
    live_parses: bool,
    failing: Option<SaveStep>,
) -> (String, String, bool) {
    let mut live = live.to_string();
    let mut prev = prev.to_string();
    let mut temp = String::new();
    let mut step = SaveStep::MakeDir;
    while step != SaveStep::Done && step != SaveStep::Abort {
        let ok = Some(step) != failing;
        match step {
            SaveStep::WriteTemp if ok => temp = "new".to_string(),
            SaveStep::WriteTemp => temp = "n".to_string(),
            SaveStep::Rotate if ok => prev = live.clone(),
            SaveStep::Rotate => prev.clear(),
            SaveStep::Rename if ok => live = std::mem::take(&mut temp),
            SaveStep::Discard => temp.clear(),
            _ => {}
        }
        step = save(step, ok, live_parses);
    }
    (live, prev, step == SaveStep::Done)
}

fn files(live: &str, prev: &str, done: bool) -> (String, String, bool) {
    (live.to_string(), prev.to_string(), done)
}

#[test]
fn a_save_keeps_the_last_good_copy() {
    assert_eq!(saved("old", "older", true, None), files("new", "old", true));
    assert_eq!(saved("0000", "older", false, None), files("new", "older", true));
    assert_eq!(saved("old", "older", true, Some(SaveStep::Rotate)), files("new", "", true));
    assert_eq!(saved("old", "older", true, Some(SaveStep::Rename)), files("old", "old", false));
    assert_eq!(saved("old", "older", true, Some(SaveStep::WriteTemp)), files("old", "older", false));
    assert_eq!(saved("old", "older", true, Some(SaveStep::SyncDir)), files("new", "old", true));
}

#[test]
fn what_was_saved_is_loaded() {
    let readable = |t: &str| ["new", "old", "older"].contains(&t);
    let loaded = |live: &str, prev: &str| match load(readable(live), readable(prev)) {
        LoadStep::UseLive => live.to_string(),
        LoadStep::Recover => prev.to_string(),
        LoadStep::Fail => "nothing".to_string(),
    };
    for before in ["old", "0000"] {
        let (live, prev, done) = saved(before, "older", readable(before), None);
        assert!(done);
        assert_eq!(loaded(&live, &prev), "new");
        assert_eq!(loaded("0000", &prev), loaded(before, "older"));
    }
}
