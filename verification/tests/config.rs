use z13helper::config::{builtin_profiles, Config, ConfigError, CONFIG_VERSION, MAX_CONFIG_BYTES};
use z13helper::config_store::{
    accept_config, check_config_size, check_schema, check_version, existing_config,
    judge_backup_slot, judge_created_sibling, next_save_step, sibling_candidate, temp_base,
    usable_backup_slot, LoadAction, PathKind, SaveStep, SlotStep, StoredConfig, SIBLING_LIMIT,
};

#[test]
fn defaults_have_three_builtins_and_panel_policy() {
    let cfg = Config::default();
    assert_eq!(cfg.profiles.len(), 3);
    assert!(cfg.find("silent").unwrap().builtin);
    assert!(!cfg.find("silent").unwrap().apply_power_limits);
    assert_eq!(cfg.find("silent").unwrap().pl1_spl, 40);
    assert_eq!(cfg.find("balanced").unwrap().pl1_spl, 52);
    assert_eq!(cfg.find("turbo").unwrap().pl1_spl, 70);
    assert!(!cfg.panel_overdrive_always_on);
    assert!(cfg.panel_overdrive_enabled(false));
    assert!(!cfg.panel_overdrive_enabled(true));
    let cfg = Config {
        panel_overdrive_always_on: true,
        ..Config::default()
    };
    assert!(cfg.panel_overdrive_enabled(false));
    assert!(cfg.panel_overdrive_enabled(true));
}

#[test]
fn add_rename_remove_custom() {
    let mut cfg = Config::default();
    let p = cfg.add_custom();
    assert_eq!(p.name, "Custom 1");
    assert!(!p.builtin);
    let id = p.id.clone();
    assert!(cfg.rename(&id, "Gaming"));
    assert_eq!(cfg.find(&id).unwrap().name, "Gaming");
    assert!(!cfg.rename("balanced", "Nope"));
    assert!(cfg.remove(&id));
    assert!(!cfg.remove("silent"));
    assert_eq!(cfg.active_profile, "balanced");
}

#[test]
fn custom_ids_stay_unique_after_deletion() {
    let mut cfg = Config::default();
    let first = cfg.add_custom().id.clone();
    let second = cfg.add_custom().id.clone();
    cfg.remove(&first);
    assert_eq!(cfg.add_custom().id, first);
    assert_ne!(first, second);
}

#[test]
fn removing_profile_repairs_remembered_references() {
    let mut cfg = Config::default();
    let id = cfg.add_custom().id.clone();
    cfg.last_profile_on_ac = id.clone();
    cfg.last_profile_on_battery = id.clone();
    assert!(cfg.remove(&id));
    assert_eq!(cfg.last_profile_on_ac, "balanced");
    assert_eq!(cfg.last_profile_on_battery, "balanced");
}

#[test]
fn custom_profiles_copy_the_active_one() {
    let mut cfg = Config::default();
    cfg.active_profile = "turbo".into();
    let custom = cfg.add_custom();
    assert_eq!(custom.id, "custom-1");
    assert_eq!(custom.pl1_spl, 70);
    assert_eq!(cfg.active_profile, "custom-1");
    assert!(cfg.validate().is_ok());
}

#[test]
fn found_profiles_can_be_edited_in_place() {
    let mut cfg = Config::default();
    cfg.find_mut("turbo").unwrap().pl1_spl = 71;
    assert_eq!(cfg.find("turbo").unwrap().pl1_spl, 71);
    assert_eq!(cfg.find("silent").unwrap().pl1_spl, 40);
    assert!(cfg.find_mut("missing").is_none());
    assert_eq!(cfg.active().unwrap().id, "balanced");
}

#[test]
fn power_source_remembers_its_profile() {
    let mut cfg = Config::default();
    cfg.set_active_for_power_source("silent", true);
    assert_eq!(cfg.active_profile, "silent");
    assert_eq!(cfg.last_profile_on_battery, "silent");
    cfg.set_active_for_power_source("turbo", false);
    assert_eq!(cfg.last_profile_on_ac, "turbo");
    assert_eq!(cfg.last_profile_on_battery, "silent");
}

fn invalid_message(cfg: &Config) -> String {
    match cfg.validate() {
        Err(ConfigError::Invalid(message)) => message,
        other => panic!("expected an invalid configuration, got {other:?}"),
    }
}

#[test]
fn every_broken_rule_is_named() {
    let mut cfg = Config::default();
    cfg.version = 2;
    assert_eq!(
        cfg.validate(),
        Err(ConfigError::UnsupportedVersion(2))
    );

    let mut cfg = Config::default();
    cfg.profiles[0].id = " \t".into();
    assert_eq!(invalid_message(&cfg), "profile id must not be empty");

    let mut cfg = Config::default();
    let twin = cfg.profiles[0].clone();
    cfg.profiles.push(twin);
    assert_eq!(invalid_message(&cfg), "duplicate profile id \"silent\"");

    let mut cfg = Config::default();
    cfg.profiles[1].builtin = false;
    assert_eq!(
        invalid_message(&cfg),
        "profile \"balanced\" has an invalid builtin flag"
    );

    let mut cfg = Config::default();
    cfg.active_profile = "mi\"ssing".into();
    assert_eq!(
        invalid_message(&cfg),
        "profile reference \"mi\\\"ssing\" does not exist"
    );

    let mut cfg = Config::default();
    cfg.active_profile = "silent".into();
    cfg.last_profile_on_ac = "silent".into();
    cfg.last_profile_on_battery = "silent".into();
    cfg.profiles.remove(2);
    assert_eq!(invalid_message(&cfg), "missing built-in profile \"turbo\"");

    let mut cfg = Config::default();
    cfg.profiles[0].pl1_spl = 94;
    assert!(matches!(cfg.validate(), Err(ConfigError::Invalid(_))));
}

#[test]
fn defaults_are_valid_and_list_the_builtins() {
    assert!(Config::default().validate().is_ok());
    assert_eq!(Config::default().version, CONFIG_VERSION);
    assert_eq!(builtin_profiles().len(), 3);
}

#[test]
fn error_messages_carry_their_cause() {
    assert!(ConfigError::Io("gone".into()).message().contains("gone"));
    assert!(ConfigError::Json("eof".into()).message().contains("eof"));
    assert!(ConfigError::Preservation("full".into())
        .message()
        .contains("full"));
    assert!(ConfigError::UnsupportedVersion(7).message().contains('7'));
}

#[test]
fn default_path_follows_the_environment() {
    assert_eq!(
        Config::default_path(Some("/cfg"), Some("/home/u")),
        "/cfg/z13helper/config.json"
    );
    assert_eq!(
        Config::default_path(None, Some("/home/u")),
        "/home/u/.config/z13helper/config.json"
    );
    assert_eq!(
        Config::default_path(None, None),
        "./.config/z13helper/config.json"
    );
}

#[test]
fn schema_is_judged_before_the_content() {
    assert!(matches!(
        check_schema(b"{not json!!!"),
        Err(ConfigError::Json(_))
    ));
    assert_eq!(
        check_schema(br#"{"profiles":[]}"#),
        Err(ConfigError::UnsupportedVersion(0))
    );
    assert_eq!(
        check_schema(br#"{"version":99,"future_data":"keep me"}"#),
        Err(ConfigError::UnsupportedVersion(99))
    );
    assert!(check_schema(br#"{"version":1}"#).is_ok());
    assert_eq!(
        check_schema(br#"{"version":"1"}"#),
        Err(ConfigError::UnsupportedVersion(0))
    );
    assert_eq!(
        check_schema(b"[1]"),
        Err(ConfigError::UnsupportedVersion(0))
    );
}

#[test]
fn versions_are_judged_by_their_low_bits() {
    assert!(check_version(Some(1)).is_ok());
    assert!(check_version(Some(0x1_0000_0001)).is_ok());
    assert_eq!(
        check_version(Some(4294967301)),
        Err(ConfigError::UnsupportedVersion(5))
    );
    assert_eq!(
        check_version(Some(u64::MAX)),
        Err(ConfigError::UnsupportedVersion(u32::MAX))
    );
    assert_eq!(
        check_schema(br#"{"version":4294967298}"#),
        Err(ConfigError::UnsupportedVersion(2))
    );
    assert_eq!(check_version(None), Err(ConfigError::UnsupportedVersion(0)));
}

#[test]
fn a_version_that_does_not_fit_is_refused_when_decoded() {
    let text = serde_json::from_value::<u32>(serde_json::Value::from(4294967297u64))
        .unwrap_err()
        .to_string();
    let parsed = Config::parse_bytes(br#"{"version":4294967297}"#, Err(text.clone()));
    assert_eq!(parsed, Err(ConfigError::Invalid(text)));
    assert!(matches!(
        Config::load_or_default(StoredConfig::Read(parsed)),
        LoadAction::Fail(ConfigError::Invalid(_))
    ));
}

#[test]
fn a_saved_config_loads_back() {
    let config = Config::default();
    assert!(config.save().is_ok());
    let parsed = Config::parse_bytes(br#"{"version":1}"#, Ok(config));
    match Config::load_or_default(StoredConfig::Read(parsed)) {
        LoadAction::Use(loaded) => assert_eq!(loaded, Config::default()),
        _ => panic!("the saved configuration was not used"),
    }
}

#[test]
fn taken_sibling_names_give_way_to_the_next() {
    assert_eq!(judge_created_sibling(0, false), SlotStep::Take);
    assert_eq!(judge_created_sibling(0, true), SlotStep::Try(1));
    assert_eq!(judge_created_sibling(9998, true), SlotStep::Try(9999));
    assert_eq!(judge_created_sibling(9999, true), SlotStep::Exhausted);
    assert_eq!(judge_created_sibling(9999, false), SlotStep::Take);
    assert_eq!(judge_created_sibling(u64::MAX, true), SlotStep::Exhausted);
}

#[test]
fn syntax_errors_carry_the_parser_text() {
    let text = serde_json::from_slice::<serde_json::Value>(b"{not json!!!")
        .unwrap_err()
        .to_string();
    assert_eq!(check_schema(b"{not json!!!"), Err(ConfigError::Json(text)));
}

#[test]
fn decoded_content_is_validated() {
    assert!(accept_config(Ok(Config::default())).is_ok());
    assert_eq!(
        accept_config(Err("missing field".into())),
        Err(ConfigError::Invalid("missing field".into()))
    );
    let mut broken = Config::default();
    broken.active_profile = "missing".into();
    assert!(matches!(
        Config::parse_bytes(br#"{"version":1}"#, Ok(broken)),
        Err(ConfigError::Invalid(_))
    ));
}

#[test]
fn only_missing_and_corrupt_files_are_reseeded() {
    assert!(matches!(
        Config::load_or_default(StoredConfig::Missing),
        LoadAction::Seed(_)
    ));
    assert!(matches!(
        Config::load_or_default(StoredConfig::Read(Err(ConfigError::Json("x".into())))),
        LoadAction::PreserveAndSeed(_)
    ));
    assert!(matches!(
        Config::load_or_default(StoredConfig::Read(Err(ConfigError::Invalid("x".into())))),
        LoadAction::Fail(ConfigError::Invalid(_))
    ));
    assert!(matches!(
        Config::load_or_default(StoredConfig::Read(Err(ConfigError::UnsupportedVersion(99)))),
        LoadAction::Fail(ConfigError::UnsupportedVersion(99))
    ));
    assert!(matches!(
        Config::load_or_default(StoredConfig::Refused(ConfigError::Io("symlink".into()))),
        LoadAction::Fail(ConfigError::Io(_))
    ));
    assert!(matches!(
        Config::load_or_default(StoredConfig::Read(Ok(Config::default()))),
        LoadAction::Use(_)
    ));
}

#[test]
fn only_regular_files_are_read() {
    assert_eq!(existing_config(PathKind::Missing, "/c"), Ok(false));
    assert_eq!(existing_config(PathKind::Regular, "/c"), Ok(true));
    assert_eq!(
        existing_config(PathKind::Symlink, "/c"),
        Err(ConfigError::Io("config path /c is a symlink".into()))
    );
    assert_eq!(
        existing_config(PathKind::Other, "/c"),
        Err(ConfigError::Io(
            "config path /c is not a regular file".into()
        ))
    );
    assert!(check_config_size(MAX_CONFIG_BYTES, "/c").is_ok());
    assert_eq!(
        check_config_size(MAX_CONFIG_BYTES + 1, "/c"),
        Err(ConfigError::Io("config /c exceeds 1048576 bytes".into()))
    );
}

fn steps(had_existing: bool) -> Vec<SaveStep> {
    let mut step = Config::default().save().unwrap();
    let mut seen = vec![step];
    while step != SaveStep::Done {
        step = next_save_step(step, had_existing);
        seen.push(step);
    }
    seen
}

#[test]
fn saves_back_up_before_they_publish() {
    assert_eq!(
        steps(false),
        [
            SaveStep::CreateDirectory,
            SaveStep::InspectPath,
            SaveStep::WriteTemporary,
            SaveStep::Publish,
            SaveStep::SyncParent,
            SaveStep::Done,
        ]
    );
    let with_backup = steps(true);
    let backed_up = with_backup
        .iter()
        .position(|step| *step == SaveStep::SyncBackup)
        .unwrap();
    let published = with_backup
        .iter()
        .position(|step| *step == SaveStep::Publish)
        .unwrap();
    assert!(backed_up < published);
    assert_eq!(with_backup.len(), 11);
    let mut broken = Config::default();
    broken.version = 0;
    assert!(broken.save().is_err());
}

#[test]
fn sibling_names_are_numbered() {
    assert_eq!(sibling_candidate("config.json.bak", 0), "config.json.bak");
    assert_eq!(sibling_candidate("config.json.bak", 12), "config.json.bak.12");
    assert_eq!(temp_base("config.json", 7, 11, 3), ".config.json.7-11-3.tmp");
    assert!(usable_backup_slot(PathKind::Missing));
    assert!(usable_backup_slot(PathKind::Regular));
    assert!(!usable_backup_slot(PathKind::Symlink));
    assert!(!usable_backup_slot(PathKind::Other));
}

/// Carries out a save on files in memory that stops at its step number `stop`;
/// what the file and its backup hold then.
fn interrupted_save(previous: Option<&str>, stop: usize) -> (Option<String>, Option<String>) {
    let mut file = previous.map(str::to_owned);
    let mut backup = None;
    let mut backup_temporary = None;
    let mut temporary = None;
    for step in steps(previous.is_some()).into_iter().take(stop) {
        match step {
            SaveStep::WriteBackup => backup_temporary = file.clone(),
            SaveStep::PublishBackup => backup = backup_temporary.take(),
            SaveStep::WriteTemporary => temporary = Some("new".to_owned()),
            SaveStep::Publish => file = temporary.take(),
            _ => {}
        }
    }
    (file, backup)
}

#[test]
fn an_interrupted_save_leaves_the_old_or_the_new_file() {
    for previous in [None, Some("old")] {
        let all = steps(previous.is_some());
        let publish = all
            .iter()
            .position(|step| *step == SaveStep::Publish)
            .unwrap();
        for stop in 0..=all.len() {
            let (file, backup) = interrupted_save(previous, stop);
            if stop <= publish {
                assert_eq!(file.as_deref(), previous);
            } else {
                assert_eq!(file.as_deref(), Some("new"));
                assert_eq!(backup.as_deref(), previous);
            }
        }
    }
}

#[test]
fn a_backup_takes_the_first_safe_slot() {
    assert_eq!(judge_backup_slot(0, PathKind::Regular), SlotStep::Take);
    assert_eq!(judge_backup_slot(3, PathKind::Missing), SlotStep::Take);
    assert_eq!(judge_backup_slot(0, PathKind::Symlink), SlotStep::Try(1));
    assert_eq!(
        judge_backup_slot(SIBLING_LIMIT - 1, PathKind::Other),
        SlotStep::Exhausted
    );
    assert_eq!(
        judge_backup_slot(u64::MAX, PathKind::Other),
        SlotStep::Exhausted
    );
}
