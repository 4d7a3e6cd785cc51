use taskwarrior_tui::config::{validate_profile_name, PathFacts, ProfileError, ProfilesConfig};
use taskwarrior_tui::validation::{Validation, ValidationAction, ValidationEvent};
use taskwarrior_tui::paths::{resolve_path, PathError};
use taskwarrior_tui::profile::{Profile, ProfileColor, ProfileMap};

fn profile(taskrc: &str, taskdata: &str, label: Option<&str>, color: Option<ProfileColor>) -> Profile {
  Profile {
    taskrc: taskrc.to_string(),
    taskdata: taskdata.to_string(),
    label: label.map(|l| l.to_string()),
    color,
  }
}

fn config_with(default: Option<&str>, entries: Vec<(&str, Profile)>) -> ProfilesConfig {
  let mut profiles = ProfileMap::new();
  for (name, p) in entries {
    profiles.insert(name.to_string(), p);
  }
  ProfilesConfig { default: default.map(|d| d.to_string()), profiles }
}

fn facts(taskrc_is_file: bool, taskdata_exists: bool, taskdata_is_dir: bool) -> PathFacts {
  PathFacts { taskrc_is_file, taskrc_open_error: None, taskdata_exists, taskdata_is_dir }
}

const BASE: &str = "/tmp/profile-test";
const HOME: &str = "/home/example";

#[test]
fn loads_and_resolves_valid_profiles() {
  let mut config = config_with(
    Some("work"),
    vec![("work", profile("work.taskrc", "data/work", Some("Work"), Some(ProfileColor::Yellow)))],
  );
  assert!(config.require_profiles().is_ok());
  assert!(config.validate_and_resolve_profile(0, BASE, HOME).is_ok());
  let parent = config.check_profile_files(0, &facts(true, false, false)).unwrap();
  assert_eq!(parent, Some("/tmp/profile-test/data".to_string()));
  assert!(config.check_default().is_ok());

  let active = config.resolve("work").unwrap();
  assert_eq!(active.label, "Work");
  assert_eq!(active.color, Some(ProfileColor::Yellow));
  assert_eq!(active.taskrc, "/tmp/profile-test/work.taskrc");
  assert_eq!(active.taskdata, "/tmp/profile-test/data/work");
}

#[test]
fn rejects_unknown_default_profile() {
  let config = config_with(Some("personal"), vec![("work", profile("work.taskrc", "work", None, None))]);
  let error = config.check_default().unwrap_err();
  assert!(error.message().contains("personal"));
  assert_eq!(error.message(), "Default profile 'personal' is not defined in 'profiles'");
}

#[test]
fn rejects_invalid_names_labels_and_taskrc_paths() {
  let mut invalid_name = config_with(None, vec![(".work", profile("work.taskrc", "work", None, None))]);
  let error = invalid_name.validate_and_resolve_profile(0, BASE, HOME).unwrap_err();
  assert!(error.message().contains("Invalid profile name"));

  let mut invalid_label = config_with(None, vec![("work", profile("work.taskrc", "work", Some("Work\nTasks"), None))]);
  let error = invalid_label.validate_and_resolve_profile(0, BASE, HOME).unwrap_err();
  assert!(error.message().contains("control characters"));

  let mut invalid_taskrc = config_with(None, vec![("work", profile("work.taskrc", "work", None, None))]);
  assert!(invalid_taskrc.validate_and_resolve_profile(0, BASE, HOME).is_ok());
  let error = invalid_taskrc.check_profile_files(0, &facts(false, true, true)).unwrap_err();
  assert!(error.message().contains("not a file"));
}

#[test]
fn expands_home_and_cleans_relative_paths() {
  let base = "/tmp/config/taskwarrior-tui";
  let home = "/home/example";
  assert_eq!(resolve_path("~/task/work", base, home).unwrap(), "/home/example/task/work");
  assert_eq!(resolve_path("../task/./work", base, home).unwrap(), "/tmp/config/task/work");
  assert!(resolve_path("~someone/task", base, home).is_err());
}

#[test]
fn home_alone_and_backslash_prefix_expand_to_home() {
  assert_eq!(resolve_path("~", "/base", "/home/example").unwrap(), "/home/example");
  assert_eq!(resolve_path("~\\task", "/base", "/home/example").unwrap(), "/home/example/task");
  assert_eq!(resolve_path("~/", "/base", "/home/example/").unwrap(), "/home/example");
}

#[test]
fn absolute_paths_ignore_the_configuration_directory() {
  assert_eq!(resolve_path("/srv//task/../data", "/base", "/home").unwrap(), "/srv/data");
  assert_eq!(resolve_path("data", "/base/", "/home").unwrap(), "/base/data");
  assert_eq!(resolve_path("~user", "/base", "/home").unwrap_err(), PathError::UnsupportedHomePath);
}

#[test]
fn profile_names_follow_the_naming_rule() {
  assert!(validate_profile_name("work").is_ok());
  assert!(validate_profile_name("w0rk.home-2_x").is_ok());
  assert!(validate_profile_name("9").is_ok());
  assert!(validate_profile_name("").is_err());
  assert!(validate_profile_name("-work").is_err());
  assert!(validate_profile_name("_work").is_err());
  assert!(validate_profile_name("wo rk").is_err());
  assert!(validate_profile_name("wörk").is_err());
  assert_eq!(
    validate_profile_name("a/b").unwrap_err().message(),
    "Invalid profile name 'a/b'; start with a letter or number and use only letters, numbers, '.', '-', and '_'"
  );
}

#[test]
fn empty_configuration_is_refused() {
  let config = config_with(None, vec![]);
  let error = config.require_profiles().unwrap_err();
  assert_eq!(error.message(), "Profile configuration must define at least one profile");
}

#[test]
fn blank_label_is_refused() {
  let mut config = config_with(None, vec![("work", profile("work.taskrc", "work", Some(" \t\u{3000}"), None))]);
  let error = config.validate_and_resolve_profile(0, BASE, HOME).unwrap_err();
  assert_eq!(error.message(), "Profile 'work' has an empty 'label' field");
}

#[test]
fn unexpandable_paths_are_refused_per_field() {
  let mut config = config_with(None, vec![("work", profile("~bob/rc", "work", None, None))]);
  let error = config.validate_and_resolve_profile(0, BASE, HOME).unwrap_err();
  assert_eq!(
    error.message(),
    "Profile 'work' has an invalid 'taskrc' field: Only '~' and '~/' home-relative paths are supported"
  );
  let mut config = config_with(None, vec![("work", profile("rc", "~bob/data", None, None))]);
  let error = config.validate_and_resolve_profile(0, BASE, HOME).unwrap_err();
  assert_eq!(
    error.message(),
    "Profile 'work' has an invalid 'taskdata' field: Only '~' and '~/' home-relative paths are supported"
  );
  assert_eq!(config.profiles.profile_at(0).taskrc, "rc");
}

#[test]
fn file_system_answers_decide_the_taskdata_checks() {
  let mut config = config_with(None, vec![("work", profile("rc", "/", None, None))]);
  assert!(config.validate_and_resolve_profile(0, BASE, HOME).is_ok());
  let error = config.check_profile_files(0, &facts(true, false, false)).unwrap_err();
  assert_eq!(error.message(), "Profile 'work' has an invalid 'taskdata' field");

  let error = config.check_profile_files(0, &facts(true, true, false)).unwrap_err();
  assert_eq!(error.message(), "Profile 'work' has a 'taskdata' path that is not a directory: /");
  assert_eq!(config.check_profile_files(0, &facts(true, true, true)).unwrap(), None);

  let unreadable = PathFacts {
    taskrc_is_file: true,
    taskrc_open_error: Some("permission denied".to_string()),
    taskdata_exists: true,
    taskdata_is_dir: true,
  };
  let error = config.check_profile_files(0, &unreadable).unwrap_err();
  assert_eq!(
    error.message(),
    "Profile 'work' has an unreadable 'taskrc' file at /tmp/profile-test/rc: permission denied"
  );
  let error = ProfileError::TaskdataParentUncreatable {
    profile: "work".to_string(),
    parent: "/x".to_string(),
    cause: "denied".to_string(),
  };
  assert_eq!(error.message(), "Profile 'work' has an uncreatable 'taskdata' parent at /x: denied");
}

#[test]
fn resolve_fills_the_label_from_the_name_and_refuses_unknown_names() {
  let config = config_with(None, vec![("work", profile("/rc", "/data", None, Some(ProfileColor::Green)))]);
  let active = config.resolve("work").unwrap();
  assert_eq!(active.name, "work");
  assert_eq!(active.label, "work");
  assert_eq!(active.color, Some(ProfileColor::Green));
  let error = config.resolve("personal").unwrap_err();
  assert_eq!(error.message(), "Unknown profile 'personal'");
}

#[test]
fn resolved_profiles_come_in_name_order_and_agree_with_resolve() {
  let config = config_with(
    None,
    vec![
      ("work", profile("/w", "/wd", Some("Work"), None)),
      ("Personal", profile("/p", "/pd", None, None)),
      ("home", profile("/h", "/hd", Some("Home"), Some(ProfileColor::Red))),
    ],
  );
  let resolved = config.resolved_profiles().unwrap();
  let names: Vec<&str> = resolved.iter().map(|a| a.name.as_str()).collect();
  assert_eq!(names, vec!["Personal", "home", "work"]);
  for active in &resolved {
    assert_eq!(&config.resolve(&active.name).unwrap(), active);
  }
}

#[test]
fn inserting_a_profile_again_replaces_it() {
  let mut map = ProfileMap::new();
  assert!(map.insert("b".to_string(), profile("/1", "/1", None, None)).is_none());
  assert!(map.insert("a".to_string(), profile("/2", "/2", None, None)).is_none());
  let old = map.insert("b".to_string(), profile("/3", "/3", None, None)).unwrap();
  assert_eq!(old.taskrc, "/1");
  assert_eq!(map.len(), 2);
  assert_eq!(map.name_at(0), "a");
  assert_eq!(map.get("b").unwrap().taskrc, "/3");
  assert!(map.get("c").is_none());
  assert!(map.contains_key("a"));
}

#[test]
fn set_paths_keeps_name_label_and_color() {
  let mut map = ProfileMap::new();
  map.insert("w".to_string(), profile("rc", "data", Some("W"), Some(ProfileColor::Cyan)));
  map.set_paths(0, "/new/rc".to_string(), "/new/data".to_string());
  let p = map.profile_at(0);
  assert_eq!(p.taskrc, "/new/rc");
  assert_eq!(p.taskdata, "/new/data");
  assert_eq!(p.label.as_deref(), Some("W"));
  assert_eq!(p.color, Some(ProfileColor::Cyan));
  assert_eq!(map.name_at(0), "w");
}

fn run(config: ProfilesConfig) -> Validation {
  Validation::new(config, BASE.to_string(), HOME.to_string())
}

fn observe_action(action: ValidationAction) -> (String, String) {
  match action {
    ValidationAction::Observe { taskrc, taskdata } => (taskrc, taskdata),
    other => panic!("unexpected step {:?}", other),
  }
}

fn failure(action: ValidationAction) -> String {
  match action {
    ValidationAction::Done(Err(error)) => error.message(),
    other => panic!("unexpected step {:?}", other),
  }
}

#[test]
fn validation_steps_visit_profiles_in_name_order_then_the_default() {
  let config = config_with(
    Some("work"),
    vec![("work", profile("w.rc", "w/data", None, None)), ("home", profile("h.rc", "h/data", None, None))],
  );
  let validation = run(config);
  assert!(validation.awaits(&ValidationEvent::Begin));
  let (validation, action) = validation.step(ValidationEvent::Begin);
  assert_eq!(
    observe_action(action),
    ("/tmp/profile-test/h.rc".to_string(), "/tmp/profile-test/h/data".to_string())
  );
  assert_eq!(validation.config().profiles.profile_at(0).taskrc, "/tmp/profile-test/h.rc");
  assert!(!validation.awaits(&ValidationEvent::Begin));
  assert!(!validation.awaits(&ValidationEvent::ParentCreated(None)));
  let (validation, action) = validation.step(ValidationEvent::Observed(facts(true, false, false)));
  match action {
    ValidationAction::CreateParent(parent) => assert_eq!(parent, "/tmp/profile-test/h"),
    other => panic!("unexpected step {:?}", other),
  }
  assert!(validation.awaits(&ValidationEvent::ParentCreated(None)));
  let (validation, action) = validation.step(ValidationEvent::ParentCreated(None));
  assert_eq!(
    observe_action(action),
    ("/tmp/profile-test/w.rc".to_string(), "/tmp/profile-test/w/data".to_string())
  );
  let (validation, action) = validation.step(ValidationEvent::Observed(facts(true, true, true)));
  assert!(matches!(action, ValidationAction::Done(Ok(()))));
  assert!(!validation.awaits(&ValidationEvent::Begin));
  let config = validation.into_config();
  assert_eq!(config.profiles.profile_at(1).taskdata, "/tmp/profile-test/w/data");
  assert_eq!(config.default.as_deref(), Some("work"));
}

#[test]
fn validation_steps_stop_at_the_first_failure() {
  let (_, action) = run(config_with(None, vec![])).step(ValidationEvent::Begin);
  assert_eq!(failure(action), "Profile configuration must define at least one profile");

  let (validation, action) = run(config_with(Some("nope"), vec![("a", profile("rc", "data", None, None))])).step(ValidationEvent::Begin);
  observe_action(action);
  let (_, action) = validation.step(ValidationEvent::Observed(facts(true, true, true)));
  assert_eq!(failure(action), "Default profile 'nope' is not defined in 'profiles'");

  let (validation, action) = run(config_with(None, vec![("a", profile("rc", "data", None, None))])).step(ValidationEvent::Begin);
  observe_action(action);
  let (validation, action) = validation.step(ValidationEvent::Observed(facts(true, false, false)));
  assert!(matches!(action, ValidationAction::CreateParent(_)));
  let (_, action) = validation.step(ValidationEvent::ParentCreated(Some("denied".to_string())));
  assert_eq!(failure(action), "Profile 'a' has an uncreatable 'taskdata' parent at /tmp/profile-test: denied");

  let config = config_with(None, vec![("a", profile("rc", "data", None, None)), ("b", profile("~x", "data", None, None))]);
  let (validation, action) = run(config).step(ValidationEvent::Begin);
  observe_action(action);
  let (_, action) = validation.step(ValidationEvent::Observed(facts(true, true, true)));
  assert!(failure(action).contains("'b' has an invalid 'taskrc' field"));
}

#[test]
fn validation_checks_every_profile_before_accepting() {
  let config = config_with(None, vec![("a", profile("rc", "data", None, None)), ("b!", profile("rc", "data", None, None))]);
  let (validation, action) = run(config).step(ValidationEvent::Begin);
  assert_eq!(observe_action(action).0, "/tmp/profile-test/rc");
  let (validation, action) = validation.step(ValidationEvent::Observed(facts(true, true, true)));
  assert!(failure(action).contains("Invalid profile name 'b!'"));
  assert_eq!(validation.config().profiles.profile_at(1).taskrc, "rc");
}

#[test]
fn validation_refuses_a_taskrc_that_is_not_a_file() {
  let config = config_with(None, vec![("a", profile("rc", "data", None, None))]);
  let (validation, _) = run(config).step(ValidationEvent::Begin);
  let (_, action) = validation.step(ValidationEvent::Observed(facts(false, true, true)));
  assert_eq!(failure(action), "Profile 'a' has a 'taskrc' path that is not a file: /tmp/profile-test/rc");
}

#[test]
fn resolved_paths_resolve_to_themselves() {
  let r = resolve_path("../a/./b//c/..", "/base/x", "/home/u").unwrap();
  assert_eq!(r, "/base/a/b");
  assert_eq!(resolve_path(&r, "/elsewhere", "/other").unwrap(), r);
  let h = resolve_path("~/../..", "/base", "/home/u").unwrap();
  assert_eq!(h, "/");
  assert_eq!(resolve_path(&h, "/b", "/h").unwrap(), "/");
}
