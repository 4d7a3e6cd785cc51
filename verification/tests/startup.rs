use taskwarrior_tui::config::{ProfilesConfig};
use taskwarrior_tui::paths::absolute_path;
use taskwarrior_tui::profile::{Profile, ProfileColor, ProfileMap};
use taskwarrior_tui::startup::{
  config_directory, load_profile_menu, log_level, profile_environment, profile_listing, replacement_command, ConfigDirError,
  LaunchOptions, LogLevel,
};

fn config(default: Option<&str>) -> ProfilesConfig {
  let mut profiles = ProfileMap::new();
  profiles.insert(
    "work".to_string(),
    Profile { taskrc: "/w/rc".to_string(), taskdata: "/w/data".to_string(), label: Some("Work".to_string()), color: Some(ProfileColor::Yellow) },
  );
  profiles.insert(
    "personal".to_string(),
    Profile { taskrc: "/p/rc".to_string(), taskdata: "/p/data".to_string(), label: None, color: None },
  );
  ProfilesConfig { default: default.map(|d| d.to_string()), profiles }
}

#[test]
fn replacement_command_selects_profile_and_removes_inherited_task_paths() {
  let command = replacement_command("/usr/bin/taskwarrior-tui", "personal", "waiting", Some("/tmp/config"), Some("/tmp/data"));
  assert_eq!(command.program, "/usr/bin/taskwarrior-tui");
  assert_eq!(
    command.args,
    vec!["--profile", "personal", "--report", "waiting", "--config", "/tmp/config", "--data", "/tmp/data"]
  );
  assert!(command.removed_env.contains(&"TASKRC".to_string()));
  assert!(command.removed_env.contains(&"TASKDATA".to_string()));
}

#[test]
fn replacement_command_without_folders() {
  let command = replacement_command("/bin/t", "work", "next", None, None);
  assert_eq!(command.args, vec!["--profile", "work", "--report", "next"]);
}

#[test]
fn requested_profile_wins_over_the_default() {
  let menu = load_profile_menu("/c/profiles.toml", Some(config(Some("work"))), Some("personal")).unwrap().unwrap();
  assert_eq!(menu.active.name, "personal");
  assert_eq!(menu.active.label, "personal");
  let names: Vec<&str> = menu.profiles.iter().map(|p| p.name.as_str()).collect();
  assert_eq!(names, vec!["personal", "work"]);
}

#[test]
fn default_profile_is_used_when_none_is_requested() {
  let menu = load_profile_menu("/c/profiles.toml", Some(config(Some("work"))), None).unwrap().unwrap();
  assert_eq!(menu.active.name, "work");
  assert_eq!(menu.active.label, "Work");
  assert_eq!(menu.table_state.current_selection(), Some(0));
}

#[test]
fn profile_selection_fails_closed() {
  let error = load_profile_menu("/c/profiles.toml", Some(config(None)), None).err().unwrap();
  assert_eq!(error.message(), "No default profile is configured in /c/profiles.toml; use --profile <NAME>");
  let error = load_profile_menu("/c/profiles.toml", Some(config(None)), Some("school")).err().unwrap();
  assert_eq!(error.message(), "Unknown profile 'school'");
  let error = load_profile_menu("/c/profiles.toml", None, Some("work")).err().unwrap();
  assert_eq!(
    error.message(),
    "Cannot select profile 'work': profile configuration was not found at /c/profiles.toml"
  );
  assert!(load_profile_menu("/c/profiles.toml", None, None).unwrap().is_none());
}

#[test]
fn config_directory_precedence() {
  assert_eq!(config_directory(Some("cfg/./x"), Some("/xdg"), Some("/home/u"), Some("/cwd")).unwrap(), "/cwd/cfg/x");
  assert_eq!(config_directory(None, Some("/xdg"), Some("/home/u"), Some("/cwd")).unwrap(), "/xdg/taskwarrior-tui");
  assert_eq!(config_directory(None, None, Some("/home/u"), Some("/cwd")).unwrap(), "/home/u/.config/taskwarrior-tui");
  assert_eq!(config_directory(None, None, None, Some("/cwd")).unwrap_err(), ConfigDirError::NoHomeDirectory);
  assert_eq!(config_directory(Some("rel"), None, None, None).unwrap_err(), ConfigDirError::UnresolvableTuiConfig);
  assert_eq!(config_directory(None, Some("rel"), None, None).unwrap_err(), ConfigDirError::UnresolvableXdgConfigHome);
  assert_eq!(ConfigDirError::NoHomeDirectory.message(), "Unable to find the home directory");
}

#[test]
fn absolute_path_uses_the_current_directory_only_for_relative_paths() {
  assert_eq!(absolute_path("/a/../b", None), Some("/b".to_string()));
  assert_eq!(absolute_path("x/y", Some("/cwd")), Some("/cwd/x/y".to_string()));
  assert_eq!(absolute_path("x", None), None);
}

#[test]
fn profile_environment_sets_both_task_paths() {
  let menu = load_profile_menu("/c/profiles.toml", Some(config(Some("work"))), None).unwrap().unwrap();
  let env = profile_environment(&menu.active);
  assert_eq!(env.len(), 2);
  assert_eq!((env[0].key.as_str(), env[0].value.as_str()), ("TASKRC", "/w/rc"));
  assert_eq!((env[1].key.as_str(), env[1].value.as_str()), ("TASKDATA", "/w/data"));
}

#[test]
fn listing_marks_the_default_profile() {
  let lines = profile_listing(&config(Some("work")));
  assert_eq!(lines, vec!["NAME\tLABEL\tDEFAULT", "personal\tpersonal\t", "work\tWork\tyes"]);
}

#[test]
fn log_level_names() {
  assert_eq!(log_level(None), LogLevel::Info);
  assert_eq!(log_level(Some("off")), LogLevel::Off);
  assert_eq!(log_level(Some("warn")), LogLevel::Warn);
  assert_eq!(log_level(Some("debug")), LogLevel::Debug);
  assert_eq!(log_level(Some("trace")), LogLevel::Trace);
  assert_eq!(log_level(Some("error")), LogLevel::Info);
  assert_eq!(log_level(Some("TRACE")), LogLevel::Info);
}

#[test]
fn launch_options_decide_the_environment() {
  let options = LaunchOptions {
    config: Some("cfg".to_string()),
    data: None,
    taskrc: Some("rc".to_string()),
    taskdata: None,
    profile: None,
    report: None,
    list_profiles: false,
  };
  assert_eq!(options.report_name(), "next");
  assert!(!options.uses_profiles());
  let folders = options.folder_defaults();
  assert_eq!(folders.len(), 1);
  assert_eq!((folders[0].key.as_str(), folders[0].path.as_str(), folders[0].option.as_str()), ("TASKWARRIOR_TUI_CONFIG", "cfg", "config"));
  let task = options.taskwarrior_defaults();
  assert_eq!(task.len(), 1);
  assert_eq!((task[0].key.as_str(), task[0].path.as_str(), task[0].option.as_str()), ("TASKRC", "rc", "taskrc"));

  let plain = LaunchOptions { config: None, data: None, taskrc: None, taskdata: None, profile: Some("work".to_string()), report: Some("waiting".to_string()), list_profiles: true };
  assert!(plain.uses_profiles());
  assert_eq!(plain.report_name(), "waiting");
  assert!(plain.folder_defaults().is_empty());
  assert!(plain.taskwarrior_defaults().is_empty());
}

#[test]
fn a_selected_profile_overrides_the_task_paths() {
  let menu = load_profile_menu("/c/profiles.toml", Some(config(Some("work"))), None).unwrap().unwrap();
  let options = LaunchOptions { config: None, data: None, taskrc: None, taskdata: None, profile: None, report: None, list_profiles: false };
  let plan = options.taskwarrior_environment(Some(&menu.active));
  assert_eq!(plan.set.len(), 2);
  assert_eq!((plan.set[0].key.as_str(), plan.set[0].value.as_str()), ("TASKRC", "/w/rc"));
  assert_eq!((plan.set[1].key.as_str(), plan.set[1].value.as_str()), ("TASKDATA", "/w/data"));
  assert!(plan.set_if_unset.is_empty());

  let direct = LaunchOptions { config: None, data: None, taskrc: None, taskdata: Some("td".to_string()), profile: None, report: None, list_profiles: false };
  let plan = direct.taskwarrior_environment(None);
  assert!(plan.set.is_empty());
  assert_eq!(plan.set_if_unset.len(), 1);
  assert_eq!(
    (plan.set_if_unset[0].key.as_str(), plan.set_if_unset[0].path.as_str(), plan.set_if_unset[0].option.as_str()),
    ("TASKDATA", "td", "taskdata")
  );
}
