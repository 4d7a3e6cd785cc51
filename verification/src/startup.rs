//! Decisions taken when the program starts: where the configuration lives,
//! which profile is selected, which environment variables are set, how a
//! profile switch restarts the program, and the log level.

use vstd::prelude::*;
use vstd::string::*;

use crate::config::{spec_resolved, ProfileError, ProfileErrorView, ProfilesConfig, ProfilesConfigView};
use crate::menu::ProfileMenuState;
use crate::paths::{absolute_path, clean_path, join, join_path, spec_absolute_path, spec_clean_path};
use crate::profile::{active_from, active_views, lookup, ActiveProfile, ActiveProfileView};
use crate::text::{opt_view, text_eq};

verus! {

/// The characters of each string.
pub open spec fn string_views(v: Seq<String>) -> Seq<Seq<char>> {
    v.map_values(|s: String| s@)
}

/// The profile picker to start with, given the path of `profiles.toml`, its
/// contents when it exists (`None` when it does not), and the profile
/// requested on the command line. Without a configuration there is no
/// picker, and a requested profile is refused. With one, the requested
/// profile, else the default profile, becomes active, and every profile is
/// offered in name order.
pub fn load_profile_menu(profiles_path: &str, config: Option<ProfilesConfig>, requested: Option<&str>) -> (res: Result<Option<ProfileMenuState>, ProfileError>)
    ensures
        match config {
            None => match requested {
                Some(name) => res matches Err(e) && e@ == (ProfileErrorView::ConfigurationMissing {
                    name: name@,
                    path: profiles_path@,
                }),
                None => res matches Ok(None),
            },
            Some(c) => match (match requested {
                Some(name) => Some(name@),
                None => c@.default,
            }) {
                None => res matches Err(e) && e@ == (ProfileErrorView::NoDefaultProfile {
                    path: profiles_path@,
                }),
                Some(selected) => match lookup(c.profiles@, selected) {
                    None => res matches Err(e) && e@ == (ProfileErrorView::UnknownProfile {
                        name: selected,
                    }),
                    Some(p) => res matches Ok(Some(menu)) && menu.active@ == active_from(
                        selected,
                        p,
                    ) && active_views(menu.profiles@) == spec_resolved(c.profiles@)
                        && menu.search@.len() == 0 && menu.table_state.selection() == Some(0usize)
                        && menu.table_state.first_row() == 0,
                },
            },
        },
{
    let config = match config {
        Some(c) => c,
        None => {
            return match requested {
                Some(name) => Err(
                    ProfileError::ConfigurationMissing {
                        name: name.to_owned(),
                        path: profiles_path.to_owned(),
                    },
                ),
                None => Ok(None),
            };
        },
    };
    let selected_name: String = match requested {
        Some(name) => name.to_owned(),
        None => match &config.default {
            Some(d) => d.clone(),
            None => {
                return Err(ProfileError::NoDefaultProfile { path: profiles_path.to_owned() });
            },
        },
    };
    let active = match config.resolve(selected_name.as_str()) {
        Ok(a) => a,
        Err(e) => {
            return Err(e);
        },
    };
    let profiles = match config.resolved_profiles() {
        Ok(v) => v,
        Err(e) => {
            return Err(e);
        },
    };
    Ok(Some(ProfileMenuState::new(active, profiles)))
}

/// Why the configuration directory could not be found.
#[derive(Clone, Copy, Debug, PartialEq, Eq)]
pub enum ConfigDirError {
    /// `TASKWARRIOR_TUI_CONFIG` is relative and the current directory is unknown.
    UnresolvableTuiConfig,
    /// `XDG_CONFIG_HOME` is relative and the current directory is unknown.
    UnresolvableXdgConfigHome,
    /// Neither `XDG_CONFIG_HOME` nor a home directory is known.
    NoHomeDirectory,
}

impl ConfigDirError {
    /// The text that explains the error.
    pub fn message(&self) -> (r: String)
        ensures
            r@ == match *self {
                ConfigDirError::UnresolvableTuiConfig => "Unable to resolve TASKWARRIOR_TUI_CONFIG"@,
                ConfigDirError::UnresolvableXdgConfigHome => "Unable to resolve XDG_CONFIG_HOME"@,
                ConfigDirError::NoHomeDirectory => "Unable to find the home directory"@,
            },
    {
        match self {
            ConfigDirError::UnresolvableTuiConfig => String::from_str(
                "Unable to resolve TASKWARRIOR_TUI_CONFIG",
            ),
            ConfigDirError::UnresolvableXdgConfigHome => String::from_str(
                "Unable to resolve XDG_CONFIG_HOME",
            ),
            ConfigDirError::NoHomeDirectory => String::from_str("Unable to find the home directory"),
        }
    }
}

/// The configuration directory: `TASKWARRIOR_TUI_CONFIG` made absolute when
/// it is set; otherwise `taskwarrior-tui` under `XDG_CONFIG_HOME` (made
/// absolute) or under `.config` in the home directory, cleaned.
pub open spec fn spec_config_directory(
    tui_config: Option<Seq<char>>,
    xdg_config_home: Option<Seq<char>>,
    home_dir: Option<Seq<char>>,
    current_dir: Option<Seq<char>>,
) -> Result<Seq<char>, ConfigDirError> {
    match tui_config {
        Some(p) => match spec_absolute_path(p, current_dir) {
            Some(r) => Ok(r),
            None => Err(ConfigDirError::UnresolvableTuiConfig),
        },
        None => {
            let base = match xdg_config_home {
                Some(x) => match spec_absolute_path(x, current_dir) {
                    Some(r) => Ok(r),
                    None => Err(ConfigDirError::UnresolvableXdgConfigHome),
                },
                None => match home_dir {
                    Some(h) => Ok(join(h, ".config"@)),
                    None => Err(ConfigDirError::NoHomeDirectory),
                },
            };
            match base {
                Ok(b) => Ok(spec_clean_path(join(b, "taskwarrior-tui"@))),
                Err(e) => Err(e),
            }
        },
    }
}

/// Where the configuration directory comes from. A set
/// `TASKWARRIOR_TUI_CONFIG` is the directory itself, made absolute against
/// the current directory and cleaned, whatever `XDG_CONFIG_HOME` and the home
/// directory are. Otherwise the directory is `taskwarrior-tui` under
/// `XDG_CONFIG_HOME` (made absolute and cleaned), or under `.config` in the
/// home directory, cleaned.
pub proof fn law_config_directory_sources(
    tui_config: Option<Seq<char>>,
    xdg_config_home: Option<Seq<char>>,
    home_dir: Option<Seq<char>>,
    current_dir: Option<Seq<char>>,
    other_xdg: Option<Seq<char>>,
    other_home: Option<Seq<char>>,
)
    ensures
        tui_config is Some ==> spec_config_directory(tui_config, xdg_config_home, home_dir, current_dir)
            == spec_config_directory(tui_config, other_xdg, other_home, current_dir),
        tui_config matches Some(p) ==> spec_config_directory(tui_config, xdg_config_home, home_dir, current_dir)
            == if p.len() > 0 && p[0] == '/' {
            Ok::<Seq<char>, ConfigDirError>(spec_clean_path(p))
        } else {
            match current_dir {
                Some(c) => Ok(spec_clean_path(join(c, p))),
                None => Err(ConfigDirError::UnresolvableTuiConfig),
            }
        },
        xdg_config_home is Some && tui_config is None ==> spec_config_directory(
            tui_config,
            xdg_config_home,
            home_dir,
            current_dir,
        ) == if xdg_config_home->0.len() > 0 && xdg_config_home->0[0] == '/' {
            Ok::<Seq<char>, ConfigDirError>(spec_clean_path(join(spec_clean_path(xdg_config_home->0), "taskwarrior-tui"@)))
        } else {
            match current_dir {
                Some(c) => Ok(spec_clean_path(join(spec_clean_path(join(c, xdg_config_home->0)), "taskwarrior-tui"@))),
                None => Err(ConfigDirError::UnresolvableXdgConfigHome),
            }
        },
        tui_config is None && xdg_config_home is None ==> spec_config_directory(
            tui_config,
            xdg_config_home,
            home_dir,
            current_dir,
        ) == match home_dir {
            Some(h) => Ok::<Seq<char>, ConfigDirError>(spec_clean_path(join(join(h, ".config"@), "taskwarrior-tui"@))),
            None => Err(ConfigDirError::NoHomeDirectory),
        },
{
}

/// Finds the configuration directory from the values of
/// `TASKWARRIOR_TUI_CONFIG` and `XDG_CONFIG_HOME`, the home directory and the
/// current directory, each when known.
pub fn config_directory(
    tui_config: Option<&str>,
    xdg_config_home: Option<&str>,
    home_dir: Option<&str>,
    current_dir: Option<&str>,
) -> (res: Result<String, ConfigDirError>)
    ensures
        match spec_config_directory(
            opt_view(tui_config),
            opt_view(xdg_config_home),
            opt_view(home_dir),
            opt_view(current_dir),
        ) {
            Ok(d) => res matches Ok(r) && r@ == d,
            Err(e) => res == Err::<String, ConfigDirError>(e),
        },
        tui_config is Some && tui_config->0@.len() > 0 && tui_config->0@[0] == '/' ==> (res is Ok
            && res->Ok_0@ == spec_clean_path(tui_config->0@)),
{
    proof {
        law_config_directory_sources(
            opt_view(tui_config),
            opt_view(xdg_config_home),
            opt_view(home_dir),
            opt_view(current_dir),
            None,
            None,
        );
    }
    match tui_config {
        Some(p) => {
            return match absolute_path(p, current_dir) {
                Some(r) => Ok(r),
                None => Err(ConfigDirError::UnresolvableTuiConfig),
            };
        },
        None => {},
    }
    let base = match xdg_config_home {
        Some(x) => match absolute_path(x, current_dir) {
            Some(r) => r,
            None => {
                return Err(ConfigDirError::UnresolvableXdgConfigHome);
            },
        },
        None => match home_dir {
            Some(h) => join_path(h, ".config"),
            None => {
                return Err(ConfigDirError::NoHomeDirectory);
            },
        },
    };
    let dir = join_path(base.as_str(), "taskwarrior-tui");
    Ok(clean_path(dir.as_str()))
}

/// The program, arguments and removed environment variables of the process
/// that replaces this one to switch profiles.
#[derive(Debug)]
pub struct ReplacementCommand {
    pub program: String,
    pub args: Vec<String>,
    pub removed_env: Vec<String>,
}

/// The arguments that restart the program on `profile_name` with the same
/// report, configuration folder and data folder.
pub open spec fn spec_replacement_args(
    profile_name: Seq<char>,
    report: Seq<char>,
    config: Option<Seq<char>>,
    data: Option<Seq<char>>,
) -> Seq<Seq<char>> {
    let base = seq!["--profile"@, profile_name, "--report"@, report];
    let with_config = match config {
        Some(c) => base + seq!["--config"@, c],
        None => base,
    };
    match data {
        Some(d) => with_config + seq!["--data"@, d],
        None => with_config,
    }
}

/// The restart arguments select the profile and keep the report, then carry
/// `--config` with the configuration folder whenever one was given and
/// `--data` with the data folder whenever one was given, each independently
/// of the other, and nothing else.
pub proof fn law_replacement_args_keep_every_option(
    profile_name: Seq<char>,
    report: Seq<char>,
    config: Option<Seq<char>>,
    data: Option<Seq<char>>,
)
    ensures
        ({
            let args = spec_replacement_args(profile_name, report, config, data);
            &&& args.len() == 4 + (if config is Some { 2int } else { 0int }) + (if data is Some {
                2int
            } else {
                0int
            })
            &&& args[0] == "--profile"@
            &&& args[1] == profile_name
            &&& args[2] == "--report"@
            &&& args[3] == report
            &&& (config matches Some(c) ==> args[4] == "--config"@ && args[5] == c)
            &&& (data matches Some(d) ==> args[args.len() - 2] == "--data"@ && args[args.len() - 1] == d)
        }),
{
}

/// The command that restarts `executable` on the profile `profile_name`,
/// without the inherited `TASKRC` and `TASKDATA`.
pub fn replacement_command(
    executable: &str,
    profile_name: &str,
    report: &str,
    config: Option<&str>,
    data: Option<&str>,
) -> (r: ReplacementCommand)
    ensures
        r.program@ == executable@,
        string_views(r.args@) == spec_replacement_args(
            profile_name@,
            report@,
            opt_view(config),
            opt_view(data),
        ),
        string_views(r.removed_env@) == seq!["TASKRC"@, "TASKDATA"@],
        r.args@.len() == 4 + (if config is Some { 2int } else { 0int }) + (if data is Some {
            2int
        } else {
            0int
        }),
        config is Some ==> r.args@[4]@ == "--config"@ && r.args@[5]@ == config->0@,
        data is Some ==> r.args@[r.args@.len() - 2]@ == "--data"@ && r.args@[r.args@.len() - 1]@
            == data->0@,
{
    proof {
        law_replacement_args_keep_every_option(profile_name@, report@, opt_view(config), opt_view(data));
    }
    let mut args: Vec<String> = Vec::new();
    args.push(String::from_str("--profile"));
    args.push(profile_name.to_owned());
    args.push(String::from_str("--report"));
    args.push(report.to_owned());
    match config {
        Some(c) => {
            args.push(String::from_str("--config"));
            args.push(c.to_owned());
        },
        None => {},
    }
    match data {
        Some(d) => {
            args.push(String::from_str("--data"));
            args.push(d.to_owned());
        },
        None => {},
    }
    let mut removed_env: Vec<String> = Vec::new();
    removed_env.push(String::from_str("TASKRC"));
    removed_env.push(String::from_str("TASKDATA"));
    assert(string_views(removed_env@) =~= seq!["TASKRC"@, "TASKDATA"@]);
    assert(string_views(args@) =~= spec_replacement_args(
        profile_name@,
        report@,
        opt_view(config),
        opt_view(data),
    ));
    ReplacementCommand { program: executable.to_owned(), args, removed_env }
}

/// An environment variable and its value.
#[derive(Debug)]
pub struct EnvAssignment {
    pub key: String,
    pub value: String,
}

/// The environment that a selected profile imposes: `TASKRC` and `TASKDATA`
/// set to its paths, whatever they held before.
pub fn profile_environment(profile: &ActiveProfile) -> (r: Vec<EnvAssignment>)
    ensures
        r@.len() == 2,
        r@[0].key@ == "TASKRC"@,
        r@[0].value@ == profile.taskrc@,
        r@[1].key@ == "TASKDATA"@,
        r@[1].value@ == profile.taskdata@,
{
    let mut r: Vec<EnvAssignment> = Vec::new();
    r.push(EnvAssignment { key: String::from_str("TASKRC"), value: profile.taskrc.clone() });
    r.push(EnvAssignment { key: String::from_str("TASKDATA"), value: profile.taskdata.clone() });
    r
}

/// The line that lists one profile: its name, its label, and `yes` when it
/// is the default profile, separated by tabs.
pub open spec fn spec_listing_line(a: ActiveProfileView, default: Option<Seq<char>>) -> Seq<char> {
    a.name + "\t"@ + a.label + "\t"@ + (if default == Some(a.name) {
        "yes"@
    } else {
        Seq::<char>::empty()
    })
}

/// The listing of the configured profiles: a header line, then one line per
/// profile in name order.
pub open spec fn spec_listing(c: ProfilesConfigView) -> Seq<Seq<char>> {
    seq!["NAME\tLABEL\tDEFAULT"@] + spec_resolved(c.profiles).map_values(
        |a: ActiveProfileView| spec_listing_line(a, c.default),
    )
}

/// The lines that `--list-profiles` prints for a configuration.
pub fn profile_listing(config: &ProfilesConfig) -> (r: Vec<String>)
    ensures
        string_views(r@) == spec_listing(config@),
{
    let profiles = match config.resolved_profiles() {
        Ok(v) => v,
        Err(_) => Vec::new(),
    };
    let ghost resolved = spec_resolved(config@.profiles);
    let mut lines: Vec<String> = Vec::new();
    lines.push(String::from_str("NAME\tLABEL\tDEFAULT"));
    let mut i: usize = 0;
    while i < profiles.len()
        invariant
            active_views(profiles@) == resolved,
            resolved == spec_resolved(config@.profiles),
            i <= profiles@.len(),
            string_views(lines@) == seq!["NAME\tLABEL\tDEFAULT"@] + resolved.subrange(
                0,
                i as int,
            ).map_values(|a: ActiveProfileView| spec_listing_line(a, config@.default)),
        decreases profiles@.len() - i,
    {
        let profile = &profiles[i];
        let mut line = profile.name.clone();
        line.append("\t");
        line.append(profile.label.as_str());
        line.append("\t");
        let is_default = match &config.default {
            Some(d) => text_eq(d.as_str(), profile.name.as_str()),
            None => false,
        };
        if is_default {
            line.append("yes");
        }
        proof {
            assert(resolved[i as int] == profile@);
            if is_default {
                assert(line@ =~= profile.name@ + "\t"@ + profile.label@ + "\t"@ + "yes"@);
            } else {
                assert(line@ =~= profile.name@ + "\t"@ + profile.label@ + "\t"@ + Seq::<char>::empty());
            }
            assert(line@ == spec_listing_line(resolved[i as int], config@.default));
        }
        let ghost prev = string_views(lines@);
        lines.push(line);
        proof {
            assert(string_views(lines@) =~= prev.push(line@));
            let f = |a: ActiveProfileView| spec_listing_line(a, config@.default);
            assert(resolved.subrange(0, i + 1).map_values(f) =~= resolved.subrange(
                0,
                i as int,
            ).map_values(f).push(f(resolved[i as int])));
        }
        i = i + 1;
    }
    assert(resolved.subrange(0, i as int) =~= resolved);
    lines
}

/// The options given on the command line.
#[derive(Debug)]
pub struct LaunchOptions {
    /// `--config`: the configuration folder.
    pub config: Option<String>,
    /// `--data`: the data folder.
    pub data: Option<String>,
    /// `--taskrc`: a Taskwarrior configuration file used directly.
    pub taskrc: Option<String>,
    /// `--taskdata`: a Taskwarrior data folder used directly.
    pub taskdata: Option<String>,
    /// `--profile`: the requested profile.
    pub profile: Option<String>,
    /// `--report`: the report to show.
    pub report: Option<String>,
    /// `--list-profiles`: list the profiles and exit.
    pub list_profiles: bool,
}

/// An environment variable to set to an absolute path unless it is set
/// already, with the name of the option it comes from.
#[derive(Debug)]
pub struct EnvDefault {
    pub key: String,
    pub path: String,
    pub option: String,
}

/// The views of a sequence of environment defaults, as (key, path, option).
pub open spec fn env_default_views(v: Seq<EnvDefault>) -> Seq<(Seq<char>, Seq<char>, Seq<char>)> {
    v.map_values(|e: EnvDefault| (e.key@, e.path@, e.option@))
}

/// The environment defaults for two optional paths under two keys.
pub open spec fn spec_env_defaults(
    first: Option<Seq<char>>,
    first_key: Seq<char>,
    first_option: Seq<char>,
    second: Option<Seq<char>>,
    second_key: Seq<char>,
    second_option: Seq<char>,
) -> Seq<(Seq<char>, Seq<char>, Seq<char>)> {
    let a = match first {
        Some(p) => seq![(first_key, p, first_option)],
        None => Seq::empty(),
    };
    match second {
        Some(p) => a.push((second_key, p, second_option)),
        None => a,
    }
}

/// Each option given yields its own environment default, whether or not the
/// other one is given: the first option's comes first, the second option's
/// last, and there are as many defaults as options given.
pub proof fn law_env_defaults_one_per_option(
    first: Option<Seq<char>>,
    first_key: Seq<char>,
    first_option: Seq<char>,
    second: Option<Seq<char>>,
    second_key: Seq<char>,
    second_option: Seq<char>,
)
    ensures
        ({
            let d = spec_env_defaults(first, first_key, first_option, second, second_key, second_option);
            &&& d.len() == (if first is Some { 1int } else { 0int }) + (if second is Some {
                1int
            } else {
                0int
            })
            &&& (first matches Some(p) ==> d[0] == (first_key, p, first_option))
            &&& (second matches Some(p) ==> d[d.len() - 1] == (second_key, p, second_option))
        }),
{
}

/// The characters of an optional owned string.
pub open spec fn string_opt_view(o: Option<String>) -> Option<Seq<char>> {
    match o {
        Some(s) => Some(s@),
        None => None,
    }
}

impl LaunchOptions {
    /// The report to show: the one given, else `next`.
    pub fn report_name(&self) -> (r: String)
        ensures
            r@ == match string_opt_view(self.report) {
                Some(rep) => rep,
                None => "next"@,
            },
    {
        match &self.report {
            Some(rep) => rep.clone(),
            None => String::from_str("next"),
        }
    }

    /// The folders given on the command line, as defaults for
    /// `TASKWARRIOR_TUI_CONFIG` and `TASKWARRIOR_TUI_DATA`.
    pub fn folder_defaults(&self) -> (r: Vec<EnvDefault>)
        ensures
            env_default_views(r@) == spec_env_defaults(
                string_opt_view(self.config),
                "TASKWARRIOR_TUI_CONFIG"@,
                "config"@,
                string_opt_view(self.data),
                "TASKWARRIOR_TUI_DATA"@,
                "data"@,
            ),
            r@.len() == (if self.config is Some { 1int } else { 0int }) + (if self.data is Some {
                1int
            } else {
                0int
            }),
            self.config is Some ==> r@[0].key@ == "TASKWARRIOR_TUI_CONFIG"@ && r@[0].path@
                == self.config->0@ && r@[0].option@ == "config"@,
            self.data is Some ==> r@[r@.len() - 1].key@ == "TASKWARRIOR_TUI_DATA"@ && r@[r@.len()
                - 1].path@ == self.data->0@ && r@[r@.len() - 1].option@ == "data"@,
    {
        proof {
            law_env_defaults_one_per_option(
                string_opt_view(self.config),
                "TASKWARRIOR_TUI_CONFIG"@,
                "config"@,
                string_opt_view(self.data),
                "TASKWARRIOR_TUI_DATA"@,
                "data"@,
            );
        }
        let mut r: Vec<EnvDefault> = Vec::new();
        match &self.config {
            Some(p) => r.push(
                EnvDefault {
                    key: String::from_str("TASKWARRIOR_TUI_CONFIG"),
                    path: p.clone(),
                    option: String::from_str("config"),
                },
            ),
            None => {},
        }
        match &self.data {
            Some(p) => r.push(
                EnvDefault {
                    key: String::from_str("TASKWARRIOR_TUI_DATA"),
                    path: p.clone(),
                    option: String::from_str("data"),
                },
            ),
            None => {},
        }
        assert(env_default_views(r@) =~= spec_env_defaults(
            string_opt_view(self.config),
            "TASKWARRIOR_TUI_CONFIG"@,
            "config"@,
            string_opt_view(self.data),
            "TASKWARRIOR_TUI_DATA"@,
            "data"@,
        ));
        r
    }

    /// Profiles are consulted unless a Taskwarrior file or folder is given
    /// directly.
    pub fn uses_profiles(&self) -> (r: bool)
        ensures
            r == (self.taskrc is None && self.taskdata is None),
    {
        !(self.taskrc.is_some() || self.taskdata.is_some())
    }

    /// The Taskwarrior file and folder given directly, as defaults for
    /// `TASKRC` and `TASKDATA`.
    pub fn taskwarrior_defaults(&self) -> (r: Vec<EnvDefault>)
        ensures
            env_default_views(r@) == spec_env_defaults(
                string_opt_view(self.taskrc),
                "TASKRC"@,
                "taskrc"@,
                string_opt_view(self.taskdata),
                "TASKDATA"@,
                "taskdata"@,
            ),
            r@.len() == (if self.taskrc is Some { 1int } else { 0int }) + (if self.taskdata is Some {
                1int
            } else {
                0int
            }),
            self.taskrc is Some ==> r@[0].key@ == "TASKRC"@ && r@[0].path@ == self.taskrc->0@
                && r@[0].option@ == "taskrc"@,
            self.taskdata is Some ==> r@[r@.len() - 1].key@ == "TASKDATA"@ && r@[r@.len() - 1].path@
                == self.taskdata->0@ && r@[r@.len() - 1].option@ == "taskdata"@,
    {
        proof {
            law_env_defaults_one_per_option(
                string_opt_view(self.taskrc),
                "TASKRC"@,
                "taskrc"@,
                string_opt_view(self.taskdata),
                "TASKDATA"@,
                "taskdata"@,
            );
        }
        let mut r: Vec<EnvDefault> = Vec::new();
        match &self.taskrc {
            Some(p) => r.push(
                EnvDefault {
                    key: String::from_str("TASKRC"),
                    path: p.clone(),
                    option: String::from_str("taskrc"),
                },
            ),
            None => {},
        }
        match &self.taskdata {
            Some(p) => r.push(
                EnvDefault {
                    key: String::from_str("TASKDATA"),
                    path: p.clone(),
                    option: String::from_str("taskdata"),
                },
            ),
            None => {},
        }
        assert(env_default_views(r@) =~= spec_env_defaults(
            string_opt_view(self.taskrc),
            "TASKRC"@,
            "taskrc"@,
            string_opt_view(self.taskdata),
            "TASKDATA"@,
            "taskdata"@,
        ));
        r
    }
}

/// What a session does to the Taskwarrior environment: variables it sets
/// whatever they held before, then defaults it sets only where unset.
#[derive(Debug)]
pub struct EnvironmentPlan {
    pub set: Vec<EnvAssignment>,
    pub set_if_unset: Vec<EnvDefault>,
}

impl LaunchOptions {
    /// The Taskwarrior environment of a session: a selected profile's paths
    /// override `TASKRC` and `TASKDATA`; without a selected profile, the file
    /// and folder given directly are defaults for them.
    pub fn taskwarrior_environment(&self, active: Option<&ActiveProfile>) -> (r: EnvironmentPlan)
        ensures
            match active {
                Some(a) => {
                    &&& r.set@.len() == 2
                    &&& r.set@[0].key@ == "TASKRC"@
                    &&& r.set@[0].value@ == a.taskrc@
                    &&& r.set@[1].key@ == "TASKDATA"@
                    &&& r.set@[1].value@ == a.taskdata@
                    &&& r.set_if_unset@.len() == 0
                },
                None => {
                    &&& r.set@.len() == 0
                    &&& env_default_views(r.set_if_unset@) == spec_env_defaults(
                        string_opt_view(self.taskrc),
                        "TASKRC"@,
                        "taskrc"@,
                        string_opt_view(self.taskdata),
                        "TASKDATA"@,
                        "taskdata"@,
                    )
                },
            },
    {
        match active {
            Some(a) => EnvironmentPlan { set: profile_environment(a), set_if_unset: Vec::new() },
            None => EnvironmentPlan { set: Vec::new(), set_if_unset: self.taskwarrior_defaults() },
        }
    }
}

/// The log levels of the program's own log.
#[derive(Clone, Copy, Debug, PartialEq, Eq, Structural)]
pub enum LogLevel {
    Off,
    Warn,
    Info,
    Debug,
    Trace,
}

/// The level named by `TASKWARRIOR_TUI_LOG_LEVEL`: `off`, `warn`, `info`,
/// `debug` or `trace`; anything else, and no setting, means `info`.
pub open spec fn spec_log_level(setting: Option<Seq<char>>) -> LogLevel {
    match setting {
        None => LogLevel::Info,
        Some(s) => if s == "off"@ {
            LogLevel::Off
        } else if s == "warn"@ {
            LogLevel::Warn
        } else if s == "info"@ {
            LogLevel::Info
        } else if s == "debug"@ {
            LogLevel::Debug
        } else if s == "trace"@ {
            LogLevel::Trace
        } else {
            LogLevel::Info
        },
    }
}

/// Reads the log level setting.
pub fn log_level(setting: Option<&str>) -> (r: LogLevel)
    ensures
        r == spec_log_level(opt_view(setting)),
{
    match setting {
        None => LogLevel::Info,
        Some(s) => if text_eq(s, "off") {
            LogLevel::Off
        } else if text_eq(s, "warn") {
            LogLevel::Warn
        } else if text_eq(s, "info") {
            LogLevel::Info
        } else if text_eq(s, "debug") {
            LogLevel::Debug
        } else if text_eq(s, "trace") {
            LogLevel::Trace
        } else {
            LogLevel::Info
        },
    }
}

} // verus!
