//! `profiles.toml` after parsing: the checks on each profile, path
//! resolution, and the resolution of profile names into active profiles.

use vstd::prelude::*;
use vstd::string::*;

use crate::paths::{resolve_path, spec_path_parent, spec_resolve_path, path_parent, PathError};
use crate::profile::{active_from, active_views, ActiveProfileView, has_key, keys_sorted, lemma_lookup_at, lookup, ActiveProfile, Entries, ProfileMap, ProfileView};
use crate::text::{text_less, char_is_ascii_alnum, chars_of, has_control_char, is_ascii_alnum, is_blank, is_control_char, is_white_space};

verus! {

/// Why a profile configuration, or the selection of a profile, failed.
#[derive(Debug)]
pub enum ProfileError {
    /// The configuration defines no profile.
    NoProfiles,
    /// A profile name that does not start with a letter or digit, or holds a
    /// character other than letters, digits, `.`, `-` and `_`.
    InvalidProfileName { name: String },
    /// A label made of white space only.
    EmptyLabel { profile: String },
    /// A label holding a control character.
    ControlCharactersInLabel { profile: String },
    /// A `taskrc` path that cannot be resolved.
    InvalidTaskrc { profile: String, taskrc_error: PathError },
    /// A `taskdata` path that cannot be resolved, or that has no parent.
    InvalidTaskdata { profile: String, taskdata_error: Option<PathError> },
    /// The resolved `taskrc` path is not a file.
    TaskrcNotAFile { profile: String, path: String },
    /// The resolved `taskrc` file cannot be opened.
    TaskrcUnreadable { profile: String, path: String, cause: String },
    /// The resolved `taskdata` path exists but is not a directory.
    TaskdataNotADirectory { profile: String, path: String },
    /// The parent of a missing `taskdata` directory cannot be created.
    TaskdataParentUncreatable { profile: String, parent: String, cause: String },
    /// The default profile is not among the profiles.
    UnknownDefault { default: String },
    /// No profile has the requested name.
    UnknownProfile { name: String },
    /// A profile was requested but there is no profile configuration.
    ConfigurationMissing { name: String, path: String },
    /// No profile was requested and the configuration names no default.
    NoDefaultProfile { path: String },
}

/// The contents of a `ProfileError`, as character sequences.
pub enum ProfileErrorView {
    NoProfiles,
    InvalidProfileName { name: Seq<char> },
    EmptyLabel { profile: Seq<char> },
    ControlCharactersInLabel { profile: Seq<char> },
    InvalidTaskrc { profile: Seq<char>, taskrc_error: PathError },
    InvalidTaskdata { profile: Seq<char>, taskdata_error: Option<PathError> },
    TaskrcNotAFile { profile: Seq<char>, path: Seq<char> },
    TaskrcUnreadable { profile: Seq<char>, path: Seq<char>, cause: Seq<char> },
    TaskdataNotADirectory { profile: Seq<char>, path: Seq<char> },
    TaskdataParentUncreatable { profile: Seq<char>, parent: Seq<char>, cause: Seq<char> },
    UnknownDefault { default: Seq<char> },
    UnknownProfile { name: Seq<char> },
    ConfigurationMissing { name: Seq<char>, path: Seq<char> },
    NoDefaultProfile { path: Seq<char> },
}

impl View for ProfileError {
    type V = ProfileErrorView;

    open spec fn view(&self) -> ProfileErrorView {
        match self {
            ProfileError::NoProfiles => ProfileErrorView::NoProfiles,
            ProfileError::InvalidProfileName { name } => ProfileErrorView::InvalidProfileName {
                name: name@,
            },
            ProfileError::EmptyLabel { profile } => ProfileErrorView::EmptyLabel {
                profile: profile@,
            },
            ProfileError::ControlCharactersInLabel { profile } =>
                ProfileErrorView::ControlCharactersInLabel { profile: profile@ },
            ProfileError::InvalidTaskrc { profile, taskrc_error } => ProfileErrorView::InvalidTaskrc {
                profile: profile@,
                taskrc_error: *taskrc_error,
            },
            ProfileError::InvalidTaskdata { profile, taskdata_error } =>
                ProfileErrorView::InvalidTaskdata { profile: profile@, taskdata_error: *taskdata_error },
            ProfileError::TaskrcNotAFile { profile, path } => ProfileErrorView::TaskrcNotAFile {
                profile: profile@,
                path: path@,
            },
            ProfileError::TaskrcUnreadable { profile, path, cause } =>
                ProfileErrorView::TaskrcUnreadable {
                profile: profile@,
                path: path@,
                cause: cause@,
            },
            ProfileError::TaskdataNotADirectory { profile, path } =>
                ProfileErrorView::TaskdataNotADirectory { profile: profile@, path: path@ },
            ProfileError::TaskdataParentUncreatable { profile, parent, cause } =>
                ProfileErrorView::TaskdataParentUncreatable {
                profile: profile@,
                parent: parent@,
                cause: cause@,
            },
            ProfileError::UnknownDefault { default } => ProfileErrorView::UnknownDefault {
                default: default@,
            },
            ProfileError::UnknownProfile { name } => ProfileErrorView::UnknownProfile {
                name: name@,
            },
            ProfileError::ConfigurationMissing { name, path } =>
                ProfileErrorView::ConfigurationMissing { name: name@, path: path@ },
            ProfileError::NoDefaultProfile { path } => ProfileErrorView::NoDefaultProfile {
                path: path@,
            },
        }
    }
}

/// The text that explains a failed path expansion.
pub open spec fn path_error_text(e: PathError) -> Seq<char> {
    match e {
        PathError::UnsupportedHomePath => "Only '~' and '~/' home-relative paths are supported"@,
    }
}

impl PathError {
    /// The text that explains the error.
    pub fn message(&self) -> (r: String)
        ensures
            r@ == path_error_text(*self),
    {
        match self {
            PathError::UnsupportedHomePath => String::from_str(
                "Only '~' and '~/' home-relative paths are supported",
            ),
        }
    }
}

/// The text that explains a profile error, with its cause after a colon.
pub open spec fn error_text(e: ProfileErrorView) -> Seq<char> {
    match e {
        ProfileErrorView::NoProfiles => "Profile configuration must define at least one profile"@,
        ProfileErrorView::InvalidProfileName { name } => "Invalid profile name '"@ + name
            + "'; start with a letter or number and use only letters, numbers, '.', '-', and '_'"@,
        ProfileErrorView::EmptyLabel { profile } => "Profile '"@ + profile
            + "' has an empty 'label' field"@,
        ProfileErrorView::ControlCharactersInLabel { profile } => "Profile '"@ + profile
            + "' has control characters in its 'label' field"@,
        ProfileErrorView::InvalidTaskrc { profile, taskrc_error } => "Profile '"@ + profile
            + "' has an invalid 'taskrc' field"@ + ": "@ + path_error_text(taskrc_error),
        ProfileErrorView::InvalidTaskdata { profile, taskdata_error } => match taskdata_error {
            Some(pe) => "Profile '"@ + profile + "' has an invalid 'taskdata' field"@ + ": "@
                + path_error_text(pe),
            None => "Profile '"@ + profile + "' has an invalid 'taskdata' field"@,
        },
        ProfileErrorView::TaskrcNotAFile { profile, path } => "Profile '"@ + profile
            + "' has a 'taskrc' path that is not a file: "@ + path,
        ProfileErrorView::TaskrcUnreadable { profile, path, cause } => "Profile '"@ + profile
            + "' has an unreadable 'taskrc' file at "@ + path + ": "@ + cause,
        ProfileErrorView::TaskdataNotADirectory { profile, path } => "Profile '"@ + profile
            + "' has a 'taskdata' path that is not a directory: "@ + path,
        ProfileErrorView::TaskdataParentUncreatable { profile, parent, cause } => "Profile '"@
            + profile + "' has an uncreatable 'taskdata' parent at "@ + parent + ": "@ + cause,
        ProfileErrorView::UnknownDefault { default } => "Default profile '"@ + default
            + "' is not defined in 'profiles'"@,
        ProfileErrorView::UnknownProfile { name } => "Unknown profile '"@ + name + "'"@,
        ProfileErrorView::ConfigurationMissing { name, path } => "Cannot select profile '"@ + name
            + "': profile configuration was not found at "@ + path,
        ProfileErrorView::NoDefaultProfile { path } => "No default profile is configured in "@
            + path + "; use --profile <NAME>"@,
    }
}

impl ProfileError {
    /// The text that explains the error, with its cause after a colon.
    pub fn message(&self) -> (r: String)
        ensures
            r@ == error_text(self@),
    {
        match self {
            ProfileError::NoProfiles => String::from_str(
                "Profile configuration must define at least one profile",
            ),
            ProfileError::InvalidProfileName { name } => {
                let mut r = String::from_str("Invalid profile name '");
                r.append(name.as_str());
                r.append(
                    "'; start with a letter or number and use only letters, numbers, '.', '-', and '_'",
                );
                r
            },
            ProfileError::EmptyLabel { profile } => {
                let mut r = String::from_str("Profile '");
                r.append(profile.as_str());
                r.append("' has an empty 'label' field");
                r
            },
            ProfileError::ControlCharactersInLabel { profile } => {
                let mut r = String::from_str("Profile '");
                r.append(profile.as_str());
                r.append("' has control characters in its 'label' field");
                r
            },
            ProfileError::InvalidTaskrc { profile, taskrc_error } => {
                let mut r = String::from_str("Profile '");
                r.append(profile.as_str());
                r.append("' has an invalid 'taskrc' field");
                r.append(": ");
                let cause = taskrc_error.message();
                r.append(cause.as_str());
                r
            },
            ProfileError::InvalidTaskdata { profile, taskdata_error } => {
                let mut r = String::from_str("Profile '");
                r.append(profile.as_str());
                r.append("' has an invalid 'taskdata' field");
                match taskdata_error {
                    Some(pe) => {
                        r.append(": ");
                        let cause = pe.message();
                        r.append(cause.as_str());
                    },
                    None => {},
                }
                r
            },
            ProfileError::TaskrcNotAFile { profile, path } => {
                let mut r = String::from_str("Profile '");
                r.append(profile.as_str());
                r.append("' has a 'taskrc' path that is not a file: ");
                r.append(path.as_str());
                r
            },
            ProfileError::TaskrcUnreadable { profile, path, cause } => {
                let mut r = String::from_str("Profile '");
                r.append(profile.as_str());
                r.append("' has an unreadable 'taskrc' file at ");
                r.append(path.as_str());
                r.append(": ");
                r.append(cause.as_str());
                r
            },
            ProfileError::TaskdataNotADirectory { profile, path } => {
                let mut r = String::from_str("Profile '");
                r.append(profile.as_str());
                r.append("' has a 'taskdata' path that is not a directory: ");
                r.append(path.as_str());
                r
            },
            ProfileError::TaskdataParentUncreatable { profile, parent, cause } => {
                let mut r = String::from_str("Profile '");
                r.append(profile.as_str());
                r.append("' has an uncreatable 'taskdata' parent at ");
                r.append(parent.as_str());
                r.append(": ");
                r.append(cause.as_str());
                r
            },
            ProfileError::UnknownDefault { default } => {
                let mut r = String::from_str("Default profile '");
                r.append(default.as_str());
                r.append("' is not defined in 'profiles'");
                r
            },
            ProfileError::UnknownProfile { name } => {
                let mut r = String::from_str("Unknown profile '");
                r.append(name.as_str());
                r.append("'");
                r
            },
            ProfileError::ConfigurationMissing { name, path } => {
                let mut r = String::from_str("Cannot select profile '");
                r.append(name.as_str());
                r.append("': profile configuration was not found at ");
                r.append(path.as_str());
                r
            },
            ProfileError::NoDefaultProfile { path } => {
                let mut r = String::from_str("No default profile is configured in ");
                r.append(path.as_str());
                r.append("; use --profile <NAME>");
                r
            },
        }
    }
}

/// A valid profile name: it starts with an ASCII letter or digit, and every
/// later character is an ASCII letter or digit, `-`, `_` or `.`.
pub open spec fn valid_profile_name(name: Seq<char>) -> bool {
    &&& name.len() > 0
    &&& is_ascii_alnum(name[0])
    &&& forall|i: int|
        1 <= i < name.len() ==> is_ascii_alnum(#[trigger] name[i]) || name[i] == '-' || name[i]
            == '_' || name[i] == '.'
}

/// Accepts exactly the valid profile names.
pub fn validate_profile_name(name: &str) -> (res: Result<(), ProfileError>)
    ensures
        match res {
            Ok(()) => valid_profile_name(name@),
            Err(e) => !valid_profile_name(name@) && e@ == (ProfileErrorView::InvalidProfileName {
                name: name@,
            }),
        },
{
    let v = chars_of(name);
    let mut valid = v.len() > 0 && char_is_ascii_alnum(v[0]);
    let mut i: usize = 1;
    while valid && i < v.len()
        invariant
            v@ == name@,
            1 <= i <= v@.len() + 1,
            valid ==> i <= v@.len(),
            valid ==> v@.len() > 0 && is_ascii_alnum(v@[0]),
            valid ==> forall|j: int|
                1 <= j < i ==> is_ascii_alnum(#[trigger] v@[j]) || v@[j] == '-' || v@[j] == '_'
                    || v@[j] == '.',
            !valid ==> !valid_profile_name(name@),
        decreases v@.len() + 1 - i + (if valid { 1int } else { 0int }),
    {
        let c = v[i];
        if !(char_is_ascii_alnum(c) || c == '-' || c == '_' || c == '.') {
            valid = false;
        } else {
            i = i + 1;
        }
    }
    if valid {
        Ok(())
    } else {
        Err(ProfileError::InvalidProfileName { name: name.to_owned() })
    }
}

/// A label that is white space only, so that trimming leaves nothing.
pub open spec fn blank_label(l: Seq<char>) -> bool {
    forall|i: int| 0 <= i < l.len() ==> is_white_space(#[trigger] l[i])
}

/// A label that holds a control character.
pub open spec fn label_has_control(l: Seq<char>) -> bool {
    exists|i: int| 0 <= i < l.len() && is_control_char(#[trigger] l[i])
}

/// The checks on one profile that need no file system, in the order they are
/// made: its name, its label, its `taskrc` path and its `taskdata` path. On
/// success, the two resolved paths.
pub open spec fn spec_profile_check(name: Seq<char>, p: ProfileView, base: Seq<char>, home: Seq<char>) -> Result<
    (Seq<char>, Seq<char>),
    ProfileErrorView,
> {
    if !valid_profile_name(name) {
        Err(ProfileErrorView::InvalidProfileName { name })
    } else if p.label matches Some(l) && blank_label(l) {
        Err(ProfileErrorView::EmptyLabel { profile: name })
    } else if p.label matches Some(l) && label_has_control(l) {
        Err(ProfileErrorView::ControlCharactersInLabel { profile: name })
    } else {
        match spec_resolve_path(p.taskrc, base, home) {
            None => Err(
                ProfileErrorView::InvalidTaskrc {
                    profile: name,
                    taskrc_error: PathError::UnsupportedHomePath,
                },
            ),
            Some(rc) => match spec_resolve_path(p.taskdata, base, home) {
                None => Err(
                    ProfileErrorView::InvalidTaskdata {
                        profile: name,
                        taskdata_error: Some(PathError::UnsupportedHomePath),
                    },
                ),
                Some(td) => Ok((rc, td)),
            },
        }
    }
}

/// The checks on one profile refuse it exactly when its name is not a letter
/// or digit followed by letters, digits, `.`, `-` and `_`; or its label is
/// made of white space only or holds a control character; or one of its two
/// paths does not resolve. A label with any character that is not white
/// space, and no control character, is accepted: only a blank label is
/// refused as empty. On success the two paths are the resolved ones.
pub proof fn law_profile_check_accepts_exactly_valid_profiles(
    name: Seq<char>,
    p: ProfileView,
    base: Seq<char>,
    home: Seq<char>,
)
    ensures
        spec_profile_check(name, p, base, home) is Ok <==> {
            &&& name.len() > 0
            &&& ('0' <= name[0] <= '9' || 'A' <= name[0] <= 'Z' || 'a' <= name[0] <= 'z')
            &&& forall|i: int|
                1 <= i < name.len() ==> ('0' <= #[trigger] name[i] <= '9' || 'A' <= name[i] <= 'Z'
                    || 'a' <= name[i] <= 'z' || name[i] == '-' || name[i] == '_' || name[i] == '.')
            &&& (p.label matches Some(l) ==> (exists|i: int| 0 <= i < l.len() && !is_white_space(#[trigger] l[i]))
                && (forall|i: int| 0 <= i < l.len() ==> !is_control_char(#[trigger] l[i])))
            &&& spec_resolve_path(p.taskrc, base, home) is Some
            &&& spec_resolve_path(p.taskdata, base, home) is Some
        },
        spec_profile_check(name, p, base, home) matches Ok((rc, td)) ==> spec_resolve_path(
            p.taskrc,
            base,
            home,
        ) == Some(rc) && spec_resolve_path(p.taskdata, base, home) == Some(td),
        spec_profile_check(name, p, base, home) matches Err(ProfileErrorView::EmptyLabel { profile }) ==> (profile
            == name && p.label is Some && forall|i: int|
            0 <= i < p.label->0.len() ==> is_white_space(#[trigger] p.label->0[i])),
        spec_profile_check(name, p, base, home) matches Err(ProfileErrorView::ControlCharactersInLabel { profile })
            ==> (profile == name && p.label is Some && exists|i: int|
            0 <= i < p.label->0.len() && is_control_char(#[trigger] p.label->0[i])),
{
    if let Some(l) = p.label {
        if !blank_label(l) {
            let i = choose|i: int| 0 <= i < l.len() && !is_white_space(#[trigger] l[i]);
            assert(0 <= i < l.len() && !is_white_space(l[i]));
        }
    }
}

/// What the file system says of one profile's resolved paths.
#[derive(Debug)]
pub struct PathFacts {
    /// The `taskrc` path is a file.
    pub taskrc_is_file: bool,
    /// Why opening the `taskrc` file failed, if it did.
    pub taskrc_open_error: Option<String>,
    /// The `taskdata` path exists.
    pub taskdata_exists: bool,
    /// The `taskdata` path is a directory.
    pub taskdata_is_dir: bool,
}

/// The contents of a `PathFacts`.
pub struct PathFactsView {
    pub taskrc_is_file: bool,
    pub taskrc_open_error: Option<Seq<char>>,
    pub taskdata_exists: bool,
    pub taskdata_is_dir: bool,
}

impl View for PathFacts {
    type V = PathFactsView;

    open spec fn view(&self) -> PathFactsView {
        PathFactsView {
            taskrc_is_file: self.taskrc_is_file,
            taskrc_open_error: match self.taskrc_open_error {
                Some(c) => Some(c@),
                None => None,
            },
            taskdata_exists: self.taskdata_exists,
            taskdata_is_dir: self.taskdata_is_dir,
        }
    }
}

/// The checks on one profile's resolved paths against the file system, in
/// the order they are made. On success, the parent directory to create for
/// a `taskdata` directory that does not exist yet, if any.
pub open spec fn spec_files_check(name: Seq<char>, p: ProfileView, facts: PathFactsView) -> Result<
    Option<Seq<char>>,
    ProfileErrorView,
> {
    if !facts.taskrc_is_file {
        Err(ProfileErrorView::TaskrcNotAFile { profile: name, path: p.taskrc })
    } else if facts.taskrc_open_error is Some {
        Err(
            ProfileErrorView::TaskrcUnreadable {
                profile: name,
                path: p.taskrc,
                cause: facts.taskrc_open_error->0,
            },
        )
    } else if facts.taskdata_exists {
        if !facts.taskdata_is_dir {
            Err(ProfileErrorView::TaskdataNotADirectory { profile: name, path: p.taskdata })
        } else {
            Ok(None)
        }
    } else {
        match spec_path_parent(p.taskdata) {
            Some(parent) => Ok(Some(parent)),
            None => Err(ProfileErrorView::InvalidTaskdata { profile: name, taskdata_error: None }),
        }
    }
}

/// Every profile as an active profile, in name order.
pub open spec fn spec_resolved(entries: Entries) -> Seq<ActiveProfileView> {
    entries.map_values(|e: (Seq<char>, ProfileView)| active_from(e.0, e.1))
}

/// Listing every profile gives, at each position, what resolving that
/// position's name gives, and the names come in strictly increasing order
/// with each configured name once.
pub proof fn law_resolved_profiles_agree_with_resolve(entries: Entries)
    requires
        keys_sorted(entries),
    ensures
        spec_resolved(entries).len() == entries.len(),
        forall|i: int|
            0 <= i < entries.len() ==> lookup(entries, #[trigger] spec_resolved(entries)[i].name)
                == Some(entries[i].1) && spec_resolved(entries)[i] == active_from(
                entries[i].0,
                entries[i].1,
            ),
        forall|i: int, j: int|
            0 <= i < j < entries.len() ==> text_less(
                #[trigger] spec_resolved(entries)[i].name,
                #[trigger] spec_resolved(entries)[j].name,
            ),
        forall|k: Seq<char>|
            has_key(entries, k) <==> exists|i: int|
                0 <= i < entries.len() && #[trigger] spec_resolved(entries)[i].name == k,
{
    assert forall|i: int| 0 <= i < entries.len() implies lookup(
        entries,
        #[trigger] spec_resolved(entries)[i].name,
    ) == Some(entries[i].1) && spec_resolved(entries)[i] == active_from(entries[i].0, entries[i].1) by {
        lemma_lookup_at(entries, i);
    }
    assert forall|k: Seq<char>| has_key(entries, k) implies exists|i: int|
        0 <= i < entries.len() && #[trigger] spec_resolved(entries)[i].name == k by {
        let i = choose|i: int| 0 <= i < entries.len() && #[trigger] entries[i].0 == k;
        assert(spec_resolved(entries)[i].name == k);
    }
    assert forall|k: Seq<char>| (exists|i: int|
        0 <= i < entries.len() && #[trigger] spec_resolved(entries)[i].name == k) implies has_key(
        entries,
        k,
    ) by {
        let i = choose|i: int| 0 <= i < entries.len() && #[trigger] spec_resolved(entries)[i].name == k;
        assert(entries[i].0 == k);
    }
}

/// A parsed `profiles.toml`: an optional default profile name and the
/// profiles by name.
#[derive(Debug)]
pub struct ProfilesConfig {
    pub default: Option<String>,
    pub profiles: ProfileMap,
}

/// The contents of a `ProfilesConfig`.
pub struct ProfilesConfigView {
    pub default: Option<Seq<char>>,
    pub profiles: Entries,
}

impl View for ProfilesConfig {
    type V = ProfilesConfigView;

    open spec fn view(&self) -> ProfilesConfigView {
        ProfilesConfigView {
            default: match self.default {
                Some(d) => Some(d@),
                None => None,
            },
            profiles: self.profiles@,
        }
    }
}

impl ProfilesConfig {
    /// Refuses a configuration without profiles.
    pub fn require_profiles(&self) -> (res: Result<(), ProfileError>)
        ensures
            match res {
                Ok(()) => self.profiles@.len() > 0,
                Err(e) => self.profiles@.len() == 0 && e@ == ProfileErrorView::NoProfiles,
            },
    {
        if self.profiles.is_empty() {
            Err(ProfileError::NoProfiles)
        } else {
            Ok(())
        }
    }

    /// Checks the name and the label of the profile at position `index`, and
    /// resolves its two paths against the configuration directory `base_dir`
    /// and the home directory `home_dir`, storing them in the profile.
    pub fn validate_and_resolve_profile(&mut self, index: usize, base_dir: &str, home_dir: &str) -> (res: Result<(), ProfileError>)
        requires
            index < old(self).profiles@.len(),
        ensures
            final(self).default == old(self).default,
            match spec_profile_check(
                old(self).profiles@[index as int].0,
                old(self).profiles@[index as int].1,
                base_dir@,
                home_dir@,
            ) {
                Ok((rc, td)) => res is Ok && final(self).profiles@ == old(self).profiles@.update(
                    index as int,
                    (
                        old(self).profiles@[index as int].0,
                        ProfileView { taskrc: rc, taskdata: td, ..old(self).profiles@[index as int].1 },
                    ),
                ),
                Err(ev) => res matches Err(e) && e@ == ev && final(self).profiles@ == old(
                    self,
                ).profiles@,
            },
            ({
                let (name, p) = old(self).profiles@[index as int];
                &&& valid_profile_name(name)
                &&& (p.label matches Some(l) ==> (exists|i: int| 0 <= i < l.len() && !is_white_space(#[trigger] l[i]))
                    && (forall|i: int| 0 <= i < l.len() ==> !is_control_char(#[trigger] l[i])))
                &&& spec_resolve_path(p.taskrc, base_dir@, home_dir@) is Some
                &&& spec_resolve_path(p.taskdata, base_dir@, home_dir@) is Some
            }) ==> res is Ok,
    {
        let name = self.profiles.name_at(index);
        let profile = self.profiles.profile_at(index);
        proof {
            law_profile_check_accepts_exactly_valid_profiles(name@, profile@, base_dir@, home_dir@);
        }
        match validate_profile_name(name.as_str()) {
            Ok(()) => {},
            Err(e) => {
                return Err(e);
            },
        }
        match &profile.label {
            Some(label) => {
                if is_blank(label.as_str()) {
                    return Err(ProfileError::EmptyLabel { profile: name.clone() });
                }
                if has_control_char(label.as_str()) {
                    return Err(ProfileError::ControlCharactersInLabel { profile: name.clone() });
                }
            },
            None => {},
        }
        let taskrc = match resolve_path(profile.taskrc.as_str(), base_dir, home_dir) {
            Ok(r) => r,
            Err(cause) => {
                return Err(ProfileError::InvalidTaskrc { profile: name.clone(), taskrc_error: cause });
            },
        };
        let taskdata = match resolve_path(profile.taskdata.as_str(), base_dir, home_dir) {
            Ok(r) => r,
            Err(cause) => {
                return Err(
                    ProfileError::InvalidTaskdata { profile: name.clone(), taskdata_error: Some(cause) },
                );
            },
        };
        self.profiles.set_paths(index, taskrc, taskdata);
        Ok(())
    }

    /// Decides on what the file system says of the resolved paths of the
    /// profile at position `index`: an error, or the parent directory to
    /// create for a `taskdata` directory that does not exist yet.
    pub fn check_profile_files(&self, index: usize, facts: &PathFacts) -> (res: Result<Option<String>, ProfileError>)
        requires
            index < self.profiles@.len(),
        ensures
            match spec_files_check(self.profiles@[index as int].0, self.profiles@[index as int].1, facts@) {
                Ok(Some(parent)) => res matches Ok(Some(p)) && p@ == parent,
                Ok(None) => res matches Ok(None),
                Err(ev) => res matches Err(e) && e@ == ev,
            },
    {
        let name = self.profiles.name_at(index);
        let profile = self.profiles.profile_at(index);
        if !facts.taskrc_is_file {
            return Err(ProfileError::TaskrcNotAFile { profile: name.clone(), path: profile.taskrc.clone() });
        }
        match &facts.taskrc_open_error {
            Some(cause) => {
                return Err(
                    ProfileError::TaskrcUnreadable {
                        profile: name.clone(),
                        path: profile.taskrc.clone(),
                        cause: cause.clone(),
                    },
                );
            },
            None => {},
        }
        if facts.taskdata_exists {
            if !facts.taskdata_is_dir {
                Err(ProfileError::TaskdataNotADirectory { profile: name.clone(), path: profile.taskdata.clone() })
            } else {
                Ok(None)
            }
        } else {
            match path_parent(profile.taskdata.as_str()) {
                Some(parent) => Ok(Some(parent)),
                None => Err(ProfileError::InvalidTaskdata { profile: name.clone(), taskdata_error: None }),
            }
        }
    }

    /// Refuses a default profile that is not among the profiles.
    pub fn check_default(&self) -> (res: Result<(), ProfileError>)
        ensures
            match self@.default {
                Some(d) => if has_key(self@.profiles, d) {
                    res is Ok
                } else {
                    res matches Err(e) && e@ == (ProfileErrorView::UnknownDefault { default: d })
                },
                None => res is Ok,
            },
    {
        match &self.default {
            Some(d) => {
                if self.profiles.contains_key(d.as_str()) {
                    Ok(())
                } else {
                    Err(ProfileError::UnknownDefault { default: d.clone() })
                }
            },
            None => Ok(()),
        }
    }

    /// The active profile named `name`; unknown names are refused.
    pub fn resolve(&self, name: &str) -> (res: Result<ActiveProfile, ProfileError>)
        ensures
            match lookup(self.profiles@, name@) {
                Some(p) => res matches Ok(a) && a@ == active_from(name@, p),
                None => res matches Err(e) && e@ == (ProfileErrorView::UnknownProfile {
                    name: name@,
                }),
            },
    {
        match self.profiles.get(name) {
            Some(profile) => {
                let label = match &profile.label {
                    Some(l) => l.clone(),
                    None => name.to_owned(),
                };
                Ok(
                    ActiveProfile {
                        name: name.to_owned(),
                        taskrc: profile.taskrc.clone(),
                        taskdata: profile.taskdata.clone(),
                        label,
                        color: profile.color,
                    },
                )
            },
            None => Err(ProfileError::UnknownProfile { name: name.to_owned() }),
        }
    }

    /// Every profile as an active profile, in name order.
    pub fn resolved_profiles(&self) -> (res: Result<Vec<ActiveProfile>, ProfileError>)
        ensures
            res matches Ok(v) && active_views(v@) == spec_resolved(self.profiles@),
    {
        let n = self.profiles.len();
        let mut out: Vec<ActiveProfile> = Vec::new();
        let mut i: usize = 0;
        while i < n
            invariant
                n == self.profiles@.len(),
                keys_sorted(self.profiles@),
                i <= n,
                out@.len() == i,
                forall|j: int|
                    0 <= j < i ==> #[trigger] out@[j]@ == active_from(
                        self.profiles@[j].0,
                        self.profiles@[j].1,
                    ),
            decreases n - i,
        {
            let name = self.profiles.name_at(i);
            proof {
                lemma_lookup_at(self.profiles@, i as int);
            }
            match self.resolve(name.as_str()) {
                Ok(a) => {
                    out.push(a);
                },
                Err(e) => {
                    return Err(e);
                },
            }
            i = i + 1;
        }
        assert(active_views(out@) =~= spec_resolved(self.profiles@));
        Ok(out)
    }
}

} // verus!
