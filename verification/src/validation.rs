//! The validation of a parsed `profiles.toml` as a run of steps: the library
//! decides, the program looks at the file system and reports back.

use vstd::prelude::*;

use crate::config::{
    blank_label, label_has_control, spec_files_check, spec_profile_check, valid_profile_name, PathFacts,
    PathFactsView, ProfileError, ProfileErrorView, ProfilesConfig, ProfilesConfigView,
};
use crate::paths::{spec_path_parent, spec_resolve_path};
use crate::profile::{has_key, Entries, ProfileView};

verus! {

/// The outcome of the check that the default profile is defined.
pub open spec fn spec_default_check(entries: Entries, default: Option<Seq<char>>) -> Result<(), ProfileErrorView> {
    match default {
        Some(d) => if has_key(entries, d) {
            Ok(())
        } else {
            Err(ProfileErrorView::UnknownDefault { default: d })
        },
        None => Ok(()),
    }
}

/// A profile as it is after its name, label and paths passed their checks:
/// the same name, label and color, with both paths resolved. Nothing when a
/// check fails.
pub open spec fn resolved_entry(e: (Seq<char>, ProfileView), base: Seq<char>, home: Seq<char>) -> Option<
    (Seq<char>, ProfileView),
> {
    match spec_profile_check(e.0, e.1, base, home) {
        Ok((rc, td)) => Some((e.0, ProfileView { taskrc: rc, taskdata: td, ..e.1 })),
        Err(_) => None,
    }
}

/// Each profile is either as it was configured or its resolved form.
pub open spec fn keeps_identity(original: Entries, current: Entries, base: Seq<char>, home: Seq<char>) -> bool {
    &&& current.len() == original.len()
    &&& forall|j: int|
        0 <= j < original.len() ==> #[trigger] current[j] == original[j] || resolved_entry(
            original[j],
            base,
            home,
        ) == Some(current[j])
}

/// What was reported of a profile's files passed the checks on them, which
/// asked to create the parent directory `parent` (nothing where none was
/// needed).
pub open spec fn files_accepted(e: (Seq<char>, ProfileView), facts: PathFactsView, parent: Option<Seq<char>>) -> bool {
    spec_files_check(e.0, e.1, facts) == Ok::<Option<Seq<char>>, ProfileErrorView>(parent)
}

/// Whatever its outcome, a run leaves each profile with its configured name,
/// label and color, and each of its two paths either as configured or as
/// its resolution.
pub proof fn law_run_keeps_identity(original: Entries, current: Entries, base: Seq<char>, home: Seq<char>)
    requires
        keeps_identity(original, current, base, home),
    ensures
        forall|j: int|
            0 <= j < original.len() ==> {
                let (name, p) = #[trigger] current[j];
                let (name0, p0) = original[j];
                &&& name == name0
                &&& p.label == p0.label
                &&& p.color == p0.color
                &&& p.taskrc == p0.taskrc || spec_resolve_path(p0.taskrc, base, home) == Some(p.taskrc)
                &&& p.taskdata == p0.taskdata || spec_resolve_path(p0.taskdata, base, home) == Some(
                    p.taskdata,
                )
            },
{
}

/// The profiles before position `n` passed every check: the one on its name,
/// label and paths, which stored its resolved paths, and the one on what was
/// reported of its files, which asked to create the parent in `created`.
pub open spec fn passed_upto(
    original: Entries,
    current: Entries,
    reported: Seq<PathFactsView>,
    created: Seq<Option<Seq<char>>>,
    n: int,
    base: Seq<char>,
    home: Seq<char>,
) -> bool {
    forall|j: int|
        0 <= j < n ==> resolved_entry(original[j], base, home) == Some(#[trigger] current[j])
            && files_accepted(current[j], reported[j], created[j])
}

/// The profiles from position `n` on are as they were configured.
pub open spec fn untouched_from(original: Entries, current: Entries, n: int) -> bool {
    forall|j: int| n <= j < original.len() ==> #[trigger] current[j] == original[j]
}

/// Where a validation run stands.
pub enum StageView {
    /// Nothing is done yet.
    Start,
    /// The profile at this position passed its name, label and path checks;
    /// what the file system says of its paths is awaited.
    Observing(int),
    /// The profile at this position needs this parent directory created; the
    /// outcome is awaited.
    Creating(int, Seq<char>),
    /// The run is over.
    Finished,
}

enum Stage {
    Start,
    Observing(usize),
    Creating(usize, String),
    Finished,
}

impl View for Stage {
    type V = StageView;

    closed spec fn view(&self) -> StageView {
        match self {
            Stage::Start => StageView::Start,
            Stage::Observing(i) => StageView::Observing(*i as int),
            Stage::Creating(i, p) => StageView::Creating(*i as int, p@),
            Stage::Finished => StageView::Finished,
        }
    }
}

/// What the program reports to a validation run.
#[derive(Debug)]
pub enum ValidationEvent {
    /// The run starts.
    Begin,
    /// What the file system says of the resolved paths that were asked about.
    Observed(PathFacts),
    /// The outcome of creating the parent directory that was asked for:
    /// nothing when it was created, else why it failed.
    ParentCreated(Option<String>),
}

/// The contents of a `ValidationEvent`.
pub enum ValidationEventView {
    Begin,
    Observed(PathFactsView),
    ParentCreated(Option<Seq<char>>),
}

impl View for ValidationEvent {
    type V = ValidationEventView;

    open spec fn view(&self) -> ValidationEventView {
        match self {
            ValidationEvent::Begin => ValidationEventView::Begin,
            ValidationEvent::Observed(f) => ValidationEventView::Observed(f@),
            ValidationEvent::ParentCreated(failure) => ValidationEventView::ParentCreated(
                match failure {
                    Some(c) => Some(c@),
                    None => None,
                },
            ),
        }
    }
}

/// What a validation run asks the program to do next.
#[derive(Debug)]
pub enum ValidationAction {
    /// Look at these resolved `taskrc` and `taskdata` paths.
    Observe { taskrc: String, taskdata: String },
    /// Create this directory, the parent of a `taskdata` directory that does
    /// not exist yet.
    CreateParent(String),
    /// The run is over, with this outcome.
    Done(Result<(), ProfileError>),
}

/// The contents of a `ValidationAction`.
pub enum ValidationActionView {
    Observe { taskrc: Seq<char>, taskdata: Seq<char> },
    CreateParent(Seq<char>),
    Done(Result<(), ProfileErrorView>),
}

impl View for ValidationAction {
    type V = ValidationActionView;

    open spec fn view(&self) -> ValidationActionView {
        match self {
            ValidationAction::Observe { taskrc, taskdata } => ValidationActionView::Observe {
                taskrc: taskrc@,
                taskdata: taskdata@,
            },
            ValidationAction::CreateParent(p) => ValidationActionView::CreateParent(p@),
            ValidationAction::Done(r) => ValidationActionView::Done(
                match r {
                    Ok(()) => Ok(()),
                    Err(e) => Err(e@),
                },
            ),
        }
    }
}

/// The report that a run at this stage waits for.
pub open spec fn event_awaited(stage: StageView, event: ValidationEventView) -> bool {
    match stage {
        StageView::Start => event is Begin,
        StageView::Observing(_) => event is Observed,
        StageView::Creating(_, _) => event is ParentCreated,
        StageView::Finished => false,
    }
}

/// The contents of a validation run: the profiles as configured, the
/// configuration as it stands, the two directories that paths are resolved
/// against, where the run stands, what was reported of the files of each
/// profile that was looked at, and the parent directory created for each
/// profile that passed (nothing where none was needed).
pub struct ValidationView {
    pub original: Entries,
    pub config: ProfilesConfigView,
    pub base: Seq<char>,
    pub home: Seq<char>,
    pub stage: StageView,
    pub reported: Seq<PathFactsView>,
    pub created: Seq<Option<Seq<char>>>,
}

/// A run that ended in success: there were profiles, each of them passed
/// every check on what was reported of it, and the default profile is one of
/// them.
pub open spec fn run_accepted(s: ValidationView) -> bool {
    &&& s.original.len() > 0
    &&& s.config.profiles.len() == s.original.len()
    &&& s.reported.len() == s.original.len()
    &&& s.created.len() == s.original.len()
    &&& passed_upto(
        s.original,
        s.config.profiles,
        s.reported,
        s.created,
        s.original.len() as int,
        s.base,
        s.home,
    )
    &&& spec_default_check(s.config.profiles, s.config.default) is Ok
}

/// A run that ended in success leaves each profile with its configured name,
/// label and color; its name is valid; its label, if it has one, is neither
/// blank nor holds a control character; its two paths are the resolution of
/// the configured ones; what was reported of its `taskrc` is a file that
/// opened; its `taskdata` was reported a directory, or else its parent
/// directory was created. The default profile, if there is one, is one of
/// the profiles.
pub proof fn law_accepted_run(s: ValidationView)
    requires
        run_accepted(s),
    ensures
        s.config.profiles.len() == s.original.len(),
        forall|j: int|
            0 <= j < s.original.len() ==> {
                let (name, p) = #[trigger] s.config.profiles[j];
                let (name0, p0) = s.original[j];
                &&& name == name0
                &&& p.label == p0.label
                &&& p.color == p0.color
                &&& valid_profile_name(name)
                &&& (p.label matches Some(l) ==> !blank_label(l) && !label_has_control(l))
                &&& spec_resolve_path(p0.taskrc, s.base, s.home) == Some(p.taskrc)
                &&& spec_resolve_path(p0.taskdata, s.base, s.home) == Some(p.taskdata)
            },
        forall|j: int|
            0 <= j < s.original.len() ==> {
                let f = #[trigger] s.reported[j];
                &&& f.taskrc_is_file
                &&& f.taskrc_open_error is None
                &&& if f.taskdata_exists {
                    f.taskdata_is_dir && s.created[j] is None
                } else {
                    s.created[j] is Some && s.created[j] == spec_path_parent(s.config.profiles[j].1.taskdata)
                }
            },
        s.config.default matches Some(d) ==> has_key(s.config.profiles, d),
{
    assert forall|j: int| 0 <= j < s.original.len() implies {
        let f = #[trigger] s.reported[j];
        &&& f.taskrc_is_file
        &&& f.taskrc_open_error is None
        &&& if f.taskdata_exists {
            f.taskdata_is_dir && s.created[j] is None
        } else {
            s.created[j] is Some && s.created[j] == spec_path_parent(s.config.profiles[j].1.taskdata)
        }
    } by {
        assert(files_accepted(s.config.profiles[j], s.reported[j], s.created[j]));
    }
}

/// Going on to the profile at position `j`: past the last profile the
/// default profile is checked and the run ends; otherwise that profile's
/// name, label and paths are checked, its resolved paths are stored, and
/// they are to be looked at. The first failure ends the run.
pub open spec fn spec_enter(
    original: Entries,
    config: ProfilesConfigView,
    base: Seq<char>,
    home: Seq<char>,
    reported: Seq<PathFactsView>,
    created: Seq<Option<Seq<char>>>,
    j: int,
) -> (ValidationView, ValidationActionView) {
    let entries = config.profiles;
    let finished = ValidationView { original, config, base, home, stage: StageView::Finished, reported, created };
    if j >= entries.len() {
        (finished, ValidationActionView::Done(spec_default_check(entries, config.default)))
    } else {
        match spec_profile_check(entries[j].0, entries[j].1, base, home) {
            Err(e) => (finished, ValidationActionView::Done(Err(e))),
            Ok((rc, td)) => (
                ValidationView {
                    config: ProfilesConfigView {
                        default: config.default,
                        profiles: entries.update(
                            j,
                            (entries[j].0, ProfileView { taskrc: rc, taskdata: td, ..entries[j].1 }),
                        ),
                    },
                    stage: StageView::Observing(j),
                    ..finished
                },
                ValidationActionView::Observe { taskrc: rc, taskdata: td },
            ),
        }
    }
}

/// One step of a validation run: the run after it and what the program is
/// to do next. Profiles are taken in name order; the first failure ends the
/// run; the default profile is checked after every profile passed.
pub open spec fn spec_step(s: ValidationView, event: ValidationEventView) -> (ValidationView, ValidationActionView) {
    let finished = ValidationView { stage: StageView::Finished, ..s };
    let entries = s.config.profiles;
    match s.stage {
        StageView::Start => if entries.len() == 0 {
            (finished, ValidationActionView::Done(Err(ProfileErrorView::NoProfiles)))
        } else {
            spec_enter(s.original, s.config, s.base, s.home, s.reported, s.created, 0)
        },
        StageView::Observing(i) => match event {
            ValidationEventView::Observed(f) => match spec_files_check(entries[i].0, entries[i].1, f) {
                Err(e) => (finished, ValidationActionView::Done(Err(e))),
                Ok(Some(parent)) => (
                    ValidationView { stage: StageView::Creating(i, parent), reported: s.reported.push(f), ..s },
                    ValidationActionView::CreateParent(parent),
                ),
                Ok(None) => spec_enter(
                    s.original,
                    s.config,
                    s.base,
                    s.home,
                    s.reported.push(f),
                    s.created.push(None),
                    i + 1,
                ),
            },
            _ => arbitrary(),
        },
        StageView::Creating(i, parent) => match event {
            ValidationEventView::ParentCreated(failure) => match failure {
                Some(cause) => (
                    finished,
                    ValidationActionView::Done(
                        Err(
                            ProfileErrorView::TaskdataParentUncreatable {
                                profile: entries[i].0,
                                parent,
                                cause,
                            },
                        ),
                    ),
                ),
                None => spec_enter(
                    s.original,
                    s.config,
                    s.base,
                    s.home,
                    s.reported,
                    s.created.push(Some(parent)),
                    i + 1,
                ),
            },
            _ => arbitrary(),
        },
        StageView::Finished => arbitrary(),
    }
}

/// A run of the validation of a parsed profile configuration against the
/// configuration directory and the home directory. It keeps its own place:
/// each step takes the report it waits for and says what to do next.
pub struct Validation {
    config: ProfilesConfig,
    base_dir: String,
    home_dir: String,
    stage: Stage,
    original: Ghost<Entries>,
    reported: Ghost<Seq<PathFactsView>>,
    created: Ghost<Seq<Option<Seq<char>>>>,
}

impl View for Validation {
    type V = ValidationView;

    closed spec fn view(&self) -> ValidationView {
        ValidationView {
            original: self.original@,
            config: self.config@,
            base: self.base_dir@,
            home: self.home_dir@,
            stage: self.stage@,
            reported: self.reported@,
            created: self.created@,
        }
    }
}

impl Validation {
    #[verifier::type_invariant]
    closed spec fn on_track(self) -> bool {
        let s = self@;
        &&& keeps_identity(s.original, s.config.profiles, s.base, s.home)
        &&& match s.stage {
            StageView::Start => s.config.profiles == s.original && s.reported.len() == 0
                && s.created.len() == 0,
            StageView::Observing(i) => {
                &&& 0 <= i < s.original.len() <= usize::MAX
                &&& s.reported.len() == i
                &&& s.created.len() == i
                &&& passed_upto(s.original, s.config.profiles, s.reported, s.created, i, s.base, s.home)
                &&& resolved_entry(s.original[i], s.base, s.home) == Some(s.config.profiles[i])
                &&& untouched_from(s.original, s.config.profiles, i + 1)
            },
            StageView::Creating(i, parent) => {
                &&& 0 <= i < s.original.len() <= usize::MAX
                &&& s.reported.len() == i + 1
                &&& s.created.len() == i
                &&& passed_upto(s.original, s.config.profiles, s.reported, s.created, i, s.base, s.home)
                &&& resolved_entry(s.original[i], s.base, s.home) == Some(s.config.profiles[i])
                &&& files_accepted(s.config.profiles[i], s.reported[i], Some(parent))
                &&& untouched_from(s.original, s.config.profiles, i + 1)
            },
            StageView::Finished => true,
        }
    }

    /// A run that has not started, on `config`, with paths resolved against
    /// the configuration directory `base_dir` and the home directory
    /// `home_dir`.
    pub fn new(config: ProfilesConfig, base_dir: String, home_dir: String) -> (v: Validation)
        ensures
            v@ == (ValidationView {
                original: config@.profiles,
                config: config@,
                base: base_dir@,
                home: home_dir@,
                stage: StageView::Start,
                reported: Seq::empty(),
                created: Seq::empty(),
            }),
    {
        let ghost original = config@.profiles;
        Validation {
            config,
            base_dir,
            home_dir,
            stage: Stage::Start,
            original: Ghost(original),
            reported: Ghost(Seq::empty()),
            created: Ghost(Seq::empty()),
        }
    }

    /// Whether the run waits for `event`.
    pub fn awaits(&self, event: &ValidationEvent) -> (b: bool)
        ensures
            b == event_awaited(self@.stage, event@),
    {
        match (&self.stage, event) {
            (Stage::Start, ValidationEvent::Begin) => true,
            (Stage::Observing(_), ValidationEvent::Observed(_)) => true,
            (Stage::Creating(_, _), ValidationEvent::ParentCreated(_)) => true,
            _ => false,
        }
    }

    /// The configuration as it stands.
    pub fn config(&self) -> (c: &ProfilesConfig)
        ensures
            c@ == self@.config,
    {
        &self.config
    }

    /// Goes on to the profile at position `j`; see `spec_enter`.
    fn enter(
        mut config: ProfilesConfig,
        base_dir: String,
        home_dir: String,
        original: Ghost<Entries>,
        reported: Ghost<Seq<PathFactsView>>,
        created: Ghost<Seq<Option<Seq<char>>>>,
        j: usize,
    ) -> (r: (Validation, ValidationAction))
        requires
            0 < original@.len(),
            j <= original@.len(),
            keeps_identity(original@, config@.profiles, base_dir@, home_dir@),
            reported@.len() == j,
            created@.len() == j,
            passed_upto(original@, config@.profiles, reported@, created@, j as int, base_dir@, home_dir@),
            untouched_from(original@, config@.profiles, j as int),
        ensures
            (r.0@, r.1@) == spec_enter(
                original@,
                config@,
                base_dir@,
                home_dir@,
                reported@,
                created@,
                j as int,
            ),
            r.1@ == ValidationActionView::Done(Ok(())) ==> run_accepted(r.0@),
    {
        if j >= config.profiles.len() {
            let outcome = config.check_default();
            let action = ValidationAction::Done(outcome);
            let v = Validation { config, base_dir, home_dir, stage: Stage::Finished, original, reported, created };
            return (v, action);
        }
        let ghost before = config@.profiles;
        match config.validate_and_resolve_profile(j, base_dir.as_str(), home_dir.as_str()) {
            Ok(()) => {
                let taskrc = config.profiles.profile_at(j).taskrc.clone();
                let taskdata = config.profiles.profile_at(j).taskdata.clone();
                proof {
                    let now = config@.profiles;
                    assert(now[j as int] == before[j as int] || resolved_entry(original@[j as int], base_dir@, home_dir@) == Some(now[j as int]));
                    assert forall|k: int| 0 <= k < original@.len() implies #[trigger] now[k] == original@[k]
                        || resolved_entry(original@[k], base_dir@, home_dir@) == Some(now[k]) by {
                        if k != j {
                            assert(now[k] == before[k]);
                        }
                    }
                    assert forall|k: int| 0 <= k < j implies resolved_entry(original@[k], base_dir@, home_dir@)
                        == Some(#[trigger] now[k]) && files_accepted(now[k], reported@[k], created@[k]) by {
                        assert(now[k] == before[k]);
                    }
                    assert forall|k: int| j + 1 <= k < original@.len() implies #[trigger] now[k] == original@[k] by {
                        assert(now[k] == before[k]);
                    }
                }
                let v = Validation {
                    config,
                    base_dir,
                    home_dir,
                    stage: Stage::Observing(j),
                    original,
                    reported,
                    created,
                };
                (v, ValidationAction::Observe { taskrc, taskdata })
            },
            Err(e) => {
                let v = Validation { config, base_dir, home_dir, stage: Stage::Finished, original, reported, created };
                (v, ValidationAction::Done(Err(e)))
            },
        }
    }

    /// One step of the run: takes the report that the run waits for and
    /// says what the program is to do next; see `spec_step`. A step that
    /// ends the run with success leaves every profile checked, resolved and
    /// its files accepted on what was reported of them, and the default
    /// profile defined.
    pub fn step(self, event: ValidationEvent) -> (r: (Validation, ValidationAction))
        requires
            event_awaited(self@.stage, event@),
        ensures
            (r.0@, r.1@) == spec_step(self@, event@),
            r.0@.original == self@.original,
            keeps_identity(r.0@.original, r.0@.config.profiles, r.0@.base, r.0@.home),
            r.1@ == ValidationActionView::Done(Ok(())) ==> run_accepted(r.0@),
    {
        proof {
            use_type_invariant(&self);
        }
        let Validation { config, base_dir, home_dir, stage, original, reported, created } = self;
        match stage {
            Stage::Start => {
                if config.profiles.is_empty() {
                    let v = Validation { config, base_dir, home_dir, stage: Stage::Finished, original, reported, created };
                    (v, ValidationAction::Done(Err(ProfileError::NoProfiles)))
                } else {
                    Self::enter(config, base_dir, home_dir, original, reported, created, 0)
                }
            },
            Stage::Observing(i) => match event {
                ValidationEvent::Observed(facts) => match config.check_profile_files(i, &facts) {
                    Err(e) => {
                        let v = Validation {
                            config,
                            base_dir,
                            home_dir,
                            stage: Stage::Finished,
                            original,
                            reported,
                            created,
                        };
                        (v, ValidationAction::Done(Err(e)))
                    },
                    Ok(Some(parent)) => {
                        let p = parent.clone();
                        let v = Validation {
                            config,
                            base_dir,
                            home_dir,
                            stage: Stage::Creating(i, parent),
                            original,
                            reported: Ghost(reported@.push(facts@)),
                            created,
                        };
                        (v, ValidationAction::CreateParent(p))
                    },
                    Ok(None) => {
                        let ghost cur = config@.profiles;
                        proof {
                            assert forall|k: int| 0 <= k < i + 1 implies resolved_entry(original@[k], base_dir@, home_dir@)
                                == Some(#[trigger] cur[k]) && files_accepted(cur[k], reported@.push(facts@)[k], created@.push(None)[k]) by {
                                if k < i {
                                    assert(reported@.push(facts@)[k] == reported@[k]);
                                    assert(created@.push(None)[k] == created@[k]);
                                }
                            }
                        }
                        Self::enter(
                            config,
                            base_dir,
                            home_dir,
                            original,
                            Ghost(reported@.push(facts@)),
                            Ghost(created@.push(None)),
                            i + 1,
                        )
                    },
                },
                _ => {
                    proof {
                        assert(false);
                    }
                    let v = Validation { config, base_dir, home_dir, stage: Stage::Finished, original, reported, created };
                    (v, ValidationAction::Done(Err(ProfileError::NoProfiles)))
                },
            },
            Stage::Creating(i, parent) => match event {
                ValidationEvent::ParentCreated(failure) => match failure {
                    Some(cause) => {
                        let name = config.profiles.name_at(i).clone();
                        let v = Validation {
                            config,
                            base_dir,
                            home_dir,
                            stage: Stage::Finished,
                            original,
                            reported,
                            created,
                        };
                        (v, ValidationAction::Done(Err(ProfileError::TaskdataParentUncreatable { profile: name, parent, cause })))
                    },
                    None => {
                        let ghost cur = config@.profiles;
                        proof {
                            assert forall|k: int| 0 <= k < i + 1 implies resolved_entry(original@[k], base_dir@, home_dir@)
                                == Some(#[trigger] cur[k]) && files_accepted(cur[k], reported@[k], created@.push(Some(parent@))[k]) by {
                                if k < i {
                                    assert(created@.push(Some(parent@))[k] == created@[k]);
                                }
                            }
                        }
                        Self::enter(
                            config,
                            base_dir,
                            home_dir,
                            original,
                            reported,
                            Ghost(created@.push(Some(parent@))),
                            i + 1,
                        )
                    },
                },
                _ => {
                    proof {
                        assert(false);
                    }
                    let v = Validation { config, base_dir, home_dir, stage: Stage::Finished, original, reported, created };
                    (v, ValidationAction::Done(Err(ProfileError::NoProfiles)))
                },
            },
            Stage::Finished => {
                proof {
                    assert(false);
                }
                let v = Validation { config, base_dir, home_dir, stage: Stage::Finished, original, reported, created };
                (v, ValidationAction::Done(Err(ProfileError::NoProfiles)))
            },
        }
    }

    /// The configuration as it stands, ending the run.
    pub fn into_config(self) -> (c: ProfilesConfig)
        ensures
            c@ == self@.config,
    {
        self.config
    }
}

} // verus!
