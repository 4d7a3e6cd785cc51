//! The profile model: colors, configured profiles, the ordered profile map of
//! `profiles.toml`, and the active profile that a session runs against.

use vstd::prelude::*;

use crate::text::{text_less, text_order, lemma_text_less_irreflexive, lemma_text_less_total, lemma_text_less_transitive};

verus! {

/// The badge color of a profile, one of the named terminal colors.
#[derive(Clone, Copy, Debug, PartialEq, Eq, Structural)]
pub enum ProfileColor {
    Black,
    Red,
    Green,
    Yellow,
    Blue,
    Magenta,
    Cyan,
    Gray,
    DarkGray,
    LightRed,
    LightGreen,
    LightYellow,
    LightBlue,
    LightMagenta,
    LightCyan,
    White,
}

/// One configured profile: its Taskwarrior configuration file, its data
/// directory, and how it is presented.
#[derive(Clone, Debug)]
pub struct Profile {
    pub taskrc: String,
    pub taskdata: String,
    pub label: Option<String>,
    pub color: Option<ProfileColor>,
}

/// The contents of a `Profile`, as character sequences.
pub struct ProfileView {
    pub taskrc: Seq<char>,
    pub taskdata: Seq<char>,
    pub label: Option<Seq<char>>,
    pub color: Option<ProfileColor>,
}

impl View for Profile {
    type V = ProfileView;

    open spec fn view(&self) -> ProfileView {
        ProfileView {
            taskrc: self.taskrc@,
            taskdata: self.taskdata@,
            label: match self.label {
                Some(l) => Some(l@),
                None => None,
            },
            color: self.color,
        }
    }
}

impl Profile {
    /// A copy of the profile.
    pub fn duplicate(&self) -> (r: Profile)
        ensures
            r@ == self@,
    {
        Profile {
            taskrc: self.taskrc.clone(),
            taskdata: self.taskdata.clone(),
            label: match &self.label {
                Some(l) => Some(l.clone()),
                None => None,
            },
            color: self.color,
        }
    }
}

/// The profile a session runs against: a configured profile together with
/// its name, and its label filled in.
#[derive(Clone, Debug, PartialEq, Eq)]
pub struct ActiveProfile {
    pub name: String,
    pub taskrc: String,
    pub taskdata: String,
    pub label: String,
    pub color: Option<ProfileColor>,
}

/// The contents of an `ActiveProfile`, as character sequences.
pub struct ActiveProfileView {
    pub name: Seq<char>,
    pub taskrc: Seq<char>,
    pub taskdata: Seq<char>,
    pub label: Seq<char>,
    pub color: Option<ProfileColor>,
}

impl View for ActiveProfile {
    type V = ActiveProfileView;

    open spec fn view(&self) -> ActiveProfileView {
        ActiveProfileView {
            name: self.name@,
            taskrc: self.taskrc@,
            taskdata: self.taskdata@,
            label: self.label@,
            color: self.color,
        }
    }
}

/// The active profile that the profile `p` named `name` gives: the same paths
/// and color, and its label, or its name where it has none.
pub open spec fn active_from(name: Seq<char>, p: ProfileView) -> ActiveProfileView {
    ActiveProfileView {
        name,
        taskrc: p.taskrc,
        taskdata: p.taskdata,
        label: match p.label {
            Some(l) => l,
            None => name,
        },
        color: p.color,
    }
}

/// The views of a sequence of active profiles.
pub open spec fn active_views(s: Seq<ActiveProfile>) -> Seq<ActiveProfileView> {
    s.map_values(|a: ActiveProfile| a@)
}

/// Entries of a profile map: names with their profiles, in map order.
pub type Entries = Seq<(Seq<char>, ProfileView)>;

/// The names are strictly increasing in code point order, so each occurs once.
pub open spec fn keys_sorted(s: Entries) -> bool {
    forall|i: int, j: int| 0 <= i < j < s.len() ==> text_less(#[trigger] s[i].0, #[trigger] s[j].0)
}

/// Some entry has the name `k`.
pub open spec fn has_key(s: Entries, k: Seq<char>) -> bool {
    exists|i: int| 0 <= i < s.len() && #[trigger] s[i].0 == k
}

/// The profile under the name `k`, if there is one.
pub open spec fn lookup(s: Entries, k: Seq<char>) -> Option<ProfileView> {
    if has_key(s, k) {
        Some(s[choose|i: int| 0 <= i < s.len() && #[trigger] s[i].0 == k].1)
    } else {
        None
    }
}

/// In a map with sorted names, the entry at `i` is what its name looks up.
pub proof fn lemma_lookup_at(s: Entries, i: int)
    requires
        keys_sorted(s),
        0 <= i < s.len(),
    ensures
        lookup(s, s[i].0) == Some(s[i].1),
{
    assert(has_key(s, s[i].0));
    let j = choose|j: int| 0 <= j < s.len() && #[trigger] s[j].0 == s[i].0;
    if j < i {
        lemma_text_less_irreflexive(s[i].0);
        assert(text_less(s[j].0, s[i].0));
    } else if i < j {
        lemma_text_less_irreflexive(s[i].0);
        assert(text_less(s[i].0, s[j].0));
    }
}

/// Configured profiles by name, kept in name order as `BTreeMap` keeps its
/// `String` keys.
#[derive(Debug)]
pub struct ProfileMap {
    entries: Vec<(String, Profile)>,
}

impl View for ProfileMap {
    type V = Entries;

    closed spec fn view(&self) -> Entries {
        self.entries@.map_values(|e: (String, Profile)| (e.0@, e.1@))
    }
}

impl ProfileMap {
    #[verifier::type_invariant]
    closed spec fn sorted(self) -> bool {
        keys_sorted(self@)
    }

    /// An empty map.
    pub fn new() -> (r: ProfileMap)
        ensures
            r@ == Seq::<(Seq<char>, ProfileView)>::empty(),
    {
        let r = ProfileMap { entries: Vec::new() };
        assert(r@ =~= Seq::<(Seq<char>, ProfileView)>::empty());
        r
    }

    /// The number of profiles.
    pub fn len(&self) -> (n: usize)
        ensures
            n == self@.len(),
            keys_sorted(self@),
    {
        proof {
            use_type_invariant(self);
        }
        self.entries.len()
    }

    /// Whether there are no profiles.
    pub fn is_empty(&self) -> (r: bool)
        ensures
            r == (self@.len() == 0),
    {
        self.entries.len() == 0
    }

    /// The name of the profile at position `i` in name order.
    pub fn name_at(&self, i: usize) -> (r: &String)
        requires
            i < self@.len(),
        ensures
            r@ == self@[i as int].0,
    {
        &self.entries[i].0
    }

    /// The profile at position `i` in name order.
    pub fn profile_at(&self, i: usize) -> (r: &Profile)
        requires
            i < self@.len(),
        ensures
            r@ == self@[i as int].1,
    {
        &self.entries[i].1
    }

    /// The position of the profile named `name`, if there is one.
    pub fn position(&self, name: &str) -> (r: Option<usize>)
        ensures
            keys_sorted(self@),
            match r {
                Some(i) => i < self@.len() && self@[i as int].0 == name@,
                None => !has_key(self@, name@),
            },
    {
        proof {
            use_type_invariant(self);
        }
        let mut i: usize = 0;
        while i < self.entries.len()
            invariant
                keys_sorted(self@),
                i <= self@.len(),
                self@.len() == self.entries@.len(),
                forall|j: int| 0 <= j < i ==> #[trigger] self@[j].0 != name@,
            decreases self@.len() - i,
        {
            if text_order(self.entries[i].0.as_str(), name) == 0 {
                return Some(i);
            }
            i = i + 1;
        }
        None
    }

    /// The profile named `name`, if there is one.
    pub fn get(&self, name: &str) -> (r: Option<&Profile>)
        ensures
            keys_sorted(self@),
            match r {
                Some(p) => lookup(self@, name@) == Some(p@),
                None => lookup(self@, name@) is None,
            },
    {
        match self.position(name) {
            Some(i) => {
                proof {
                    lemma_lookup_at(self@, i as int);
                }
                Some(&self.entries[i].1)
            },
            None => None,
        }
    }

    /// Whether a profile is named `name`.
    pub fn contains_key(&self, name: &str) -> (r: bool)
        ensures
            r == has_key(self@, name@),
    {
        self.position(name).is_some()
    }

    /// Puts `profile` under `name`, in name order, replacing and handing back
    /// the profile that was under that name before.
    pub fn insert(&mut self, name: String, profile: Profile) -> (r: Option<Profile>)
        ensures
            keys_sorted(final(self)@),
            match r {
                Some(p) => lookup(old(self)@, name@) == Some(p@),
                None => lookup(old(self)@, name@) is None,
            },
            lookup(final(self)@, name@) == Some(profile@),
            forall|k: Seq<char>| k != name@ ==> lookup(final(self)@, k) == lookup(old(self)@, k),
            final(self)@.len() == old(self)@.len() + (if has_key(old(self)@, name@) { 0int } else { 1int }),
    {
        proof {
            use_type_invariant(&*self);
        }
        let ghost old_view = self@;
        let mut entries: Vec<(String, Profile)> = Vec::new();
        std::mem::swap(&mut entries, &mut self.entries);
        assert(entries@.map_values(|e: (String, Profile)| (e.0@, e.1@)) == old_view);
        let n = entries.len();
        let mut i: usize = 0;
        let mut found = false;
        let mut stop = false;
        while i < n && !stop
            invariant
                n == entries@.len(),
                old_view == entries@.map_values(|e: (String, Profile)| (e.0@, e.1@)),
                keys_sorted(old_view),
                i <= n,
                forall|j: int| 0 <= j < i ==> text_less(#[trigger] old_view[j].0, name@),
                stop ==> i < n && !text_less(old_view[i as int].0, name@),
                found ==> stop && old_view[i as int].0 == name@,
                stop && !found ==> text_less(name@, old_view[i as int].0),
            decreases n - i + (if stop { 0int } else { 1int }),
        {
            let o = text_order(entries[i].0.as_str(), name.as_str());
            proof {
                lemma_text_less_total(old_view[i as int].0, name@);
            }
            if o == -1 {
                i = i + 1;
            } else {
                stop = true;
                found = o == 0;
            }
        }
        let ghost pos = i as int;
        let result;
        if found {
            let old_entry = entries.remove(i);
            entries.insert(i, (name, profile));
            result = Some(old_entry.1);
            proof {
                let nv = entries@.map_values(|e: (String, Profile)| (e.0@, e.1@));
                assert(nv =~= old_view.update(pos, (name@, profile@)));
                lemma_lookup_at(old_view, pos);
            }
        } else {
            entries.insert(i, (name, profile));
            result = None;
            proof {
                let nv = entries@.map_values(|e: (String, Profile)| (e.0@, e.1@));
                assert(nv =~= old_view.insert(pos, (name@, profile@)));
                assert forall|j: int| 0 <= j < old_view.len() implies #[trigger] old_view[j].0
                    != name@ by {
                    if j < pos {
                        lemma_text_less_irreflexive(name@);
                    } else {
                        lemma_text_less_irreflexive(name@);
                        if j > pos {
                            lemma_text_less_transitive(name@, old_view[pos].0, old_view[j].0);
                        }
                    }
                }
            }
        }
        let ghost nv = entries@.map_values(|e: (String, Profile)| (e.0@, e.1@));
        proof {
            assert forall|a: int, b: int| 0 <= a < b < nv.len() implies text_less(
                #[trigger] nv[a].0,
                #[trigger] nv[b].0,
            ) by {
                if found {
                    if a == pos {
                        assert(nv[a].0 == old_view[a].0);
                    }
                    if b == pos {
                        assert(nv[b].0 == old_view[b].0);
                    }
                    assert(nv[a].0 == old_view[a].0);
                    assert(nv[b].0 == old_view[b].0);
                } else {
                    if b < pos {
                        assert(nv[a] == old_view[a] && nv[b] == old_view[b]);
                    } else if b == pos {
                        assert(nv[a] == old_view[a]);
                    } else if a == pos {
                        assert(nv[b] == old_view[b - 1]);
                        if b - 1 > pos {
                            lemma_text_less_transitive(name@, old_view[pos].0, old_view[b - 1].0);
                        }
                    } else if a < pos {
                        assert(nv[a] == old_view[a] && nv[b] == old_view[b - 1]);
                        if a < b - 1 {
                        } else {
                            assert(a == pos - 1 || a < b - 1);
                        }
                    } else {
                        assert(nv[a] == old_view[a - 1] && nv[b] == old_view[b - 1]);
                    }
                }
            }
            assert(keys_sorted(nv));
            lemma_lookup_at(nv, pos);
            assert forall|k: Seq<char>| k != name@ implies lookup(nv, k) == lookup(old_view, k) by {
                if has_key(old_view, k) {
                    let j = choose|j: int| 0 <= j < old_view.len() && #[trigger] old_view[j].0 == k;
                    lemma_lookup_at(old_view, j);
                    let jn = if found || j < pos { j } else { j + 1 };
                    assert(nv[jn] == old_view[j]);
                    lemma_lookup_at(nv, jn);
                } else if has_key(nv, k) {
                    let j = choose|j: int| 0 <= j < nv.len() && #[trigger] nv[j].0 == k;
                    if found || j < pos {
                        assert(old_view[j].0 == k);
                    } else if j > pos {
                        assert(old_view[j - 1].0 == k);
                    }
                }
            }
        }
        self.entries = entries;
        result
    }

    /// Replaces the two paths of the profile at position `i`.
    pub fn set_paths(&mut self, i: usize, taskrc: String, taskdata: String)
        requires
            i < old(self)@.len(),
        ensures
            final(self)@ == old(self)@.update(
                i as int,
                (
                    old(self)@[i as int].0,
                    ProfileView { taskrc: taskrc@, taskdata: taskdata@, ..old(self)@[i as int].1 },
                ),
            ),
    {
        proof {
            use_type_invariant(&*self);
        }
        let ghost old_view = self@;
        let mut entries: Vec<(String, Profile)> = Vec::new();
        std::mem::swap(&mut entries, &mut self.entries);
        assert(entries@.map_values(|e: (String, Profile)| (e.0@, e.1@)) == old_view);
        let (name, profile) = entries.remove(i);
        let updated = Profile { taskrc, taskdata, label: profile.label, color: profile.color };
        entries.insert(i, (name, updated));
        let ghost nv = entries@.map_values(|e: (String, Profile)| (e.0@, e.1@));
        assert(nv =~= old_view.update(
            i as int,
            (
                old_view[i as int].0,
                ProfileView { taskrc: taskrc@, taskdata: taskdata@, ..old_view[i as int].1 },
            ),
        ));
        assert(keys_sorted(nv)) by {
            assert forall|a: int, b: int| 0 <= a < b < nv.len() implies text_less(
                #[trigger] nv[a].0,
                #[trigger] nv[b].0,
            ) by {
                assert(nv[a].0 == old_view[a].0);
                assert(nv[b].0 == old_view[b].0);
            }
        }
        self.entries = entries;
    }
}

} // verus!
