//! The profile picker: searching profiles by name and label, moving the
//! selection, and reading the selected profile.

use vstd::prelude::*;
use vstd::arithmetic::div_mod::{lemma_mod_bound, lemma_mod_self_0, lemma_small_mod};

use crate::profile::{active_views, ActiveProfile, ActiveProfileView};
use crate::text::{contains_text, lowercase, spec_lowercase, text_contains, text_eq};

verus! {

/// The selection state of a table: the selected row, if any, and the first
/// row shown.
#[derive(Debug)]
pub struct TaskwarriorTuiTableState {
    offset: usize,
    current_selection: Option<usize>,
}

impl TaskwarriorTuiTableState {
    /// The selected row.
    pub closed spec fn selection(&self) -> Option<usize> {
        self.current_selection
    }

    /// The first row shown.
    pub closed spec fn first_row(&self) -> usize {
        self.offset
    }

    /// The first row selected and shown first.
    pub fn new() -> (r: TaskwarriorTuiTableState)
        ensures
            r.selection() == Some(0usize),
            r.first_row() == 0,
    {
        TaskwarriorTuiTableState { offset: 0, current_selection: Some(0) }
    }

    /// The selected row.
    pub fn current_selection(&self) -> (r: Option<usize>)
        ensures
            r == self.selection(),
    {
        self.current_selection
    }

    /// The first row shown.
    pub fn offset(&self) -> (r: usize)
        ensures
            r == self.first_row(),
    {
        self.offset
    }

    /// Selects `index`; clearing the selection also scrolls back to the top.
    pub fn select(&mut self, index: Option<usize>)
        ensures
            final(self).selection() == index,
            final(self).first_row() == (if index is None { 0 } else { old(self).first_row() }),
    {
        self.current_selection = index;
        if index.is_none() {
            self.offset = 0;
        }
    }
}

impl Default for TaskwarriorTuiTableState {
    fn default() -> (r: TaskwarriorTuiTableState)
        ensures
            r.selection() == Some(0usize),
            r.first_row() == 0,
    {
        TaskwarriorTuiTableState::new()
    }
}

/// A profile is shown for a (lowercased) query when the query is empty, or
/// occurs in its lowercased name or its lowercased label.
pub open spec fn profile_matches(p: ActiveProfileView, query: Seq<char>) -> bool {
    query.len() == 0 || contains_text(spec_lowercase(p.name), query) || contains_text(
        spec_lowercase(p.label),
        query,
    )
}

/// Whether a profile with the lowercased name `name_lower` and lowercased
/// label `label_lower` is shown for the lowercased query `query_lower`.
pub fn matches_query(name_lower: &str, label_lower: &str, query_lower: &str) -> (r: bool)
    ensures
        r == (query_lower@.len() == 0 || contains_text(name_lower@, query_lower@) || contains_text(
            label_lower@,
            query_lower@,
        )),
{
    query_lower.is_empty() || text_contains(name_lower, query_lower) || text_contains(
        label_lower,
        query_lower,
    )
}

/// The positions of the profiles shown for a (lowercased) query, in order.
pub open spec fn spec_filtered(ps: Seq<ActiveProfileView>, query: Seq<char>) -> Seq<usize>
    decreases ps.len(),
{
    if ps.len() == 0 {
        Seq::empty()
    } else {
        let before = spec_filtered(ps.drop_last(), query);
        if profile_matches(ps.last(), query) {
            before.push((ps.len() - 1) as usize)
        } else {
            before
        }
    }
}

/// The first position in `rows` whose profile is named `name`.
pub open spec fn first_row_named(ps: Seq<ActiveProfileView>, rows: Seq<usize>, name: Seq<char>) -> Option<int>
    decreases rows.len(),
{
    if rows.len() == 0 {
        None
    } else {
        match first_row_named(ps, rows.drop_last(), name) {
            Some(k) => Some(k),
            None => if ps[rows.last() as int].name == name {
                Some(rows.len() - 1)
            } else {
                None
            },
        }
    }
}

/// The selection after moving down among `len` rows: none when there are no
/// rows, else the row after the current one (no selection counts as the
/// first row), wrapping from the last row to the first.
pub open spec fn next_selection(current: Option<usize>, len: nat) -> Option<usize> {
    if len == 0 {
        None
    } else {
        let c = match current {
            Some(c) => c as int,
            None => 0,
        };
        Some(((c + 1) % (len as int)) as usize)
    }
}

/// The selection after moving up among `len` rows: none when there are no
/// rows, else the row before the current one (no selection counts as the
/// first row), wrapping from the first row to the last.
pub open spec fn previous_selection(current: Option<usize>, len: nat) -> Option<usize> {
    if len == 0 {
        None
    } else {
        let c = match current {
            Some(c) => c as int,
            None => 0,
        };
        if c >= 1 {
            Some((c - 1) as usize)
        } else {
            Some((len - 1) as usize)
        }
    }
}

/// The shown positions are positions of profiles, strictly increasing, and
/// a position is shown exactly when its profile matches the query.
pub proof fn law_filtered_indices_shape(ps: Seq<ActiveProfileView>, query: Seq<char>)
    requires
        ps.len() <= usize::MAX,
    ensures
        forall|k: int|
            0 <= k < spec_filtered(ps, query).len() ==> #[trigger] spec_filtered(ps, query)[k]
                < ps.len(),
        forall|a: int, b: int|
            0 <= a < b < spec_filtered(ps, query).len() ==> #[trigger] spec_filtered(ps, query)[a]
                < #[trigger] spec_filtered(ps, query)[b],
        forall|i: int|
            0 <= i < ps.len() ==> (spec_filtered(ps, query).contains(i as usize) <==> profile_matches(
                #[trigger] ps[i],
                query,
            )),
    decreases ps.len(),
{
    if ps.len() > 0 {
        let rest = ps.drop_last();
        law_filtered_indices_shape(rest, query);
        let before = spec_filtered(rest, query);
        let f = spec_filtered(ps, query);
        assert forall|a: int, b: int| 0 <= a < b < f.len() implies #[trigger] f[a] < #[trigger] f[b] by {
            if b == before.len() {
                assert(f[a] == before[a]);
            } else {
                assert(f[a] == before[a] && f[b] == before[b]);
            }
        }
        assert forall|k: int| 0 <= k < f.len() implies #[trigger] f[k] < ps.len() by {
            if k < before.len() {
                assert(f[k] == before[k]);
            }
        }
        assert forall|i: int| 0 <= i < ps.len() implies (f.contains(i as usize) <==> profile_matches(
            #[trigger] ps[i],
            query,
        )) by {
            if i < ps.len() - 1 {
                assert(rest[i] == ps[i]);
                if f.contains(i as usize) && !before.contains(i as usize) {
                    let k = choose|k: int| 0 <= k < f.len() && f[k] == i as usize;
                    assert(k == before.len());
                }
                if before.contains(i as usize) {
                    let k = choose|k: int| 0 <= k < before.len() && before[k] == i as usize;
                    assert(f[k] == i as usize);
                }
            } else {
                if profile_matches(ps.last(), query) {
                    assert(f[before.len() as int] == i as usize);
                } else if f.contains(i as usize) {
                    let k = choose|k: int| 0 <= k < f.len() && f[k] == i as usize;
                    assert(before[k] < rest.len());
                }
            }
        }
    }
}

/// The search finds a profile by its name and by its label: a profile is
/// shown when its lowercased name or its lowercased label holds the query,
/// and only then, unless the query is empty.
pub proof fn law_search_finds_names_and_labels(ps: Seq<ActiveProfileView>, query: Seq<char>, i: int)
    requires
        ps.len() <= usize::MAX,
        0 <= i < ps.len(),
    ensures
        contains_text(spec_lowercase(ps[i].name), query) ==> spec_filtered(ps, query).contains(i as usize),
        contains_text(spec_lowercase(ps[i].label), query) ==> spec_filtered(ps, query).contains(i as usize),
        query.len() == 0 ==> spec_filtered(ps, query).contains(i as usize),
        spec_filtered(ps, query).contains(i as usize) ==> query.len() == 0 || contains_text(
            spec_lowercase(ps[i].name),
            query,
        ) || contains_text(spec_lowercase(ps[i].label), query),
{
    law_filtered_indices_shape(ps, query);
    assert(spec_filtered(ps, query).contains(i as usize) <==> profile_matches(ps[i], query));
}

/// An empty query shows every profile, in order.
pub proof fn law_empty_query_shows_every_profile(ps: Seq<ActiveProfileView>)
    requires
        ps.len() <= usize::MAX,
    ensures
        spec_filtered(ps, Seq::empty()) == Seq::new(ps.len(), |i: int| i as usize),
    decreases ps.len(),
{
    if ps.len() > 0 {
        law_empty_query_shows_every_profile(ps.drop_last());
        assert(spec_filtered(ps, Seq::empty()) =~= Seq::new(ps.len(), |i: int| i as usize));
    } else {
        assert(spec_filtered(ps, Seq::empty()) =~= Seq::new(ps.len(), |i: int| i as usize));
    }
}

/// A match found among the first `j` rows stays the first match among all.
pub proof fn lemma_first_row_named_extends(ps: Seq<ActiveProfileView>, rows: Seq<usize>, j: int, name: Seq<char>)
    requires
        0 <= j <= rows.len(),
        first_row_named(ps, rows.subrange(0, j), name) is Some,
    ensures
        first_row_named(ps, rows, name) == first_row_named(ps, rows.subrange(0, j), name),
    decreases rows.len() - j,
{
    if j < rows.len() {
        assert(rows.subrange(0, j + 1).drop_last() =~= rows.subrange(0, j));
        lemma_first_row_named_extends(ps, rows, j + 1, name);
    } else {
        assert(rows.subrange(0, j) =~= rows);
    }
}

/// Moving down and then up, or up and then down, comes back to a selected
/// row that is among the shown rows.
pub proof fn law_next_and_previous_undo_each_other(s: usize, len: nat)
    requires
        s < len,
        len <= usize::MAX,
    ensures
        previous_selection(next_selection(Some(s), len), len) == Some(s),
        next_selection(previous_selection(Some(s), len), len) == Some(s),
{
    if s + 1 < len {
        lemma_small_mod((s + 1) as nat, len);
    } else {
        lemma_mod_self_0(len as int);
        assert(s + 1 == len);
    }
    if s >= 1 {
        lemma_small_mod(s as nat, len);
    } else {
        lemma_mod_self_0(len as int);
    }
}

/// With rows shown, moving down always selects a shown row, and so does
/// moving up from no selection or from a row not past the shown ones.
pub proof fn law_moves_select_shown_rows(current: Option<usize>, len: nat)
    requires
        0 < len <= usize::MAX,
    ensures
        next_selection(current, len) matches Some(n) && n < len,
        (current matches Some(c) ==> c <= len) ==> (previous_selection(current, len) matches Some(p)
            && p < len),
{
    let c: int = match current {
        Some(c) => c as int,
        None => 0,
    };
    lemma_mod_bound(c + 1, len as int);
}

/// The row that `select_active` picks holds the active profile whenever the
/// active profile is shown; otherwise no shown row holds it.
pub proof fn law_active_row_holds_active_profile(ps: Seq<ActiveProfileView>, rows: Seq<usize>, name: Seq<char>)
    requires
        forall|k: int| 0 <= k < rows.len() ==> #[trigger] rows[k] < ps.len(),
    ensures
        match first_row_named(ps, rows, name) {
            Some(k) => 0 <= k < rows.len() && ps[rows[k] as int].name == name && forall|j: int|
                0 <= j < k ==> #[trigger] ps[rows[j] as int].name != name,
            None => forall|j: int| 0 <= j < rows.len() ==> #[trigger] ps[rows[j] as int].name != name,
        },
    decreases rows.len(),
{
    if rows.len() > 0 {
        let before = rows.drop_last();
        law_active_row_holds_active_profile(ps, before, name);
        assert forall|j: int| 0 <= j < before.len() implies #[trigger] before[j] == rows[j] by {}
        match first_row_named(ps, before, name) {
            Some(k) => {
                assert(before[k] == rows[k]);
                assert forall|j: int| 0 <= j < k implies #[trigger] ps[rows[j] as int].name != name by {
                    assert(before[j] == rows[j]);
                }
            },
            None => {
                assert forall|j: int| 0 <= j < rows.len() - 1 implies #[trigger] ps[rows[j] as int].name
                    != name by {
                    assert(before[j] == rows[j]);
                }
            },
        }
    }
}

/// The profile picker: the active profile, all profiles, the search text and
/// the selection among the profiles that the search shows.
#[derive(Debug)]
pub struct ProfileMenuState {
    pub active: ActiveProfile,
    pub profiles: Vec<ActiveProfile>,
    pub search: String,
    pub table_state: TaskwarriorTuiTableState,
}

impl ProfileMenuState {
    /// The positions of the profiles that the current search shows.
    pub open spec fn shown(&self) -> Seq<usize> {
        spec_filtered(active_views(self.profiles@), spec_lowercase(self.search@))
    }

    /// A picker over `profiles` with `active` current, an empty search and
    /// the first row selected.
    pub fn new(active: ActiveProfile, profiles: Vec<ActiveProfile>) -> (r: ProfileMenuState)
        ensures
            r.active == active,
            r.profiles == profiles,
            r.search@ == Seq::<char>::empty(),
            r.table_state.selection() == Some(0usize),
            r.table_state.first_row() == 0,
    {
        ProfileMenuState {
            active,
            profiles,
            search: String::new(),
            table_state: TaskwarriorTuiTableState::new(),
        }
    }

    /// The positions of the profiles whose lowercased name or label holds the
    /// lowercased search text (all of them for an empty search), in order.
    pub fn filtered_indices(&self) -> (r: Vec<usize>)
        ensures
            r@ == self.shown(),
            self.search@.len() == 0 ==> r@ == Seq::new(
                self.profiles@.len(),
                |i: int| i as usize,
            ),
            forall|i: int|
                0 <= i < self.profiles@.len() ==> (contains_text(
                    spec_lowercase(#[trigger] self.profiles@[i].name@),
                    spec_lowercase(self.search@),
                ) || contains_text(spec_lowercase(self.profiles@[i].label@), spec_lowercase(self.search@)))
                    ==> r@.contains(i as usize),
    {
        let query = lowercase(self.search.as_str());
        let n = self.profiles.len();
        let mut out: Vec<usize> = Vec::new();
        let mut i: usize = 0;
        let ghost ps = active_views(self.profiles@);
        while i < n
            invariant
                n == self.profiles@.len(),
                ps == active_views(self.profiles@),
                query@ == spec_lowercase(self.search@),
                i <= n,
                out@ == spec_filtered(ps.subrange(0, i as int), query@),
            decreases n - i,
        {
            let profile = &self.profiles[i];
            let name_lower = lowercase(profile.name.as_str());
            let label_lower = lowercase(profile.label.as_str());
            let shown = matches_query(name_lower.as_str(), label_lower.as_str(), query.as_str());
            proof {
                let pre = ps.subrange(0, i + 1);
                assert(pre.drop_last() =~= ps.subrange(0, i as int));
                assert(pre.last() == self.profiles@[i as int]@);
            }
            if shown {
                out.push(i);
            }
            i = i + 1;
        }
        assert(ps.subrange(0, n as int) =~= ps);
        proof {
            if self.search@.len() == 0 {
                assert(query@ =~= Seq::<char>::empty());
                law_empty_query_shows_every_profile(ps);
            }
            assert forall|k: int|
                0 <= k < self.profiles@.len() && (contains_text(
                    spec_lowercase(#[trigger] self.profiles@[k].name@),
                    spec_lowercase(self.search@),
                ) || contains_text(spec_lowercase(self.profiles@[k].label@), spec_lowercase(self.search@)))
                implies out@.contains(k as usize) by {
                assert(ps[k] == self.profiles@[k]@);
                law_search_finds_names_and_labels(ps, query@, k);
            }
        }
        out
    }

    /// The selected profile: the shown profile at the selected row, if a row
    /// is selected and shown.
    pub fn selected_profile(&self) -> (r: Option<&ActiveProfile>)
        ensures
            match self.table_state.selection() {
                Some(s) => if s < self.shown().len() {
                    r matches Some(p) && p@ == self.profiles@[self.shown()[s as int] as int]@
                } else {
                    r is None
                },
                None => r is None,
            },
    {
        let filtered_index = match self.table_state.current_selection() {
            Some(s) => s,
            None => {
                return None;
            },
        };
        let filtered = self.filtered_indices();
        if filtered_index >= filtered.len() {
            return None;
        }
        let profile_index = filtered[filtered_index];
        let n = self.profiles.len();
        proof {
            law_filtered_indices_shape(active_views(self.profiles@), spec_lowercase(self.search@));
        }
        if profile_index < self.profiles.len() {
            Some(&self.profiles[profile_index])
        } else {
            None
        }
    }

    /// The row of the active profile among the shown profiles, or the first
    /// row when it is not shown.
    pub fn active_row(&self) -> (r: usize)
        ensures
            r == match first_row_named(active_views(self.profiles@), self.shown(), self.active.name@) {
                Some(k) => k as usize,
                None => 0usize,
            },
    {
        let filtered = self.filtered_indices();
        let n = self.profiles.len();
        let ghost ps = active_views(self.profiles@);
        proof {
            law_filtered_indices_shape(ps, spec_lowercase(self.search@));
        }
        let mut j: usize = 0;
        while j < filtered.len()
            invariant
                filtered@ == spec_filtered(ps, spec_lowercase(self.search@)),
                ps == active_views(self.profiles@),
                n == self.profiles@.len(),
                forall|k: int| 0 <= k < filtered@.len() ==> #[trigger] filtered@[k] < ps.len(),
                j <= filtered@.len(),
                first_row_named(ps, filtered@.subrange(0, j as int), self.active.name@) is None,
            decreases filtered@.len() - j,
        {
            let index = filtered[j];
            proof {
                assert(filtered@.subrange(0, j + 1).drop_last() =~= filtered@.subrange(0, j as int));
            }
            if text_eq(self.profiles[index].name.as_str(), self.active.name.as_str()) {
                proof {
                    assert(first_row_named(ps, filtered@.subrange(0, j + 1), self.active.name@)
                        == Some(j as int));
                    lemma_first_row_named_extends(ps, filtered@, j as int + 1, self.active.name@);
                }
                return j;
            }
            j = j + 1;
        }
        assert(filtered@.subrange(0, j as int) =~= filtered@);
        0
    }

    /// Selects the row of the active profile among the shown profiles, or
    /// the first row when it is not shown.
    pub fn select_active(&mut self)
        ensures
            final(self).active == old(self).active,
            final(self).profiles == old(self).profiles,
            final(self).search == old(self).search,
            final(self).table_state.first_row() == old(self).table_state.first_row(),
            final(self).table_state.selection() == Some(
                match first_row_named(
                    active_views(old(self).profiles@),
                    old(self).shown(),
                    old(self).active.name@,
                ) {
                    Some(k) => k as usize,
                    None => 0usize,
                },
            ),
    {
        let position = self.active_row();
        self.table_state.select(Some(position));
    }

    /// Moves the selection one row down among the shown profiles, wrapping
    /// to the first row; clears it when nothing is shown.
    pub fn next(&mut self)
        requires
            old(self).shown().len() > 0 ==> (old(self).table_state.selection() matches Some(c) ==> c
                < usize::MAX),
        ensures
            final(self).active == old(self).active,
            final(self).profiles == old(self).profiles,
            final(self).search == old(self).search,
            final(self).table_state.selection() == next_selection(
                old(self).table_state.selection(),
                old(self).shown().len(),
            ),
            final(self).table_state.first_row() == (if old(self).shown().len() == 0 {
                0
            } else {
                old(self).table_state.first_row()
            }),
    {
        let len = self.filtered_indices().len();
        if len == 0 {
            self.table_state.select(None);
            return;
        }
        let current = match self.table_state.current_selection() {
            Some(c) => c,
            None => 0,
        };
        self.table_state.select(Some((current + 1) % len));
    }

    /// Moves the selection one row up among the shown profiles, wrapping to
    /// the last row; clears it when nothing is shown.
    pub fn previous(&mut self)
        ensures
            final(self).active == old(self).active,
            final(self).profiles == old(self).profiles,
            final(self).search == old(self).search,
            final(self).table_state.selection() == previous_selection(
                old(self).table_state.selection(),
                old(self).shown().len(),
            ),
            final(self).table_state.first_row() == (if old(self).shown().len() == 0 {
                0
            } else {
                old(self).table_state.first_row()
            }),
    {
        let len = self.filtered_indices().len();
        if len == 0 {
            self.table_state.select(None);
            return;
        }
        let current = match self.table_state.current_selection() {
            Some(c) => c,
            None => 0,
        };
        let position = if current >= 1 {
            current - 1
        } else {
            len - 1
        };
        self.table_state.select(Some(position));
    }
}

} // verus!
