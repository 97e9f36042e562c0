//! Finding a pane by patterns on its workspace, its tab's title and its own
//! title.

use crate::cache::{pattern_text, PatternCache};
use crate::matcher::{compile_outcome, compiles, pattern_matches, PatternCompileError, SharedMatcher};
use crate::pane::{flatten_panes, pointees, PaneEntry, PaneView, Tab, TabView};
use vstd::prelude::*;

verus! {

/// The three optional patterns of a search, compiled.
#[derive(Clone, Debug)]
pub struct PaneFilters {
    /// Tested against the workspace of a tab's first pane.
    pub workspace: Option<SharedMatcher>,
    /// Tested against a tab's title.
    pub tab: Option<SharedMatcher>,
    /// Tested against a pane's title.
    pub title: Option<SharedMatcher>,
}

/// The pattern texts of a search.
pub struct FilterTexts {
    pub workspace: Option<Seq<char>>,
    pub tab: Option<Seq<char>>,
    pub title: Option<Seq<char>>,
}

/// The text that an optional matcher was compiled from.
pub open spec fn source_of(filter: Option<SharedMatcher>) -> Option<Seq<char>> {
    match filter {
        None => None,
        Some(matcher) => Some(matcher.source()),
    }
}

impl View for PaneFilters {
    type V = FilterTexts;

    open spec fn view(&self) -> FilterTexts {
        FilterTexts {
            workspace: source_of(self.workspace),
            tab: source_of(self.tab),
            title: source_of(self.title),
        }
    }
}

/// Whether `filter` lets `text` pass: an absent filter lets everything pass,
/// a pattern lets pass what it matches.
pub open spec fn accepts(filter: Option<Seq<char>>, text: Seq<char>) -> bool {
    filter matches Some(pattern) ==> pattern_matches(pattern, text)
}

/// Whether a tab's panes are looked at: its title passes the tab filter,
/// and the workspace of its first pane, if it has a pane, passes the
/// workspace filter.
pub open spec fn tab_admitted(tab: TabView, filters: FilterTexts) -> bool {
    &&& accepts(filters.tab, tab.title)
    &&& tab.panes.len() > 0 ==> accepts(filters.workspace, tab.panes[0].workspace)
}

/// The first pane of `panes` whose title passes `title`.
pub open spec fn first_titled(panes: Seq<PaneView>, title: Option<Seq<char>>) -> Option<PaneView>
    decreases panes.len(),
{
    if panes.len() == 0 {
        None
    } else if accepts(title, panes.first().title) {
        Some(panes.first())
    } else {
        first_titled(panes.drop_first(), title)
    }
}

/// The pane that a single tab offers to the search, if any.
pub open spec fn tab_choice(tab: TabView, filters: FilterTexts) -> Option<PaneView> {
    if tab_admitted(tab, filters) {
        first_titled(tab.panes, filters.title)
    } else {
        None
    }
}

/// The pane that the search selects: what the first tab offers that offers
/// anything.
pub open spec fn selected(tabs: Seq<TabView>, filters: FilterTexts) -> Option<PaneView>
    decreases tabs.len(),
{
    if tabs.len() == 0 {
        None
    } else {
        match tab_choice(tabs.first(), filters) {
            Some(pane) => Some(pane),
            None => selected(tabs.drop_first(), filters),
        }
    }
}

/// The tabs of a session as contracts see them.
pub open spec fn session(tabs: Seq<Tab>) -> Seq<TabView> {
    tabs.map_values(|tab: Tab| tab@)
}

/// The handle of an optional pane.
pub open spec fn handle(pane: Option<PaneView>) -> Option<usize> {
    match pane {
        None => None,
        Some(pane) => Some(pane.pane_id),
    }
}

/// What the search selects is what the first tab offers that offers
/// anything; it selects nothing where no tab offers anything.
pub proof fn lemma_selected_is_first_offer(tabs: Seq<TabView>, filters: FilterTexts)
    ensures
        match selected(tabs, filters) {
            Some(pane) => exists|i: int|
                0 <= i < tabs.len() && tab_choice(#[trigger] tabs[i], filters) == Some(pane)
                    && forall|j: int| 0 <= j < i ==> tab_choice(#[trigger] tabs[j], filters) is None,
            None => forall|i: int| 0 <= i < tabs.len() ==> tab_choice(#[trigger] tabs[i], filters) is None,
        },
    decreases tabs.len(),
{
    if tabs.len() > 0 && tab_choice(tabs.first(), filters) is None {
        let rest = tabs.drop_first();
        lemma_selected_is_first_offer(rest, filters);
        match selected(rest, filters) {
            Some(pane) => {
                let i = choose|i: int|
                    0 <= i < rest.len() && tab_choice(#[trigger] rest[i], filters) == Some(pane)
                        && forall|j: int| 0 <= j < i ==> tab_choice(#[trigger] rest[j], filters) is None;
                assert forall|j: int| 0 <= j < i + 1 implies tab_choice(
                    #[trigger] tabs[j],
                    filters,
                ) is None by {
                    assert(j > 0 ==> tabs[j] == rest[j - 1]);
                }
            },
            None => {
                assert forall|i: int| 0 <= i < tabs.len() implies tab_choice(
                    #[trigger] tabs[i],
                    filters,
                ) is None by {
                    assert(i > 0 ==> tabs[i] == rest[i - 1]);
                }
            },
        }
    }
}

/// Among panes, the one picked by title is the first whose title passes;
/// none is picked where no title passes.
pub proof fn lemma_first_titled(panes: Seq<PaneView>, title: Option<Seq<char>>)
    ensures
        match first_titled(panes, title) {
            Some(pane) => exists|k: int|
                0 <= k < panes.len() && #[trigger] panes[k] == pane && accepts(title, pane.title)
                    && forall|j: int| 0 <= j < k ==> !accepts(title, (#[trigger] panes[j]).title),
            None => forall|k: int| 0 <= k < panes.len() ==> !accepts(title, (#[trigger] panes[k]).title),
        },
    decreases panes.len(),
{
    if panes.len() > 0 && !accepts(title, panes.first().title) {
        let rest = panes.drop_first();
        lemma_first_titled(rest, title);
        match first_titled(rest, title) {
            Some(pane) => {
                let k = choose|k: int|
                    0 <= k < rest.len() && #[trigger] rest[k] == pane && accepts(title, pane.title)
                        && forall|j: int| 0 <= j < k ==> !accepts(title, (#[trigger] rest[j]).title);
                assert forall|j: int| 0 <= j < k + 1 implies !accepts(
                    title,
                    (#[trigger] panes[j]).title,
                ) by {
                    assert(j > 0 ==> panes[j] == rest[j - 1]);
                }
            },
            None => {
                assert forall|k: int| 0 <= k < panes.len() implies !accepts(
                    title,
                    (#[trigger] panes[k]).title,
                ) by {
                    assert(k > 0 ==> panes[k] == rest[k - 1]);
                }
            },
        }
    }
}

/// Whether pane `k` of tab `i` is one that the search could select: the tab
/// is admitted and the pane's title passes.
pub open spec fn eligible(tabs: Seq<TabView>, filters: FilterTexts, i: int, k: int) -> bool {
    &&& 0 <= i < tabs.len()
    &&& 0 <= k < tabs[i].panes.len()
    &&& tab_admitted(tabs[i], filters)
    &&& accepts(filters.title, tabs[i].panes[k].title)
}

/// The search selects the first eligible pane of the session, tabs in their
/// order and panes in layout order within a tab; it selects nothing exactly
/// where no pane is eligible.
pub proof fn lemma_selected_is_first_eligible(tabs: Seq<TabView>, filters: FilterTexts)
    ensures
        match selected(tabs, filters) {
            Some(pane) => exists|i: int, k: int| #[trigger]
                eligible(tabs, filters, i, k) && pane == tabs[i].panes[k] && forall|
                    other_i: int,
                    other_k: int,
                | #[trigger]
                    eligible(tabs, filters, other_i, other_k) ==> i < other_i || (i == other_i && k
                        <= other_k),
            None => forall|i: int, k: int| !#[trigger] eligible(tabs, filters, i, k),
        },
{
    lemma_selected_is_first_offer(tabs, filters);
    match selected(tabs, filters) {
        Some(pane) => {
            let i = choose|i: int|
                0 <= i < tabs.len() && tab_choice(#[trigger] tabs[i], filters) == Some(pane)
                    && forall|j: int| 0 <= j < i ==> tab_choice(#[trigger] tabs[j], filters) is None;
            lemma_first_titled(tabs[i].panes, filters.title);
            let k = choose|k: int|
                0 <= k < tabs[i].panes.len() && #[trigger] tabs[i].panes[k] == pane && accepts(
                    filters.title,
                    pane.title,
                ) && forall|j: int|
                    0 <= j < k ==> !accepts(filters.title, (#[trigger] tabs[i].panes[j]).title);
            assert(eligible(tabs, filters, i, k));
            assert forall|other_i: int, other_k: int| #[trigger]
                eligible(tabs, filters, other_i, other_k) implies i < other_i || (i == other_i && k
                <= other_k) by {
                if other_i < i {
                    lemma_first_titled(tabs[other_i].panes, filters.title);
                }
            }
        },
        None => {
            assert forall|i: int, k: int| !#[trigger] eligible(tabs, filters, i, k) by {
                if eligible(tabs, filters, i, k) {
                    lemma_first_titled(tabs[i].panes, filters.title);
                }
            }
        },
    }
}

/// With no pattern at all the search selects the first pane of the first
/// tab that has a pane, and nothing where no tab has one.
pub proof fn lemma_no_patterns_first_pane(tabs: Seq<TabView>, filters: FilterTexts)
    requires
        filters.workspace is None,
        filters.tab is None,
        filters.title is None,
    ensures
        match selected(tabs, filters) {
            Some(pane) => exists|i: int|
                0 <= i < tabs.len() && (#[trigger] tabs[i]).panes.len() > 0 && pane == tabs[i].panes[0]
                    && forall|j: int| 0 <= j < i ==> (#[trigger] tabs[j]).panes.len() == 0,
            None => forall|i: int| 0 <= i < tabs.len() ==> (#[trigger] tabs[i]).panes.len() == 0,
        },
{
    lemma_selected_is_first_offer(tabs, filters);
    assert forall|i: int| 0 <= i < tabs.len() implies tab_choice(#[trigger] tabs[i], filters) == (
    if tabs[i].panes.len() > 0 {
        Some(tabs[i].panes[0])
    } else {
        None
    }) by {}
}

/// A tab pattern that matches the title of no tab selects nothing, whatever
/// the other two patterns are.
pub proof fn lemma_unmatched_tab_pattern(tabs: Seq<TabView>, filters: FilterTexts)
    requires
        filters.tab matches Some(pattern) && forall|i: int|
            0 <= i < tabs.len() ==> !pattern_matches(pattern, (#[trigger] tabs[i]).title),
    ensures
        selected(tabs, filters) is None,
{
    lemma_selected_is_first_offer(tabs, filters);
}

/// A tab whose first pane is in a workspace that the workspace pattern does
/// not match is passed over: the search selects what it selects without
/// that tab.
pub proof fn lemma_rejected_workspace_skips_tab(tabs: Seq<TabView>, filters: FilterTexts, i: int)
    requires
        0 <= i < tabs.len(),
        tabs[i].panes.len() > 0,
        !accepts(filters.workspace, tabs[i].panes[0].workspace),
    ensures
        selected(tabs, filters) == selected(tabs.remove(i), filters),
    decreases i,
{
    if i > 0 {
        let rest = tabs.drop_first();
        lemma_rejected_workspace_skips_tab(rest, filters, i - 1);
        assert(tabs.remove(i).drop_first() =~= rest.remove(i - 1));
    }
}

/// With a workspace pattern alone, a first tab in a workspace that the
/// pattern does not match is passed over, and the first pane of a second tab
/// in a workspace that it matches is selected.
pub proof fn lemma_workspace_selects_second_tab(
    first: TabView,
    second: TabView,
    filters: FilterTexts,
)
    requires
        filters.tab is None,
        filters.title is None,
        first.panes.len() > 0,
        second.panes.len() > 0,
        !accepts(filters.workspace, first.panes[0].workspace),
        accepts(filters.workspace, second.panes[0].workspace),
    ensures
        selected(seq![first, second], filters) == Some(second.panes[0]),
{
    lemma_rejected_workspace_skips_tab(seq![first, second], filters, 0);
}

/// The pattern texts of a search, as they are given.
pub open spec fn texts_of(
    workspace: Option<&str>,
    tab: Option<&str>,
    title: Option<&str>,
) -> FilterTexts {
    FilterTexts {
        workspace: pattern_text(workspace),
        tab: pattern_text(tab),
        title: pattern_text(title),
    }
}

/// Whether `pattern` is there and does not compile.
pub open spec fn fails(pattern: Option<Seq<char>>) -> bool {
    pattern matches Some(text) && !compiles(text)
}

/// The first of the workspace, tab and title patterns, in this order, that
/// does not compile.
pub open spec fn first_failure(texts: FilterTexts) -> Option<Seq<char>> {
    if fails(texts.workspace) {
        texts.workspace
    } else if fails(texts.tab) {
        texts.tab
    } else if fails(texts.title) {
        texts.title
    } else {
        None
    }
}

/// Whether `error` reports the first pattern of `texts` that does not
/// compile, with the parser's diagnostic for it.
pub open spec fn reports(error: PatternCompileError, texts: FilterTexts) -> bool {
    &&& first_failure(texts) == Some(error.pattern@)
    &&& compile_outcome(error.pattern@) == Err::<Set<Seq<char>>, Seq<char>>(error.diagnostic@)
}

/// Whether a lookup of `pattern` leaves it in the cache: it is there and
/// compiles.
pub open spec fn cacheable(pattern: Option<Seq<char>>, text: Seq<char>) -> bool {
    pattern == Some(text) && compiles(text)
}

/// How looking up the three patterns of `texts` changes the cache: every one
/// of them that compiles is cached afterwards, nothing else is added, and
/// what was cached stays as it was.
pub open spec fn grown_by(
    before: Map<Seq<char>, SharedMatcher>,
    texts: FilterTexts,
    after: Map<Seq<char>, SharedMatcher>,
) -> bool {
    &&& forall|text: Seq<char>| #[trigger]
        after.dom().contains(text) <==> before.dom().contains(text) || cacheable(
            texts.workspace,
            text,
        ) || cacheable(texts.tab, text) || cacheable(texts.title, text)
    &&& forall|text: Seq<char>| #[trigger]
        before.dom().contains(text) ==> after[text] == before[text]
}

/// Whether `filter` is the cached matcher of `pattern`, or absent with it.
pub open spec fn taken_from(
    cache: Map<Seq<char>, SharedMatcher>,
    pattern: Option<Seq<char>>,
    filter: Option<SharedMatcher>,
) -> bool {
    match pattern {
        None => filter is None,
        Some(text) => cache.dom().contains(text) && filter == Some(cache[text]),
    }
}

/// What a filter says of a text: nothing where there is no filter, else
/// whether its pattern matches.
pub fn verdict(filter: &Option<SharedMatcher>, text: &str) -> (r: Option<bool>)
    ensures
        r == match *filter {
            None => None,
            Some(matcher) => Some(pattern_matches(matcher.source(), text@)),
        },
{
    match filter {
        None => None,
        Some(matcher) => Some(matcher.is_match(text)),
    }
}

/// Whether a verdict lets its subject pass: only an outright mismatch does
/// not.
pub fn admits(verdict: Option<bool>) -> (r: bool)
    ensures
        r == (verdict != Some(false)),
{
    match verdict {
        Some(false) => false,
        _ => true,
    }
}

impl PaneFilters {
    /// Looks up the three patterns of a search in `cache`, compiling those
    /// that it does not hold. All three are looked up even if one fails; the
    /// error is that of the first that does not compile.
    pub fn resolve(
        cache: &mut PatternCache,
        workspace: Option<&str>,
        tab: Option<&str>,
        title: Option<&str>,
    ) -> (r: Result<PaneFilters, PatternCompileError>)
        ensures
            grown_by(old(cache)@, texts_of(workspace, tab, title), final(cache)@),
            match r {
                Ok(filters) => {
                    &&& first_failure(filters@) is None
                    &&& filters@ == texts_of(workspace, tab, title)
                    &&& taken_from(final(cache)@, pattern_text(workspace), filters.workspace)
                    &&& taken_from(final(cache)@, pattern_text(tab), filters.tab)
                    &&& taken_from(final(cache)@, pattern_text(title), filters.title)
                },
                Err(error) => reports(error, texts_of(workspace, tab, title)),
            },
    {
        let workspace_matcher = cache.resolve(workspace);
        let tab_matcher = cache.resolve(tab);
        let title_matcher = cache.resolve(title);
        let workspace_matcher = match workspace_matcher {
            Ok(matcher) => matcher,
            Err(error) => {
                return Err(error);
            },
        };
        let tab_matcher = match tab_matcher {
            Ok(matcher) => matcher,
            Err(error) => {
                return Err(error);
            },
        };
        let title_matcher = match title_matcher {
            Ok(matcher) => matcher,
            Err(error) => {
                return Err(error);
            },
        };
        Ok(PaneFilters { workspace: workspace_matcher, tab: tab_matcher, title: title_matcher })
    }

    /// The pane that `tab` offers to the search. `panes` is working space:
    /// it is refilled with the tab's panes once the tab's title has passed.
    fn choose_in_tab<'a>(&self, tab: &'a Tab, panes: &mut Vec<&'a PaneEntry>) -> (r: Option<usize>)
        ensures
            r == handle(tab_choice(tab@, self@)),
            if accepts(self@.tab, tab@.title) {
                pointees(final(panes)@) == tab.root.leaves()
            } else {
                final(panes)@ == old(panes)@
            },
    {
        if !admits(verdict(&self.tab, tab.title.as_str())) {
            return None;
        }
        panes.clear();
        flatten_panes(&tab.root, panes);
        if panes.len() > 0 {
            if !admits(verdict(&self.workspace, panes[0].workspace.as_str())) {
                return None;
            }
        }
        let mut k: usize = 0;
        assert(tab@.panes.skip(0) =~= tab@.panes);
        while k < panes.len()
            invariant
                k <= panes@.len(),
                pointees(panes@) == tab.root.leaves(),
                tab_admitted(tab@, self@),
                first_titled(tab@.panes, self@.title) == first_titled(
                    tab@.panes.skip(k as int),
                    self@.title,
                ),
            decreases panes@.len() - k,
        {
            let pane = panes[k];
            if admits(verdict(&self.title, pane.title.as_str())) {
                return Some(pane.pane_id);
            }
            assert(tab@.panes.skip(k as int).drop_first() =~= tab@.panes.skip(k + 1));
            k += 1;
        }
        None
    }

    /// The handle of the pane that these filters select among `tabs`.
    pub fn select(&self, tabs: &Vec<Tab>) -> (r: Option<usize>)
        ensures
            r == handle(selected(session(tabs@), self@)),
    {
        let mut panes: Vec<&PaneEntry> = Vec::with_capacity(10);
        let mut i: usize = 0;
        assert(session(tabs@).skip(0) =~= session(tabs@));
        while i < tabs.len()
            invariant
                i <= tabs@.len(),
                selected(session(tabs@), self@) == selected(session(tabs@).skip(i as int), self@),
            decreases tabs@.len() - i,
        {
            let found = self.choose_in_tab(&tabs[i], &mut panes);
            if found.is_some() {
                return found;
            }
            assert(session(tabs@).skip(i as int).drop_first() =~= session(tabs@).skip(i + 1));
            i += 1;
        }
        None
    }
}

/// The handle of the first pane of `tabs` that the three patterns select.
///
/// The patterns are looked up in `cache` first; if one of them does not
/// compile, no pane is looked for.
pub fn find_pane(
    cache: &mut PatternCache,
    tabs: &Vec<Tab>,
    workspace: Option<&str>,
    tab: Option<&str>,
    title: Option<&str>,
) -> (r: Result<Option<usize>, PatternCompileError>)
    ensures
        grown_by(old(cache)@, texts_of(workspace, tab, title), final(cache)@),
        match r {
            Ok(found) => {
                &&& first_failure(texts_of(workspace, tab, title)) is None
                &&& found == handle(selected(session(tabs@), texts_of(workspace, tab, title)))
            },
            Err(error) => reports(error, texts_of(workspace, tab, title)),
        },
{
    match PaneFilters::resolve(cache, workspace, tab, title) {
        Ok(filters) => Ok(filters.select(tabs)),
        Err(error) => Err(error),
    }
}

} // verus!
