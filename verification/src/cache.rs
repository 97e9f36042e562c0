//! The pattern cache: each pattern text is compiled once and then shared.

use crate::matcher::{compile_outcome, compiles, share, CompiledPattern, PatternCompileError, SharedMatcher};
use crate::text::same_text;
use vstd::prelude::*;

verus! {

/// Compiled patterns, found again by the text they were compiled from.
#[derive(Debug)]
pub struct PatternCache {
    entries: Vec<SharedMatcher>,
}

/// Whether every matcher of `cache` is filed under its own pattern text.
pub open spec fn keyed_by_source(cache: Map<Seq<char>, SharedMatcher>) -> bool {
    forall|pattern: Seq<char>| #[trigger]
        cache.dom().contains(pattern) ==> cache[pattern].source() == pattern
}

/// What one lookup does: `before` and `after` are the cache around it,
/// `outcome` is what it hands back for `pattern`.
///
/// No pattern asks for no matcher. A cached pattern gives the cached matcher
/// and leaves the cache alone. A new pattern that compiles gives a matcher
/// that is then cached; one that does not gives the error and leaves the
/// cache alone.
pub open spec fn resolution(
    before: Map<Seq<char>, SharedMatcher>,
    pattern: Option<Seq<char>>,
    after: Map<Seq<char>, SharedMatcher>,
    outcome: Result<Option<SharedMatcher>, PatternCompileError>,
) -> bool {
    match pattern {
        None => after == before && outcome == Ok::<Option<SharedMatcher>, PatternCompileError>(None),
        Some(text) => if before.dom().contains(text) {
            after == before && outcome == Ok::<Option<SharedMatcher>, PatternCompileError>(
                Some(before[text]),
            )
        } else if compiles(text) {
            &&& outcome matches Ok(Some(matcher))
            &&& matcher.source() == text
            &&& after == before.insert(text, matcher)
        } else {
            &&& after == before
            &&& outcome matches Err(error)
            &&& error.pattern@ == text
            &&& compile_outcome(text) == Err::<Set<Seq<char>>, Seq<char>>(error.diagnostic@)
        },
    }
}

/// A pattern that was resolved once is compiled no more: a second lookup
/// hands back the very matcher that the first one gave, and leaves the cache
/// as the first one left it.
pub proof fn lemma_resolve_again(
    before: Map<Seq<char>, SharedMatcher>,
    pattern: Option<Seq<char>>,
    between: Map<Seq<char>, SharedMatcher>,
    first: Result<Option<SharedMatcher>, PatternCompileError>,
    after: Map<Seq<char>, SharedMatcher>,
    second: Result<Option<SharedMatcher>, PatternCompileError>,
)
    requires
        resolution(before, pattern, between, first),
        resolution(between, pattern, after, second),
        first is Ok,
    ensures
        second == first,
        after == between,
{
}

/// A lookup takes nothing out of the cache: what was cached before it is
/// cached after it, with the same matcher.
pub proof fn lemma_resolve_keeps(
    before: Map<Seq<char>, SharedMatcher>,
    pattern: Option<Seq<char>>,
    after: Map<Seq<char>, SharedMatcher>,
    outcome: Result<Option<SharedMatcher>, PatternCompileError>,
)
    requires
        resolution(before, pattern, after, outcome),
    ensures
        forall|text: Seq<char>| #[trigger]
            before.dom().contains(text) ==> after.dom().contains(text) && after[text]
                == before[text],
{
}

/// The text of an optional pattern.
pub open spec fn pattern_text(pattern: Option<&str>) -> Option<Seq<char>> {
    match pattern {
        None => None,
        Some(text) => Some(text@),
    }
}

/// The place of the matcher of `pattern` among `entries`: the first that was
/// compiled from that text.
fn index_of(entries: &Vec<SharedMatcher>, pattern: &str) -> (r: Option<usize>)
    ensures
        match r {
            Some(i) => i < entries@.len() && entries@[i as int].source() == pattern@ && compiles(
                pattern@,
            ),
            None => forall|k: int|
                0 <= k < entries@.len() ==> (#[trigger] entries@[k]).source() != pattern@,
        },
{
    let mut i: usize = 0;
    while i < entries.len()
        invariant
            i <= entries@.len(),
            forall|k: int| 0 <= k < i ==> (#[trigger] entries@[k]).source() != pattern@,
        decreases entries@.len() - i,
    {
        if same_text(entries[i].as_str(), pattern) {
            return Some(i);
        }
        i += 1;
    }
    None
}

impl View for PatternCache {
    type V = Map<Seq<char>, SharedMatcher>;

    closed spec fn view(&self) -> Map<Seq<char>, SharedMatcher> {
        Map::new(
            |pattern: Seq<char>| self.position(pattern) is Some,
            |pattern: Seq<char>| self.entries@[self.position(pattern).unwrap()],
        )
    }
}

impl PatternCache {
    /// Where in `entries` the matcher of `pattern` stands, if it is cached.
    spec fn position(self, pattern: Seq<char>) -> Option<int> {
        if exists|i: int| 0 <= i < self.entries@.len() && (#[trigger] self.entries@[i]).source() == pattern {
            Some(
                choose|i: int|
                    0 <= i < self.entries@.len() && (#[trigger] self.entries@[i]).source()
                        == pattern,
            )
        } else {
            None
        }
    }

    /// No two entries were compiled from the same text, so the cache holds
    /// as many patterns as it has entries.
    #[verifier::type_invariant]
    spec fn distinct(self) -> bool {
        &&& forall|i: int, j: int|
            0 <= i < j < self.entries@.len() ==> (#[trigger] self.entries@[i]).source() != (
            #[trigger] self.entries@[j]).source()
        &&& self@.dom().finite()
        &&& self@.dom().len() == self.entries@.len()
    }

    /// A cache that holds nothing.
    pub fn new() -> (r: PatternCache)
        ensures
            r@ == Map::<Seq<char>, SharedMatcher>::empty(),
    {
        let entries: Vec<SharedMatcher> = Vec::new();
        proof {
            let r = PatternCache { entries };
            assert(r@ =~= Map::<Seq<char>, SharedMatcher>::empty());
        }
        PatternCache { entries }
    }

    /// How many patterns the cache holds.
    pub fn len(&self) -> (r: usize)
        ensures
            self@.dom().finite(),
            r == self@.dom().len(),
    {
        proof {
            use_type_invariant(self);
        }
        self.entries.len()
    }

    /// Every cached matcher is filed under the text it was compiled from.
    pub proof fn lemma_keyed_by_source(self)
        ensures
            keyed_by_source(self@),
    {
    }

    /// The cached matcher of `pattern`, if there is one.
    pub fn get(&self, pattern: &str) -> (r: Option<SharedMatcher>)
        ensures
            r == if self@.dom().contains(pattern@) {
                Some(self@[pattern@])
            } else {
                None
            },
            r matches Some(matcher) ==> matcher.source() == pattern@ && compiles(pattern@),
    {
        proof {
            use_type_invariant(self);
        }
        match index_of(&self.entries, pattern) {
            Some(i) => Some(share(&self.entries[i])),
            None => None,
        }
    }

    /// Files `matcher` under the text it was compiled from, in place of any
    /// matcher that was filed there.
    pub fn insert(&mut self, matcher: SharedMatcher)
        ensures
            final(self)@ == old(self)@.insert(matcher.source(), matcher),
    {
        proof {
            use_type_invariant(&*self);
        }
        let mut entries: Vec<SharedMatcher> = Vec::new();
        proof {
            let emptied = PatternCache { entries };
            assert(emptied@.dom() =~= Set::<Seq<char>>::empty());
        }
        std::mem::swap(&mut entries, &mut self.entries);
        let found = index_of(&entries, matcher.as_str());
        match found {
            Some(i) => {
                entries.set(i, matcher);
            },
            None => {
                entries.push(matcher);
            },
        }
        proof {
            let after = PatternCache { entries };
            let before = *old(self);
            let at = match found {
                Some(i) => i as int,
                None => before.entries@.len() as int,
            };
            assert(after.entries@[at].source() == matcher.source());
            assert forall|pattern: Seq<char>|
                after.position(pattern) is Some <==> (pattern == matcher.source()
                    || before.position(pattern) is Some) by {
                if before.position(pattern) is Some {
                    let k = before.position(pattern).unwrap();
                    assert(k != at ==> after.entries@[k].source() == pattern);
                }
            }
            assert forall|pattern: Seq<char>| after.position(pattern) is Some implies after.entries@[after.position(
                pattern,
            ).unwrap()] == old(self)@.insert(matcher.source(), matcher)[pattern] by {}
            assert(after@.dom() =~= old(self)@.dom().insert(matcher.source()));
        }
        self.entries = entries;
    }

    /// The matcher of `pattern`, compiled now unless the cache holds it.
    pub fn resolve(&mut self, pattern: Option<&str>) -> (r: Result<
        Option<SharedMatcher>,
        PatternCompileError,
    >)
        ensures
            resolution(old(self)@, pattern_text(pattern), final(self)@, r),
            r is Err <==> (pattern matches Some(text) && !compiles(text@)),
            r matches Ok(Some(matcher)) ==> pattern matches Some(text) && matcher.source()
                == text@,
    {
        let text = match pattern {
            None => {
                return Ok(None);
            },
            Some(text) => text,
        };
        if let Some(matcher) = self.get(text) {
            return Ok(Some(matcher));
        }
        match CompiledPattern::compile(text) {
            Err(error) => Err(error),
            Ok(compiled) => {
                let matcher = std::sync::Arc::new(compiled);
                self.insert(share(&matcher));
                Ok(Some(matcher))
            },
        }
    }
}

} // verus!
