//! Include and exclude predicates over keys.
//!
//! A key passes when it passes three independent groups: the glob
//! includes, the literal includes and the literal excludes. Each entry of
//! a group may be pinned to one section name; an entry that is not pinned
//! applies to every section.

use crate::text::{char_len, find_char, first_index, same, split, split_on, views};
use glob::Pattern;
use vstd::prelude::*;

verus! {

/// A compiled glob pattern.
#[verifier::external_type_specification]
#[verifier::external_body]
pub struct ExPattern(Pattern);

/// What `glob::Pattern::new` makes of a pattern text: the compiled pattern,
/// or nothing where the text is no valid glob. Which characters divide a
/// path is settled when the program is built, not when it runs.
pub uninterp spec fn glob_compiled(pattern: Seq<char>) -> Option<Pattern>;

/// Whether a compiled pattern accepts a text, as `glob::Pattern::matches`
/// decides it.
pub uninterp spec fn glob_accepts(pattern: Pattern, value: Seq<char>) -> bool;

/// Calls `glob::Pattern::new`. The pattern that comes back depends on the
/// text alone; an invalid text gives `None`.
#[verifier::external_body]
fn compile_glob(pattern: &str) -> (r: Option<Pattern>)
    ensures
        r == glob_compiled(pattern@),
{
    Pattern::new(pattern).ok()
}

/// Calls `glob::Pattern::matches` with the default match options. The
/// answer depends on the pattern and the text alone.
#[verifier::external_body]
fn pattern_matches(pattern: &Pattern, value: &str) -> (r: bool)
    ensures
        r == glob_accepts(*pattern, value@),
{
    pattern.matches(value)
}

/// An optional section name and a term: a glob or a literal.
pub type MatchOption<'a> = (Option<&'a str>, &'a str);

/// How a term is held against a key.
#[derive(Clone, Copy, Debug, PartialEq, Eq)]
pub enum Matcher {
    /// The term is a glob pattern.
    Glob,
    /// The term is the key itself.
    Literal,
}

/// The active tag and the three predicate groups.
#[derive(Debug, Clone)]
pub struct FilterOptions<'a> {
    /// The tag to resolve tagged values under, `default` where none is
    /// given.
    pub as_: Option<&'a str>,
    /// The glob includes.
    pub globs: &'a [MatchOption<'a>],
    /// The literal includes.
    pub filters: &'a [MatchOption<'a>],
    /// The literal excludes.
    pub filter_exclusions: &'a [MatchOption<'a>],
}

/// An entry as plain values: the section name, if any, and the term.
pub type EntryView = (Option<Seq<char>>, Seq<char>);

/// What a `FilterOptions` stands for.
pub struct FilterView {
    pub as_: Option<Seq<char>>,
    pub globs: Seq<EntryView>,
    pub filters: Seq<EntryView>,
    pub filter_exclusions: Seq<EntryView>,
}

/// `tag` is one of `kinds`.
pub open spec fn kind_listed(kinds: Seq<Seq<char>>, tag: Seq<char>) -> bool {
    exists|i: int| 0 <= i < kinds.len() && #[trigger] kinds[i] == tag
}

/// An entry without a section name applies everywhere; one with a name
/// applies where that name is among the requested section names.
pub open spec fn tag_applies(tag: Option<Seq<char>>, kinds: Seq<Seq<char>>) -> bool {
    match tag {
        None => true,
        Some(t) => kind_listed(kinds, t),
    }
}

/// A glob term accepts a key when it compiles and the compiled pattern
/// matches; a term that does not compile accepts nothing.
pub open spec fn glob_hit(pattern: Seq<char>, value: Seq<char>) -> bool {
    match glob_compiled(pattern) {
        Some(p) => glob_accepts(p, value),
        None => false,
    }
}

/// Whether a term accepts a key under the given way of matching.
pub open spec fn term_hit(matcher: Matcher, term: Seq<char>, value: Seq<char>) -> bool {
    match matcher {
        Matcher::Glob => glob_hit(term, value),
        Matcher::Literal => term == value,
    }
}

/// Whether one entry matches a key requested under `kinds`.
pub open spec fn entry_hit(
    matcher: Matcher,
    entry: EntryView,
    kinds: Seq<Seq<char>>,
    value: Seq<char>,
) -> bool {
    tag_applies(entry.0, kinds) && term_hit(matcher, entry.1, value)
}

/// Whether some entry of the group matches.
pub open spec fn any_hit(
    matcher: Matcher,
    entries: Seq<EntryView>,
    kinds: Seq<Seq<char>>,
    value: Seq<char>,
) -> bool {
    exists|i: int| 0 <= i < entries.len() && entry_hit(matcher, #[trigger] entries[i], kinds, value)
}

/// An empty group lets every key pass. Otherwise an including group
/// (`match_returns`) passes a key that some entry matches, and an excluding
/// group passes a key that no entry matches.
pub open spec fn group_passes(
    matcher: Matcher,
    entries: Seq<EntryView>,
    kinds: Seq<Seq<char>>,
    value: Seq<char>,
    match_returns: bool,
) -> bool {
    entries.len() == 0 || any_hit(matcher, entries, kinds, value) == match_returns
}

/// One piece of a comma-separated list: `section:term` is pinned to
/// `section`, a piece without a colon is not pinned. The first colon
/// divides.
pub open spec fn parsed_entry(raw: Seq<char>) -> EntryView {
    match first_index(raw, ':') {
        Some(i) => (Some(raw.take(i)), raw.skip(i + 1)),
        None => (None, raw),
    }
}

/// An entry as plain sequences.
pub open spec fn entry_view(entry: MatchOption) -> EntryView {
    (
        match entry.0 {
            Some(t) => Some(t@),
            None => None,
        },
        entry.1@,
    )
}

/// The entries of a comma-separated list, piece by piece.
pub open spec fn parsed_list(text: Seq<char>) -> Seq<EntryView> {
    split_on(text, ',').map_values(|raw: Seq<char>| parsed_entry(raw))
}

/// What `parse_match_option` returns for a given text.
pub open spec fn parsed_match_option(value: Option<Seq<char>>) -> Seq<EntryView> {
    match value {
        None => Seq::empty(),
        Some(text) => parsed_list(text),
    }
}

/// The terms of `entries` that are no valid glob pattern, in order.
pub open spec fn invalid_terms(entries: Seq<EntryView>) -> Seq<Seq<char>>
    decreases entries.len(),
{
    if entries.len() == 0 {
        Seq::empty()
    } else {
        let rest = invalid_terms(entries.drop_last());
        if glob_compiled(entries.last().1) is None {
            rest.push(entries.last().1)
        } else {
            rest
        }
    }
}

/// The views of a list of entries.
pub open spec fn entry_views(entries: Seq<MatchOption>) -> Seq<EntryView> {
    Seq::new(entries.len(), |i: int| entry_view(entries[i]))
}

impl FilterView {
    /// The active tag: the one given, or `default`.
    pub open spec fn tag(self) -> Seq<char> {
        match self.as_ {
            Some(t) => t,
            None => "default"@,
        }
    }

    /// Whether the glob includes let `value` pass.
    pub open spec fn glob_passes(self, kinds: Seq<Seq<char>>, value: Seq<char>) -> bool {
        group_passes(Matcher::Glob, self.globs, kinds, value, true)
    }

    /// Whether the literal includes let `value` pass.
    pub open spec fn filter_passes(self, kinds: Seq<Seq<char>>, value: Seq<char>) -> bool {
        group_passes(Matcher::Literal, self.filters, kinds, value, true)
    }

    /// Whether the literal excludes let `value` pass.
    pub open spec fn exclude_passes(self, kinds: Seq<Seq<char>>, value: Seq<char>) -> bool {
        group_passes(Matcher::Literal, self.filter_exclusions, kinds, value, false)
    }

    /// A key is included when all three groups let it pass.
    pub open spec fn includes(self, kinds: Seq<Seq<char>>, value: Seq<char>) -> bool {
        &&& self.glob_passes(kinds, value)
        &&& self.filter_passes(kinds, value)
        &&& self.exclude_passes(kinds, value)
    }
}

impl<'a> View for FilterOptions<'a> {
    type V = FilterView;

    open spec fn view(&self) -> FilterView {
        FilterView {
            as_: match self.as_ {
                Some(t) => Some(t@),
                None => None,
            },
            globs: entry_views(self.globs@),
            filters: entry_views(self.filters@),
            filter_exclusions: entry_views(self.filter_exclusions@),
        }
    }
}

impl<'a> Default for FilterOptions<'a> {
    fn default() -> (r: Self)
        ensures
            r@ == (FilterView {
                as_: None,
                globs: Seq::empty(),
                filters: Seq::empty(),
                filter_exclusions: Seq::empty(),
            }),
    {
        let r = Self { as_: None, globs: &[], filters: &[], filter_exclusions: &[] };
        proof {
            assert(r@.globs =~= Seq::empty());
        }
        r
    }
}

impl<'a> FilterOptions<'a> {
    /// The tag under which tagged values are resolved.
    pub fn active_tag(&self) -> (tag: &'a str)
        ensures
            tag@ == self@.tag(),
    {
        match self.as_ {
            Some(t) => t,
            None => "default",
        }
    }

    /// Whether the glob includes let `value` pass.
    pub fn glob_match(&self, kinds: &[&str], value: &str) -> (r: bool)
        ensures
            r == self@.glob_passes(views(kinds@), value@),
    {
        check_matches(self.globs, kinds, value, Matcher::Glob, true)
    }

    /// Whether the literal includes let `value` pass.
    pub fn filter_match(&self, kinds: &[&str], value: &str) -> (r: bool)
        ensures
            r == self@.filter_passes(views(kinds@), value@),
    {
        check_matches(self.filters, kinds, value, Matcher::Literal, true)
    }

    /// Whether the literal excludes let `value` pass.
    pub fn filter_exclude(&self, kinds: &[&str], value: &str) -> (r: bool)
        ensures
            r == self@.exclude_passes(views(kinds@), value@),
    {
        check_matches(self.filter_exclusions, kinds, value, Matcher::Literal, false)
    }

    /// Whether `key`, requested under the section names `kinds`, is kept.
    pub fn is_included(&self, kinds: &[&str], key: &str) -> (r: bool)
        ensures
            r == self@.includes(views(kinds@), key@),
    {
        self.glob_match(kinds, key) && self.filter_match(kinds, key) && self.filter_exclude(
            kinds,
            key,
        )
    }

    /// The glob terms that are no valid pattern, in the order given. Each
    /// of them matches nothing.
    pub fn invalid_globs(&self) -> (out: Vec<&'a str>)
        ensures
            views(out@) == invalid_terms(self@.globs),
    {
        let mut out: Vec<&'a str> = Vec::new();
        let mut i: usize = 0;
        while i < self.globs.len()
            invariant
                i <= self.globs@.len(),
                views(out@) == invalid_terms(self@.globs.take(i as int)),
            decreases self.globs@.len() - i,
        {
            let entry = self.globs[i];
            proof {
                assert(self@.globs.take(i + 1).drop_last() =~= self@.globs.take(i as int));
            }
            if compile_glob(entry.1).is_none() {
                out.push(entry.1);
            }
            i += 1;
        }
        proof {
            assert(self@.globs.take(i as int) =~= self@.globs);
        }
        out
    }
}

/// Whether `tag` is one of `kinds`.
fn kind_is_listed(kinds: &[&str], tag: &str) -> (r: bool)
    ensures
        r == kind_listed(views(kinds@), tag@),
{
    let mut i: usize = 0;
    while i < kinds.len()
        invariant
            i <= kinds@.len(),
            forall|j: int| 0 <= j < i ==> #[trigger] views(kinds@)[j] != tag@,
        decreases kinds@.len() - i,
    {
        if same(kinds[i], tag) {
            assert(views(kinds@)[i as int] == tag@);
            return true;
        }
        i += 1;
    }
    false
}

/// Whether one term accepts the key.
fn term_matches(matcher: Matcher, term: &str, value: &str) -> (r: bool)
    ensures
        r == term_hit(matcher, term@, value@),
{
    match matcher {
        Matcher::Glob => match compile_glob(term) {
            Some(pattern) => pattern_matches(&pattern, value),
            None => false,
        },
        Matcher::Literal => same(term, value),
    }
}

/// Whether one entry matches the key.
fn entry_matches(matcher: Matcher, entry: &MatchOption, kinds: &[&str], value: &str) -> (r: bool)
    ensures
        r == entry_hit(matcher, entry_view(*entry), views(kinds@), value@),
{
    let applies = match entry.0 {
        Some(tag) => kind_is_listed(kinds, tag),
        None => true,
    };
    applies && term_matches(matcher, entry.1, value)
}

/// Evaluates one predicate group against a key.
pub fn check_matches(
    entries: &[MatchOption],
    kinds: &[&str],
    value: &str,
    matcher: Matcher,
    match_returns: bool,
) -> (r: bool)
    ensures
        r == group_passes(matcher, entry_views(entries@), views(kinds@), value@, match_returns),
{
    if entries.len() == 0 {
        return true;
    }
    let mut hit = false;
    let mut i: usize = 0;
    while i < entries.len() && !hit
        invariant
            i <= entries@.len(),
            !hit ==> forall|j: int|
                0 <= j < i ==> !entry_hit(
                    matcher,
                    #[trigger] entry_views(entries@)[j],
                    views(kinds@),
                    value@,
                ),
            hit ==> any_hit(matcher, entry_views(entries@), views(kinds@), value@),
        decreases entries@.len() - i,
    {
        if entry_matches(matcher, &entries[i], kinds, value) {
            assert(entry_hit(matcher, entry_views(entries@)[i as int], views(kinds@), value@));
            hit = true;
        }
        i += 1;
    }
    hit == match_returns
}

/// Parses one piece of a comma-separated list.
fn parse_entry<'a>(raw: &'a str) -> (entry: MatchOption<'a>)
    ensures
        entry_view(entry) == parsed_entry(raw@),
{
    match find_char(raw, ':') {
        Some(i) => {
            proof {
                crate::text::lemma_first_index(raw@, ':');
            }
            let n = char_len(raw);
            let first = raw.substring_char(0, i);
            let second = raw.substring_char(i + 1, n);
            (Some(first), second)
        },
        None => (None, raw),
    }
}

/// Parses a comma-separated list of `term` and `section:term` pieces.
/// Without a text there are no entries.
pub fn parse_match_option<'a>(value: Option<&'a str>) -> (out: Vec<MatchOption<'a>>)
    ensures
        entry_views(out@) == parsed_match_option(
            match value {
                Some(v) => Some(v@),
                None => None,
            },
        ),
{
    let mut out: Vec<MatchOption<'a>> = Vec::new();
    match value {
        None => {},
        Some(text) => {
            let pieces = split(text, ',');
            let mut i: usize = 0;
            while i < pieces.len()
                invariant
                    i <= pieces@.len(),
                    views(pieces@) == split_on(text@, ','),
                    out@.len() == i,
                    forall|j: int|
                        0 <= j < i ==> entry_view(#[trigger] out@[j]) == parsed_entry(
                            pieces@[j]@,
                        ),
                decreases pieces@.len() - i,
            {
                let entry = parse_entry(pieces[i]);
                out.push(entry);
                i += 1;
            }
            proof {
                let want = parsed_list(text@);
                assert forall|j: int| 0 <= j < want.len() implies entry_views(out@)[j]
                    == want[j] by {}
            }
        },
    }
    out
}

/// With no group given, every key is included.
pub proof fn lemma_default_includes_all(
    options: FilterView,
    kinds: Seq<Seq<char>>,
    value: Seq<char>,
)
    requires
        options.globs.len() == 0,
        options.filters.len() == 0,
        options.filter_exclusions.len() == 0,
    ensures
        options.includes(kinds, value),
{
}

/// A single exclusion that is not pinned to a section removes the key it
/// names and no other key.
pub proof fn lemma_exclusion_removes_only_its_key(
    options: FilterView,
    kinds: Seq<Seq<char>>,
    value: Seq<char>,
)
    requires
        options.filter_exclusions.len() == 1,
        options.filter_exclusions[0].0 is None,
    ensures
        options.exclude_passes(kinds, value) <==> value != options.filter_exclusions[0].1,
{
}

/// Exclusions that are all pinned to sections that are not requested
/// remove nothing.
pub proof fn lemma_exclusion_of_other_section_keeps(
    options: FilterView,
    kinds: Seq<Seq<char>>,
    value: Seq<char>,
)
    requires
        forall|i: int|
            0 <= i < options.filter_exclusions.len() ==> !tag_applies(
                (#[trigger] options.filter_exclusions[i]).0,
                kinds,
            ),
    ensures
        options.exclude_passes(kinds, value),
{
}

/// A literal that is pinned to a section is held against a key only where
/// that section is requested: under the requested sections the key that it
/// names passes, under other sections no key does.
pub proof fn lemma_pinned_filter(
    options: FilterView,
    kinds: Seq<Seq<char>>,
    value: Seq<char>,
)
    requires
        options.filters.len() == 1,
        options.filters[0].0 is Some,
    ensures
        options.filter_passes(kinds, value) <==> (kind_listed(kinds, options.filters[0].0.unwrap())
            && value == options.filters[0].1),
{
}

/// The three groups are joined by "and": a key that one group rejects is
/// not included, whatever the other two say.
pub proof fn lemma_every_group_must_pass(
    options: FilterView,
    kinds: Seq<Seq<char>>,
    value: Seq<char>,
)
    ensures
        !options.glob_passes(kinds, value) ==> !options.includes(kinds, value),
        !options.filter_passes(kinds, value) ==> !options.includes(kinds, value),
        !options.exclude_passes(kinds, value) ==> !options.includes(kinds, value),
        options.glob_passes(kinds, value) && options.filter_passes(kinds, value)
            && options.exclude_passes(kinds, value) ==> options.includes(kinds, value),
{
}

} // verus!
