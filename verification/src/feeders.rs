//! Sources of candidate completion strings.
//!
//! A [`Feeder`] answers "given partial input text, a start offset and a
//! maximum count, which candidate strings match?".  The library ships a
//! static list feeder (case-insensitive substring filter) and a
//! filesystem feeder driven by a glob pattern.

use vstd::prelude::*;
use vstd::string::StrSliceExecFns;
use vstd::string::StringExecFns;

use crate::utils::{
    any_uppercase, canonical_path, contains_char, first_char_is, last_char_is, lower_of,
    path_is_dir, push_char, seq_contains, str_contains,
};

verus! {

/// Adds behaviour of feeding candidate strings.
///
/// Every implementation answers with at most `items_count` candidates; what
/// more is promised depends on the implementation and is stated by its
/// `query_post`.
pub trait Feeder: Sized {
    /// Relation that every answer of `query` satisfies.
    spec fn query_post(
        &self,
        text: Seq<char>,
        position: int,
        items_count: int,
        r: Seq<Seq<char>>,
    ) -> bool;

    /// Produces at most `items_count` candidate strings for the partial
    /// input `text`, starting at offset `position` where the implementation
    /// supports pagination.
    fn query(&self, text: &str, position: isize, items_count: usize) -> (r: Vec<String>)
        ensures
            r@.len() <= items_count,
            self.query_post(text@, position as int, items_count as int, r.deep_view()),
    ;
}

// ------------------------------------------------------------------
// The static list feeder.
// ------------------------------------------------------------------

/// Whether a configured item matches the typed text: empty text matches
/// everything, non-empty text must occur (lowercased) in the lowercased
/// item.
pub open spec fn list_match(item: Seq<char>, text: Seq<char>) -> bool {
    text.len() == 0 || seq_contains(lower_of(item), lower_of(text))
}

/// The items of `items` that match `text`, in their original order.
pub open spec fn list_matches(items: Seq<Seq<char>>, text: Seq<char>) -> Seq<Seq<char>>
    decreases items.len(),
{
    if items.len() == 0 {
        Seq::empty()
    } else {
        let rest = list_matches(items.drop_first(), text);
        if list_match(items[0], text) {
            seq![items[0]] + rest
        } else {
            rest
        }
    }
}

/// The first `n` elements of `s`, or all of `s` when it is shorter.
pub open spec fn prefix_up_to(s: Seq<Seq<char>>, n: int) -> Seq<Seq<char>> {
    if n <= s.len() {
        s.take(n)
    } else {
        s
    }
}

proof fn lemma_list_matches_push(items: Seq<Seq<char>>, x: Seq<char>, text: Seq<char>)
    ensures
        list_matches(items.push(x), text) == list_matches(items, text) + (if list_match(x, text) {
            seq![x]
        } else {
            Seq::<Seq<char>>::empty()
        }),
    decreases items.len(),
{
    let tail = if list_match(x, text) {
        seq![x]
    } else {
        Seq::<Seq<char>>::empty()
    };
    if items.len() == 0 {
        assert(items.push(x).drop_first() =~= Seq::<Seq<char>>::empty());
        assert(list_matches(items.push(x).drop_first(), text) =~= Seq::<Seq<char>>::empty());
        assert(list_matches(items, text) =~= Seq::<Seq<char>>::empty());
        assert(items.push(x)[0] == x);
        assert(list_matches(items.push(x), text) =~= list_matches(items, text) + tail);
    } else {
        assert(items.push(x).drop_first() =~= items.drop_first().push(x));
        lemma_list_matches_push(items.drop_first(), x, text);
        assert(items.push(x)[0] == items[0]);
        if list_match(items[0], text) {
            assert(seq![items[0]] + (list_matches(items.drop_first(), text) + tail) =~= (seq![
                items[0],
            ] + list_matches(items.drop_first(), text)) + tail);
        }
        assert(list_matches(items.push(x), text) =~= list_matches(items, text) + tail);
    }
}

/// The in-memory list feeder: a case-insensitive substring filter over a
/// fixed list of items, insertion order preserved, truncated to the
/// requested count.  The offset is not used.
impl Feeder for Vec<String> {
    open spec fn query_post(
        &self,
        text: Seq<char>,
        position: int,
        items_count: int,
        r: Seq<Seq<char>>,
    ) -> bool {
        r == prefix_up_to(list_matches(self.deep_view(), text), items_count)
    }

    fn query(&self, text: &str, position: isize, items_count: usize) -> (r: Vec<String>) {
        let needle = crate::utils::lowercase(text);
        let text_empty = text.is_empty();
        let n = self.len();
        let mut out: Vec<String> = Vec::new();
        let mut i: usize = 0;
        while i < n
            invariant
                n == self@.len(),
                i <= n,
                needle@ == lower_of(text@),
                text_empty == (text@.len() == 0),
                out@.len() <= items_count,
                out.deep_view() == prefix_up_to(
                    list_matches(self.deep_view().take(i as int), text@),
                    items_count as int,
                ),
            decreases n - i,
        {
            let item = &self[i];
            let is_match = if text_empty {
                true
            } else {
                let low = crate::utils::lowercase(item.as_str());
                str_contains(low.as_str(), needle.as_str())
            };
            let ghost prev = self.deep_view().take(i as int);
            let ghost x = self.deep_view()[i as int];
            let ghost m_prev = list_matches(prev, text@);
            let ghost m_next = list_matches(self.deep_view().take(i + 1), text@);
            proof {
                assert(x == item@);
                assert(self.deep_view().take(i + 1) =~= prev.push(x));
                lemma_list_matches_push(prev, x, text@);
                assert(is_match == list_match(x, text@));
            }
            if is_match && out.len() < items_count {
                proof {
                    assert(out.deep_view().len() == out@.len());
                    assert(m_prev.len() < items_count);
                    assert(out.deep_view() == m_prev);
                    assert(m_next =~= m_prev + seq![x]);
                }
                out.push(item.clone());
                proof {
                    assert(out.deep_view() =~= m_prev + seq![x]);
                    assert(out.deep_view() =~= prefix_up_to(m_next, items_count as int));
                }
            } else {
                proof {
                    if is_match {
                        assert(out.deep_view().len() == out@.len());
                        assert(out@.len() == items_count);
                        assert(items_count <= m_prev.len());
                        assert(m_next =~= m_prev + seq![x]);
                        assert(m_next.take(items_count as int) =~= m_prev.take(
                            items_count as int,
                        ));
                    } else {
                        assert(m_next =~= m_prev);
                    }
                    assert(out.deep_view() =~= prefix_up_to(m_next, items_count as int));
                }
            }
            i = i + 1;
        }
        proof {
            assert(self.deep_view().take(n as int) =~= self.deep_view());
        }
        out
    }
}

/// Law: with empty input text the list feeder's answer is the first
/// `items_count` configured items, in their original order.
pub proof fn lemma_list_feeder_empty_text(items: Seq<Seq<char>>, items_count: int)
    requires
        0 <= items_count,
    ensures
        prefix_up_to(list_matches(items, Seq::<char>::empty()), items_count) == if items_count
            <= items.len() {
            items.take(items_count)
        } else {
            items
        },
    decreases items.len(),
{
    lemma_list_matches_all(items, Seq::<char>::empty());
}

/// With a text that matches everything, the filter keeps every item.
proof fn lemma_list_matches_all(items: Seq<Seq<char>>, text: Seq<char>)
    requires
        text.len() == 0,
    ensures
        list_matches(items, text) == items,
    decreases items.len(),
{
    if items.len() == 0 {
        assert(list_matches(items, text) =~= items);
    } else {
        lemma_list_matches_all(items.drop_first(), text);
        assert(list_matches(items, text) =~= items);
    }
}

/// Law: every element of the list feeder's answer is one of the configured
/// items and, for non-empty text, contains the lowercased text in its
/// lowercased form.
pub proof fn lemma_list_feeder_filters(
    items: Seq<Seq<char>>,
    text: Seq<char>,
    items_count: int,
    j: int,
)
    requires
        0 <= items_count,
        0 <= j < prefix_up_to(list_matches(items, text), items_count).len(),
    ensures
        items.contains(prefix_up_to(list_matches(items, text), items_count)[j]),
        list_match(prefix_up_to(list_matches(items, text), items_count)[j], text),
{
    let m = list_matches(items, text);
    let x = prefix_up_to(m, items_count)[j];
    if items_count <= m.len() {
        assert(prefix_up_to(m, items_count) == m.take(items_count));
        assert(j < items_count);
        assert(m.take(items_count)[j] == m[j]);
        assert(m[j] == x);
    } else {
        assert(prefix_up_to(m, items_count) == m);
        assert(m[j] == x);
    }
    assert(m.contains(x));
    lemma_list_matches_elements(items, text, x);
}

proof fn lemma_list_matches_elements(items: Seq<Seq<char>>, text: Seq<char>, x: Seq<char>)
    requires
        list_matches(items, text).contains(x),
    ensures
        items.contains(x),
        list_match(x, text),
    decreases items.len(),
{
    if items.len() > 0 {
        let m = list_matches(items, text);
        let rest = list_matches(items.drop_first(), text);
        if list_match(items[0], text) && x == items[0] {
            assert(items.contains(x)) by {
                assert(items[0] == x);
            }
        } else {
            assert(rest.contains(x)) by {
                let j = choose|j: int| 0 <= j < m.len() && m[j] == x;
                if list_match(items[0], text) {
                    assert(m[j] == (seq![items[0]] + rest)[j]);
                    assert(j >= 1);
                    assert(rest[j - 1] == x);
                } else {
                    assert(rest[j] == x);
                }
            }
            lemma_list_matches_elements(items.drop_first(), text, x);
            assert(items.contains(x)) by {
                let j = choose|j: int| 0 <= j < items.drop_first().len() && items.drop_first()[j]
                    == x;
                assert(items[j + 1] == x);
            }
        }
    }
}

// ------------------------------------------------------------------
// The glob helper.
// ------------------------------------------------------------------

/// The position just after the last `/` of `path`, or `0` when there is
/// none.
pub open spec fn after_last_slash(path: Seq<char>) -> int
    decreases path.len(),
{
    if path.len() == 0 {
        0
    } else if path.last() == '/' {
        path.len() as int
    } else {
        after_last_slash(path.drop_last())
    }
}

proof fn lemma_after_last_slash(path: Seq<char>, k: int)
    requires
        0 <= k <= path.len(),
        k == 0 || path[k - 1] == '/',
        forall|j: int| k <= j < path.len() ==> path[j] != '/',
    ensures
        after_last_slash(path) == k,
    decreases path.len(),
{
    if path.len() == 0 {
    } else if path.last() == '/' {
        assert(k == path.len());
    } else {
        assert(k < path.len());
        assert(forall|j: int|
            k <= j < path.drop_last().len() ==> path.drop_last()[j] != '/');
        if k > 0 {
            assert(path.drop_last()[k - 1] == '/');
        }
        lemma_after_last_slash(path.drop_last(), k);
    }
}

/// What `add_glob` computes: an empty path becomes `*`; a path ending in a
/// path separator gets `*` appended; otherwise the last path segment, when
/// it holds no wildcard yet, is wrapped as `*segment*`.
pub open spec fn glob_starred(path: Seq<char>) -> Seq<char> {
    if path.len() == 0 {
        "*"@
    } else if path.last() == '/' {
        path + "*"@
    } else {
        let k = after_last_slash(path);
        let base = path.subrange(k, path.len() as int);
        if base.contains('*') {
            path
        } else {
            path.subrange(0, k) + "*"@ + base + "*"@
        }
    }
}

/// Adds a star to the last component of `path`, unless that component
/// already holds one.
pub fn add_glob(path: &str) -> (r: String)
    ensures
        r@ == glob_starred(path@),
{
    let n = path.unicode_len();
    if n == 0 {
        return "*".to_owned();
    }
    if last_char_is(path, '/') {
        let mut r = path.to_owned();
        r.append("*");
        return r;
    }
    let mut k: usize = n;
    while k > 0 && path.get_char(k - 1) != '/'
        invariant
            k <= n,
            n == path@.len(),
            forall|j: int| k <= j < n ==> path@[j] != '/',
        decreases k,
    {
        k = k - 1;
    }
    proof {
        lemma_after_last_slash(path@, k as int);
    }
    let base = path.substring_char(k, n);
    if contains_char(base, '*') {
        path.to_owned()
    } else {
        let mut r = path.substring_char(0, k).to_owned();
        r.append("*");
        r.append(base);
        r.append("*");
        proof {
            assert(r@ =~= glob_starred(path@));
        }
        r
    }
}

// ------------------------------------------------------------------
// The filesystem feeder.
// ------------------------------------------------------------------

/// Whether `glob::glob_with` accepts `pattern`.  Its accept-or-refuse
/// answer is computed from the pattern text alone, before any filesystem
/// work, so it is a pure function of the pattern.
pub uninterp spec fn glob_pattern_ok(pattern: Seq<char>) -> bool;

/// Relies on `glob::glob_with`: enumerates the paths matching `pattern`
/// (with hidden, dot-prefixed entries requiring a literal dot), as strings.
/// A pattern the crate refuses yields `None`, and refusal depends on the
/// pattern alone; an entry the filesystem refuses to read is skipped.
/// Which paths come back depends on the filesystem, so nothing more is
/// promised of them.
#[verifier::external_body]
fn run_glob(pattern: &str, case_sensitive: bool) -> (r: Option<Vec<String>>)
    ensures
        r is Some <==> glob_pattern_ok(pattern@),
{
    let options = glob::MatchOptions {
        case_sensitive,
        require_literal_separator: false,
        require_literal_leading_dot: true,
    };
    match glob::glob_with(pattern, options) {
        Ok(paths) => Some(
            paths.filter_map(|entry| entry.ok().map(|p| p.display().to_string())).collect(),
        ),
        Err(_) => None,
    }
}

/// The glob pattern a [`DirItems`] feeder runs for the typed text: empty
/// text queries the working directory, a leading `~` is expanded to the
/// configured home directory (or left as it is without one), and the last
/// path segment gets a wildcard.
pub open spec fn dir_pattern(home: Option<Seq<char>>, text: Seq<char>) -> Seq<char> {
    let path = if text.len() == 0 {
        "./"@
    } else if text[0] == '~' {
        match home {
            Some(h) => tilde_replaced(text, h),
            None => text,
        }
    } else {
        text
    };
    glob_starred(path)
}

/// The entries the kind filter approved and the mapping kept, in order:
/// entry `i` contributes `mapped[i]` when `keep[i]` holds and the mapping
/// succeeded.
pub open spec fn approved(
    entries: Seq<Seq<char>>,
    keep: Seq<bool>,
    mapped: Seq<Option<Seq<char>>>,
) -> Seq<Seq<char>>
    decreases entries.len(),
{
    if entries.len() == 0 {
        Seq::empty()
    } else {
        let rest = approved(entries.drop_first(), keep.drop_first(), mapped.drop_first());
        if keep[0] && mapped[0] is Some {
            seq![mapped[0]->Some_0] + rest
        } else {
            rest
        }
    }
}

/// The first `items_count` elements of `s` after skipping the first
/// `position`; empty when fewer than `position` exist.
pub open spec fn window(s: Seq<Seq<char>>, position: int, items_count: int) -> Seq<Seq<char>> {
    if position <= s.len() {
        prefix_up_to(s.skip(position), items_count)
    } else {
        Seq::empty()
    }
}

proof fn lemma_approved_push(
    entries: Seq<Seq<char>>,
    keep: Seq<bool>,
    mapped: Seq<Option<Seq<char>>>,
    e: Seq<char>,
    k: bool,
    m: Option<Seq<char>>,
)
    requires
        keep.len() == entries.len(),
        mapped.len() == entries.len(),
    ensures
        approved(entries.push(e), keep.push(k), mapped.push(m)) == approved(entries, keep, mapped)
            + (if k && m is Some {
            seq![m->Some_0]
        } else {
            Seq::<Seq<char>>::empty()
        }),
    decreases entries.len(),
{
    let tail = if k && m is Some {
        seq![m->Some_0]
    } else {
        Seq::<Seq<char>>::empty()
    };
    if entries.len() == 0 {
        assert(entries.push(e).drop_first() =~~= Seq::<Seq<char>>::empty());
        assert(keep.push(k).drop_first() =~= Seq::<bool>::empty());
        assert(mapped.push(m).drop_first() =~~= Seq::<Option<Seq<char>>>::empty());
        assert(approved(
            entries.push(e).drop_first(),
            keep.push(k).drop_first(),
            mapped.push(m).drop_first(),
        ) =~~= Seq::<Seq<char>>::empty());
        assert(approved(entries, keep, mapped) =~~= Seq::<Seq<char>>::empty());
        assert(entries.push(e)[0] == e && keep.push(k)[0] == k && mapped.push(m)[0] == m);
        assert(approved(entries.push(e), keep.push(k), mapped.push(m)) =~~= approved(
            entries,
            keep,
            mapped,
        ) + tail);
    } else {
        assert(entries.push(e).drop_first() =~~= entries.drop_first().push(e));
        assert(keep.push(k).drop_first() =~= keep.drop_first().push(k));
        assert(mapped.push(m).drop_first() =~~= mapped.drop_first().push(m));
        lemma_approved_push(entries.drop_first(), keep.drop_first(), mapped.drop_first(), e, k, m);
        assert(entries.push(e)[0] == entries[0] && keep.push(k)[0] == keep[0] && mapped.push(m)[0]
            == mapped[0]);
        if keep[0] && mapped[0] is Some {
            assert(seq![mapped[0]->Some_0] + (approved(
                entries.drop_first(),
                keep.drop_first(),
                mapped.drop_first(),
            ) + tail) =~~= (seq![mapped[0]->Some_0] + approved(
                entries.drop_first(),
                keep.drop_first(),
                mapped.drop_first(),
            )) + tail);
        }
        assert(approved(entries.push(e), keep.push(k), mapped.push(m)) =~~= approved(
            entries,
            keep,
            mapped,
        ) + tail);
    }
}

/// Law: with every entry approved and mapped to itself — the feeder's
/// default configuration — the approved list is the glob answer itself,
/// so [`page_entries`] returns the plain window
/// `entries[position .. position + items_count]` of it.
pub proof fn lemma_approved_identity(
    entries: Seq<Seq<char>>,
    keep: Seq<bool>,
    mapped: Seq<Option<Seq<char>>>,
)
    requires
        keep.len() == entries.len(),
        mapped.len() == entries.len(),
        forall|i: int| 0 <= i < keep.len() ==> keep[i],
        forall|i: int| 0 <= i < mapped.len() ==> mapped[i] == Some(entries[i]),
    ensures
        approved(entries, keep, mapped) == entries,
    decreases entries.len(),
{
    if entries.len() > 0 {
        assert(forall|i: int|
            0 <= i < keep.drop_first().len() ==> keep.drop_first()[i] == keep[i + 1]);
        assert(forall|i: int|
            0 <= i < mapped.drop_first().len() ==> mapped.drop_first()[i] == mapped[i + 1]);
        lemma_approved_identity(entries.drop_first(), keep.drop_first(), mapped.drop_first());
        assert(approved(entries, keep, mapped) =~~= entries);
    } else {
        assert(approved(entries, keep, mapped) =~~= entries);
    }
}

/// Pages a glob answer the way the feeder reports it: the entries `keep`
/// approved whose mapping in `mapped` succeeded, in their original order,
/// with the first `position` of them skipped and at most `items_count`
/// returned.
pub fn page_entries(
    entries: &Vec<String>,
    keep: &Vec<bool>,
    mapped: &Vec<Option<String>>,
    position: usize,
    items_count: usize,
) -> (r: Vec<String>)
    requires
        keep@.len() == entries@.len(),
        mapped@.len() == entries@.len(),
    ensures
        r.deep_view() == window(
            approved(entries.deep_view(), keep@, mapped.deep_view()),
            position as int,
            items_count as int,
        ),
        r@.len() <= items_count,
{
    let n = entries.len();
    let mut out: Vec<String> = Vec::new();
    let mut skipped: usize = 0;
    let mut i: usize = 0;
    while i < n
        invariant
            n == entries@.len(),
            keep@.len() == n,
            mapped@.len() == n,
            i <= n,
            out@.len() <= items_count,
            ({
                let a = approved(
                    entries.deep_view().take(i as int),
                    keep@.take(i as int),
                    mapped.deep_view().take(i as int),
                );
                &&& skipped == if position <= a.len() {
                    position as int
                } else {
                    a.len() as int
                }
                &&& out.deep_view() == window(a, position as int, items_count as int)
            }),
        decreases n - i,
    {
        let ghost a_prev = approved(
            entries.deep_view().take(i as int),
            keep@.take(i as int),
            mapped.deep_view().take(i as int),
        );
        let ghost a_next = approved(
            entries.deep_view().take(i + 1),
            keep@.take(i + 1),
            mapped.deep_view().take(i + 1),
        );
        proof {
            assert(entries.deep_view().take(i + 1) =~~= entries.deep_view().take(i as int).push(
                entries.deep_view()[i as int],
            ));
            assert(keep@.take(i + 1) =~= keep@.take(i as int).push(keep@[i as int]));
            assert(mapped.deep_view().take(i + 1) =~~= mapped.deep_view().take(i as int).push(
                mapped.deep_view()[i as int],
            ));
            lemma_approved_push(
                entries.deep_view().take(i as int),
                keep@.take(i as int),
                mapped.deep_view().take(i as int),
                entries.deep_view()[i as int],
                keep@[i as int],
                mapped.deep_view()[i as int],
            );
        }
        let is_kept = keep[i];
        if is_kept {
            match &mapped[i] {
                Some(m) => {
                    proof {
                        assert(a_next =~~= a_prev.push(m@));
                    }
                    if skipped < position {
                        skipped = skipped + 1;
                        proof {
                            assert(out.deep_view() =~~= window(
                                a_next,
                                position as int,
                                items_count as int,
                            ));
                        }
                    } else if out.len() < items_count {
                        proof {
                            assert(out.deep_view().len() == out@.len());
                            assert(position <= a_prev.len());
                            assert(a_prev.skip(position as int).len() < items_count);
                            assert(a_next.skip(position as int) =~~= a_prev.skip(
                                position as int,
                            ).push(m@));
                        }
                        out.push(m.clone());
                        proof {
                            assert(out.deep_view() =~~= a_prev.skip(position as int).push(m@));
                            assert(out.deep_view() =~~= window(
                                a_next,
                                position as int,
                                items_count as int,
                            ));
                        }
                    } else {
                        proof {
                            assert(out.deep_view().len() == out@.len());
                            assert(position <= a_prev.len());
                            assert(items_count <= a_prev.skip(position as int).len());
                            assert(a_next.skip(position as int) =~~= a_prev.skip(
                                position as int,
                            ).push(m@));
                            assert(a_next.skip(position as int).take(items_count as int)
                                =~~= a_prev.skip(position as int).take(items_count as int));
                            assert(out.deep_view() =~~= window(
                                a_next,
                                position as int,
                                items_count as int,
                            ));
                        }
                    }
                },
                None => {
                    proof {
                        assert(a_next =~~= a_prev);
                        assert(out.deep_view() =~~= window(
                            a_next,
                            position as int,
                            items_count as int,
                        ));
                    }
                },
            }
        } else {
            proof {
                assert(a_next =~~= a_prev);
                assert(out.deep_view() =~~= window(a_next, position as int, items_count as int));
            }
        }
        i = i + 1;
    }
    proof {
        assert(entries.deep_view().take(n as int) =~~= entries.deep_view());
        assert(keep@.take(n as int) =~= keep@);
        assert(mapped.deep_view().take(n as int) =~~= mapped.deep_view());
    }
    out
}

/// What kind of directory entries a [`DirItems`] feeder reports.
#[derive(Clone, Debug)]
enum DirItemType {
    Dir,
    All,
}

/// A feeder of filesystem paths: the typed text, with a wildcard added to
/// its last segment, is run as a glob query.  The query is case-sensitive
/// only when the text holds an uppercase letter; a leading `~` is expanded
/// to the configured home directory.
#[derive(Clone, Debug)]
pub struct DirItems {
    dir_item_type: DirItemType,
    use_full_paths: bool,
    home: Option<String>,
}

impl DirItems {
    /// Whether only directories are reported.
    pub closed spec fn dirs_only(&self) -> bool {
        self.dir_item_type is Dir
    }

    /// Whether reported paths are resolved to canonical, absolute form.
    pub closed spec fn full_paths(&self) -> bool {
        self.use_full_paths
    }

    /// The configured home directory, used to expand a leading `~`.
    pub closed spec fn home_view(&self) -> Option<Seq<char>> {
        self.home.deep_view()
    }

    /// A feeder reporting every kind of directory entry.
    pub fn new() -> (r: Self)
        ensures
            !r.dirs_only(),
            !r.full_paths(),
            r.home_view() is None,
    {
        DirItems { dir_item_type: DirItemType::All, use_full_paths: false, home: None }
    }

    /// A feeder reporting directories only.
    pub fn dirs() -> (r: Self)
        ensures
            r.dirs_only(),
            !r.full_paths(),
            r.home_view() is None,
    {
        DirItems { dir_item_type: DirItemType::Dir, use_full_paths: false, home: None }
    }

    /// Makes the feeder report canonical, absolute paths.
    pub fn use_full_paths(self) -> (r: Self)
        ensures
            r.full_paths(),
            r.dirs_only() == self.dirs_only(),
            r.home_view() == self.home_view(),
    {
        DirItems { dir_item_type: self.dir_item_type, use_full_paths: true, home: self.home }
    }

    /// Sets the home directory that a leading `~` of the typed text is
    /// expanded to.  Without it, a `~` is left as it is.
    pub fn with_home(self, path: &str) -> (r: Self)
        ensures
            r.home_view() == Some(path@),
            r.dirs_only() == self.dirs_only(),
            r.full_paths() == self.full_paths(),
    {
        DirItems {
            dir_item_type: self.dir_item_type,
            use_full_paths: self.use_full_paths,
            home: Some(path.to_owned()),
        }
    }
}

/// `s` with every `~` replaced by `home`.
pub open spec fn tilde_replaced(s: Seq<char>, home: Seq<char>) -> Seq<char>
    decreases s.len(),
{
    if s.len() == 0 {
        Seq::empty()
    } else {
        (if s[0] == '~' {
            home
        } else {
            seq![s[0]]
        }) + tilde_replaced(s.drop_first(), home)
    }
}

proof fn lemma_tilde_replaced_push(s: Seq<char>, x: char, home: Seq<char>)
    ensures
        tilde_replaced(s.push(x), home) == tilde_replaced(s, home) + (if x == '~' {
            home
        } else {
            seq![x]
        }),
    decreases s.len(),
{
    let tail = if x == '~' {
        home
    } else {
        seq![x]
    };
    if s.len() == 0 {
        assert(s.push(x).drop_first() =~= Seq::<char>::empty());
        assert(tilde_replaced(s.push(x).drop_first(), home) =~= Seq::<char>::empty());
        assert(tilde_replaced(s, home) =~= Seq::<char>::empty());
        assert(s.push(x)[0] == x);
        assert(tilde_replaced(s.push(x), home) =~= tilde_replaced(s, home) + tail);
    } else {
        assert(s.push(x).drop_first() =~= s.drop_first().push(x));
        lemma_tilde_replaced_push(s.drop_first(), x, home);
        assert(s.push(x)[0] == s[0]);
        assert((if s[0] == '~' {
            home
        } else {
            seq![s[0]]
        }) + (tilde_replaced(s.drop_first(), home) + tail) =~= ((if s[0] == '~' {
            home
        } else {
            seq![s[0]]
        }) + tilde_replaced(s.drop_first(), home)) + tail);
        assert(tilde_replaced(s.push(x), home) =~= tilde_replaced(s, home) + tail);
    }
}

/// Replaces every `~` of `s` by `home`.
fn replace_tilde(s: &str, home: &str) -> (r: String)
    ensures
        r@ == tilde_replaced(s@, home@),
{
    let n = s.unicode_len();
    let mut r = String::new();
    let mut i: usize = 0;
    while i < n
        invariant
            n == s@.len(),
            i <= n,
            r@ == tilde_replaced(s@.take(i as int), home@),
        decreases n - i,
    {
        let c = s.get_char(i);
        proof {
            assert(s@.take(i + 1) =~= s@.take(i as int).push(s@[i as int]));
            lemma_tilde_replaced_push(s@.take(i as int), s@[i as int], home@);
        }
        if c == '~' {
            r.append(home);
        } else {
            push_char(&mut r, c);
        }
        proof {
            assert(r@ =~= tilde_replaced(s@.take(i + 1), home@));
        }
        i = i + 1;
    }
    proof {
        assert(s@.take(n as int) =~= s@);
    }
    r
}

impl Feeder for DirItems {
    /// Which paths match depends on the filesystem, so the answer itself
    /// cannot be pinned down; what can be is promised: a pattern the glob
    /// crate refuses yields the empty answer.  The post-processing of the
    /// glob answer is the exactly specified [`page_entries`], to which
    /// `query` hands the answer together with the per-entry kind and
    /// canonicalization answers.
    open spec fn query_post(
        &self,
        text: Seq<char>,
        position: int,
        items_count: int,
        r: Seq<Seq<char>>,
    ) -> bool {
        !glob_pattern_ok(dir_pattern(self.home_view(), text)) ==> r == Seq::<Seq<char>>::empty()
    }

    fn query(&self, text: &str, position: isize, items_count: usize) -> (r: Vec<String>) {
        let path: String = if text.is_empty() {
            "./".to_owned()
        } else if first_char_is(text, '~') {
            match &self.home {
                Some(h) => replace_tilde(text, h.as_str()),
                None => text.to_owned(),
            }
        } else {
            text.to_owned()
        };
        let pattern = add_glob(path.as_str());
        proof {
            assert(pattern@ == dir_pattern(self.home_view(), text@));
        }
        let case_sensitive = any_uppercase(text);
        match run_glob(pattern.as_str(), case_sensitive) {
            None => {
                let out: Vec<String> = Vec::new();
                proof {
                    assert(out.deep_view() =~~= Seq::<Seq<char>>::empty());
                }
                out
            },
            Some(entries) => {
                let n = entries.len();
                let mut keep: Vec<bool> = Vec::new();
                let mut mapped: Vec<Option<String>> = Vec::new();
                let mut i: usize = 0;
                while i < n
                    invariant
                        n == entries@.len(),
                        i <= n,
                        keep@.len() == i,
                        mapped@.len() == i,
                    decreases n - i,
                {
                    let k = match self.dir_item_type {
                        DirItemType::Dir => path_is_dir(entries[i].as_str()),
                        DirItemType::All => true,
                    };
                    keep.push(k);
                    let m: Option<String> = if self.use_full_paths {
                        canonical_path(entries[i].as_str())
                    } else {
                        Some(entries[i].clone())
                    };
                    mapped.push(m);
                    i = i + 1;
                }
                page_entries(&entries, &keep, &mapped, position as usize, items_count)
            },
        }
    }
}

/// One feeder of any of the library's kinds; what a widget stores.
#[derive(Clone, Debug)]
pub enum FeederAny {
    /// A fixed in-memory list of candidate strings.
    List(Vec<String>),
    /// A filesystem query.
    Dir(DirItems),
}

impl Feeder for FeederAny {
    open spec fn query_post(
        &self,
        text: Seq<char>,
        position: int,
        items_count: int,
        r: Seq<Seq<char>>,
    ) -> bool {
        match self {
            FeederAny::List(items) => items.query_post(text, position, items_count, r),
            FeederAny::Dir(d) => d.query_post(text, position, items_count, r),
        }
    }

    fn query(&self, text: &str, position: isize, items_count: usize) -> (r: Vec<String>) {
        match self {
            FeederAny::List(items) => items.query(text, position, items_count),
            FeederAny::Dir(d) => d.query(text, position, items_count),
        }
    }
}

} // verus!
