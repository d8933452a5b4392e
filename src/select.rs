//! Selection: from the requested paths, as the filesystem showed them, to the
//! ordered entries that a removal acts on.
use vstd::prelude::*;

use crate::error::RoxError;
use crate::guards::{is_root_path, is_root_spec};
use crate::text::{contains_seq, contains_str, hidden_name, is_hidden_name};

verus! {

#[derive(Debug, Clone, Copy, PartialEq, Eq, Structural)]
pub enum EntryKind {
    File,
    Dir,
    /// Exists, but is neither a regular file nor a directory.
    Other,
}

/// A path chosen for removal, with its kind as it was seen.
#[derive(Debug, Clone, PartialEq, Eq)]
pub struct Entry {
    pub path: String,
    pub kind: EntryKind,
}

/// Something found beneath a requested directory. `route` holds the names of
/// the components from the directory's child down to this entry, so an
/// immediate child has a route of length one.
#[derive(Debug, Clone)]
pub struct Below {
    pub path: String,
    pub route: Vec<String>,
    pub kind: EntryKind,
}

/// A requested path as the filesystem showed it: `kind` is `None` when the
/// path does not exist, `name` is its file name, and `below` lists what a
/// directory holds, in walk order (parents before their contents).
#[derive(Debug, Clone)]
pub struct Probe {
    pub path: String,
    pub name: String,
    pub kind: Option<EntryKind>,
    pub below: Vec<Below>,
}

#[derive(Debug, Clone)]
pub struct SelectionCriteria {
    pub recursive: bool,
    pub pattern: Option<String>,
    pub treat_empty_dir_as_removable: bool,
}

#[derive(Debug, Clone, Copy, PartialEq, Eq, Structural)]
pub enum SkipReason {
    IsRoot,
    NoSuchFile,
    /// A directory given without the recursive or the empty-directory flag.
    IsADirectory,
}

/// A requested path that was left out, and why.
#[derive(Debug, Clone, PartialEq, Eq)]
pub struct Skipped {
    pub path: String,
    pub reason: SkipReason,
}

#[derive(Debug, Clone)]
pub struct Selection {
    pub entries: Vec<Entry>,
    pub skipped: Vec<Skipped>,
}

pub open spec fn matches_spec(pattern: Option<String>, name: Seq<char>) -> bool {
    match pattern {
        Some(p) => contains_seq(name, p@),
        None => false,
    }
}

pub open spec fn route_visible(route: Seq<String>) -> bool {
    forall|k: int| 0 <= k < route.len() ==> !hidden_name(#[trigger] route[k]@)
}

/// Whether a found entry is kept: in a deep walk, a non-directory reached
/// through visible names only whose name matches; otherwise an immediate
/// child that is a file and whose name matches.
pub open spec fn keeps(b: Below, pattern: Option<String>, deep: bool) -> bool {
    if deep {
        &&& b.kind != EntryKind::Dir
        &&& b.route@.len() > 0
        &&& route_visible(b.route@)
        &&& matches_spec(pattern, b.route@.last()@)
    } else {
        &&& b.kind == EntryKind::File
        &&& b.route@.len() == 1
        &&& matches_spec(pattern, b.route@[0]@)
    }
}

pub open spec fn entry_of(b: Below) -> Entry {
    Entry { path: b.path, kind: b.kind }
}

pub open spec fn kept(bs: Seq<Below>, pattern: Option<String>, deep: bool) -> Seq<Entry>
    decreases bs.len(),
{
    if bs.len() == 0 {
        Seq::empty()
    } else {
        let r = kept(bs.drop_last(), pattern, deep);
        if keeps(bs.last(), pattern, deep) {
            r.push(entry_of(bs.last()))
        } else {
            r
        }
    }
}

/// The entries that one requested path contributes.
pub open spec fn probe_entries(p: Probe, c: SelectionCriteria) -> Seq<Entry> {
    if is_root_spec(p.path@) || p.kind is None {
        Seq::empty()
    } else {
        let k = p.kind->0;
        let me = Entry { path: p.path, kind: k };
        if c.recursive && c.pattern is Some {
            if hidden_name(p.name@) {
                Seq::empty()
            } else if k == EntryKind::Dir {
                kept(p.below@, c.pattern, true)
            } else if matches_spec(c.pattern, p.name@) {
                seq![me]
            } else {
                Seq::empty()
            }
        } else if c.recursive {
            seq![me]
        } else if c.pattern is Some {
            if k == EntryKind::Dir {
                kept(p.below@, c.pattern, false)
            } else if matches_spec(c.pattern, p.name@) {
                seq![me]
            } else {
                Seq::empty()
            }
        } else if k != EntryKind::Dir || c.treat_empty_dir_as_removable {
            seq![me]
        } else {
            Seq::empty()
        }
    }
}

/// What is reported for one requested path that was left out.
pub open spec fn probe_skips(p: Probe, c: SelectionCriteria) -> Seq<Skipped> {
    if is_root_spec(p.path@) {
        seq![Skipped { path: p.path, reason: SkipReason::IsRoot }]
    } else if p.kind is None {
        seq![Skipped { path: p.path, reason: SkipReason::NoSuchFile }]
    } else if !c.recursive && c.pattern is None && p.kind == Some(EntryKind::Dir)
        && !c.treat_empty_dir_as_removable {
        seq![Skipped { path: p.path, reason: SkipReason::IsADirectory }]
    } else {
        Seq::empty()
    }
}

pub open spec fn selection(ps: Seq<Probe>, c: SelectionCriteria) -> Seq<Entry>
    decreases ps.len(),
{
    if ps.len() == 0 {
        Seq::empty()
    } else {
        selection(ps.drop_last(), c) + probe_entries(ps.last(), c)
    }
}

pub open spec fn skips(ps: Seq<Probe>, c: SelectionCriteria) -> Seq<Skipped>
    decreases ps.len(),
{
    if ps.len() == 0 {
        Seq::empty()
    } else {
        skips(ps.drop_last(), c) + probe_skips(ps.last(), c)
    }
}

/// No name that the pattern could be matched against contains it: neither a
/// requested path's own name nor the last name of anything found beneath it.
pub open spec fn matches_nothing(ps: Seq<Probe>, pattern: Option<String>) -> bool {
    forall|i: int|
        0 <= i < ps.len() ==> {
            &&& !matches_spec(pattern, (#[trigger] ps[i]).name@)
            &&& below_matches_nothing(ps[i].below@, pattern)
        }
}

pub open spec fn below_matches_nothing(bs: Seq<Below>, pattern: Option<String>) -> bool {
    forall|j: int|
        0 <= j < bs.len() && bs[j].route@.len() > 0 ==> !matches_spec(
            pattern,
            (#[trigger] bs[j]).route@.last()@,
        )
}

proof fn lemma_kept_empty(bs: Seq<Below>, pattern: Option<String>, deep: bool)
    requires
        below_matches_nothing(bs, pattern),
    ensures
        kept(bs, pattern, deep).len() == 0,
    decreases bs.len(),
{
    if bs.len() > 0 {
        let b = bs.last();
        assert(bs[bs.len() - 1] == b);
        assert(below_matches_nothing(bs.drop_last(), pattern)) by {
            assert forall|j: int|
                0 <= j < bs.drop_last().len() && bs.drop_last()[j].route@.len()
                    > 0 implies !matches_spec(pattern, (#[trigger] bs.drop_last()[j]).route@.last()@) by {
                assert(bs.drop_last()[j] == bs[j]);
            }
        }
        lemma_kept_empty(bs.drop_last(), pattern, deep);
        if b.route@.len() == 1 {
            assert(b.route@[0] == b.route@.last());
        }
    }
}

/// Selecting with a pattern that no name matches selects nothing, so the
/// selection fails as a whole with `PatternNoMatch` before anything is moved.
pub proof fn lemma_pattern_without_match(ps: Seq<Probe>, c: SelectionCriteria)
    requires
        c.pattern is Some,
        matches_nothing(ps, c.pattern),
    ensures
        selection(ps, c).len() == 0,
    decreases ps.len(),
{
    if ps.len() > 0 {
        let p = ps.last();
        assert(ps[ps.len() - 1] == p);
        assert(matches_nothing(ps.drop_last(), c.pattern)) by {
            assert forall|i: int| 0 <= i < ps.drop_last().len() implies {
                &&& !matches_spec(c.pattern, (#[trigger] ps.drop_last()[i]).name@)
                &&& below_matches_nothing(ps.drop_last()[i].below@, c.pattern)
            } by {
                assert(ps.drop_last()[i] == ps[i]);
            }
        }
        lemma_pattern_without_match(ps.drop_last(), c);
        lemma_kept_empty(p.below@, c.pattern, true);
        lemma_kept_empty(p.below@, c.pattern, false);
    }
}

/// A requested path that is the filesystem root is never selected, whatever
/// the criteria, and is reported as `IsRoot`.
pub proof fn lemma_root_is_refused(p: Probe, c: SelectionCriteria)
    requires
        is_root_spec(p.path@),
    ensures
        probe_entries(p, c).len() == 0,
        probe_skips(p, c) == seq![Skipped { path: p.path, reason: SkipReason::IsRoot }],
{
}

/// A directory requested without the recursive flag, without a pattern and
/// without the empty-directory flag is not selected and is reported as
/// skipped because it is a directory.
pub proof fn lemma_directory_guard(p: Probe, c: SelectionCriteria)
    requires
        p.kind == Some(EntryKind::Dir),
        !is_root_spec(p.path@),
        !c.recursive,
        c.pattern is None,
        !c.treat_empty_dir_as_removable,
    ensures
        probe_entries(p, c).len() == 0,
        probe_skips(p, c) == seq![Skipped { path: p.path, reason: SkipReason::IsADirectory }],
{
}

pub struct PathFilter;

impl PathFilter {
    /// Whether the file name contains the pattern; never without a pattern.
    pub fn matches_pattern(pattern: &Option<String>, filename: &str) -> (r: bool)
        ensures
            r == matches_spec(*pattern, filename@),
    {
        match pattern {
            Some(p) => contains_str(filename, p.as_str()),
            None => false,
        }
    }

    /// Whether a name is hidden, i.e. begins with a dot.
    pub fn is_hidden(name: &str) -> (r: bool)
        ensures
            r == hidden_name(name@),
    {
        is_hidden_name(name)
    }

    /// Whether the requested path exists.
    pub fn check_exists(item: &Probe) -> (r: bool)
        ensures
            r == item.kind is Some,
    {
        item.kind.is_some()
    }

    fn route_is_visible(route: &Vec<String>) -> (r: bool)
        ensures
            r == route_visible(route@),
    {
        let mut i: usize = 0;
        while i < route.len()
            invariant
                i <= route.len(),
                forall|k: int| 0 <= k < i ==> !hidden_name(#[trigger] route@[k]@),
            decreases route.len() - i,
        {
            if is_hidden_name(route[i].as_str()) {
                return false;
            }
            i = i + 1;
        }
        true
    }

    fn keeps_below(b: &Below, pattern: &Option<String>, deep: bool) -> (r: bool)
        ensures
            r == keeps(*b, *pattern, deep),
    {
        let n = b.route.len();
        if deep {
            b.kind != EntryKind::Dir && n > 0 && Self::route_is_visible(&b.route)
                && Self::matches_pattern(pattern, b.route[n - 1].as_str())
        } else {
            b.kind == EntryKind::File && n == 1 && Self::matches_pattern(
                pattern,
                b.route[0].as_str(),
            )
        }
    }

    fn collect_below(
        bs: &Vec<Below>,
        pattern: &Option<String>,
        deep: bool,
        out: &mut Vec<Entry>,
    )
        ensures
            final(out)@ == old(out)@ + kept(bs@, *pattern, deep),
    {
        let ghost start = out@;
        let mut i: usize = 0;
        while i < bs.len()
            invariant
                i <= bs.len(),
                out@ == start + kept(bs@.subrange(0, i as int), *pattern, deep),
            decreases bs.len() - i,
        {
            assert(bs@.subrange(0, i + 1).drop_last() =~= bs@.subrange(0, i as int));
            if Self::keeps_below(&bs[i], pattern, deep) {
                out.push(Entry { path: bs[i].path.clone(), kind: bs[i].kind });
            }
            i = i + 1;
        }
        assert(bs@.subrange(0, bs.len() as int) =~= bs@);
    }

    fn select_one(
        p: &Probe,
        c: &SelectionCriteria,
        entries: &mut Vec<Entry>,
        skipped: &mut Vec<Skipped>,
    )
        ensures
            final(entries)@ == old(entries)@ + probe_entries(*p, *c),
            final(skipped)@ == old(skipped)@ + probe_skips(*p, *c),
    {
        if is_root_path(p.path.as_str()) {
            skipped.push(Skipped { path: p.path.clone(), reason: SkipReason::IsRoot });
            assert(entries@ =~= old(entries)@ + probe_entries(*p, *c));
            return;
        }
        let k = match p.kind {
            Some(k) => k,
            None => {
                skipped.push(Skipped { path: p.path.clone(), reason: SkipReason::NoSuchFile });
                assert(entries@ =~= old(entries)@ + probe_entries(*p, *c));
                return;
            },
        };
        let has_pattern = c.pattern.is_some();
        if c.recursive && has_pattern {
            if is_hidden_name(p.name.as_str()) {
            } else if k == EntryKind::Dir {
                Self::collect_below(&p.below, &c.pattern, true, entries);
            } else if Self::matches_pattern(&c.pattern, p.name.as_str()) {
                entries.push(Entry { path: p.path.clone(), kind: k });
            }
        } else if c.recursive {
            entries.push(Entry { path: p.path.clone(), kind: k });
        } else if has_pattern {
            if k == EntryKind::Dir {
                Self::collect_below(&p.below, &c.pattern, false, entries);
            } else if Self::matches_pattern(&c.pattern, p.name.as_str()) {
                entries.push(Entry { path: p.path.clone(), kind: k });
            }
        } else if k != EntryKind::Dir || c.treat_empty_dir_as_removable {
            entries.push(Entry { path: p.path.clone(), kind: k });
        } else {
            skipped.push(Skipped { path: p.path.clone(), reason: SkipReason::IsADirectory });
        }
        assert(entries@ =~= old(entries)@ + probe_entries(*p, *c));
        assert(skipped@ =~= old(skipped)@ + probe_skips(*p, *c));
    }

    /// Resolves the requested paths into the entries to act on, in order.
    /// Paths that are the root, missing, or directories that may not be
    /// removed are reported in `skipped` and left out; the one fatal outcome
    /// is a pattern that selected nothing.
    pub fn filter(items: &Vec<Probe>, args: &SelectionCriteria) -> (r: Result<Selection, RoxError>)
        ensures
            match r {
                Ok(s) => {
                    &&& s.entries@ == selection(items@, *args)
                    &&& s.skipped@ == skips(items@, *args)
                    &&& !(args.pattern is Some && selection(items@, *args).len() == 0)
                },
                Err(e) => {
                    &&& args.pattern is Some
                    &&& selection(items@, *args).len() == 0
                    &&& e == RoxError::PatternNoMatch(args.pattern->0)
                },
            },
    {
        let mut entries: Vec<Entry> = Vec::new();
        let mut skipped: Vec<Skipped> = Vec::new();
        let mut i: usize = 0;
        while i < items.len()
            invariant
                i <= items.len(),
                entries@ == selection(items@.subrange(0, i as int), *args),
                skipped@ == skips(items@.subrange(0, i as int), *args),
            decreases items.len() - i,
        {
            assert(items@.subrange(0, i + 1).drop_last() =~= items@.subrange(0, i as int));
            Self::select_one(&items[i], args, &mut entries, &mut skipped);
            i = i + 1;
        }
        assert(items@.subrange(0, items.len() as int) =~= items@);
        match &args.pattern {
            Some(pat) => {
                if entries.len() == 0 {
                    return Err(RoxError::PatternNoMatch(pat.clone()));
                }
            },
            None => {},
        }
        Ok(Selection { entries, skipped })
    }
}

} // verus!
