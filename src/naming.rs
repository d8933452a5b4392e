//! Names that trashed items receive inside the trash directory.
use vstd::prelude::*;
use vstd::string::*;

use crate::text::{find_last, last_index_of, lemma_last_index_of, slice_owned};
use crate::timestamp::{compact_id, log_id_of, now, pretty_id, CivilTime};

verus! {

/// A file name split as std's `Path::file_stem` and `Path::extension` split it:
/// at the last dot, unless that dot is the first character or there is none.
pub open spec fn stem_ext(name: Seq<char>) -> (Seq<char>, Option<Seq<char>>) {
    let k = last_index_of(name, '.');
    if k <= 0 {
        (name, None)
    } else {
        (name.subrange(0, k), Some(name.subrange(k + 1, name.len() as int)))
    }
}

/// `stem.id.ext`, or `stem.id` when the name has no extension.
pub open spec fn decorated_name(name: Seq<char>, id: Seq<char>) -> Seq<char> {
    let stem = stem_ext(name).0;
    match stem_ext(name).1 {
        Some(ext) => stem + seq!['.'] + id + seq!['.'] + ext,
        None => stem + seq!['.'] + id,
    }
}

/// The bare name while it is free in the trash directory, else the decorated one.
pub open spec fn trash_name_for(name: Seq<char>, id: Seq<char>, taken: bool) -> Seq<char> {
    if taken {
        decorated_name(name, id)
    } else {
        name
    }
}

/// The names given to items that all carry the file name `name`, trashed one
/// after another with the ids `ids` into a trash directory holding `present`.
pub open spec fn names_given(
    name: Seq<char>,
    ids: Seq<Seq<char>>,
    present: Set<Seq<char>>,
) -> Seq<Seq<char>>
    decreases ids.len(),
{
    if ids.len() == 0 {
        Seq::empty()
    } else {
        let before = names_given(name, ids.drop_last(), present);
        let taken = present.contains(name) || before.contains(name);
        before.push(trash_name_for(name, ids.last(), taken))
    }
}

proof fn lemma_stem_ext_parts(name: Seq<char>)
    ensures
        stem_ext(name).1 is None ==> stem_ext(name).0 == name,
        stem_ext(name).1 is Some ==> stem_ext(name).0.len() + 1 + stem_ext(name).1->0.len()
            == name.len(),
{
    lemma_last_index_of(name, '.');
}

/// A decorated name is longer than the bare name.
pub proof fn lemma_decorated_differs(name: Seq<char>, id: Seq<char>)
    ensures
        decorated_name(name, id) != name,
{
    lemma_stem_ext_parts(name);
    assert(decorated_name(name, id).len() > name.len());
}

/// Two ids give the same decorated name only if they are equal.
pub proof fn lemma_decorated_injective(name: Seq<char>, a: Seq<char>, b: Seq<char>)
    requires
        decorated_name(name, a) == decorated_name(name, b),
    ensures
        a == b,
{
    lemma_stem_ext_parts(name);
    let s = stem_ext(name).0.len() as int;
    let da = decorated_name(name, a);
    let db = decorated_name(name, b);
    if a.len() == b.len() {
        assert(da.subrange(s + 1, s + 1 + a.len()) =~= a);
        assert(db.subrange(s + 1, s + 1 + b.len()) =~= b);
    } else {
        assert(da.len() != db.len());
    }
}

proof fn lemma_names_given_shape(name: Seq<char>, ids: Seq<Seq<char>>, present: Set<Seq<char>>)
    requires
        !present.contains(name),
    ensures
        names_given(name, ids, present).len() == ids.len(),
        forall|i: int|
            0 <= i < ids.len() ==> #[trigger] names_given(name, ids, present)[i] == (if i == 0 {
                name
            } else {
                decorated_name(name, ids[i])
            }),
    decreases ids.len(),
{
    if ids.len() > 0 {
        let before = names_given(name, ids.drop_last(), present);
        lemma_names_given_shape(name, ids.drop_last(), present);
        if before.len() > 0 {
            assert(before[0] == name);
        } else {
            assert(!before.contains(name));
        }
    }
}

/// Items that share one file name, trashed one at a time with pairwise
/// distinct ids into a trash directory that does not yet hold that name,
/// all receive distinct names, and the first keeps the name unchanged.
pub proof fn lemma_trash_names_distinct(
    name: Seq<char>,
    ids: Seq<Seq<char>>,
    present: Set<Seq<char>>,
)
    requires
        !present.contains(name),
        forall|i: int, j: int| 0 <= i < j < ids.len() ==> ids[i] != ids[j],
    ensures
        names_given(name, ids, present).len() == ids.len(),
        ids.len() > 0 ==> names_given(name, ids, present)[0] == name,
        forall|i: int, j: int|
            0 <= i < j < ids.len() ==> names_given(name, ids, present)[i] != names_given(
                name,
                ids,
                present,
            )[j],
{
    lemma_names_given_shape(name, ids, present);
    let names = names_given(name, ids, present);
    assert forall|i: int, j: int| 0 <= i < j < ids.len() implies names[i] != names[j] by {
        assert(names[i] == (if i == 0 {
            name
        } else {
            decorated_name(name, ids[i])
        }));
        assert(names[j] == decorated_name(name, ids[j]));
        if i == 0 {
            lemma_decorated_differs(name, ids[j]);
        } else if names[i] == names[j] {
            lemma_decorated_injective(name, ids[i], ids[j]);
        }
    }
}

/// How often a taken candidate name is retried with a fresh id before the
/// item is refused.
pub const MAX_NAMING_ATTEMPTS: u32 = 2;

/// How long to wait for the clock to give a fresh id, in milliseconds.
pub const NAMING_WAIT_MS: u64 = 1000;

/// What to do with a candidate trash name.
#[derive(Debug, Clone, Copy, PartialEq, Eq, Structural)]
pub enum NamingStep {
    /// The name is free: move the item there.
    Use,
    /// The name is taken: wait for a fresh id and name again.
    Wait,
    /// The name is still taken: leave the item where it is.
    Refuse,
}

/// A candidate that names an existing trash entry is never used: it is
/// retried while attempts remain, then refused.
pub fn naming_step(candidate_taken: bool, attempt: u32, max_attempts: u32) -> (r: NamingStep)
    ensures
        !candidate_taken ==> r == NamingStep::Use,
        candidate_taken && attempt < max_attempts ==> r == NamingStep::Wait,
        candidate_taken && attempt >= max_attempts ==> r == NamingStep::Refuse,
{
    if !candidate_taken {
        NamingStep::Use
    } else if attempt < max_attempts {
        NamingStep::Wait
    } else {
        NamingStep::Refuse
    }
}

/// Items that share one file name are trashed one after another; `names[i]`
/// is the name the `i`-th one received, computed with `ids[i]` against the
/// trash as it stood (`present` plus the names used before). When every name
/// used was free at the time, as `naming_step` guarantees, all the names are
/// distinct, whatever the ids, and the first one is the bare name.
pub proof fn lemma_used_names_distinct(
    name: Seq<char>,
    ids: Seq<Seq<char>>,
    present: Set<Seq<char>>,
    names: Seq<Seq<char>>,
)
    requires
        !present.contains(name),
        names.len() == ids.len(),
        forall|i: int|
            0 <= i < names.len() ==> #[trigger] names[i] == trash_name_for(
                name,
                ids[i],
                present.contains(name) || names.subrange(0, i).contains(name),
            ),
        forall|i: int|
            0 <= i < names.len() ==> !present.contains(#[trigger] names[i]) && !names.subrange(
                0,
                i,
            ).contains(names[i]),
    ensures
        names.len() > 0 ==> names[0] == name,
        forall|i: int, j: int| 0 <= i < j < names.len() ==> names[i] != names[j],
{
    if names.len() > 0 {
        assert(!names.subrange(0, 0).contains(name));
        assert(names[0] == trash_name_for(name, ids[0], false));
    }
    assert forall|i: int, j: int| 0 <= i < j < names.len() implies names[i] != names[j] by {
        assert(names.subrange(0, j)[i] == names[i]);
        assert(!names.subrange(0, j).contains(names[j]));
    }
}

/// An item about to be trashed, known by its file name.
#[derive(Debug, Clone)]
pub struct Trash {
    pub file: String,
}

impl Trash {
    /// The id of a removal happening now (UTC), in its compact
    /// (`YYYYMMDDHHMMSS`) and readable forms; `None` when the clock reads
    /// before the Unix epoch or gives a year outside four digits.
    pub fn get_log_id(&self) -> (r: Option<(String, String)>)
        ensures
            r matches Some((a, b)) ==> exists|t: CivilTime|
                t.wf() && #[trigger] compact_id(t) == a@ && pretty_id(t) == b@,
    {
        match now() {
            Some(t) => {
                let ids = log_id_of(&t);
                assert(compact_id(t) == ids.0@ && pretty_id(t) == ids.1@);
                Some(ids)
            },
            None => None,
        }
    }

    /// The name the item takes in the trash directory, given the id of this
    /// removal and whether an entry with the item's bare name is already there.
    pub fn trash_name(&self, log_id: &str, in_trash: bool) -> (r: String)
        ensures
            r@ == trash_name_for(self.file@, log_id@, in_trash),
    {
        if !in_trash {
            return self.file.clone();
        }
        let name = self.file.as_str();
        let n = name.unicode_len();
        let dot = find_last(name, '.');
        proof {
            reveal_strlit(".");
            lemma_last_index_of(name@, '.');
        }
        match dot {
            Some(k) if k > 0 => {
                let mut r = slice_owned(name, 0, k);
                r.append(".");
                r.append(log_id);
                r.append(".");
                let ext = slice_owned(name, k + 1, n);
                r.append(ext.as_str());
                r
            },
            _ => {
                let mut r = self.file.clone();
                r.append(".");
                r.append(log_id);
                r
            },
        }
    }
}

} // verus!
