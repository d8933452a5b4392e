//! The undo log: four lines per trashed item (id, original path, trash path,
//! separator), appended on every trash move and consumed by a revert.
use vstd::prelude::*;
use vstd::string::*;

verus! {

/// The line that closes every record.
pub const SEPARATOR: &'static str = "----------------------------";

/// The most lines the log keeps after a revert (forty records).
pub const MAX_LOG_LINES: usize = 160;

/// The id of a removal: the `YYYYMMDDHHMMSS` text of its timestamp.
#[derive(Debug, Clone, PartialEq, Eq)]
pub struct LogId(pub String);

pub open spec fn is_digit(c: char) -> bool {
    '0' <= c && c <= '9'
}

pub open spec fn all_digits(s: Seq<char>) -> bool {
    forall|i: int| 0 <= i < s.len() ==> is_digit(#[trigger] s[i])
}

/// The number that a string of decimal digits spells.
pub open spec fn digits_value(s: Seq<char>) -> int
    decreases s.len(),
{
    if s.len() == 0 {
        0
    } else {
        digits_value(s.drop_last()) * 10 + (s.last() as u32 - '0' as u32)
    }
}

proof fn lemma_digits_value_grows(s: Seq<char>, k: int)
    requires
        all_digits(s),
        0 <= k <= s.len(),
    ensures
        digits_value(s.subrange(0, k)) <= digits_value(s),
        0 <= digits_value(s),
    decreases s.len(),
{
    if s.len() > 0 {
        assert(all_digits(s.drop_last())) by {
            assert forall|i: int| 0 <= i < s.drop_last().len() implies is_digit(
                #[trigger] s.drop_last()[i],
            ) by {
                assert(s.drop_last()[i] == s[i]);
            }
        }
        assert(is_digit(s[s.len() - 1]));
        if k == s.len() {
            assert(s.subrange(0, k) =~= s);
            lemma_digits_value_grows(s.drop_last(), 0);
        } else {
            assert(s.subrange(0, k) =~= s.drop_last().subrange(0, k));
            lemma_digits_value_grows(s.drop_last(), k);
        }
    }
}

impl LogId {
    /// The id as a number: `Some` exactly when it is a non-empty string of
    /// decimal digits whose value fits in a `u64`.
    pub fn number(&self) -> (r: Option<u64>)
        ensures
            r matches Some(v) ==> self.0@.len() > 0 && all_digits(self.0@) && v == digits_value(
                self.0@,
            ),
            r is None ==> !(self.0@.len() > 0 && all_digits(self.0@) && digits_value(self.0@)
                <= u64::MAX),
    {
        let s = self.0.as_str();
        let n = s.unicode_len();
        if n == 0 {
            return None;
        }
        let mut acc: u64 = 0;
        let mut i: usize = 0;
        while i < n
            invariant
                n == s@.len(),
                s@ == self.0@,
                i <= n,
                all_digits(s@.subrange(0, i as int)),
                acc == digits_value(s@.subrange(0, i as int)),
            decreases n - i,
        {
            let c = s.get_char(i);
            assert(s@.subrange(0, i + 1).drop_last() =~= s@.subrange(0, i as int));
            if c < '0' || c > '9' {
                assert(!is_digit(s@[i as int]));
                return None;
            }
            let d = (c as u32 - '0' as u32) as u64;
            let next = match acc.checked_mul(10) {
                Some(m) => m.checked_add(d),
                None => None,
            };
            match next {
                Some(v) => {
                    acc = v;
                },
                None => {
                    proof {
                        if all_digits(s@) {
                            lemma_digits_value_grows(s@, i + 1);
                        }
                    }
                    return None;
                },
            }
            i = i + 1;
        }
        assert(s@.subrange(0, n as int) =~= s@);
        Some(acc)
    }
}

/// Where an item was, and where it went in the trash.
#[derive(Debug, Clone, PartialEq, Eq)]
pub struct TrashMeta {
    pub file_path: String,
    pub trash_path: String,
}

impl TrashMeta {
    pub fn new(file_path: String, trash_path: String) -> (r: Self)
        ensures
            r.file_path == file_path,
            r.trash_path == trash_path,
    {
        Self { file_path, trash_path }
    }
}

/// One record of the log.
#[derive(Debug, Clone, PartialEq, Eq)]
pub struct History {
    pub log_id: LogId,
    pub metadata: TrashMeta,
}

/// A trash move as a plain record: its id, where from and where to.
#[derive(Debug, Clone, PartialEq, Eq)]
pub struct TrashLog {
    id: LogId,
    from: String,
    to: String,
}

impl TrashLog {
    pub closed spec fn spec_id(&self) -> LogId {
        self.id
    }

    pub closed spec fn spec_from(&self) -> String {
        self.from
    }

    pub closed spec fn spec_to(&self) -> String {
        self.to
    }

    pub fn new(id: LogId, from: String, to: String) -> (r: Self)
        ensures
            r.spec_id() == id,
            r.spec_from() == from,
            r.spec_to() == to,
    {
        Self { id, from, to }
    }

    pub fn set_id(&mut self, id: LogId)
        ensures
            final(self).spec_id() == id,
            final(self).spec_from() == old(self).spec_from(),
            final(self).spec_to() == old(self).spec_to(),
    {
        self.id = id;
    }

    pub fn id(&self) -> (r: &LogId)
        ensures
            *r == self.spec_id(),
    {
        &self.id
    }

    pub fn set_from(&mut self, from: String)
        ensures
            final(self).spec_id() == old(self).spec_id(),
            final(self).spec_from() == from,
            final(self).spec_to() == old(self).spec_to(),
    {
        self.from = from;
    }

    pub fn from(&self) -> (r: &String)
        ensures
            *r == self.spec_from(),
    {
        &self.from
    }

    pub fn set_to(&mut self, to: String)
        ensures
            final(self).spec_id() == old(self).spec_id(),
            final(self).spec_from() == old(self).spec_from(),
            final(self).spec_to() == to,
    {
        self.to = to;
    }

    pub fn to(&self) -> (r: &String)
        ensures
            *r == self.spec_to(),
    {
        &self.to
    }
}

#[derive(Debug, Clone, Copy, PartialEq, Eq, Structural)]
pub enum RevertError {
    /// The log holds no line at all.
    EmptyLog,
    /// The log does not end with a complete record.
    Malformed,
}

/// What a revert does once the last record is known.
#[derive(Debug, Clone, Copy, PartialEq, Eq, Structural)]
pub enum RevertStep {
    /// Move the trashed copy back, then rewrite the log without the record.
    MoveBack,
    /// The trashed copy is gone: report it, and still rewrite the log.
    TrashCopyMissing,
    /// Something occupies the original path: leave the trash and the log alone.
    OriginalOccupied,
}

pub open spec fn lines_view(lines: Seq<String>) -> Seq<Seq<char>> {
    lines.map_values(|l: String| l@)
}

/// The four lines that record `h`.
pub open spec fn record_view(h: History) -> Seq<Seq<char>> {
    seq![h.log_id.0@, h.metadata.file_path@, h.metadata.trash_path@, SEPARATOR@]
}

/// The newest `MAX_LOG_LINES` lines.
pub open spec fn capped(lines: Seq<Seq<char>>) -> Seq<Seq<char>> {
    if lines.len() > MAX_LOG_LINES {
        lines.subrange(lines.len() - MAX_LOG_LINES, lines.len() as int)
    } else {
        lines
    }
}

/// The log ends with a record: at least four lines, the last the separator.
pub open spec fn ends_with_record(lines: Seq<Seq<char>>) -> bool {
    lines.len() >= 4 && lines.last() == SEPARATOR@
}

pub open spec fn last_record_view(lines: Seq<Seq<char>>) -> Seq<Seq<char>> {
    lines.subrange(lines.len() - 4, lines.len() as int)
}

/// What remains once the last record is consumed.
pub open spec fn after_revert(lines: Seq<Seq<char>>) -> Seq<Seq<char>> {
    capped(lines.subrange(0, lines.len() - 4))
}

fn copy_lines(v: &Vec<String>, from: usize, to: usize) -> (r: Vec<String>)
    requires
        from <= to <= v.len(),
    ensures
        r@ == v@.subrange(from as int, to as int),
{
    let mut r: Vec<String> = Vec::new();
    let mut i: usize = from;
    while i < to
        invariant
            from <= i <= to <= v.len(),
            r@ == v@.subrange(from as int, i as int),
        decreases to - i,
    {
        r.push(v[i].clone());
        assert(r@ =~= v@.subrange(from as int, i + 1));
        i = i + 1;
    }
    r
}

impl History {
    /// The four lines of this record.
    pub fn lines(&self) -> (r: Vec<String>)
        ensures
            r@.len() == 4,
            lines_view(r@) == record_view(*self),
    {
        let mut r: Vec<String> = Vec::new();
        r.push(self.log_id.0.clone());
        r.push(self.metadata.file_path.clone());
        r.push(self.metadata.trash_path.clone());
        r.push(String::from_str(SEPARATOR));
        assert(lines_view(r@) =~= record_view(*self));
        r
    }

    /// Appends the record to the log.
    pub fn write(history: &History, log: &mut Vec<String>)
        ensures
            lines_view(final(log)@) == lines_view(old(log)@) + record_view(*history),
    {
        let rec = history.lines();
        let mut i: usize = 0;
        while i < rec.len()
            invariant
                i <= rec.len(),
                rec.len() == 4,
                lines_view(rec@) == record_view(*history),
                log@ == old(log)@ + rec@.subrange(0, i as int),
            decreases rec.len() - i,
        {
            log.push(rec[i].clone());
            assert(log@ =~= old(log)@ + rec@.subrange(0, i + 1));
            i = i + 1;
        }
        assert(rec@.subrange(0, 4) =~= rec@);
        assert(lines_view(log@) =~= lines_view(old(log)@) + lines_view(rec@));
    }

    /// Takes the newest record off the log. On success returns the record
    /// and the lines to write back: the rest of the log, newest lines kept
    /// up to `MAX_LOG_LINES`.
    pub fn take_last(log: &Vec<String>) -> (r: Result<(History, Vec<String>), RevertError>)
        ensures
            match r {
                Ok((h, rest)) => {
                    &&& ends_with_record(lines_view(log@))
                    &&& record_view(h) == last_record_view(lines_view(log@))
                    &&& lines_view(rest@) == after_revert(lines_view(log@))
                },
                Err(e) => {
                    &&& !ends_with_record(lines_view(log@))
                    &&& (e == RevertError::EmptyLog <==> log@.len() == 0)
                },
            },
    {
        let n = log.len();
        if n == 0 {
            return Err(RevertError::EmptyLog);
        }
        if n < 4 {
            return Err(RevertError::Malformed);
        }
        let sep = String::from_str(SEPARATOR);
        if log[n - 1] != sep {
            assert(lines_view(log@).last() != SEPARATOR@);
            return Err(RevertError::Malformed);
        }
        let h = History {
            log_id: LogId(log[n - 4].clone()),
            metadata: TrashMeta {
                file_path: log[n - 3].clone(),
                trash_path: log[n - 2].clone(),
            },
        };
        let keep_from: usize = if n - 4 > MAX_LOG_LINES {
            n - 4 - MAX_LOG_LINES
        } else {
            0
        };
        let rest = copy_lines(log, keep_from, n - 4);
        assert(record_view(h) =~= last_record_view(lines_view(log@)));
        assert(lines_view(rest@) =~= after_revert(lines_view(log@)));
        Ok((h, rest))
    }

    /// Decides the revert of a record from what its two paths hold now. A
    /// record whose trashed copy is gone is dropped whatever the original
    /// path holds.
    pub fn revert_step(trash_copy_exists: bool, original_free: bool) -> (r: RevertStep)
        ensures
            !trash_copy_exists ==> r == RevertStep::TrashCopyMissing,
            trash_copy_exists && original_free ==> r == RevertStep::MoveBack,
            trash_copy_exists && !original_free ==> r == RevertStep::OriginalOccupied,
    {
        if !trash_copy_exists {
            RevertStep::TrashCopyMissing
        } else if original_free {
            RevertStep::MoveBack
        } else {
            RevertStep::OriginalOccupied
        }
    }
}

/// Reverting right after a record was appended gives back exactly that
/// record, and leaves the log as it was before the append.
pub proof fn lemma_revert_after_write(before: Seq<Seq<char>>, h: History)
    requires
        before.len() <= MAX_LOG_LINES,
    ensures
        ends_with_record(before + record_view(h)),
        last_record_view(before + record_view(h)) == record_view(h),
        after_revert(before + record_view(h)) == before,
{
    let all = before + record_view(h);
    assert(all.last() == SEPARATOR@);
    assert(last_record_view(all) =~= record_view(h));
    assert(all.subrange(0, all.len() - 4) =~= before);
}

/// Two records appended one after the other come back from two reverts in
/// the reverse order, and the log is then as it was before both.
pub proof fn lemma_two_reverts(before: Seq<Seq<char>>, first: History, second: History)
    requires
        before.len() + 4 <= MAX_LOG_LINES,
    ensures
        last_record_view(before + record_view(first) + record_view(second)) == record_view(second),
        after_revert(before + record_view(first) + record_view(second)) == before + record_view(first),
        last_record_view(before + record_view(first)) == record_view(first),
        after_revert(before + record_view(first)) == before,
{
    lemma_revert_after_write(before + record_view(first), second);
    lemma_revert_after_write(before, first);
}

/// An empty log has no record to revert.
pub proof fn lemma_empty_log_has_no_record()
    ensures
        !ends_with_record(Seq::<Seq<char>>::empty()),
{
}

} // verus!
