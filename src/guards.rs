//! Checks that decide whether an item may be moved to the trash at all.
use vstd::prelude::*;
use vstd::string::*;

verus! {

/// Character `i` of `p` is a separator, or a `.` segment of its own.
pub open spec fn root_char(p: Seq<char>, i: int) -> bool {
    p[i] == '/' || (p[i] == '.' && i > 0 && p[i - 1] == '/' && (i + 1 == p.len() || p[i + 1]
        == '/'))
}

/// The path names the filesystem root: it has a root and no parent, i.e. it
/// is made of separators and single-dot segments only, starting with `/`.
pub open spec fn is_root_spec(p: Seq<char>) -> bool {
    &&& p.len() > 0
    &&& p[0] == '/'
    &&& forall|i: int| 0 <= i < p.len() ==> #[trigger] root_char(p, i)
}

/// Whether `path` is the filesystem root, which is never removed.
pub fn is_root_path(path: &str) -> (r: bool)
    ensures
        r == is_root_spec(path@),
{
    let n = path.unicode_len();
    if n == 0 || path.get_char(0) != '/' {
        return false;
    }
    let mut i: usize = 0;
    while i < n
        invariant
            n == path@.len(),
            i <= n,
            forall|k: int| 0 <= k < i ==> #[trigger] root_char(path@, k),
        decreases n - i,
    {
        let c = path.get_char(i);
        let ok = if c == '/' {
            true
        } else if c == '.' {
            i > 0 && path.get_char(i - 1) == '/' && (i + 1 == n || path.get_char(i + 1) == '/')
        } else {
            false
        };
        if !ok {
            assert(!root_char(path@, i as int));
            return false;
        }
        i = i + 1;
    }
    true
}

/// A whitespace character in the sense of `char::is_whitespace` (the Unicode
/// `White_Space` property), which `str::split_whitespace` splits on.
pub open spec fn is_ws(c: char) -> bool {
    let u = c as u32;
    ||| u == 0x20
    ||| 0x09 <= u <= 0x0D
    ||| u == 0x85
    ||| u == 0xA0
    ||| u == 0x1680
    ||| 0x2000 <= u <= 0x200A
    ||| u == 0x2028
    ||| u == 0x2029
    ||| u == 0x202F
    ||| u == 0x205F
    ||| u == 0x3000
}

/// From `i`, the first index before `end` that is not whitespace (or `end`).
pub open spec fn skip_ws(s: Seq<char>, i: int, end: int) -> int
    decreases end - i,
{
    if i >= end {
        end
    } else if is_ws(s[i]) {
        skip_ws(s, i + 1, end)
    } else {
        i
    }
}

/// From `i`, the first index before `end` that is whitespace (or `end`).
pub open spec fn skip_word(s: Seq<char>, i: int, end: int) -> int
    decreases end - i,
{
    if i >= end {
        end
    } else if !is_ws(s[i]) {
        skip_word(s, i + 1, end)
    } else {
        i
    }
}

/// The index of the newline that ends the line starting at `i`, or the length.
pub open spec fn line_end(s: Seq<char>, i: int) -> int
    decreases s.len() - i,
{
    if i >= s.len() {
        s.len() as int
    } else if s[i] == '\n' {
        i
    } else {
        line_end(s, i + 1)
    }
}

/// The second whitespace-separated field of `s[i..end]` (empty if none).
pub open spec fn second_field(s: Seq<char>, i: int, end: int) -> Seq<char> {
    let b = skip_word(s, skip_ws(s, i, end), end);
    let c = skip_ws(s, b, end);
    s.subrange(c, skip_word(s, c, end))
}

pub open spec fn starts_uid(s: Seq<char>, i: int, end: int) -> bool {
    end - i >= 4 && s.subrange(i, i + 4) == seq!['U', 'i', 'd', ':']
}

/// Scanning the lines from `i`: the first line that starts with `Uid:` has
/// `0` as its second field.
pub open spec fn uid_zero_from(s: Seq<char>, i: int) -> bool
    decreases s.len() - i,
{
    if i < 0 || i >= s.len() {
        false
    } else {
        let e = line_end(s, i);
        if e < i {
            false
        } else if starts_uid(s, i, e) {
            second_field(s, i, e) == seq!['0']
        } else if e >= s.len() {
            false
        } else {
            uid_zero_from(s, e + 1)
        }
    }
}

fn is_ws_char(c: char) -> (r: bool)
    ensures
        r == is_ws(c),
{
    let u = c as u32;
    u == 0x20 || (0x09 <= u && u <= 0x0D) || u == 0x85 || u == 0xA0 || u == 0x1680 || (0x2000
        <= u && u <= 0x200A) || u == 0x2028 || u == 0x2029 || u == 0x202F || u == 0x205F || u
        == 0x3000
}

fn skip_exec(s: &str, i: usize, end: usize, over_ws: bool) -> (r: usize)
    requires
        i <= end <= s@.len(),
    ensures
        i <= r <= end,
        over_ws ==> r == skip_ws(s@, i as int, end as int),
        !over_ws ==> r == skip_word(s@, i as int, end as int),
{
    let mut j: usize = i;
    while j < end && is_ws_char(s.get_char(j)) == over_ws
        invariant
            i <= j <= end <= s@.len(),
            over_ws ==> skip_ws(s@, j as int, end as int) == skip_ws(s@, i as int, end as int),
            !over_ws ==> skip_word(s@, j as int, end as int) == skip_word(
                s@,
                i as int,
                end as int,
            ),
        decreases end - j,
    {
        j = j + 1;
    }
    j
}

fn line_end_exec(s: &str, i: usize) -> (r: usize)
    requires
        i <= s@.len(),
    ensures
        i <= r <= s@.len(),
        r == line_end(s@, i as int),
{
    let n = s.unicode_len();
    let mut j: usize = i;
    while j < n && s.get_char(j) != '\n'
        invariant
            n == s@.len(),
            i <= j <= n,
            line_end(s@, j as int) == line_end(s@, i as int),
        decreases n - j,
    {
        j = j + 1;
    }
    j
}

/// Whether a process status text (as in `/proc/self/status`) shows user id
/// 0: the first line starting with `Uid:` has `0` as its second field.
pub fn is_privileged_status(status: &str) -> (r: bool)
    ensures
        r == uid_zero_from(status@, 0),
{
    let n = status.unicode_len();
    let mut i: usize = 0;
    while i < n
        invariant
            n == status@.len(),
            i <= n,
            uid_zero_from(status@, i as int) == uid_zero_from(status@, 0),
        decreases n - i,
    {
        let e = line_end_exec(status, i);
        if e - i >= 4 && status.get_char(i) == 'U' && status.get_char(i + 1) == 'i'
            && status.get_char(i + 2) == 'd' && status.get_char(i + 3) == ':' {
            assert(status@.subrange(i as int, i + 4) =~= seq!['U', 'i', 'd', ':']);
            let a = skip_exec(status, i, e, true);
            let b = skip_exec(status, a, e, false);
            let c = skip_exec(status, b, e, true);
            let d = skip_exec(status, c, e, false);
            let zero = d - c == 1 && status.get_char(c) == '0';
            assert(zero ==> status@.subrange(c as int, d as int) =~= seq!['0']);
            assert(status@.subrange(c as int, d as int) == seq!['0'] ==> zero) by {
                let f = status@.subrange(c as int, d as int);
                if f == seq!['0'] {
                    assert(f.len() == 1);
                    assert(f[0] == '0');
                    assert(f[0] == status@[c as int]);
                }
            }
            return zero;
        }
        assert(!starts_uid(status@, i as int, e as int)) by {
            if e - i >= 4 {
                let w = status@.subrange(i as int, i + 4);
                assert(w[0] == status@[i as int] && w[1] == status@[i + 1] && w[2]
                    == status@[i + 2] && w[3] == status@[i + 3]);
            }
        }
        if e >= n {
            return false;
        }
        i = e + 1;
    }
    false
}

/// Whether the item lies on another device than the trash directory.
pub fn crosses_devices(item_device: u64, trash_device: u64) -> (r: bool)
    ensures
        r == (item_device != trash_device),
{
    item_device != trash_device
}

} // verus!
