//! Verified path-string arithmetic: parent directories, extensions, and the
//! timestamped backup name a save derives before it overwrites a file.
//!
//! Paths are plain strings. The parent of a path is everything before its
//! final `/` (`/` itself when the only separator is leading, and the empty
//! string — the current directory — when there is none); the empty path and
//! the bare root have no parent. A file name has an extension when a `.`
//! occurs after its first character.

use vstd::prelude::*;

verus! {

/// Index of the last occurrence of `c` in `s`, or `-1` when absent.
pub open spec fn last_index_of(s: Seq<char>, c: char) -> int
    decreases s.len(),
{
    if s.len() == 0 {
        -1
    } else if s[s.len() - 1] == c {
        s.len() - 1
    } else {
        last_index_of(s.drop_last(), c)
    }
}

/// Characterization: scanning finds exactly `last_index_of`.
pub proof fn lemma_last_index_of_unique(s: Seq<char>, c: char, k: int)
    requires
        0 <= k < s.len(),
        s[k] == c,
        forall|j: int| k < j < s.len() ==> s[j] != c,
    ensures
        last_index_of(s, c) == k,
    decreases s.len(),
{
    if k == s.len() - 1 {
    } else {
        assert(s[s.len() - 1] != c);
        assert(s.drop_last()[k] == s[k]);
        assert(forall|j: int| k < j < s.drop_last().len() ==> s.drop_last()[j] == s[j]);
        lemma_last_index_of_unique(s.drop_last(), c, k);
    }
}

pub proof fn lemma_last_index_of_absent(s: Seq<char>, c: char)
    requires
        forall|j: int| 0 <= j < s.len() ==> s[j] != c,
    ensures
        last_index_of(s, c) == -1,
    decreases s.len(),
{
    if s.len() > 0 {
        assert(forall|j: int| 0 <= j < s.drop_last().len() ==> s.drop_last()[j] == s[j]);
        lemma_last_index_of_absent(s.drop_last(), c);
    }
}

/// The parent directory of `path`, or `None` when it has none.
pub open spec fn spec_parent(path: Seq<char>) -> Option<Seq<char>> {
    if path.len() == 0 {
        None
    } else if path.len() == 1 && path[0] == '/' {
        None
    } else {
        let j = last_index_of(path, '/');
        if j == -1 {
            Some(Seq::empty())
        } else if j == 0 {
            Some(seq!['/'])
        } else {
            Some(path.subrange(0, j))
        }
    }
}

/// Position of the last occurrence of `c` in `s`, scanning the text once.
pub fn find_last(s: &str, c: char) -> (r: Option<usize>)
    ensures
        match r {
            Some(k) => k < s@.len() && s@[k as int] == c && last_index_of(s@, c) == k,
            None => last_index_of(s@, c) == -1,
        },
{
    let len = s.unicode_len();
    let mut last: Option<usize> = None;
    let mut i: usize = 0;
    while i < len
        invariant
            i <= len,
            len == s@.len(),
            match last {
                Some(k) => {
                    &&& k < i
                    &&& s@[k as int] == c
                    &&& forall|j: int| k < j < i ==> s@[j] != c
                },
                None => forall|j: int| 0 <= j < i ==> s@[j] != c,
            },
        decreases len - i,
    {
        if s.get_char(i) == c {
            last = Some(i);
        }
        i = i + 1;
    }
    proof {
        match last {
            Some(k) => lemma_last_index_of_unique(s@, c, k as int),
            None => lemma_last_index_of_absent(s@, c),
        }
    }
    last
}

/// Exec counterpart of [`spec_parent`].
pub fn parent_of(path: &str) -> (r: Option<String>)
    ensures
        match r {
            Some(p) => spec_parent(path@) == Some(p@),
            None => spec_parent(path@) is None,
        },
{
    let len = path.unicode_len();
    if len == 0 {
        return None;
    }
    match find_last(path, '/') {
        None => Some(String::new()),
        Some(k) => {
            if k == 0 {
                if len == 1 {
                    None
                } else {
                    let r = String::from_str(path.substring_char(0, 1));
                    proof {
                        assert(r@ =~= seq!['/']);
                    }
                    Some(r)
                }
            } else {
                Some(String::from_str(path.substring_char(0, k)))
            }
        },
    }
}

/// Whether the file-name component of `path` carries an extension: a `.`
/// strictly after the first character of the name.
pub open spec fn spec_has_extension(path: Seq<char>) -> bool {
    last_index_of(path, '.') > last_index_of(path, '/') + 1
}

/// The decimal digit character for `n < 10`.
pub open spec fn digit_char(n: int) -> char {
    if n == 0 {
        '0'
    } else if n == 1 {
        '1'
    } else if n == 2 {
        '2'
    } else if n == 3 {
        '3'
    } else if n == 4 {
        '4'
    } else if n == 5 {
        '5'
    } else if n == 6 {
        '6'
    } else if n == 7 {
        '7'
    } else if n == 8 {
        '8'
    } else {
        '9'
    }
}

/// The decimal rendering of `n`, most significant digit first.
pub open spec fn spec_decimal(n: nat) -> Seq<char>
    decreases n,
{
    if n < 10 {
        seq![digit_char(n as int)]
    } else {
        spec_decimal(n / 10).push(digit_char((n % 10) as int))
    }
}

/// Appends the single decimal digit `d` to `s`.
fn push_digit(s: &mut String, d: u64)
    requires
        d < 10,
    ensures
        final(s)@ == old(s)@.push(digit_char(d as int)),
{
    proof {
        reveal_strlit("0");
        reveal_strlit("1");
        reveal_strlit("2");
        reveal_strlit("3");
        reveal_strlit("4");
        reveal_strlit("5");
        reveal_strlit("6");
        reveal_strlit("7");
        reveal_strlit("8");
        reveal_strlit("9");
    }
    match d {
        0 => s.append("0"),
        1 => s.append("1"),
        2 => s.append("2"),
        3 => s.append("3"),
        4 => s.append("4"),
        5 => s.append("5"),
        6 => s.append("6"),
        7 => s.append("7"),
        8 => s.append("8"),
        _ => s.append("9"),
    }
    proof {
        assert(s@ =~= old(s)@.push(digit_char(d as int)));
    }
}

/// Renders `n` in decimal.
pub fn decimal_string(n: u64) -> (r: String)
    ensures
        r@ == spec_decimal(n as nat),
    decreases n,
{
    if n < 10 {
        let mut s = String::new();
        push_digit(&mut s, n);
        proof {
            assert(s@ =~= spec_decimal(n as nat));
        }
        s
    } else {
        let mut s = decimal_string(n / 10);
        push_digit(&mut s, n % 10);
        s
    }
}

pub proof fn lemma_decimal_len(n: nat)
    ensures
        spec_decimal(n).len() >= 1,
    decreases n,
{
    if n >= 10 {
        lemma_decimal_len(n / 10);
    }
}

/// The backup name a save derives: the path itself, a `.` (doubled when the
/// file name has no extension, matching how the extension is re-attached),
/// the timestamp in decimal, and `.bak`.
pub open spec fn spec_backup_path(path: Seq<char>, ts: u64) -> Seq<char> {
    let sep: Seq<char> = if spec_has_extension(path) {
        seq!['.']
    } else {
        seq!['.', '.']
    };
    path + sep + spec_decimal(ts as nat) + seq!['.', 'b', 'a', 'k']
}

/// Exec counterpart of [`spec_backup_path`].
pub fn backup_path(path: &str, ts: u64) -> (r: String)
    ensures
        r@ == spec_backup_path(path@, ts),
{
    let last_dot = find_last(path, '.');
    let last_slash = find_last(path, '/');
    let has_ext = match (last_dot, last_slash) {
        (Some(kd), Some(ks)) => kd > ks && kd - ks > 1,
        (Some(kd), None) => kd > 0,
        (None, _) => false,
    };
    proof {
        reveal_strlit(".");
        reveal_strlit("..");
        reveal_strlit(".bak");
        assert(has_ext == spec_has_extension(path@));
    }
    let mut r = String::from_str(path);
    if has_ext {
        r.append(".");
    } else {
        r.append("..");
    }
    let digits = decimal_string(ts);
    r.append(digits.as_str());
    r.append(".bak");
    proof {
        assert(r@ =~= spec_backup_path(path@, ts));
    }
    r
}

/// A backup name is strictly longer than the path it is derived from, so the
/// rename target can never collide with the file being saved.
pub proof fn lemma_backup_path_differs(path: Seq<char>, ts: u64)
    ensures
        spec_backup_path(path, ts) != path,
        spec_backup_path(path, ts).len() > path.len(),
{
    lemma_decimal_len(ts as nat);
    assert(spec_backup_path(path, ts).len() > path.len());
}

} // verus!
