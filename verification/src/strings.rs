//! Character-level string utilities shared by the path and marker logic:
//! locating the last occurrence of a character or of a substring, and
//! suffix tests over `Seq<char>` views.

use vstd::prelude::*;

verus! {

/// Position of the last occurrence of `c` in `s`, or -1 when `s` has none.
pub open spec fn last_index_of_char(s: Seq<char>, c: char) -> int
    decreases s.len(),
{
    if s.len() == 0 {
        -1
    } else if s[s.len() - 1] == c {
        s.len() - 1
    } else {
        last_index_of_char(s.drop_last(), c)
    }
}

/// `last_index_of_char` is in range, points at `c`, and nothing after it is `c`.
pub proof fn lemma_last_index_of_char(s: Seq<char>, c: char)
    ensures
        -1 <= last_index_of_char(s, c) < s.len(),
        last_index_of_char(s, c) >= 0 ==> s[last_index_of_char(s, c)] == c,
        forall|j: int| last_index_of_char(s, c) < j < s.len() ==> s[j] != c,
    decreases s.len(),
{
    if s.len() == 0 {
    } else if s[s.len() - 1] == c {
    } else {
        lemma_last_index_of_char(s.drop_last(), c);
        assert forall|j: int| last_index_of_char(s, c) < j < s.len() implies s[j] != c by {
            if j < s.len() - 1 {
                assert(s.drop_last()[j] == s[j]);
            }
        }
    }
}

/// Index of the last occurrence of `c` in `s`, scanning characters from the end.
pub fn rfind_char(s: &str, c: char) -> (r: Option<usize>)
    ensures
        match r {
            Some(i) => i == last_index_of_char(s@, c),
            None => last_index_of_char(s@, c) == -1,
        },
{
    let n: usize = s.unicode_len();
    let mut i: usize = n;
    while i > 0
        invariant
            i <= n,
            n == s@.len(),
            forall|j: int| i <= j < n ==> s@[j] != c,
        decreases i,
    {
        i = i - 1;
        if s.get_char(i) == c {
            proof {
                lemma_last_index_of_char(s@, c);
                let l = last_index_of_char(s@, c);
                if l < i {
                    assert(s@[i as int] != c);
                }
            }
            return Some(i);
        }
    }
    proof {
        lemma_last_index_of_char(s@, c);
        let l = last_index_of_char(s@, c);
        if l >= 0 {
            assert(s@[l] != c);
        }
    }
    None
}

/// The needle `needle` occurs in `s` starting at position `i`.
pub open spec fn occurs_at(s: Seq<char>, needle: Seq<char>, i: int) -> bool {
    0 <= i && i + needle.len() <= s.len() && s.subrange(i, i + needle.len()) == needle
}

/// `s` has an occurrence of `needle` somewhere.
pub open spec fn contains_sub(s: Seq<char>, needle: Seq<char>) -> bool {
    exists|i: int| occurs_at(s, needle, i)
}

/// Whether `needle` occurs in `s` at position `i`, by character comparison.
fn matches_at(s: &str, needle: &str, i: usize) -> (r: bool)
    requires
        i + needle@.len() <= s@.len(),
    ensures
        r == occurs_at(s@, needle@, i as int),
{
    let n: usize = s.unicode_len();
    let m: usize = needle.unicode_len();
    let mut k: usize = 0;
    while k < m
        invariant
            k <= m,
            n == s@.len(),
            m == needle@.len(),
            i + m <= n,
            forall|j: int| 0 <= j < k ==> s@[i + j] == needle@[j],
        decreases m - k,
    {
        if s.get_char(i + k) != needle.get_char(k) {
            proof {
                if occurs_at(s@, needle@, i as int) {
                    assert(s@.subrange(i as int, i + m)[k as int] == needle@[k as int]);
                }
            }
            return false;
        }
        k = k + 1;
    }
    proof {
        assert(s@.subrange(i as int, i + m) =~= needle@);
    }
    true
}

/// Start position of the last occurrence of `needle` in `s`, or -1 when none.
pub open spec fn last_occurrence(s: Seq<char>, needle: Seq<char>) -> int
    decreases s.len(),
{
    if needle.len() > s.len() {
        -1
    } else if occurs_at(s, needle, s.len() - needle.len()) {
        s.len() - needle.len()
    } else if s.len() == 0 {
        -1
    } else {
        last_occurrence(s.drop_last(), needle)
    }
}

/// Occurrences strictly before the end of `s` are occurrences in `s.drop_last()`.
proof fn lemma_occurrence_in_prefix(s: Seq<char>, needle: Seq<char>, i: int)
    requires
        s.len() > 0,
        0 <= i,
        i + needle.len() < s.len(),
    ensures
        occurs_at(s, needle, i) == occurs_at(s.drop_last(), needle, i),
{
    assert(s.drop_last().subrange(i, i + needle.len()) =~= s.subrange(i, i + needle.len()));
}

/// `last_occurrence` is the greatest position where `needle` occurs, or -1.
pub proof fn lemma_last_occurrence(s: Seq<char>, needle: Seq<char>)
    ensures
        -1 <= last_occurrence(s, needle),
        last_occurrence(s, needle) >= 0 ==> occurs_at(s, needle, last_occurrence(s, needle)),
        forall|j: int| last_occurrence(s, needle) < j ==> !occurs_at(s, needle, j),
    decreases s.len(),
{
    if needle.len() > s.len() {
    } else if occurs_at(s, needle, s.len() - needle.len()) {
    } else if s.len() == 0 {
        assert(s.subrange(0, 0) =~= needle);
    } else {
        lemma_last_occurrence(s.drop_last(), needle);
        let l = last_occurrence(s.drop_last(), needle);
        if l >= 0 {
            lemma_occurrence_in_prefix(s, needle, l);
        }
        assert forall|j: int| last_occurrence(s, needle) < j implies !occurs_at(s, needle, j) by {
            if 0 <= j && j + needle.len() < s.len() {
                lemma_occurrence_in_prefix(s, needle, j);
            }
        }
    }
}

/// Start index of the last occurrence of `needle` in `s`, scanning from the end.
/// Mirrors `str::rfind` on a substring pattern, counting in characters.
pub fn rfind_str(s: &str, needle: &str) -> (r: Option<usize>)
    ensures
        match r {
            Some(i) => i == last_occurrence(s@, needle@),
            None => last_occurrence(s@, needle@) == -1,
        },
{
    let n: usize = s.unicode_len();
    let m: usize = needle.unicode_len();
    if m > n {
        proof {
            lemma_last_occurrence(s@, needle@);
        }
        return None;
    }
    let mut i: usize = n - m;
    loop
        invariant
            0 <= i <= n - m,
            n == s@.len(),
            m == needle@.len(),
            forall|j: int| i < j ==> !occurs_at(s@, needle@, j),
        decreases i + 1,
    {
        if matches_at(s, needle, i) {
            proof {
                lemma_last_occurrence(s@, needle@);
                let l = last_occurrence(s@, needle@);
                if l < i {
                    assert(!occurs_at(s@, needle@, i as int));
                }
            }
            return Some(i);
        }
        if i == 0 {
            proof {
                lemma_last_occurrence(s@, needle@);
                let l = last_occurrence(s@, needle@);
                if l >= 0 {
                    assert(occurs_at(s@, needle@, l));
                }
            }
            return None;
        }
        i = i - 1;
    }
}

/// Whether `suffix` is a suffix of `s`, comparing characters exactly.
pub fn str_ends_with(s: &str, suffix: &str) -> (r: bool)
    ensures
        r == suffix@.is_suffix_of(s@),
{
    let n: usize = s.unicode_len();
    let m: usize = suffix.unicode_len();
    if m > n {
        return false;
    }
    let r = matches_at(s, suffix, n - m);
    proof {
        if suffix@.is_suffix_of(s@) {
            assert(occurs_at(s@, suffix@, n - m));
        }
        if occurs_at(s@, suffix@, n - m) {
            assert(suffix@.is_suffix_of(s@));
        }
    }
    r
}

/// A space becomes an underscore; every other character stays itself.
pub open spec fn underscore_char(c: char) -> char {
    if c == ' ' {
        '_'
    } else {
        c
    }
}

/// Copy of `s` with every space replaced by an underscore, as in
/// `str::replace(" ", "_")`.
pub fn replace_spaces(s: &str) -> (r: String)
    ensures
        r@ == s@.map_values(|c: char| underscore_char(c)),
{
    let n: usize = s.unicode_len();
    let mut out: String = String::new();
    let mut i: usize = 0;
    while i < n
        invariant
            i <= n,
            n == s@.len(),
            out@ == s@.take(i as int).map_values(|c: char| underscore_char(c)),
        decreases n - i,
    {
        if s.get_char(i) == ' ' {
            out.append("_");
            proof {
                reveal_strlit("_");
            }
        } else {
            let piece = s.substring_char(i, i + 1);
            out.append(piece);
        }
        proof {
            assert(out@ =~= s@.take(i + 1).map_values(|c: char| underscore_char(c)));
        }
        i = i + 1;
    }
    proof {
        assert(s@.take(n as int) =~= s@);
    }
    out
}

/// `a` and `b` joined by the filesystem separator.
pub fn path_join(a: &str, b: &str) -> (r: String)
    ensures
        r@ == a@ + "/"@ + b@,
{
    a.to_owned().concat("/").concat(b)
}

} // verus!
