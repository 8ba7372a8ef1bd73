//! Text rules for local content: post title validity and the slur filter.

use vstd::prelude::*;

use vstd::string::StrSliceExecFns;

verus! {

/// The whitespace characters the title rule recognizes.
pub open spec fn is_space(c: char) -> bool {
    c == ' ' || c == '\t' || c == '\r' || c == '\n'
}

fn is_space_char(c: char) -> (r: bool)
    ensures
        r == is_space(c),
{
    c == ' ' || c == '\t' || c == '\r' || c == '\n'
}

/// A post title is valid when it holds at least three consecutive
/// non-whitespace characters.
pub open spec fn valid_post_title(s: Seq<char>) -> bool {
    exists|i: int|
        0 <= i && i + 3 <= s.len() && !is_space(#[trigger] s[i]) && !is_space(s[i + 1])
            && !is_space(s[i + 2])
}

/// Whether a post title is valid.
pub fn is_valid_post_title(title: &String) -> (r: bool)
    ensures
        r == valid_post_title(title@),
{
    let s = title.as_str();
    let n = s.unicode_len();
    if n < 3 {
        return false;
    }
    let mut i: usize = 0;
    while i < n - 2
        invariant
            n == s@.len(),
            s@ == title@,
            3 <= n,
            i <= n - 2,
            forall|j: int|
                0 <= j < i ==> is_space(#[trigger] s@[j]) || is_space(s@[j + 1]) || is_space(
                    s@[j + 2],
                ),
        decreases n - i,
    {
        if !is_space_char(s.get_char(i)) && !is_space_char(s.get_char(i + 1)) && !is_space_char(
            s.get_char(i + 2),
        ) {
            proof {
                assert(!is_space(title@[i as int]) && !is_space(title@[i as int + 1]) && !is_space(
                    title@[i as int + 2],
                ));
            }
            return true;
        }
        i = i + 1;
    }
    proof {
        if valid_post_title(title@) {
            let j = choose|j: int|
                0 <= j && j + 3 <= title@.len() && !is_space(#[trigger] title@[j]) && !is_space(
                    title@[j + 1],
                ) && !is_space(title@[j + 2]);
            assert(j < i);
        }
    }
    false
}

/// The pattern `p` occurs in `s` starting at position `i`.
pub open spec fn matches_at(s: Seq<char>, p: Seq<char>, i: int) -> bool {
    0 <= i && i + p.len() <= s.len() && (forall|k: int| 0 <= k < p.len() ==> s[i + k] == p[k])
}

/// The pattern `p` occurs somewhere in `s`.
pub open spec fn contains_pattern(s: Seq<char>, p: Seq<char>) -> bool {
    exists|i: int| matches_at(s, p, i)
}

fn pattern_at(s: &str, p: &str, i: usize) -> (r: bool)
    requires
        i + p@.len() <= s@.len(),
    ensures
        r == matches_at(s@, p@, i as int),
{
    let m = p.unicode_len();
    let sn = s.unicode_len();
    let mut k: usize = 0;
    while k < m
        invariant
            m == p@.len(),
            sn == s@.len(),
            i + m <= sn,
            k <= m,
            forall|t: int| 0 <= t < k ==> s@[i + t] == p@[t],
        decreases m - k,
    {
        if s.get_char(i + k) != p.get_char(k) {
            assert(!matches_at(s@, p@, i as int));
            return false;
        }
        k = k + 1;
    }
    true
}

fn find_pattern(s: &str, p: &str) -> (r: bool)
    ensures
        r == contains_pattern(s@, p@),
{
    let n = s.unicode_len();
    let m = p.unicode_len();
    if m > n {
        proof {
            if contains_pattern(s@, p@) {
                let i = choose|i: int| matches_at(s@, p@, i);
                assert(false);
            }
        }
        return false;
    }
    let mut i: usize = 0;
    while i <= n - m
        invariant
            n == s@.len(),
            m == p@.len(),
            m <= n,
            i <= n - m + 1,
            forall|j: int| 0 <= j < i ==> !matches_at(s@, p@, j),
        decreases n - i,
    {
        if pattern_at(s, p, i) {
            return true;
        }
        i = i + 1;
    }
    proof {
        if contains_pattern(s@, p@) {
            let j = choose|j: int| matches_at(s@, p@, j);
            assert(j < i);
        }
    }
    false
}

/// Some word of the slur list occurs in `s`.
pub open spec fn spec_has_slur(s: Seq<char>, slurs: Seq<String>) -> bool {
    exists|k: int| 0 <= k < slurs.len() && contains_pattern(s, slurs[k]@)
}

/// Whether the text carries a word of the slur list.
pub fn has_slur(s: &String, slurs: &Vec<String>) -> (r: bool)
    ensures
        r == spec_has_slur(s@, slurs@),
{
    let mut k: usize = 0;
    while k < slurs.len()
        invariant
            k <= slurs@.len(),
            forall|t: int| 0 <= t < k ==> !contains_pattern(s@, slurs@[t]@),
        decreases slurs@.len() - k,
    {
        if find_pattern(s.as_str(), slurs[k].as_str()) {
            return true;
        }
        k = k + 1;
    }
    false
}

/// Position `i` of `s` lies inside some occurrence of some slur.
pub open spec fn covered(s: Seq<char>, slurs: Seq<String>, i: int) -> bool {
    exists|k: int, j: int|
        0 <= k < slurs.len() && matches_at(s, slurs[k]@, j) && j <= i < j + slurs[k]@.len()
}

/// The text with every character of every slur occurrence masked out.
pub open spec fn censored(s: Seq<char>, slurs: Seq<String>) -> Seq<char> {
    Seq::new(s.len(), |i: int| if covered(s, slurs, i) { '*' } else { s[i] })
}

fn covered_at(s: &str, slurs: &Vec<String>, i: usize) -> (r: bool)
    requires
        i < s@.len(),
    ensures
        r == covered(s@, slurs@, i as int),
{
    let n = s.unicode_len();
    let mut k: usize = 0;
    while k < slurs.len()
        invariant
            n == s@.len(),
            i < n,
            k <= slurs@.len(),
            forall|t: int, j: int|
                0 <= t < k ==> !(matches_at(s@, slurs@[t]@, j) && j <= i < j + slurs@[t]@.len()),
        decreases slurs@.len() - k,
    {
        let m = slurs[k].unicode_len();
        let mut j: usize = 0;
        while j <= i
            invariant
                n == s@.len(),
                i < n,
                k < slurs@.len(),
                m == slurs@[k as int]@.len(),
                j <= i + 1,
                forall|t: int|
                    0 <= t < j ==> !(matches_at(s@, slurs@[k as int]@, t) && t <= i < t
                        + slurs@[k as int]@.len()),
            decreases i + 1 - j,
        {
            if m <= n - j && j + m > i && pattern_at(s, slurs[k].as_str(), j) {
                return true;
            }
            j = j + 1;
        }
        proof {
            assert forall|t: int| !(matches_at(s@, slurs@[k as int]@, t) && t <= i < t
                + slurs@[k as int]@.len()) by {
                if matches_at(s@, slurs@[k as int]@, t) && t <= i {
                    assert(0 <= t < j);
                }
            }
        }
        k = k + 1;
    }
    proof {
        if covered(s@, slurs@, i as int) {
            let (k0, j0) = choose|k0: int, j0: int|
                0 <= k0 < slurs@.len() && matches_at(s@, slurs@[k0]@, j0) && j0 <= i < j0
                    + slurs@[k0]@.len();
            assert(false);
        }
    }
    false
}

/// Relies on std's `String::push`: appends exactly the given character.
#[verifier::external_body]
fn push_char(s: &mut String, c: char)
    ensures
        final(s)@ == old(s)@.push(c),
{
    s.push(c);
}

/// Mask every character of every slur occurrence in the text.
pub fn remove_slurs(s: &String, slurs: &Vec<String>) -> (r: String)
    ensures
        r@ == censored(s@, slurs@),
{
    let src = s.as_str();
    let n = src.unicode_len();
    let mut out = String::new();
    let mut i: usize = 0;
    while i < n
        invariant
            n == s@.len(),
            src@ == s@,
            i <= n,
            out@ == censored(s@, slurs@).subrange(0, i as int),
        decreases n - i,
    {
        if covered_at(src, slurs, i) {
            push_char(&mut out, '*');
        } else {
            push_char(&mut out, src.get_char(i));
        }
        assert(out@ =~= censored(s@, slurs@).subrange(0, i + 1 as int));
        i = i + 1;
    }
    assert(out@ =~= censored(s@, slurs@));
    out
}

} // verus!
