//! Character-level text utilities: name normalization and substring search.

use vstd::prelude::*;

verus! {

/// Normalization of a single character: spaces become hyphens and ASCII
/// uppercase letters become lowercase; everything else is unchanged.
pub open spec fn norm_char(c: char) -> char {
    if c == ' ' {
        '-'
    } else if 65 <= c as u32 && c as u32 <= 90 {
        ((c as u32 + 32) as u32) as char
    } else {
        c
    }
}

/// Normalization of a whole name maps `norm_char` over its characters.
pub open spec fn normalize_chars(s: Seq<char>) -> Seq<char> {
    s.map_values(|c: char| norm_char(c))
}

/// Relies on String::push: appends exactly the given character.
#[verifier::external_body]
fn push_char(s: &mut String, c: char)
    ensures
        final(s)@ == old(s)@.push(c),
{
    s.push(c);
}

fn norm_char_exec(c: char) -> (r: char)
    ensures
        r == norm_char(c),
{
    let u: u32 = c as u32;
    if c == ' ' {
        '-'
    } else if 65 <= u && u <= 90 {
        ((u + 32) as u8) as char
    } else {
        c
    }
}

/// Lowercase the ASCII letters of `name` and replace its spaces with hyphens.
pub fn normalize(name: &str) -> (r: String)
    ensures
        r@ == normalize_chars(name@),
{
    let len = name.unicode_len();
    let mut out = String::new();
    let mut i: usize = 0;
    while i < len
        invariant
            i <= len,
            len == name@.len(),
            out@.len() == i,
            forall|j: int| 0 <= j < i ==> out@[j] == norm_char(name@[j]),
        decreases len - i,
    {
        let c = name.get_char(i);
        push_char(&mut out, norm_char_exec(c));
        i += 1;
    }
    proof {
        assert(out@ =~= normalize_chars(name@));
    }
    out
}

/// The pattern `p` occurs in `t` starting at position `i`.
pub open spec fn matches_at(t: Seq<char>, p: Seq<char>, i: int) -> bool {
    0 <= i && i + p.len() <= t.len() && t.subrange(i, i + p.len() as int) == p
}

/// The pattern `p` occurs somewhere in `t`.
pub open spec fn contains_sub(t: Seq<char>, p: Seq<char>) -> bool {
    exists|i: int| matches_at(t, p, i)
}

/// Position of the first occurrence of `p` in `t` at or after `from`,
/// or -1 if there is none.
pub open spec fn find_sub_from(t: Seq<char>, p: Seq<char>, from: int) -> int
    recommends
        0 <= from,
    decreases t.len() - from + 1,
    when 0 <= from
{
    if from + p.len() > t.len() {
        -1
    } else if matches_at(t, p, from) {
        from
    } else {
        find_sub_from(t, p, from + 1)
    }
}

/// A non-negative result of `find_sub_from` is the first match at or after
/// `from`.
pub proof fn lemma_find_sub_from_found(t: Seq<char>, p: Seq<char>, from: int)
    requires
        0 <= from,
        find_sub_from(t, p, from) != -1,
    ensures
        from <= find_sub_from(t, p, from),
        matches_at(t, p, find_sub_from(t, p, from)),
        forall|j: int| from <= j < find_sub_from(t, p, from) ==> !matches_at(t, p, j),
    decreases t.len() - from + 1,
{
    if from + p.len() > t.len() {
    } else if matches_at(t, p, from) {
    } else {
        lemma_find_sub_from_found(t, p, from + 1);
    }
}

/// A result of -1 from `find_sub_from` means no match at or after `from`.
pub proof fn lemma_find_sub_from_none(t: Seq<char>, p: Seq<char>, from: int)
    requires
        0 <= from,
        find_sub_from(t, p, from) == -1,
    ensures
        forall|j: int| from <= j ==> !matches_at(t, p, j),
    decreases t.len() - from + 1,
{
    if from + p.len() > t.len() {
    } else if matches_at(t, p, from) {
    } else {
        lemma_find_sub_from_none(t, p, from + 1);
    }
}

/// An occurrence anywhere in `t` means `find_sub_from(t, p, 0)` finds one.
pub proof fn lemma_contains_iff_found(t: Seq<char>, p: Seq<char>)
    ensures
        contains_sub(t, p) <==> find_sub_from(t, p, 0) != -1,
{
    if find_sub_from(t, p, 0) == -1 {
        lemma_find_sub_from_none(t, p, 0);
        assert(forall|i: int| !matches_at(t, p, i));
    } else {
        lemma_find_sub_from_found(t, p, 0);
    }
}

fn match_at(t: &str, p: &str, i: usize) -> (r: bool)
    requires
        i + p@.len() <= t@.len(),
        t@.len() <= usize::MAX,
    ensures
        r == matches_at(t@, p@, i as int),
{
    let pl = p.unicode_len();
    let mut j: usize = 0;
    while j < pl
        invariant
            j <= pl,
            pl == p@.len(),
            i + pl <= t@.len() <= usize::MAX,
            forall|k: int| 0 <= k < j ==> t@[i + k] == p@[k],
        decreases pl - j,
    {
        if t.get_char(i + j) != p.get_char(j) {
            proof {
                assert(t@.subrange(i as int, i + pl)[j as int] == t@[i + j]);
            }
            return false;
        }
        j += 1;
    }
    proof {
        assert(t@.subrange(i as int, i + pl) =~= p@);
    }
    true
}

/// Position of the first occurrence of `p` in `t` at or after `from`, if any.
pub fn find_sub(t: &str, p: &str, from: usize) -> (r: Option<usize>)
    ensures
        match r {
            Some(i) => find_sub_from(t@, p@, from as int) == i as int,
            None => find_sub_from(t@, p@, from as int) == -1,
        },
{
    let tl = t.unicode_len();
    let pl = p.unicode_len();
    if pl > tl || from > tl - pl {
        return None;
    }
    let last = tl - pl;
    let mut i: usize = from;
    loop
        invariant
            from <= i,
            i <= last,
            tl == t@.len(),
            pl == p@.len(),
            pl <= tl,
            last == tl - pl,
            find_sub_from(t@, p@, from as int) == find_sub_from(t@, p@, i as int),
        decreases last - i,
    {
        if match_at(t, p, i) {
            return Some(i);
        }
        if i == last {
            proof {
                assert(find_sub_from(t@, p@, i as int + 1) == -1);
            }
            return None;
        }
        i += 1;
    }
}

/// Whether two string slices hold the same characters.
pub fn str_eq(a: &str, b: &str) -> (r: bool)
    ensures
        r == (a@ == b@),
{
    let al = a.unicode_len();
    let bl = b.unicode_len();
    if al != bl {
        return false;
    }
    let r = match_at(a, b, 0);
    proof {
        if r {
            assert(a@.subrange(0, b@.len() as int) =~= a@);
        } else {
            if a@ == b@ {
                assert(a@.subrange(0, b@.len() as int) =~= b@);
            }
        }
    }
    r
}

/// Whether `t` contains `p` as a contiguous substring.
pub fn contains_str(t: &str, p: &str) -> (r: bool)
    ensures
        r == contains_sub(t@, p@),
{
    proof {
        lemma_contains_iff_found(t@, p@);
    }
    match find_sub(t, p, 0) {
        Some(_) => true,
        None => false,
    }
}

/// Decimal digit character for a value between 0 and 9.
pub open spec fn dec_digit(d: int) -> char {
    ((48 + d) as u8) as char
}

/// Decimal representation of a non-negative integer, most significant digit
/// first, with no leading zeros (a single '0' for zero).
pub open spec fn dec_str(n: int) -> Seq<char>
    recommends
        0 <= n,
    decreases n,
    when 0 <= n
{
    if n < 10 {
        seq![dec_digit(n)]
    } else {
        dec_str(n / 10).push(dec_digit(n % 10))
    }
}

/// Render an id as its decimal digits.
pub fn u32_to_dec(n: u32) -> (r: String)
    ensures
        r@ == dec_str(n as int),
    decreases n,
{
    if n < 10 {
        let mut s = String::new();
        push_char(&mut s, ((48 + n) as u8) as char);
        proof {
            assert(s@ =~= seq![dec_digit(n as int)]);
        }
        s
    } else {
        let mut s = u32_to_dec(n / 10);
        push_char(&mut s, ((48 + n % 10) as u8) as char);
        s
    }
}

/// A normalized character is a fixed point of `norm_char`.
proof fn lemma_norm_char_idempotent(c: char)
    ensures
        norm_char(norm_char(c)) == norm_char(c),
{
}

/// Normalization is idempotent: applying it twice is the same as applying it
/// once.
pub proof fn lemma_normalize_idempotent(s: Seq<char>)
    ensures
        normalize_chars(normalize_chars(s)) == normalize_chars(s),
{
    assert forall|j: int| 0 <= j < s.len() implies normalize_chars(normalize_chars(s))[j]
        == normalize_chars(s)[j] by {
        lemma_norm_char_idempotent(s[j]);
    }
    assert(normalize_chars(normalize_chars(s)) =~= normalize_chars(s));
}

} // verus!
