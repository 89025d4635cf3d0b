//! Small verified helpers over `&str` and `String`.

use vstd::prelude::*;

verus! {

/// Character-by-character string equality. Comparisons of `&str` values in
/// executable code go through this helper, whose result is tied to the views.
pub fn str_eq(a: &str, b: &str) -> (r: bool)
    ensures
        r == (a@ == b@),
{
    let an = a.unicode_len();
    let bn = b.unicode_len();
    if an != bn {
        proof {
            if a@ == b@ {
                assert(a@.len() == b@.len());
            }
        }
        return false;
    }
    let mut i: usize = 0;
    while i < an
        invariant
            an == a@.len(),
            bn == b@.len(),
            an == bn,
            0 <= i <= an,
            forall|k: int| 0 <= k < i ==> a@[k] == b@[k],
        decreases an - i,
    {
        if a.get_char(i) != b.get_char(i) {
            proof {
                if a@ == b@ {
                    assert(a@[i as int] == b@[i as int]);
                }
            }
            return false;
        }
        i += 1;
    }
    proof {
        assert(a@ =~= b@);
    }
    true
}

/// Equality between an optional owned string and a borrowed one.
pub fn opt_str_eq(a: &Option<String>, b: &str) -> (r: bool)
    ensures
        r == (a is Some && a->0@ == b@),
{
    match a {
        Some(s) => str_eq(s.as_str(), b),
        None => false,
    }
}

/// Whether the character is one of the ASCII whitespace characters that
/// surrounding blanks are stripped of.
pub open spec fn is_blank(c: char) -> bool {
    c == ' ' || c == '\t' || c == '\n' || c == '\r'
}

/// Executable test matching [`is_blank`].
pub fn blank_char(c: char) -> (r: bool)
    ensures
        r == is_blank(c),
{
    c == ' ' || c == '\t' || c == '\n' || c == '\r'
}

/// The view of a string after stripping leading and trailing blanks.
pub open spec fn trimmed(s: Seq<char>) -> Seq<char>
    decreases s.len(),
{
    if s.len() == 0 {
        s
    } else if is_blank(s.first()) {
        trimmed(s.drop_first())
    } else if is_blank(s.last()) {
        trimmed(s.drop_last())
    } else {
        s
    }
}

/// Strips leading and trailing blanks from a string slice.
pub fn trim_str<'a>(s: &'a str) -> (r: &'a str)
    ensures
        r@ == trimmed(s@),
        r@.len() <= s@.len(),
{
    let n = s.unicode_len();
    let mut lo: usize = 0;
    let mut hi: usize = n;
    proof {
        assert(s@.subrange(0, n as int) =~= s@);
    }
    while lo < hi && blank_char(s.get_char(lo))
        invariant
            n == s@.len(),
            0 <= lo <= hi <= n,
            trimmed(s@) == trimmed(s@.subrange(lo as int, hi as int)),
            hi == n,
        decreases hi - lo,
    {
        proof {
            lemma_trimmed_drop_first(s@.subrange(lo as int, hi as int));
            assert(s@.subrange(lo as int, hi as int).drop_first() =~= s@.subrange(
                lo as int + 1,
                hi as int,
            ));
        }
        lo += 1;
    }
    while lo < hi && blank_char(s.get_char(hi - 1))
        invariant
            n == s@.len(),
            0 <= lo <= hi <= n,
            trimmed(s@) == trimmed(s@.subrange(lo as int, hi as int)),
            lo < hi ==> !is_blank(s@[lo as int]),
        decreases hi - lo,
    {
        proof {
            lemma_trimmed_drop_last(s@.subrange(lo as int, hi as int));
            assert(s@.subrange(lo as int, hi as int).drop_last() =~= s@.subrange(
                lo as int,
                hi as int - 1,
            ));
        }
        hi -= 1;
    }
    let r = s.substring_char(lo, hi);
    proof {
        let sub = s@.subrange(lo as int, hi as int);
        lemma_trimmed_fixed(sub);
    }
    r
}

/// A non-empty sequence whose first character is blank trims like its tail.
proof fn lemma_trimmed_drop_first(s: Seq<char>)
    requires
        s.len() > 0,
        is_blank(s.first()),
    ensures
        trimmed(s) == trimmed(s.drop_first()),
{
}

/// A sequence with a clean head and a blank tail trims like its front part.
proof fn lemma_trimmed_drop_last(s: Seq<char>)
    requires
        s.len() > 0,
        !is_blank(s.first()),
        is_blank(s.last()),
    ensures
        trimmed(s) == trimmed(s.drop_last()),
{
}

/// A sequence with no blank at either end is its own trimming.
proof fn lemma_trimmed_fixed(s: Seq<char>)
    requires
        s.len() > 0 ==> !is_blank(s.first()) && !is_blank(s.last()),
    ensures
        trimmed(s) == s,
{
}

/// Whether `pre` is a prefix of `s`.
pub open spec fn has_prefix(s: Seq<char>, pre: Seq<char>) -> bool {
    pre.len() <= s.len() && s.subrange(0, pre.len() as int) == pre
}

/// Executable prefix test tied to [`has_prefix`].
pub fn starts_with_str(s: &str, pre: &str) -> (r: bool)
    ensures
        r == has_prefix(s@, pre@),
{
    let sn = s.unicode_len();
    let pn = pre.unicode_len();
    if pn > sn {
        return false;
    }
    let head = s.substring_char(0, pn);
    let r = str_eq(head, pre);
    proof {
        assert(head@ == s@.subrange(0, pn as int));
    }
    r
}

/// Whether `suf` is a suffix of `s`.
pub open spec fn has_suffix(s: Seq<char>, suf: Seq<char>) -> bool {
    suf.len() <= s.len() && s.subrange(s.len() - suf.len(), s.len() as int) == suf
}

/// Executable suffix test tied to [`has_suffix`].
pub fn ends_with_str(s: &str, suf: &str) -> (r: bool)
    ensures
        r == has_suffix(s@, suf@),
{
    let sn = s.unicode_len();
    let kn = suf.unicode_len();
    if kn > sn {
        return false;
    }
    let tail = s.substring_char(sn - kn, sn);
    str_eq(tail, suf)
}


/// Trimming leaves no blank at either end.
pub proof fn lemma_trimmed_no_blank_ends(s: Seq<char>)
    ensures
        trimmed(s).len() > 0 ==> !is_blank(trimmed(s).first()) && !is_blank(trimmed(s).last()),
    decreases s.len(),
{
    if s.len() > 0 {
        if is_blank(s.first()) {
            lemma_trimmed_no_blank_ends(s.drop_first());
        } else if is_blank(s.last()) {
            lemma_trimmed_no_blank_ends(s.drop_last());
        }
    }
}

/// Trimming is idempotent.
pub proof fn lemma_trimmed_idempotent(s: Seq<char>)
    ensures
        trimmed(trimmed(s)) == trimmed(s),
{
    lemma_trimmed_no_blank_ends(s);
    lemma_trimmed_fixed(trimmed(s));
}

/// Relies on `String::push` from std: appends one character.
#[verifier::external_body]
pub fn string_push_char(s: &mut String, c: char)
    ensures
        final(s)@ == old(s)@.push(c),
{
    s.push(c);
}

} // verus!
