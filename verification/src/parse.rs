//! Verified text helpers for the configuration protocol: string equality
//! and prefix tests, splitting on a separator, and parsing a decimal
//! integer with a range check and a fallback default.

use vstd::prelude::*;
use vstd::string::StrSliceExecFns;

verus! {

/// `p` is a prefix of `s`.
pub open spec fn has_prefix(s: Seq<char>, p: Seq<char>) -> bool {
    &&& p.len() <= s.len()
    &&& s.subrange(0, p.len() as int) == p
}

/// Character-for-character string equality.
pub fn str_eq(a: &str, b: &str) -> (r: bool)
    ensures
        r == (a@ == b@),
{
    let an = a.unicode_len();
    let bn = b.unicode_len();
    if an != bn {
        return false;
    }
    let mut i: usize = 0;
    while i < an
        invariant
            i <= an,
            an == a@.len(),
            an == b@.len(),
            forall|k: int| 0 <= k < i ==> a@[k] == b@[k],
        decreases an - i,
    {
        if a.get_char(i) != b.get_char(i) {
            return false;
        }
        i += 1;
    }
    proof {
        assert(a@ =~= b@);
    }
    true
}

/// Whether `s` starts with `p`.
pub fn str_starts_with(s: &str, p: &str) -> (r: bool)
    ensures
        r == has_prefix(s@, p@),
{
    let sn = s.unicode_len();
    let pn = p.unicode_len();
    if pn > sn {
        return false;
    }
    let mut i: usize = 0;
    while i < pn
        invariant
            i <= pn,
            pn <= sn,
            sn == s@.len(),
            pn == p@.len(),
            forall|k: int| 0 <= k < i ==> s@[k] == p@[k],
        decreases pn - i,
    {
        if s.get_char(i) != p.get_char(i) {
            proof {
                assert(s@.subrange(0, p@.len() as int)[i as int] != p@[i as int]);
            }
            return false;
        }
        i += 1;
    }
    proof {
        assert(s@.subrange(0, p@.len() as int) =~= p@);
    }
    true
}

/// The views of a run of character buffers.
pub open spec fn views_of(v: Seq<Vec<char>>) -> Seq<Seq<char>> {
    Seq::new(v.len(), |i: int| v[i]@)
}

/// Splitting on a separator, head first: the text up to the first
/// separator, then the split of what follows it. A text without the
/// separator is one segment; every separator adds one.
pub open spec fn split_spec(s: Seq<char>, sep: char) -> Seq<Seq<char>>
    decreases s.len(),
{
    if s.len() == 0 {
        seq![Seq::<char>::empty()]
    } else if s[0] == sep {
        seq![Seq::<char>::empty()] + split_spec(s.skip(1), sep)
    } else {
        let rest = split_spec(s.skip(1), sep);
        seq![seq![s[0]] + rest[0]] + rest.skip(1)
    }
}

/// A split always yields at least one segment.
pub proof fn lemma_split_nonempty(s: Seq<char>, sep: char)
    ensures
        split_spec(s, sep).len() >= 1,
    decreases s.len(),
{
    if s.len() == 0 {
    } else if s[0] == sep {
    } else {
        lemma_split_nonempty(s.skip(1), sep);
    }
}

/// Split `s` on the separator.
#[verifier::loop_isolation(false)]
pub fn split_str(s: &str, sep: char) -> (r: Vec<Vec<char>>)
    ensures
        views_of(r@) == split_spec(s@, sep),
{
    let n = s.unicode_len();
    let mut out: Vec<Vec<char>> = Vec::new();
    let mut cur: Vec<char> = Vec::new();
    let mut i: usize = 0;
    proof {
        lemma_split_nonempty(s@, sep);
        assert(s@.skip(0) =~= s@);
    }
    while i < n
        invariant
            i <= n,
            n == s@.len(),
            split_spec(s@.skip(i as int), sep).len() >= 1,
            split_spec(s@, sep) =~= views_of(out@)
                + seq![cur@ + split_spec(s@.skip(i as int), sep)[0]]
                + split_spec(s@.skip(i as int), sep).skip(1),
        decreases n - i,
    {
        let ghost pre_rest = split_spec(s@.skip(i as int), sep);
        let c = s.get_char(i);
        proof {
            lemma_split_nonempty(s@.skip(i as int + 1), sep);
            assert(s@.skip(i as int).len() > 0);
            assert(s@.skip(i as int)[0] == s@[i as int]);
            assert(s@.skip(i as int).skip(1) =~= s@.skip(i as int + 1));
        }
        let ghost rest = split_spec(s@.skip(i as int + 1), sep);
        if c == sep {
            proof {
                assert(pre_rest =~~= seq![Seq::<char>::empty()] + rest);
            }
            let ghost out_old = out@;
            let ghost cur_old = cur@;
            out.push(cur);
            cur = Vec::new();
            proof {
                assert(views_of(out@) =~= views_of(out_old) + seq![cur_old]);
                assert(cur_old + pre_rest[0] =~= cur_old);
                assert(cur@ + rest[0] =~= rest[0]);
                assert(pre_rest.skip(1) =~~= rest);
                assert(seq![rest[0]] + rest.skip(1) =~~= rest);
                assert(split_spec(s@, sep) =~~= views_of(out@)
                    + seq![cur@ + rest[0]]
                    + rest.skip(1));
            }
        } else {
            proof {
                assert(pre_rest =~~= seq![seq![s@[i as int]] + rest[0]] + rest.skip(1));
            }
            let ghost cur_old = cur@;
            cur.push(c);
            proof {
                assert(cur@ + rest[0] =~= cur_old + pre_rest[0]);
                assert(pre_rest.skip(1) =~~= rest.skip(1));
                assert(split_spec(s@, sep) =~~= views_of(out@)
                    + seq![cur@ + rest[0]]
                    + rest.skip(1));
            }
        }
        i += 1;
    }
    proof {
        assert(s@.skip(n as int) =~= Seq::<char>::empty());
    }
    out.push(cur);
    proof {
        assert(views_of(out@) =~= split_spec(s@, sep));
    }
    out
}

/// A decimal digit.
pub open spec fn is_digit(c: char) -> bool {
    '0' <= c && c <= '9'
}

/// The numeric value of one digit.
pub open spec fn digit_val(c: char) -> int {
    c as u32 - '0' as u32
}

/// Every character of `s` is a digit.
pub open spec fn all_digits(s: Seq<char>) -> bool {
    forall|i: int| 0 <= i < s.len() ==> is_digit(s[i])
}

/// The value of a run of digits, most significant first.
pub open spec fn digits_val(s: Seq<char>) -> int
    decreases s.len(),
{
    if s.len() == 0 {
        0
    } else {
        digits_val(s.drop_last()) * 10 + digit_val(s.last())
    }
}

/// A run of digits has a non-negative value.
pub proof fn lemma_digits_val_nonneg(s: Seq<char>)
    requires
        all_digits(s),
    ensures
        digits_val(s) >= 0,
    decreases s.len(),
{
    if s.len() > 0 {
        assert(all_digits(s.drop_last()));
        lemma_digits_val_nonneg(s.drop_last());
        assert(digits_val(s.drop_last()) * 10 >= 0) by (nonlinear_arith)
            requires
                digits_val(s.drop_last()) >= 0,
        ;
    }
}

/// `s` is integer text: an optional sign followed by at least one digit.
pub open spec fn int_text_valid(s: Seq<char>) -> bool {
    if s.len() == 0 {
        false
    } else if s[0] == '-' || s[0] == '+' {
        s.len() > 1 && all_digits(s.skip(1))
    } else {
        all_digits(s)
    }
}

/// The signed value of integer text.
pub open spec fn int_text_val(s: Seq<char>) -> int {
    if s.len() > 0 && s[0] == '-' {
        -digits_val(s.skip(1))
    } else if s.len() > 0 && s[0] == '+' {
        digits_val(s.skip(1))
    } else {
        digits_val(s)
    }
}

/// The value of `s` when it is integer text within `[lo, hi]`; otherwise
/// the fallback default.
pub open spec fn parse_clamped(s: Seq<char>, lo: int, hi: int, default: int) -> int {
    if int_text_valid(s) && lo <= int_text_val(s) && int_text_val(s) <= hi {
        int_text_val(s)
    } else {
        default
    }
}

/// Parse `s` as a decimal integer; malformed text or a value outside
/// `[lo, hi]` falls back to `default`.
#[verifier::loop_isolation(false)]
pub fn parse_int_in_range(s: &Vec<char>, lo: i128, hi: i128, default: i128) -> (r: i128)
    requires
        -0xffff_ffff_ffff_ffff <= lo as int <= hi as int <= 0xffff_ffff_ffff_ffff,
        lo as int <= default as int <= hi as int,
    ensures
        r == parse_clamped(s@, lo as int, hi as int, default as int),
        lo <= r <= hi,
{
    let n = s.len();
    if n == 0 {
        return default;
    }
    let c0 = s[0];
    let neg = c0 == '-';
    let start: usize = if c0 == '-' || c0 == '+' {
        1
    } else {
        0
    };
    proof {
        if c0 == '-' || c0 == '+' {
            assert(int_text_valid(s@) == (n > start && all_digits(s@.skip(start as int))));
        } else {
            assert(s@.skip(0) =~= s@);
            assert(int_text_valid(s@) == (n > start && all_digits(s@.skip(start as int))));
        }
    }
    if n == start {
        return default;
    }
    let mut acc: u128 = 0;
    let mut over = false;
    let mut i: usize = start;
    proof {
        assert(s@.subrange(start as int, start as int) =~= Seq::<char>::empty());
    }
    while i < n
        invariant
            start <= i <= n,
            n == s@.len(),
            start <= 1,
            all_digits(s@.subrange(start as int, i as int)),
            !over ==> acc <= 0xffff_ffff_ffff_ffffu128
                && acc as int == digits_val(s@.subrange(start as int, i as int)),
            over ==> digits_val(s@.subrange(start as int, i as int)) > 0xffff_ffff_ffff_ffff,
        decreases n - i,
    {
        let c = s[i];
        if !(c >= '0' && c <= '9') {
            proof {
                assert(!is_digit(s@.skip(start as int)[i - start]));
            }
            return default;
        }
        let ghost pre = s@.subrange(start as int, i as int);
        let ghost post = s@.subrange(start as int, i as int + 1);
        proof {
            assert(post.drop_last() =~= pre);
            assert(post.last() == s@[i as int]);
            assert(all_digits(post));
        }
        let d: u32 = c as u32 - 48;
        if !over {
            let next: u128 = acc * 10 + d as u128;
            if next > 0xffff_ffff_ffff_ffffu128 {
                over = true;
                proof {
                    assert(digits_val(post) == digits_val(pre) * 10 + digit_val(s@[i as int]));
                }
            } else {
                acc = next;
            }
        } else {
            proof {
                lemma_digits_val_nonneg(pre);
                assert(digits_val(pre) * 10 >= digits_val(pre)) by (nonlinear_arith)
                    requires
                        digits_val(pre) >= 0,
                ;
                assert(digit_val(s@[i as int]) >= 0);
            }
        }
        i += 1;
    }
    proof {
        assert(s@.subrange(start as int, n as int) =~= s@.skip(start as int));
        assert(int_text_valid(s@));
    }
    if over {
        proof {
            lemma_digits_val_nonneg(s@.skip(start as int));
        }
        return default;
    }
    let val: i128 = if neg {
        -(acc as i128)
    } else {
        acc as i128
    };
    proof {
        assert(val as int == int_text_val(s@));
    }
    if lo <= val && val <= hi {
        val
    } else {
        default
    }
}

} // verus!
