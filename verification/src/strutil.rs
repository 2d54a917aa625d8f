//! Verified string helpers: equality, prefix tests, locating the last path
//! separator, path joining, and rendering an integer in decimal.
//!
//! All paths handled by this library are ordinary Rust strings; the helpers
//! here give the rest of the crate exact, view-level contracts to build on.

use vstd::prelude::*;

verus! {

/// `p` is a prefix of `s`.
pub open spec fn spec_starts_with(s: Seq<char>, p: Seq<char>) -> bool {
    p.len() <= s.len() && s.subrange(0, p.len() as int) == p
}

/// Index of the last `/` in `s`, if any.
pub open spec fn spec_last_slash(s: Seq<char>) -> Option<int>
    decreases s.len(),
{
    if s.len() == 0 {
        None
    } else if s[s.len() - 1] == '/' {
        Some(s.len() - 1)
    } else {
        spec_last_slash(s.drop_last())
    }
}

/// Joining a base path and a relative component: a single `/` separates the
/// two unless the base is empty or already ends in `/`.
pub open spec fn spec_join(a: Seq<char>, b: Seq<char>) -> Seq<char> {
    if a.len() == 0 {
        b
    } else if a[a.len() - 1] == '/' {
        a + b
    } else {
        a + "/"@ + b
    }
}

/// The character for a single decimal digit.
pub open spec fn spec_digit(d: nat) -> char {
    if d == 0 {
        '0'
    } else if d == 1 {
        '1'
    } else if d == 2 {
        '2'
    } else if d == 3 {
        '3'
    } else if d == 4 {
        '4'
    } else if d == 5 {
        '5'
    } else if d == 6 {
        '6'
    } else if d == 7 {
        '7'
    } else if d == 8 {
        '8'
    } else {
        '9'
    }
}

/// The usual decimal rendering of `n`, without leading zeros (`0` for zero).
pub open spec fn spec_decimal(n: nat) -> Seq<char>
    decreases n,
{
    if n < 10 {
        seq![spec_digit(n)]
    } else {
        spec_decimal(n / 10) + seq![spec_digit(n % 10)]
    }
}

/// Character equality of two strings.
pub fn str_eq(a: &str, b: &str) -> (r: bool)
    ensures
        r == (a@ == b@),
{
    let la = a.unicode_len();
    let lb = b.unicode_len();
    if la != lb {
        return false;
    }
    let mut i: usize = 0;
    while i < la
        invariant
            i <= la,
            la == a@.len(),
            la == b@.len(),
            forall|j: int| 0 <= j < i ==> a@[j] == b@[j],
        decreases la - i,
    {
        if a.get_char(i) != b.get_char(i) {
            return false;
        }
        i = i + 1;
    }
    proof {
        assert(a@ =~= b@);
    }
    true
}

/// Whether `s` starts with `p`, character for character.
pub fn str_starts_with(s: &str, p: &str) -> (r: bool)
    ensures
        r == spec_starts_with(s@, p@),
{
    let ls = s.unicode_len();
    let lp = p.unicode_len();
    if lp > ls {
        return false;
    }
    let mut i: usize = 0;
    while i < lp
        invariant
            i <= lp,
            lp <= ls,
            ls == s@.len(),
            lp == p@.len(),
            forall|j: int| 0 <= j < i ==> s@[j] == p@[j],
        decreases lp - i,
    {
        if s.get_char(i) != p.get_char(i) {
            proof {
                assert(s@.subrange(0, p@.len() as int)[i as int] != p@[i as int]);
            }
            return false;
        }
        i = i + 1;
    }
    proof {
        assert(s@.subrange(0, p@.len() as int) =~= p@);
    }
    true
}

/// Index of the last `/` in `s`, if any.
pub fn rfind_slash(s: &str) -> (r: Option<usize>)
    ensures
        match r {
            Some(i) => i < s@.len() && s@[i as int] == '/' && spec_last_slash(s@) == Some(
                i as int,
            ),
            None => spec_last_slash(s@) is None,
        },
{
    let mut i = s.unicode_len();
    proof {
        assert(s@.subrange(0, s@.len() as int) =~= s@);
    }
    while i > 0
        invariant
            i <= s@.len(),
            spec_last_slash(s@) == spec_last_slash(s@.subrange(0, i as int)),
        decreases i,
    {
        i = i - 1;
        let c = s.get_char(i);
        proof {
            let t = s@.subrange(0, i + 1);
            assert(t[t.len() - 1] == s@[i as int]);
            assert(t.drop_last() =~= s@.subrange(0, i as int));
        }
        if c == '/' {
            return Some(i);
        }
    }
    proof {
        assert(s@.subrange(0, 0) =~= Seq::<char>::empty());
    }
    None
}

/// Join a base path and a relative component with a single `/`.
pub fn join(a: &str, b: &str) -> (r: String)
    ensures
        r@ == spec_join(a@, b@),
{
    let la = a.unicode_len();
    if la == 0 {
        return b.to_owned();
    }
    let mut out = a.to_owned();
    if a.get_char(la - 1) != '/' {
        out.append("/");
    }
    out.append(b);
    out
}

/// The string form of one decimal digit.
fn digit_str(d: u64) -> (r: &'static str)
    requires
        d < 10,
    ensures
        r@ =~= seq![spec_digit(d as nat)],
{
    proof {
        reveal_strlit("0");
        reveal_strlit("1");
        reveal_strlit("2");
        reveal_strlit("3");
        reveal_strlit("4");
        reveal_strlit("5");
        reveal_strlit("6");
        reveal_strlit("7");
        reveal_strlit("8");
        reveal_strlit("9");
    }
    if d == 0 {
        "0"
    } else if d == 1 {
        "1"
    } else if d == 2 {
        "2"
    } else if d == 3 {
        "3"
    } else if d == 4 {
        "4"
    } else if d == 5 {
        "5"
    } else if d == 6 {
        "6"
    } else if d == 7 {
        "7"
    } else if d == 8 {
        "8"
    } else {
        "9"
    }
}

/// The digit characters of `ds` read back to front.
spec fn rev_digit_chars(ds: Seq<u64>) -> Seq<char> {
    Seq::new(ds.len(), |i: int| spec_digit(ds[ds.len() - 1 - i] as nat))
}

/// `spec_decimal(n)` once the digits in `ds` (least significant first) have
/// been peeled off and `m` remains to render.
spec fn spec_decimal_partial(m: nat, ds: Seq<u64>) -> Seq<char> {
    if ds.len() == 0 {
        spec_decimal(m)
    } else if m == 0 {
        rev_digit_chars(ds)
    } else {
        spec_decimal(m) + rev_digit_chars(ds)
    }
}

/// Render `n` in decimal.
pub fn decimal_text(n: u64) -> (r: String)
    ensures
        r@ == spec_decimal(n as nat),
{
    let mut digits: Vec<u64> = Vec::new();
    let mut m: u64 = n;
    loop
        invariant_except_break
            m == 0 ==> digits@.len() == 0,
        invariant
            spec_decimal(n as nat) == spec_decimal_partial(m as nat, digits@),
            forall|j: int| 0 <= j < digits@.len() ==> digits@[j] < 10,
        ensures
            spec_decimal(n as nat) == rev_digit_chars(digits@),
            forall|j: int| 0 <= j < digits@.len() ==> digits@[j] < 10,
        decreases m,
    {
        let d: u64 = m % 10;
        let next: u64 = m / 10;
        proof {
            let ds = digits@;
            let ds2 = ds.push(d);
            assert(rev_digit_chars(ds2) =~= seq![spec_digit(d as nat)] + rev_digit_chars(ds));
            if m >= 10 {
                assert(spec_decimal(m as nat) == spec_decimal((m / 10) as nat) + seq![
                    spec_digit((m % 10) as nat),
                ]);
                assert(spec_decimal_partial(next as nat, ds2) =~= spec_decimal_partial(
                    m as nat,
                    ds,
                ));
            } else {
                assert(spec_decimal(m as nat) == seq![spec_digit(m as nat)]);
                assert(spec_decimal_partial(next as nat, ds2) =~= spec_decimal_partial(
                    m as nat,
                    ds,
                ));
            }
        }
        digits.push(d);
        m = next;
        if m == 0 {
            proof {
                assert(digits@.len() > 0);
            }
            break;
        }
    }
    let mut out = String::new();
    let mut i = digits.len();
    proof {
        assert(out@ =~= rev_digit_chars(digits@).subrange(
            0,
            digits@.len() - i,
        ));
    }
    while i > 0
        invariant
            i <= digits@.len(),
            spec_decimal(n as nat) == rev_digit_chars(digits@),
            forall|j: int| 0 <= j < digits@.len() ==> digits@[j] < 10,
            out@ == rev_digit_chars(digits@).subrange(0, digits@.len() - i),
        decreases i,
    {
        i = i - 1;
        let d = digits[i];
        out.append(digit_str(d));
        proof {
            let ds = digits@;
            assert(rev_digit_chars(ds)[ds.len() - 1 - i] == spec_digit(ds[i as int] as nat));
            assert(out@ =~= rev_digit_chars(ds).subrange(0, ds.len() - i));
        }
    }
    proof {
        assert(rev_digit_chars(digits@).subrange(0, digits@.len() as int) =~= rev_digit_chars(
            digits@,
        ));
    }
    out
}

} // verus!
