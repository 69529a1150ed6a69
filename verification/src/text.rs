//! Character-sequence helpers shared by validation messages and renderers.

use vstd::prelude::*;

verus! {

/// ASCII decimal digit for a value below ten.
pub open spec fn digit_char(d: nat) -> char {
    seq!['0', '1', '2', '3', '4', '5', '6', '7', '8', '9'][d as int]
}

/// Shortest decimal representation of a natural number.
pub open spec fn decimal(n: nat) -> Seq<char>
    decreases n,
{
    if n < 10 {
        seq![digit_char(n)]
    } else {
        decimal(n / 10).push(digit_char(n % 10))
    }
}

/// Exactly three decimal digits of a value below one thousand.
pub open spec fn three_digits(m: nat) -> Seq<char> {
    seq![digit_char(m / 100), digit_char((m / 10) % 10), digit_char(m % 10)]
}

/// Decimal representation with `_` between every group of three digits,
/// counted from the right, as written in Rust integer literals.
pub open spec fn grouped_decimal(n: nat) -> Seq<char>
    decreases n,
{
    if n < 1000 {
        decimal(n)
    } else {
        grouped_decimal(n / 1000) + seq!['_'] + three_digits(n % 1000)
    }
}

/// Returns the one-character string holding the decimal digit `d`.
pub fn digit_str(d: u32) -> (r: &'static str)
    requires
        d < 10,
    ensures
        r@ == seq![digit_char(d as nat)],
{
    proof {
        reveal_strlit("0");
        reveal_strlit("1");
        reveal_strlit("2");
        reveal_strlit("3");
        reveal_strlit("4");
        reveal_strlit("5");
        reveal_strlit("6");
        reveal_strlit("7");
        reveal_strlit("8");
        reveal_strlit("9");
    }
    match d {
        0 => "0",
        1 => "1",
        2 => "2",
        3 => "3",
        4 => "4",
        5 => "5",
        6 => "6",
        7 => "7",
        8 => "8",
        _ => "9",
    }
}

/// Appends the shortest decimal representation of `value`.
pub fn push_decimal(out: &mut String, value: u32)
    ensures
        final(out)@ == old(out)@ + decimal(value as nat),
    decreases value,
{
    if value >= 10 {
        push_decimal(out, value / 10);
    }
    out.append(digit_str(value % 10));
    proof {
        assert(decimal(value as nat) =~= if value < 10 {
            seq![digit_char(value as nat)]
        } else {
            decimal((value / 10) as nat).push(digit_char((value % 10) as nat))
        });
    }
}

/// Appends the shortest decimal representation of a count.
pub fn push_decimal_usize(out: &mut String, value: usize)
    ensures
        final(out)@ == old(out)@ + decimal(value as nat),
    decreases value,
{
    if value >= 10 {
        push_decimal_usize(out, value / 10);
    }
    let digit = (value % 10) as u32;
    out.append(digit_str(digit));
    proof {
        assert(decimal(value as nat) =~= if value < 10 {
            seq![digit_char(value as nat)]
        } else {
            decimal((value / 10) as nat).push(digit_char((value % 10) as nat))
        });
    }
}

/// Decimal rendering of `value` as a new string.
pub fn decimal_string(value: u32) -> (r: String)
    ensures
        r@ == decimal(value as nat),
{
    let mut out = String::new();
    push_decimal(&mut out, value);
    proof {
        assert(out@ =~= decimal(value as nat));
    }
    out
}

fn push_three_digits(out: &mut String, m: u32)
    requires
        m < 1000,
    ensures
        final(out)@ == old(out)@ + three_digits(m as nat),
{
    out.append(digit_str(m / 100));
    out.append(digit_str((m / 10) % 10));
    out.append(digit_str(m % 10));
    proof {
        assert(final(out)@ =~= old(out)@ + three_digits(m as nat));
    }
}

/// Appends `value` written with `_` separators between digit groups.
pub fn push_grouped_decimal(out: &mut String, value: u32)
    ensures
        final(out)@ == old(out)@ + grouped_decimal(value as nat),
    decreases value,
{
    if value < 1000 {
        push_decimal(out, value);
    } else {
        push_grouped_decimal(out, value / 1000);
        out.append("_");
        proof {
            reveal_strlit("_");
        }
        push_three_digits(out, value % 1000);
        proof {
            assert(final(out)@ =~= old(out)@ + grouped_decimal(value as nat));
        }
    }
}

/// Character-wise equality of two string slices.
pub fn str_eq(a: &str, b: &str) -> (r: bool)
    ensures
        r == (a@ == b@),
{
    let n = a.unicode_len();
    if n != b.unicode_len() {
        return false;
    }
    let mut i: usize = 0;
    while i < n
        invariant
            n == a@.len(),
            n == b@.len(),
            i <= n,
            forall|j: int| 0 <= j < i ==> a@[j] == b@[j],
        decreases n - i,
    {
        if a.get_char(i) != b.get_char(i) {
            return false;
        }
        i = i + 1;
    }
    proof {
        assert(a@ =~= b@);
    }
    true
}

/// Builds an owned copy of a string slice.
pub fn owned(s: &str) -> (r: String)
    ensures
        r@ == s@,
{
    String::from_str(s)
}

/// Concatenation of two string slices.
pub fn concat2(a: &str, b: &str) -> (r: String)
    ensures
        r@ == a@ + b@,
{
    let mut out = String::from_str(a);
    out.append(b);
    out
}

/// Concatenation of three string slices.
pub fn concat3(a: &str, b: &str, c: &str) -> (r: String)
    ensures
        r@ == a@ + b@ + c@,
{
    let mut out = String::from_str(a);
    out.append(b);
    out.append(c);
    out
}

/// Concatenation of five string slices.
pub fn concat5(a: &str, b: &str, c: &str, d: &str, e: &str) -> (r: String)
    ensures
        r@ == a@ + b@ + c@ + d@ + e@,
{
    let mut out = String::from_str(a);
    out.append(b);
    out.append(c);
    out.append(d);
    out.append(e);
    out
}

/// Concatenation of seven string slices.
pub fn concat7(a: &str, b: &str, c: &str, d: &str, e: &str, f: &str, g: &str) -> (r: String)
    ensures
        r@ == a@ + b@ + c@ + d@ + e@ + f@ + g@,
{
    let mut out = String::from_str(a);
    out.append(b);
    out.append(c);
    out.append(d);
    out.append(e);
    out.append(f);
    out.append(g);
    out
}

/// `a` orders before `b` when they first differ at or after index `i`, or
/// when `a` ends first; this is how Rust orders `str` values.
pub open spec fn str_less_from(a: Seq<char>, b: Seq<char>, i: int) -> bool
    decreases a.len() - i,
{
    if i >= a.len() {
        i < b.len()
    } else if i >= b.len() {
        false
    } else if a[i] != b[i] {
        a[i] < b[i]
    } else {
        str_less_from(a, b, i + 1)
    }
}

/// Strict lexicographic order of strings by character code.
pub open spec fn str_less(a: Seq<char>, b: Seq<char>) -> bool {
    str_less_from(a, b, 0)
}

/// Whether `a` orders strictly before `b`.
pub fn str_lt(a: &str, b: &str) -> (r: bool)
    ensures
        r == str_less(a@, b@),
{
    let na = a.unicode_len();
    let nb = b.unicode_len();
    let mut i: usize = 0;
    while i < na && i < nb
        invariant
            na == a@.len(),
            nb == b@.len(),
            i <= na,
            i <= nb,
            str_less_from(a@, b@, 0) == str_less_from(a@, b@, i as int),
        decreases na - i,
    {
        let ca = a.get_char(i);
        let cb = b.get_char(i);
        if ca != cb {
            return ca < cb;
        }
        i = i + 1;
    }
    na < nb
}

/// The character sequences of a list of string slices.
pub open spec fn strs(v: Seq<&'static str>) -> Seq<Seq<char>> {
    v.map_values(|s: &'static str| s@)
}

/// Whether a list of string slices holds a string equal to `x`.
pub fn contains_str(v: &Vec<&'static str>, x: &str) -> (r: bool)
    ensures
        r == strs(v@).contains(x@),
{
    let mut i: usize = 0;
    while i < v.len()
        invariant
            i <= v@.len(),
            forall|j: int| 0 <= j < i ==> v@[j]@ != x@,
        decreases v@.len() - i,
    {
        if str_eq(v[i], x) {
            proof {
                assert(strs(v@)[i as int] == x@);
            }
            return true;
        }
        i = i + 1;
    }
    proof {
        if strs(v@).contains(x@) {
            let k = choose|k: int| 0 <= k < strs(v@).len() && strs(v@)[k] == x@;
            assert(v@[k]@ == x@);
        }
    }
    false
}

/// Some string occurs twice in `s`.
pub open spec fn has_duplicate(s: Seq<Seq<char>>) -> bool {
    exists|i: int, j: int| 0 <= i < j < s.len() && s[i] == s[j]
}

/// Whether some string occurs twice in a list of string slices.
pub fn has_duplicate_str(v: &Vec<&'static str>) -> (r: bool)
    ensures
        r == has_duplicate(strs(v@)),
{
    let mut i: usize = 0;
    while i < v.len()
        invariant
            i <= v@.len(),
            !has_duplicate(strs(v@).take(i as int)),
        decreases v@.len() - i,
    {
        let mut j: usize = 0;
        while j < i
            invariant
                i < v@.len(),
                j <= i,
                forall|k: int| 0 <= k < j ==> v@[k]@ != v@[i as int]@,
            decreases i - j,
        {
            if str_eq(v[j], v[i]) {
                proof {
                    assert(strs(v@)[j as int] == strs(v@)[i as int]);
                }
                return true;
            }
            j = j + 1;
        }
        proof {
            let t = strs(v@).take(i + 1);
            assert forall|a: int, b: int| 0 <= a < b < t.len() implies t[a] != t[b] by {
                if b < i {
                    assert(strs(v@).take(i as int)[a] == t[a]);
                    assert(strs(v@).take(i as int)[b] == t[b]);
                } else {
                    assert(t[b] == v@[i as int]@);
                    assert(t[a] == v@[a]@);
                }
            }
        }
        i = i + 1;
    }
    proof {
        assert(strs(v@).take(v@.len() as int) =~= strs(v@));
    }
    false
}

/// The least string of `e`, by `str_less`, that does not occur in `a`
/// (the earliest such string among equals).
pub open spec fn least_absent(e: Seq<Seq<char>>, a: Seq<Seq<char>>) -> Option<Seq<char>>
    decreases e.len(),
{
    if e.len() == 0 {
        None
    } else {
        let rest = least_absent(e.drop_last(), a);
        let x = e.last();
        if a.contains(x) {
            rest
        } else {
            match rest {
                None => Some(x),
                Some(m) => if str_less(x, m) {
                    Some(x)
                } else {
                    Some(m)
                },
            }
        }
    }
}

/// The least string of `e` that is absent from `a`, if there is one.
pub fn least_absent_str(e: &Vec<&'static str>, a: &Vec<&'static str>) -> (r: Option<&'static str>)
    ensures
        match (r, least_absent(strs(e@), strs(a@))) {
            (None, None) => true,
            (Some(x), Some(m)) => x@ == m,
            _ => false,
        },
{
    let mut best: Option<&'static str> = None;
    let mut i: usize = 0;
    while i < e.len()
        invariant
            i <= e@.len(),
            match (best, least_absent(strs(e@).take(i as int), strs(a@))) {
                (None, None) => true,
                (Some(x), Some(m)) => x@ == m,
                _ => false,
            },
        decreases e@.len() - i,
    {
        let x = e[i];
        proof {
            assert(strs(e@).take(i + 1).drop_last() =~= strs(e@).take(i as int));
            assert(strs(e@).take(i + 1).last() == x@);
        }
        if !contains_str(a, x) {
            best = match best {
                None => Some(x),
                Some(m) => if str_lt(x, m) {
                    Some(x)
                } else {
                    Some(m)
                },
            };
        }
        i = i + 1;
    }
    proof {
        assert(strs(e@).take(e@.len() as int) =~= strs(e@));
    }
    best
}

/// Whether two lists of string slices hold equal strings in the same order.
pub fn strs_eq(a: &Vec<&'static str>, b: &Vec<&'static str>) -> (r: bool)
    ensures
        r == (strs(a@) == strs(b@)),
{
    if a.len() != b.len() {
        proof {
            assert(strs(a@).len() != strs(b@).len());
        }
        return false;
    }
    let mut i: usize = 0;
    while i < a.len()
        invariant
            a@.len() == b@.len(),
            i <= a@.len(),
            forall|k: int| 0 <= k < i ==> a@[k]@ == b@[k]@,
        decreases a@.len() - i,
    {
        if !str_eq(a[i], b[i]) {
            proof {
                assert(strs(a@)[i as int] != strs(b@)[i as int]);
            }
            return false;
        }
        i = i + 1;
    }
    proof {
        assert(strs(a@) =~= strs(b@));
    }
    true
}

} // verus!
