use vstd::prelude::*;
use vstd::string::*;

verus! {

/// Decimal digits of a natural number, most significant first.
pub open spec fn nat_digits(n: nat) -> Seq<char>
    decreases n,
{
    if n < 10 {
        seq![digit_char(n)]
    } else {
        nat_digits(n / 10).push(digit_char(n % 10))
    }
}

pub open spec fn digit_char(d: nat) -> char {
    if d == 0 { '0' }
    else if d == 1 { '1' }
    else if d == 2 { '2' }
    else if d == 3 { '3' }
    else if d == 4 { '4' }
    else if d == 5 { '5' }
    else if d == 6 { '6' }
    else if d == 7 { '7' }
    else if d == 8 { '8' }
    else { '9' }
}

/// The text that `{}` formatting prints for an integer.
pub open spec fn decimal(n: int) -> Seq<char> {
    if n < 0 {
        seq!['-'] + nat_digits((-n) as nat)
    } else {
        nat_digits(n as nat)
    }
}

fn digit_str(d: u64) -> (s: &'static str)
    requires
        d < 10,
    ensures
        s@ == seq![digit_char(d as nat)],
{
    proof {
        reveal_strlit("0");
        reveal_strlit("1");
        reveal_strlit("2");
        reveal_strlit("3");
        reveal_strlit("4");
        reveal_strlit("5");
        reveal_strlit("6");
        reveal_strlit("7");
        reveal_strlit("8");
        reveal_strlit("9");
    }
    if d == 0 { "0" }
    else if d == 1 { "1" }
    else if d == 2 { "2" }
    else if d == 3 { "3" }
    else if d == 4 { "4" }
    else if d == 5 { "5" }
    else if d == 6 { "6" }
    else if d == 7 { "7" }
    else if d == 8 { "8" }
    else { "9" }
}

fn push_nat_digits(out: &mut String, n: u64)
    ensures
        final(out)@ == old(out)@ + nat_digits(n as nat),
    decreases n,
{
    if n < 10 {
        out.append(digit_str(n));
    } else {
        push_nat_digits(out, n / 10);
        out.append(digit_str(n % 10));
    }
}

/// Appends the decimal text of `n` to `out`.
pub fn push_decimal(out: &mut String, n: i64)
    ensures
        final(out)@ == old(out)@ + decimal(n as int),
{
    if n < 0 {
        proof { reveal_strlit("-"); }
        out.append("-");
        let m: u64 = if n == i64::MIN { 9223372036854775808u64 } else { (-n) as u64 };
        push_nat_digits(out, m);
        assert(out@ =~= old(out)@ + decimal(n as int));
    } else {
        push_nat_digits(out, n as u64);
    }
}


/// Decimal text of an integer as a new string.
pub fn decimal_string(n: i64) -> (s: String)
    ensures
        s@ == decimal(n as int),
{
    let mut s = String::new();
    push_decimal(&mut s, n);
    s
}

/// Character-wise equality of two strings.
pub fn str_eq(a: &str, b: &str) -> (r: bool)
    ensures
        r == (a@ == b@),
{
    let n = a.unicode_len();
    let m = b.unicode_len();
    if n != m {
        return false;
    }
    let mut i: usize = 0;
    while i < n
        invariant
            n == a@.len(),
            m == b@.len(),
            n == m,
            i <= n,
            forall|j: int| 0 <= j < i ==> a@[j] == b@[j],
        decreases n - i,
    {
        if a.get_char(i) != b.get_char(i) {
            return false;
        }
        i = i + 1;
    }
    assert(a@ =~= b@);
    true
}

/// ASCII lower-casing of one character; every other character is kept.
pub open spec fn lower_ascii(c: char) -> char {
    if 'A' <= c && c <= 'Z' {
        ((c as u32) + 32) as char
    } else {
        c
    }
}

/// ASCII lower-casing of a text.
pub open spec fn ascii_lowercase(s: Seq<char>) -> Seq<char> {
    s.map_values(|c: char| lower_ascii(c))
}

fn lower_ascii_exec(c: char) -> (r: char)
    ensures
        r == lower_ascii(c),
{
    if 'A' <= c && c <= 'Z' {
        let code: u8 = c as u8;
        let b: u8 = code + 32;
        b as char
    } else {
        c
    }
}

/// Whether `s`, lower-cased, equals `lower` (which is expected to be in lower case).
pub fn lowercase_eq(s: &str, lower: &str) -> (r: bool)
    ensures
        r == (ascii_lowercase(s@) == lower@),
{
    let n = s.unicode_len();
    let m = lower.unicode_len();
    if n != m {
        proof {
            assert(ascii_lowercase(s@).len() == n);
        }
        return false;
    }
    let mut i: usize = 0;
    while i < n
        invariant
            n == s@.len(),
            m == lower@.len(),
            n == m,
            i <= n,
            forall|j: int| 0 <= j < i ==> lower_ascii(s@[j]) == lower@[j],
        decreases n - i,
    {
        if lower_ascii_exec(s.get_char(i)) != lower.get_char(i) {
            proof {
                assert(ascii_lowercase(s@)[i as int] != lower@[i as int]);
            }
            return false;
        }
        i = i + 1;
    }
    assert(ascii_lowercase(s@) =~= lower@);
    true
}


/// The text `a`, then `b`, then `c`.
pub fn concat3(a: &str, b: &str, c: &str) -> (r: String)
    ensures
        r@ == a@ + b@ + c@,
{
    let mut r = String::from_str(a);
    r.append(b);
    r.append(c);
    r
}


/// The text `a`, then `b`.
pub fn concat2(a: &str, b: &str) -> (r: String)
    ensures
        r@ == a@ + b@,
{
    let mut r = String::from_str(a);
    r.append(b);
    r
}

/// The text `prefix`, then the decimal text of `n`, then `suffix`.
pub fn with_decimal(prefix: &str, n: i64, suffix: &str) -> (r: String)
    ensures
        r@ == prefix@ + decimal(n as int) + suffix@,
{
    let mut r = String::from_str(prefix);
    push_decimal(&mut r, n);
    r.append(suffix);
    r
}


/// The decimal text of `n`, then `suffix`.
pub fn decimal_with(n: i64, suffix: &str) -> (r: String)
    ensures
        r@ == decimal(n as int) + suffix@,
{
    let mut r = String::new();
    push_decimal(&mut r, n);
    r.append(suffix);
    assert(r@ =~= decimal(n as int) + suffix@);
    r
}


/// The text `prefix`, then the decimal text of the count `n`, then `suffix`.
pub fn with_count(prefix: &str, n: usize, suffix: &str) -> (r: String)
    ensures
        r@ == prefix@ + decimal(n as int) + suffix@,
{
    let mut r = String::from_str(prefix);
    push_nat_digits(&mut r, n as u64);
    r.append(suffix);
    r
}

/// The decimal text of the count `n`, then `suffix`.
pub fn count_with(n: usize, suffix: &str) -> (r: String)
    ensures
        r@ == decimal(n as int) + suffix@,
{
    let mut r = String::new();
    push_nat_digits(&mut r, n as u64);
    r.append(suffix);
    assert(r@ =~= decimal(n as int) + suffix@);
    r
}

} // verus!
