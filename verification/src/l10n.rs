//! # Language Bits.
//!
//! Small helpers for writing lists in English.

use vstd::prelude::*;
use vstd::string::StringExecFns;

verus! {

/// # The character of a decimal digit.
pub open spec fn digit_char(d: int) -> char {
    (d + 48) as char
}

/// # The views of a list of string slices.
pub open spec fn views(set: Seq<&str>) -> Seq<Seq<char>> {
    set.map_values(|s: &str| s@)
}

/// # The first `n` entries, each followed by a comma and a space.
pub open spec fn comma_list(set: Seq<Seq<char>>, n: int) -> Seq<char>
    decreases n,
{
    if n <= 0 { Seq::empty() } else { comma_list(set, n - 1) + set[n - 1] + seq![',', ' '] }
}

/// # A list joined Oxford-style: `a`, `a glue b`, `a, b, glue c`, and so
/// on.
pub open spec fn oxford(set: Seq<Seq<char>>, glue: Seq<char>) -> Seq<char> {
    let n = set.len() as int;
    if n == 0 { Seq::empty() }
    else if n == 1 { set[0] }
    else if n == 2 { set[0] + seq![' '] + glue + seq![' '] + set[1] }
    else { comma_list(set, n - 1) + glue + seq![' '] + set[n - 1] }
}

/// # Oxford Join.
///
/// Separate entries with Oxford-style commas as needed, with `glue` (such
/// as "and" or "or") before the last one.
pub fn oxford_join(set: &[&str], glue: &str) -> (r: String)
    ensures r@ == oxford(views(set@), glue@),
{
    proof {
        reveal_strlit(" ");
        reveal_strlit(", ");
    }
    let n: usize = set.len();
    let ghost v: Seq<Seq<char>> = views(set@);
    if n == 0 {
        return String::new();
    }
    if n == 1 {
        return String::from_str(set[0]);
    }
    if n == 2 {
        let mut out: String = String::from_str(set[0]);
        out.append(" ");
        out.append(glue);
        out.append(" ");
        out.append(set[1]);
        assert(out@ =~= oxford(v, glue@));
        return out;
    }

    // Join all but the last item with trailing commas.
    let mut out: String = String::new();
    let mut i: usize = 0;
    while i < n - 1
        invariant
            n == set@.len(),
            n >= 3,
            i <= n - 1,
            v == views(set@),
            out@ == comma_list(v, i as int),
        decreases n - 1 - i,
    {
        proof { reveal_strlit(", "); }
        assert(v[i as int] == set@[i as int]@);
        out.append(set[i]);
        out.append(", ");
        assert(out@ =~= comma_list(v, i as int + 1));
        i += 1;
    }

    // Add the glue, a space, and the last item.
    out.append(glue);
    out.append(" ");
    out.append(set[n - 1]);
    assert(out@ =~= oxford(v, glue@));
    out
}


/// # The decimal digits of a number, without leading zeros.
pub open spec fn plain_digits(n: nat) -> Seq<char>
    decreases n,
{
    if n < 10 { seq![digit_char(n as int)] } else { plain_digits(n / 10) + seq![digit_char((n % 10) as int)] }
}

/// # Exactly three decimal digits (for `n` below 1,000).
pub open spec fn three_digits(n: nat) -> Seq<char> {
    seq![digit_char((n / 100) as int), digit_char(((n / 10) % 10) as int), digit_char((n % 10) as int)]
}

/// # A number with commas between groups of three digits.
pub open spec fn nice_int(n: nat) -> Seq<char>
    decreases n,
{
    if n < 1000 { plain_digits(n) } else { nice_int(n / 1000) + seq![','] + three_digits(n % 1000) }
}

/// # A decimal digit as a string.
pub fn digit(d: u64) -> (r: &'static str)
    requires d < 10,
    ensures r@ == seq![digit_char(d as int)],
{
    proof {
        reveal_strlit("0");
        reveal_strlit("1");
        reveal_strlit("2");
        reveal_strlit("3");
        reveal_strlit("4");
        reveal_strlit("5");
        reveal_strlit("6");
        reveal_strlit("7");
        reveal_strlit("8");
        reveal_strlit("9");
    }
    match d {
        0 => "0",
        1 => "1",
        2 => "2",
        3 => "3",
        4 => "4",
        5 => "5",
        6 => "6",
        7 => "7",
        8 => "8",
        9 => "9",
        _ => "9",
    }
}

/// # Nice Number.
///
/// A number in decimal, with commas separating groups of three digits.
pub fn nice_number(n: u64) -> (r: String)
    ensures r@ == nice_int(n as nat),
    decreases n,
{
    if n < 1000 {
        let mut out: String = String::new();
        if n >= 100 { out.append(digit(n / 100)); }
        if n >= 10 { out.append(digit((n / 10) % 10)); }
        out.append(digit(n % 10));
        proof {
            reveal_with_fuel(plain_digits, 3);
            assert(n >= 100 ==> (n / 10) / 10 == n / 100 && (n / 10) / 10 < 10);
        }
        assert(out@ =~= plain_digits(n as nat));
        out
    }
    else {
        let mut out: String = nice_number(n / 1000);
        proof { reveal_strlit(","); }
        out.append(",");
        let rest: u64 = n % 1000;
        out.append(digit(rest / 100));
        out.append(digit((rest / 10) % 10));
        out.append(digit(rest % 10));
        assert(out@ =~= nice_int(n as nat));
        out
    }
}

/// # Inflect.
///
/// A count followed by the singular or plural version of a noun, as the
/// count calls for.
pub fn inflect(len: u64, singular: &str, plural: &str) -> (r: String)
    ensures r@ == nice_int(len as nat) + seq![' '] + (if len == 1 { singular@ } else { plural@ }),
{
    proof { reveal_strlit(" "); }
    let mut out: String = nice_number(len);
    out.append(" ");
    out.append(if len == 1 { singular } else { plural });
    out
}

} // verus!
