//! Small string utilities shared by the rest of the library: character-level
//! equality, lowercasing, and decimal rendering of indices.

use vstd::prelude::*;

verus! {

/// Name for the Unicode lowercasing of a character sequence, as computed by
/// `str::to_lowercase`; the result depends on the input characters alone.
pub uninterp spec fn lower_of(s: Seq<char>) -> Seq<char>;

/// Relies on `str::to_lowercase` for Unicode-aware lowercasing.
#[verifier::external_body]
pub fn to_lowercase(s: &str) -> (r: String)
    ensures
        r@ == lower_of(s@),
{
    s.to_lowercase()
}

/// Compares two string slices by their character sequences.
pub fn str_eq(a: &str, b: &str) -> (r: bool)
    ensures
        r == (a@ == b@),
{
    let sa: String = a.to_owned();
    let sb: String = b.to_owned();
    sa == sb
}

/// Relies on `String::push`: appends exactly the given character.
#[verifier::external_body]
pub fn push_char(s: &mut String, c: char)
    ensures
        final(s)@ == old(s)@.push(c),
{
    s.push(c);
}

/// The character for a single decimal digit.
pub open spec fn spec_digit(d: nat) -> char {
    if d == 0 {
        '0'
    } else if d == 1 {
        '1'
    } else if d == 2 {
        '2'
    } else if d == 3 {
        '3'
    } else if d == 4 {
        '4'
    } else if d == 5 {
        '5'
    } else if d == 6 {
        '6'
    } else if d == 7 {
        '7'
    } else if d == 8 {
        '8'
    } else {
        '9'
    }
}

/// The usual decimal rendering of a natural number, most significant digit
/// first, with no leading zeros (except for zero itself).
pub open spec fn spec_decimal(n: nat) -> Seq<char>
    decreases n,
{
    if n < 10 {
        seq![spec_digit(n)]
    } else {
        spec_decimal(n / 10).push(spec_digit(n % 10))
    }
}

fn digit_char(d: usize) -> (c: char)
    requires
        d < 10,
    ensures
        c == spec_digit(d as nat),
{
    if d == 0 {
        '0'
    } else if d == 1 {
        '1'
    } else if d == 2 {
        '2'
    } else if d == 3 {
        '3'
    } else if d == 4 {
        '4'
    } else if d == 5 {
        '5'
    } else if d == 6 {
        '6'
    } else if d == 7 {
        '7'
    } else if d == 8 {
        '8'
    } else {
        '9'
    }
}

/// Renders a number in decimal.
pub fn usize_to_decimal(n: usize) -> (r: String)
    ensures
        r@ == spec_decimal(n as nat),
{
    let mut m = n;
    let mut acc: Vec<char> = Vec::new();
    proof {
        assert(spec_decimal(n as nat) + Seq::<char>::empty() =~= spec_decimal(n as nat));
    }
    loop
        invariant_except_break
            spec_decimal(n as nat) == spec_decimal(m as nat) + acc@,
        ensures
            spec_decimal(n as nat) == acc@,
        decreases m,
    {
        let ghost m0 = m as nat;
        let ghost acc0 = acc@;
        let d = m % 10;
        acc.insert(0, digit_char(d));
        m = m / 10;
        proof {
            if m0 >= 10 {
                assert(spec_decimal(m0) == spec_decimal(m0 / 10).push(spec_digit(m0 % 10)));
                assert(spec_decimal(m as nat).push(spec_digit(m0 % 10)) + acc0 =~= spec_decimal(
                    m as nat,
                ) + acc@);
            } else {
                assert(spec_decimal(m0) == seq![spec_digit(m0)]);
                assert(seq![spec_digit(m0)] + acc0 =~= acc@);
            }
        }
        if m == 0 {
            break;
        }
    }
    let mut r = String::new();
    let mut i: usize = 0;
    proof {
        assert(acc@.subrange(0, 0) =~= Seq::<char>::empty());
    }
    while i < acc.len()
        invariant
            i <= acc.len(),
            r@ == acc@.subrange(0, i as int),
        decreases acc.len() - i,
    {
        push_char(&mut r, acc[i]);
        i = i + 1;
        proof {
            assert(r@ =~= acc@.subrange(0, i as int));
        }
    }
    proof {
        assert(acc@.subrange(0, acc@.len() as int) =~= acc@);
    }
    r
}

} // verus!
