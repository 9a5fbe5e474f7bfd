use vstd::prelude::*;

verus! {

/// The ASCII character of the decimal digit `d`.
pub open spec fn digit_char(d: nat) -> char {
    (48 + d) as char
}

/// The base-ten representation of `n`, most significant digit first, with no
/// leading zeros (zero is written as a single `0`).
pub open spec fn decimal(n: nat) -> Seq<char>
    decreases n,
{
    if n < 10 {
        seq![digit_char(n)]
    } else {
        decimal(n / 10).push(digit_char(n % 10))
    }
}

/// The one-character string of the decimal digit `d`.
fn digit_str(d: u64) -> (s: &'static str)
    requires
        d < 10,
    ensures
        s@ == seq![digit_char(d as nat)],
{
    match d {
        0 => {
            proof { reveal_strlit("0"); }
            "0"
        },
        1 => {
            proof { reveal_strlit("1"); }
            "1"
        },
        2 => {
            proof { reveal_strlit("2"); }
            "2"
        },
        3 => {
            proof { reveal_strlit("3"); }
            "3"
        },
        4 => {
            proof { reveal_strlit("4"); }
            "4"
        },
        5 => {
            proof { reveal_strlit("5"); }
            "5"
        },
        6 => {
            proof { reveal_strlit("6"); }
            "6"
        },
        7 => {
            proof { reveal_strlit("7"); }
            "7"
        },
        8 => {
            proof { reveal_strlit("8"); }
            "8"
        },
        _ => {
            proof { reveal_strlit("9"); }
            "9"
        },
    }
}

/// Appends the decimal representation of `n` to `out`.
pub fn append_decimal(out: &mut String, n: u64)
    ensures
        final(out)@ == old(out)@ + decimal(n as nat),
    decreases n,
{
    if n >= 10 {
        append_decimal(out, n / 10);
    }
    out.append(digit_str(n % 10));
    proof {
        assert(old(out)@ + decimal(n as nat) =~= if n >= 10 {
            old(out)@ + decimal((n / 10) as nat) + seq![digit_char((n % 10) as nat)]
        } else {
            old(out)@ + seq![digit_char((n % 10) as nat)]
        });
    }
}

/// The decimal representation of `n` as a new string.
pub fn decimal_string(n: u64) -> (s: String)
    ensures
        s@ == decimal(n as nat),
{
    let mut s = String::new();
    append_decimal(&mut s, n);
    proof { assert(Seq::<char>::empty() + decimal(n as nat) =~= decimal(n as nat)); }
    s
}

/// Appends one character to `out` (std's `String::push`).
#[verifier::external_body]
pub(crate) fn push_char(out: &mut String, c: char)
    ensures
        final(out)@ == old(out)@.push(c),
{
    out.push(c);
}

/// What std's `char::to_uppercase` yields for `c`: its Unicode upper-case
/// mapping, one or more characters.
pub uninterp spec fn uppercase_of(c: char) -> Seq<char>;

/// The upper-case form of `c` (std's `char::to_uppercase`, collected). For
/// the ASCII letters `a` to `z` it is the matching letter `A` to `Z`; for
/// other characters only the name `uppercase_of` is stated.
#[verifier::external_body]
pub(crate) fn uppercase(c: char) -> (upper: String)
    ensures
        upper@ == uppercase_of(c),
        'a' <= c <= 'z' ==> upper@ == seq![((c as int) - 32) as char],
{
    c.to_uppercase().collect()
}

} // verus!
