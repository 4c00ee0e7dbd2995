//! Decimal rendering of counters for the next/rotate slot's label.

use vstd::prelude::*;
use vstd::string::*;

verus! {

/// The character of one decimal digit.
pub open spec fn digit_char(d: nat) -> char
    recommends
        d < 10,
{
    if d == 0 {
        '0'
    } else if d == 1 {
        '1'
    } else if d == 2 {
        '2'
    } else if d == 3 {
        '3'
    } else if d == 4 {
        '4'
    } else if d == 5 {
        '5'
    } else if d == 6 {
        '6'
    } else if d == 7 {
        '7'
    } else if d == 8 {
        '8'
    } else {
        '9'
    }
}

/// The usual decimal rendering of `n`, most significant digit first and
/// without leading zeros (except for `n == 0` itself).
pub open spec fn dec_spec(n: nat) -> Seq<char>
    decreases n,
{
    if n < 10 {
        seq![digit_char(n)]
    } else {
        dec_spec(n / 10).push(digit_char(n % 10))
    }
}

/// The rendering of a digit list that holds the least significant digit
/// first: its digits come out most significant first.
spec fn digits_chars(ds: Seq<usize>) -> Seq<char>
    decreases ds.len(),
{
    if ds.len() == 0 {
        Seq::empty()
    } else {
        digits_chars(ds.drop_first()) + seq![digit_char(ds.first() as nat)]
    }
}

proof fn lemma_digits_chars_push(ds: Seq<usize>, d: usize)
    ensures
        digits_chars(ds.push(d)) == seq![digit_char(d as nat)] + digits_chars(ds),
    decreases ds.len(),
{
    let p = ds.push(d);
    assert(p.first() == if ds.len() == 0 {
        d
    } else {
        ds.first()
    });
    if ds.len() == 0 {
        assert(p.drop_first() =~= ds);
        assert(digits_chars(p) == digits_chars(ds) + seq![digit_char(d as nat)]);
        assert(digits_chars(ds) == Seq::<char>::empty());
        assert(digits_chars(ds) + seq![digit_char(d as nat)] =~= seq![digit_char(d as nat)]
            + digits_chars(ds));
    } else {
        assert(p.drop_first() =~= ds.drop_first().push(d));
        lemma_digits_chars_push(ds.drop_first(), d);
        assert(digits_chars(p) == digits_chars(ds.drop_first().push(d)) + seq![
            digit_char(ds.first() as nat),
        ]);
        assert((seq![digit_char(d as nat)] + digits_chars(ds.drop_first())) + seq![
            digit_char(ds.first() as nat),
        ] =~= seq![digit_char(d as nat)] + (digits_chars(ds.drop_first()) + seq![
            digit_char(ds.first() as nat),
        ]));
        assert(digits_chars(ds) == digits_chars(ds.drop_first()) + seq![
            digit_char(ds.first() as nat),
        ]);
    }
}

/// One decimal digit as a string slice.
fn digit_str(d: usize) -> (r: &'static str)
    requires
        d < 10,
    ensures
        r@ == seq![digit_char(d as nat)],
{
    proof {
        reveal_strlit("0");
        reveal_strlit("1");
        reveal_strlit("2");
        reveal_strlit("3");
        reveal_strlit("4");
        reveal_strlit("5");
        reveal_strlit("6");
        reveal_strlit("7");
        reveal_strlit("8");
        reveal_strlit("9");
    }
    if d == 0 {
        "0"
    } else if d == 1 {
        "1"
    } else if d == 2 {
        "2"
    } else if d == 3 {
        "3"
    } else if d == 4 {
        "4"
    } else if d == 5 {
        "5"
    } else if d == 6 {
        "6"
    } else if d == 7 {
        "7"
    } else if d == 8 {
        "8"
    } else {
        "9"
    }
}

/// Renders `n` in decimal.
pub fn dec(n: usize) -> (r: String)
    ensures
        r@ == dec_spec(n as nat),
{
    let mut digits: Vec<usize> = Vec::new();
    let mut m: usize = n;
    proof {
        assert(dec_spec(n as nat) + digits_chars(digits@) =~= dec_spec(n as nat));
    }
    loop
        invariant_except_break
            dec_spec(n as nat) == dec_spec(m as nat) + digits_chars(digits@),
        invariant
            forall|k: int| 0 <= k < digits@.len() ==> #[trigger] digits@[k] < 10,
        ensures
            dec_spec(n as nat) == digits_chars(digits@),
        decreases m,
    {
        let d = m % 10;
        proof {
            lemma_digits_chars_push(digits@, d);
        }
        let ghost pre = digits@;
        digits.push(d);
        proof {
            if m < 10 {
                assert(dec_spec(m as nat) =~= seq![digit_char(m as nat)]);
                assert(dec_spec(m as nat) + digits_chars(pre) =~= digits_chars(digits@));
            } else {
                assert(dec_spec(m as nat) =~= dec_spec((m / 10) as nat) + seq![
                    digit_char(d as nat),
                ]);
                assert(dec_spec((m / 10) as nat) + seq![digit_char(d as nat)] + digits_chars(
                    pre,
                ) =~= dec_spec((m / 10) as nat) + digits_chars(digits@));
            }
        }
        if m < 10 {
            break ;
        }
        m = m / 10;
    }
    let mut r = String::new();
    let mut j: usize = digits.len();
    proof {
        assert(digits@.skip(j as int) =~= Seq::<usize>::empty());
    }
    while j > 0
        invariant
            j <= digits@.len(),
            forall|k: int| 0 <= k < digits@.len() ==> #[trigger] digits@[k] < 10,
            dec_spec(n as nat) == digits_chars(digits@),
            r@ == digits_chars(digits@.skip(j as int)),
        decreases j,
    {
        j = j - 1;
        r.append(digit_str(digits[j]));
        proof {
            assert(digits@.skip(j as int).drop_first() =~= digits@.skip(j + 1));
            assert(digits_chars(digits@.skip(j as int)) =~= digits_chars(digits@.skip(j + 1))
                + seq![digit_char(digits@[j as int] as nat)]);
        }
    }
    proof {
        assert(digits@.skip(0) =~= digits@);
    }
    r
}

} // verus!
