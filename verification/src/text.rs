use vstd::prelude::*;

use vstd::string::StringExecFns;

verus! {

broadcast use vstd::string::group_string_axioms;

/// The decimal digit character for one digit value.
pub open spec fn digit_char(d: nat) -> char {
    if d == 0 { '0' }
    else if d == 1 { '1' }
    else if d == 2 { '2' }
    else if d == 3 { '3' }
    else if d == 4 { '4' }
    else if d == 5 { '5' }
    else if d == 6 { '6' }
    else if d == 7 { '7' }
    else if d == 8 { '8' }
    else { '9' }
}

/// The decimal text of a natural number, most significant digit first.
pub open spec fn dec_seq(n: nat) -> Seq<char>
    decreases n,
{
    if n < 10 {
        seq![digit_char(n)]
    } else {
        dec_seq(n / 10).push(digit_char(n % 10))
    }
}

/// Appends the character of one decimal digit.
fn push_digit(s: &mut String, d: u64)
    requires
        d < 10,
    ensures
        final(s)@ == old(s)@ + seq![digit_char(d as nat)],
{
    if d == 0 {
        proof { reveal_strlit("0"); }
        s.append("0");
        proof { assert(old(s)@ + "0"@ =~= old(s)@ + seq![digit_char(d as nat)]); }
    } else if d == 1 {
        proof { reveal_strlit("1"); }
        s.append("1");
        proof { assert(old(s)@ + "1"@ =~= old(s)@ + seq![digit_char(d as nat)]); }
    } else if d == 2 {
        proof { reveal_strlit("2"); }
        s.append("2");
        proof { assert(old(s)@ + "2"@ =~= old(s)@ + seq![digit_char(d as nat)]); }
    } else if d == 3 {
        proof { reveal_strlit("3"); }
        s.append("3");
        proof { assert(old(s)@ + "3"@ =~= old(s)@ + seq![digit_char(d as nat)]); }
    } else if d == 4 {
        proof { reveal_strlit("4"); }
        s.append("4");
        proof { assert(old(s)@ + "4"@ =~= old(s)@ + seq![digit_char(d as nat)]); }
    } else if d == 5 {
        proof { reveal_strlit("5"); }
        s.append("5");
        proof { assert(old(s)@ + "5"@ =~= old(s)@ + seq![digit_char(d as nat)]); }
    } else if d == 6 {
        proof { reveal_strlit("6"); }
        s.append("6");
        proof { assert(old(s)@ + "6"@ =~= old(s)@ + seq![digit_char(d as nat)]); }
    } else if d == 7 {
        proof { reveal_strlit("7"); }
        s.append("7");
        proof { assert(old(s)@ + "7"@ =~= old(s)@ + seq![digit_char(d as nat)]); }
    } else if d == 8 {
        proof { reveal_strlit("8"); }
        s.append("8");
        proof { assert(old(s)@ + "8"@ =~= old(s)@ + seq![digit_char(d as nat)]); }
    } else {
        proof { reveal_strlit("9"); }
        s.append("9");
        proof { assert(old(s)@ + "9"@ =~= old(s)@ + seq![digit_char(d as nat)]); }
    }
}

/// The decimal text of a number, as `Display` would print it.
pub fn decimal_string(n: u64) -> (r: String)
    ensures
        r@ == dec_seq(n as nat),
    decreases n,
{
    if n < 10 {
        let mut s = String::new();
        push_digit(&mut s, n);
        proof { assert(Seq::<char>::empty() + seq![digit_char(n as nat)] =~= dec_seq(n as nat)); }
        s
    } else {
        let mut s = decimal_string(n / 10);
        push_digit(&mut s, n % 10);
        proof {
            assert(dec_seq((n / 10) as nat) + seq![digit_char((n % 10) as nat)]
                =~= dec_seq(n as nat));
        }
        s
    }
}

} // verus!
