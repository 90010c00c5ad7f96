use vstd::prelude::*;

verus! {

/// The decimal digit character for a value below ten.
pub open spec fn digit_char(d: nat) -> char {
    if d == 0 {
        '0'
    } else if d == 1 {
        '1'
    } else if d == 2 {
        '2'
    } else if d == 3 {
        '3'
    } else if d == 4 {
        '4'
    } else if d == 5 {
        '5'
    } else if d == 6 {
        '6'
    } else if d == 7 {
        '7'
    } else if d == 8 {
        '8'
    } else {
        '9'
    }
}

/// Decimal digits of `n`, most significant first, with no leading zeros
/// (a single zero when `n` is zero).
pub open spec fn dec_digits(n: nat) -> Seq<char>
    decreases n,
{
    if n < 10 {
        seq![digit_char(n)]
    } else {
        dec_digits(n / 10) + seq![digit_char(n % 10)]
    }
}

/// Zero-pad a digit string on the left to at least two characters.
pub open spec fn pad2(s: Seq<char>) -> Seq<char> {
    if s.len() >= 2 {
        s
    } else {
        seq!['0'] + s
    }
}

/// `MM:SS.CC` for a duration given in milliseconds: whole minutes, seconds
/// within the minute, and centiseconds truncated from the milliseconds.
/// Each field is zero-padded to at least two digits; minutes are never
/// truncated.
pub open spec fn spec_format_duration(ms: nat) -> Seq<char> {
    pad2(dec_digits(ms / 60000)) + seq![':'] + pad2(dec_digits((ms / 1000) % 60)) + seq!['.']
        + pad2(dec_digits((ms % 1000) / 10))
}

pub proof fn lemma_dec_digits_len(n: nat)
    ensures
        dec_digits(n).len() >= 1,
        n >= 10 ==> dec_digits(n).len() >= 2,
        n < 100 ==> dec_digits(n).len() <= 2,
    decreases n,
{
    if n >= 10 {
        lemma_dec_digits_len(n / 10);
    }
}

/// The seconds field always stays below sixty and the centisecond field below
/// one hundred — truncation never rounds a field up past its radix — so the
/// rendering is exactly eight characters whenever the minutes fit in two
/// digits.
pub proof fn lemma_format_duration_fields(ms: nat)
    ensures
        (ms / 1000) % 60 < 60,
        (ms % 1000) / 10 < 100,
        spec_format_duration(ms).len() >= 8,
        ms / 60000 < 100 ==> spec_format_duration(ms).len() == 8,
{
    lemma_dec_digits_len(ms / 60000);
    lemma_dec_digits_len((ms / 1000) % 60);
    lemma_dec_digits_len((ms % 1000) / 10);
}

fn digit_str(d: u64) -> (r: &'static str)
    requires
        d < 10,
    ensures
        r@ == seq![digit_char(d as nat)],
{
    proof {
        reveal_strlit("0");
        reveal_strlit("1");
        reveal_strlit("2");
        reveal_strlit("3");
        reveal_strlit("4");
        reveal_strlit("5");
        reveal_strlit("6");
        reveal_strlit("7");
        reveal_strlit("8");
        reveal_strlit("9");
    }
    let r: &'static str = if d == 0 {
        "0"
    } else if d == 1 {
        "1"
    } else if d == 2 {
        "2"
    } else if d == 3 {
        "3"
    } else if d == 4 {
        "4"
    } else if d == 5 {
        "5"
    } else if d == 6 {
        "6"
    } else if d == 7 {
        "7"
    } else if d == 8 {
        "8"
    } else {
        "9"
    };
    proof {
        assert(r@ =~= seq![digit_char(d as nat)]);
    }
    r
}

/// The decimal representation of `n`, no leading zeros.
pub fn dec_string(n: u64) -> (r: String)
    ensures
        r@ == dec_digits(n as nat),
    decreases n,
{
    if n < 10 {
        let s = digit_str(n).to_owned();
        s
    } else {
        let mut s = dec_string(n / 10);
        s.append(digit_str(n % 10));
        proof {
            assert(s@ =~= dec_digits(n as nat));
        }
        s
    }
}

/// The decimal representation of `n`, zero-padded to at least two digits.
pub fn padded_dec_string(n: u64) -> (r: String)
    ensures
        r@ == pad2(dec_digits(n as nat)),
{
    proof {
        lemma_dec_digits_len(n as nat);
    }
    if n < 10 {
        proof {
            reveal_strlit("0");
        }
        let mut s = String::from_str("0");
        s.append(digit_str(n));
        proof {
            assert(s@ =~= pad2(dec_digits(n as nat)));
        }
        s
    } else {
        dec_string(n)
    }
}

/// Render a duration of `millis` milliseconds as `MM:SS.CC`.
pub fn format_duration(millis: u64) -> (r: String)
    ensures
        r@ == spec_format_duration(millis as nat),
{
    let mins: u64 = millis / 60000;
    let secs: u64 = (millis / 1000) % 60;
    let centis: u64 = (millis % 1000) / 10;
    let mut s = padded_dec_string(mins);
    let sec_part = padded_dec_string(secs);
    let centi_part = padded_dec_string(centis);
    proof {
        reveal_strlit(":");
        reveal_strlit(".");
    }
    s.append(":");
    s.append(sec_part.as_str());
    s.append(".");
    s.append(centi_part.as_str());
    proof {
        assert(s@ =~= spec_format_duration(millis as nat));
    }
    s
}

} // verus!
