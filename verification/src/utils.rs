use vstd::prelude::*;

verus! {

/// Relies on `String::push`: appends the given character to the end of the
/// string.
pub assume_specification[ String::push ](s: &mut String, ch: char)
    ensures
        final(s)@ == old(s)@.push(ch),
;

/// The decimal digit character for `d`.
pub open spec fn spec_digit_char(d: int) -> char {
    if d == 0 {
        '0'
    } else if d == 1 {
        '1'
    } else if d == 2 {
        '2'
    } else if d == 3 {
        '3'
    } else if d == 4 {
        '4'
    } else if d == 5 {
        '5'
    } else if d == 6 {
        '6'
    } else if d == 7 {
        '7'
    } else if d == 8 {
        '8'
    } else {
        '9'
    }
}

/// The decimal digits of `n`, most significant first, without leading
/// zeros (a single `'0'` for zero itself).
pub open spec fn spec_decimal(n: int) -> Seq<char>
    decreases n,
{
    if n < 10 {
        seq![spec_digit_char(n)]
    } else {
        spec_decimal(n / 10).push(spec_digit_char(n % 10))
    }
}

/// A duration display in whole minutes and seconds: the minutes, a colon,
/// and the seconds padded to two digits.
pub open spec fn spec_minutes_seconds(millis: u64) -> Seq<char> {
    let minutes = millis as int / 60000;
    let seconds = (millis as int % 60000) / 1000;
    spec_decimal(minutes) + seq![':'] + (if seconds < 10 {
        seq!['0']
    } else {
        Seq::<char>::empty()
    }) + spec_decimal(seconds)
}

fn digit_char(d: u64) -> (c: char)
    requires
        d < 10,
    ensures
        c == spec_digit_char(d as int),
{
    if d == 0 {
        '0'
    } else if d == 1 {
        '1'
    } else if d == 2 {
        '2'
    } else if d == 3 {
        '3'
    } else if d == 4 {
        '4'
    } else if d == 5 {
        '5'
    } else if d == 6 {
        '6'
    } else if d == 7 {
        '7'
    } else if d == 8 {
        '8'
    } else {
        '9'
    }
}

fn push_decimal(out: &mut String, n: u64)
    ensures
        final(out)@ == old(out)@ + spec_decimal(n as int),
    decreases n,
{
    let ghost pre = out@;
    if n < 10 {
        let c = digit_char(n);
        out.push(c);
        proof {
            assert(out@ =~= pre + spec_decimal(n as int));
        }
    } else {
        push_decimal(out, n / 10);
        let c = digit_char(n % 10);
        out.push(c);
        proof {
            assert(out@ =~= pre + spec_decimal(n as int));
        }
    }
}

/// Renders a millisecond duration as `minutes:seconds`, the seconds always
/// two digits wide.
pub fn from_millis_to_minutes(millis: u64) -> (r: String)
    ensures
        r@ == spec_minutes_seconds(millis),
{
    let minutes = millis / 60000;
    let seconds = (millis % 60000) / 1000;
    let mut out = String::new();
    push_decimal(&mut out, minutes);
    out.push(':');
    if seconds < 10 {
        out.push('0');
    }
    push_decimal(&mut out, seconds);
    proof {
        assert(out@ =~= spec_minutes_seconds(millis));
    }
    out
}

} // verus!
