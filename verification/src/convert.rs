use vstd::prelude::*;

verus! {

/// The character for one decimal digit `d < 10`.
pub open spec fn spec_digit(d: nat) -> char {
    if d == 0 {
        '0'
    } else if d == 1 {
        '1'
    } else if d == 2 {
        '2'
    } else if d == 3 {
        '3'
    } else if d == 4 {
        '4'
    } else if d == 5 {
        '5'
    } else if d == 6 {
        '6'
    } else if d == 7 {
        '7'
    } else if d == 8 {
        '8'
    } else {
        '9'
    }
}

/// Decimal representation of `n`, most significant digit first, no leading
/// zeros (except for `n == 0`, which is the single digit `0`).
pub open spec fn spec_dec(n: nat) -> Seq<char>
    decreases n,
{
    if n < 10 {
        seq![spec_digit(n)]
    } else {
        spec_dec(n / 10).push(spec_digit(n % 10))
    }
}

/// Decimal representation of `n`, zero-padded on the left to at least two
/// digits.
pub open spec fn spec_pad2(n: nat) -> Seq<char> {
    if n < 10 {
        seq!['0'] + spec_dec(n)
    } else {
        spec_dec(n)
    }
}

/// The uptime display for a count of milliseconds since boot: whole hours and
/// whole minutes, each zero-padded to two digits, as `HHh:MMm`. Hours are not
/// wrapped at 24.
pub open spec fn spec_uptime(ms: u64) -> Seq<char> {
    spec_pad2((ms as nat / 1000) / 3600) + seq!['h', ':'] + spec_pad2(((ms as nat / 1000) % 3600)
        / 60) + seq!['m']
}

/// The one-character string for a decimal digit.
fn digit_str(d: u64) -> (r: &'static str)
    requires
        d < 10,
    ensures
        r@ == seq![spec_digit(d as nat)],
{
    proof {
        reveal_strlit("0");
        reveal_strlit("1");
        reveal_strlit("2");
        reveal_strlit("3");
        reveal_strlit("4");
        reveal_strlit("5");
        reveal_strlit("6");
        reveal_strlit("7");
        reveal_strlit("8");
        reveal_strlit("9");
    }
    let r: &'static str = if d == 0 {
        "0"
    } else if d == 1 {
        "1"
    } else if d == 2 {
        "2"
    } else if d == 3 {
        "3"
    } else if d == 4 {
        "4"
    } else if d == 5 {
        "5"
    } else if d == 6 {
        "6"
    } else if d == 7 {
        "7"
    } else if d == 8 {
        "8"
    } else {
        "9"
    };
    proof {
        assert(r@ =~= seq![spec_digit(d as nat)]);
    }
    r
}

/// Renders `n` in decimal.
pub fn dec_string(n: u64) -> (r: String)
    ensures
        r@ == spec_dec(n as nat),
    decreases n,
{
    if n < 10 {
        String::from_str(digit_str(n))
    } else {
        assert(n / 10 < n);
        let mut r = dec_string(n / 10);
        r.append(digit_str(n % 10));
        proof {
            assert(r@ =~= spec_dec(n as nat));
        }
        r
    }
}

/// Renders `n` in decimal, zero-padded to at least two digits.
pub fn pad2_string(n: u64) -> (r: String)
    ensures
        r@ == spec_pad2(n as nat),
{
    if n < 10 {
        let mut r = String::from_str("0");
        let d = dec_string(n);
        r.append(d.as_str());
        proof {
            reveal_strlit("0");
            assert(r@ =~= spec_pad2(n as nat));
        }
        r
    } else {
        dec_string(n)
    }
}

/// Formats a count of milliseconds since boot as zero-padded hours and
/// minutes, `HHh:MMm`. Seconds are truncated away; hours may exceed two
/// digits and are never wrapped.
pub fn format_uptime(ms: u64) -> (r: String)
    ensures
        r@ == spec_uptime(ms),
{
    let seconds = ms / 1000;
    let hours = seconds / 3600;
    let minutes = (seconds % 3600) / 60;
    let mut r = pad2_string(hours);
    r.append("h:");
    let m = pad2_string(minutes);
    r.append(m.as_str());
    r.append("m");
    proof {
        reveal_strlit("h:");
        reveal_strlit("m");
        assert(r@ =~= spec_uptime(ms));
    }
    r
}

/// Converts a raw byte count into whole mebibytes, truncating.
pub fn mb_from_bytes(bytes: u64) -> (mb: u64)
    ensures
        mb == bytes / 1048576,
{
    bytes / 1048576
}

/// Converts a raw byte count into whole gibibytes, truncating.
pub fn gb_from_bytes(bytes: u64) -> (gb: u64)
    ensures
        gb == bytes / 1073741824,
{
    bytes / 1073741824
}

} // verus!
