//! Viewer counts and stream ages as the panes print them.

use vstd::prelude::*;
use crate::text::{decimal, digit, digit_char, push_decimal, push_signed_decimal, signed_decimal, string_of};

verus! {

/// `digits` with a comma before every group of three digits counted from the right.
pub open spec fn group_thousands(digits: Seq<char>) -> Seq<char>
    decreases digits.len(),
{
    if digits.len() <= 3 {
        digits
    } else {
        group_thousands(digits.subrange(0, digits.len() - 3)) + seq![','] + digits.subrange(
            digits.len() - 3,
            digits.len() as int,
        )
    }
}

/// The first `k` characters of `digits`, each preceded by a comma when a whole
/// number of groups of three follows it (and it is not the first).
pub open spec fn comma_prefix(digits: Seq<char>, k: nat) -> Seq<char>
    decreases k,
{
    if k == 0 {
        Seq::empty()
    } else {
        let j = (k - 1) as nat;
        let sep = if j > 0 && (digits.len() - j) % 3 == 0 {
            seq![',']
        } else {
            Seq::empty()
        };
        comma_prefix(digits, j) + sep + seq![digits[j as int]]
    }
}

proof fn lemma_comma_prefix_depends_on_prefix(d: Seq<char>, e: Seq<char>, k: nat)
    requires
        k <= e.len(),
        e.len() <= d.len(),
        (d.len() - e.len()) % 3 == 0,
        forall|i: int| 0 <= i < e.len() ==> d[i] == e[i],
    ensures
        comma_prefix(d, k) == comma_prefix(e, k),
    decreases k,
{
    if k > 0 {
        lemma_comma_prefix_depends_on_prefix(d, e, (k - 1) as nat);
        let j = (k - 1) as int;
        assert((d.len() - j) % 3 == (e.len() - j) % 3);
    }
}

proof fn lemma_comma_prefix_groups(d: Seq<char>)
    ensures
        comma_prefix(d, d.len()) == group_thousands(d),
    decreases d.len(),
{
    let n = d.len();
    if n <= 3 {
        assert(comma_prefix(d, 0) == Seq::<char>::empty());
        if n >= 1 {
            assert(comma_prefix(d, 1) == seq![d[0]]);
        }
        if n >= 2 {
            assert(comma_prefix(d, 2) == seq![d[0], d[1]]);
        }
        if n >= 3 {
            assert(comma_prefix(d, 3) == seq![d[0], d[1], d[2]]);
        }
        assert(comma_prefix(d, n) == d);
    } else {
        let m = (n - 3) as nat;
        let mi = m as int;
        let e = d.subrange(0, m as int);
        lemma_comma_prefix_groups(e);
        lemma_comma_prefix_depends_on_prefix(d, e, m);
        assert((n - m) % 3 == 0);
        assert((n - (m + 1)) % 3 == 2);
        assert((n - (m + 2)) % 3 == 1);
        assert(comma_prefix(d, m + 1) == comma_prefix(d, m) + seq![','] + seq![d[m as int]]);
        assert(comma_prefix(d, m + 2) == comma_prefix(d, m + 1) + Seq::<char>::empty() + seq![d[mi + 1]]);
        assert(comma_prefix(d, m + 3) == comma_prefix(d, m + 2) + Seq::<char>::empty() + seq![d[mi + 2]]);
        assert(d.subrange(m as int, n as int) == seq![d[m as int], d[mi + 1], d[mi + 2]]);
        assert(comma_prefix(d, n) == group_thousands(e) + seq![','] + d.subrange(m as int, n as int));
    }
}

/// A viewer count in full, with thousands separated by commas: 42391 gives "42,391".
pub fn format_viewers_full(count: u32) -> (res: String)
    ensures
        res@ == group_thousands(decimal(count as nat)),
{
    let mut digits: Vec<char> = Vec::new();
    push_decimal(&mut digits, count as u64);
    assert(digits@ == decimal(count as nat));
    let n = digits.len();
    let mut out: Vec<char> = Vec::new();
    let mut k: usize = 0;
    while k < n
        invariant
            n == digits@.len(),
            k <= n,
            out@ == comma_prefix(digits@, k as nat),
        decreases n - k,
    {
        if k > 0 && (n - k) % 3 == 0 {
            out.push(',');
        }
        out.push(digits[k]);
        k = k + 1;
        assert(out@ == comma_prefix(digits@, k as nat));
    }
    proof {
        lemma_comma_prefix_groups(digits@);
    }
    string_of(&out)
}


/// `floor(log2(x))` for a positive `x` (and 0 for 0).
pub open spec fn floor_log2(x: nat) -> nat
    decreases x,
{
    if x < 2 {
        0
    } else {
        1 + floor_log2(x / 2)
    }
}

/// Two to the power `k`.
pub open spec fn two_pow(k: nat) -> nat
    decreases k,
{
    if k == 0 {
        1
    } else {
        2 * two_pow((k - 1) as nat)
    }
}

/// For `den <= c`, the sign of the error that binary64 makes in holding
/// `c / den`: 1 when the nearest binary64 value lies above the quotient, -1
/// when below, 0 when the quotient is held exactly. The quotient scaled into
/// `[2^52, 2^53)` is rounded to the nearest integer, ties to even.
pub open spec fn binary_rounding(c: nat, den: nat) -> int {
    let scaled = c * two_pow((52 - floor_log2(c / den)) as nat);
    let rem = scaled % den;
    if rem == 0 {
        0
    } else if 2 * rem > den {
        1
    } else if 2 * rem < den {
        -1
    } else if (scaled / den) % 2 == 0 {
        -1
    } else {
        1
    }
}

/// `c / den` as binary64, rounded to a whole number of tenths, ties to even:
/// what printing the binary64 quotient with one decimal place gives, in tenths.
pub open spec fn rounded_tenths(c: nat, den: nat) -> nat {
    let q = (10 * c) / den;
    let rem = (10 * c) % den;
    if 2 * rem < den {
        q
    } else if 2 * rem > den {
        q + 1
    } else if binary_rounding(c, den) > 0 {
        q + 1
    } else if binary_rounding(c, den) < 0 {
        q
    } else if q % 2 == 0 {
        q
    } else {
        q + 1
    }
}

/// A number of tenths written with one decimal place, then `unit`.
pub open spec fn tenths_text(t: nat, unit: char) -> Seq<char> {
    decimal(t / 10) + seq!['.', digit_char(t % 10), unit]
}

/// The short form of a viewer count: a million and more in millions,
/// a thousand and more in thousands, each with one decimal place ("2.5m",
/// "42.4k"), smaller counts in full. A count under a million stays in
/// thousands even where it rounds to "1000.0k".
pub open spec fn compact_count(count: nat) -> Seq<char> {
    if count >= 1_000_000 {
        tenths_text(rounded_tenths(count, 1_000_000), 'm')
    } else if count >= 1000 {
        tenths_text(rounded_tenths(count, 1000), 'k')
    } else {
        decimal(count)
    }
}

proof fn lemma_two_pow_32()
    ensures
        two_pow(32) == 4294967296,
{
    reveal_with_fuel(two_pow, 33);
}

proof fn lemma_two_pow_monotone(a: nat, b: nat)
    requires
        a <= b,
    ensures
        two_pow(a) <= two_pow(b),
    decreases b,
{
    if a < b {
        lemma_two_pow_monotone(a, (b - 1) as nat);
    }
}

proof fn lemma_two_pow_52()
    ensures
        two_pow(52) == 4503599627370496,
{
    reveal_with_fuel(two_pow, 53);
}

fn binary_rounding_of(c: u32, den: u64) -> (s: i8)
    requires
        1000 <= den <= c,
    ensures
        s as int == binary_rounding(c as nat, den as nat),
{
    let mut k: u64 = (c as u64) / den;
    let mut e: u64 = 0;
    proof {
        lemma_two_pow_32();
    }
    while k >= 2
        invariant
            e <= 32,
            k < two_pow((32 - e) as nat),
            floor_log2((c as nat) / (den as nat)) == e + floor_log2(k as nat),
        decreases k,
    {
        assert(32 - e >= 1) by {
            if 32 - e == 0 {
                assert(two_pow(0) == 1);
            }
        }
        assert(two_pow((32 - e) as nat) == 2 * two_pow((32 - (e + 1)) as nat));
        k = k / 2;
        e = e + 1;
    }
    assert(floor_log2(k as nat) == 0);
    let shift: u64 = 52 - e;
    let mut p: u128 = 1;
    let mut i: u64 = 0;
    proof {
        lemma_two_pow_52();
    }
    while i < shift
        invariant
            i <= shift,
            shift <= 52,
            p == two_pow(i as nat),
            two_pow(52) == 4503599627370496,
        decreases shift - i,
    {
        proof {
            lemma_two_pow_monotone((i + 1) as nat, 52);
        }
        p = p * 2;
        i = i + 1;
    }
    proof {
        lemma_two_pow_monotone(shift as nat, 52);
    }
    let cc: u128 = c as u128;
    assert(cc * p <= 4294967295u128 * 4503599627370496u128) by (nonlinear_arith)
        requires
            cc <= 4294967295u128,
            p <= 4503599627370496u128,
    ;
    let scaled: u128 = cc * p;
    let d: u128 = den as u128;
    let rem = scaled % d;
    if rem == 0 {
        0
    } else if 2 * rem > d {
        1
    } else if 2 * rem < d {
        -1
    } else if (scaled / d) % 2 == 0 {
        -1
    } else {
        1
    }
}

fn tenths_of(c: u32, den: u64) -> (t: u64)
    requires
        1000 <= den <= c,
    ensures
        t as nat == rounded_tenths(c as nat, den as nat),
{
    let ten_c: u64 = 10 * (c as u64);
    let q = ten_c / den;
    let rem = ten_c % den;
    if 2 * rem < den {
        q
    } else if 2 * rem > den {
        q + 1
    } else {
        let dir = binary_rounding_of(c, den);
        if dir > 0 {
            q + 1
        } else if dir < 0 {
            q
        } else if q % 2 == 0 {
            q
        } else {
            q + 1
        }
    }
}

fn push_tenths(out: &mut Vec<char>, t: u64, unit: char)
    ensures
        final(out)@ == old(out)@ + tenths_text(t as nat, unit),
{
    push_decimal(out, t / 10);
    out.push('.');
    out.push(digit(t % 10));
    out.push(unit);
    assert(out@ == old(out)@ + (decimal((t / 10) as nat) + seq!['.', digit_char((t % 10) as nat), unit]));
}

/// A viewer count in short form: 42 gives "42", 23400 gives "23.4k", 999999
/// gives "1000.0k", 2500000 gives "2.5m". The one decimal place is that of the count divided by a
/// thousand (or a million) in binary64, printed with one decimal place.
pub fn format_viewers(count: u32) -> (res: String)
    ensures
        res@ == compact_count(count as nat),
{
    let mut out: Vec<char> = Vec::new();
    if count >= 1_000_000 {
        let t = tenths_of(count, 1_000_000);
        push_tenths(&mut out, t, 'm');
    } else if count >= 1000 {
        let t = tenths_of(count, 1000);
        push_tenths(&mut out, t, 'k');
    } else {
        push_decimal(&mut out, count as u64);
    }
    string_of(&out)
}


/// Rust's `/` on signed integers: the quotient rounded toward zero.
pub open spec fn trunc_div(a: int, b: int) -> int {
    if a >= 0 {
        a / b
    } else {
        -((-a) / b)
    }
}

/// Rust's `%` on signed integers: the remainder that goes with `trunc_div`.
pub open spec fn trunc_rem(a: int, b: int) -> int {
    a - b * trunc_div(a, b)
}

/// A number written with at least two digits (`{:02}`).
pub open spec fn two_digits(n: int) -> Seq<char> {
    if 0 <= n < 10 {
        seq!['0', digit_char(n as nat)]
    } else {
        signed_decimal(n)
    }
}

/// How long a stream has run, from the whole minutes since it started:
/// "1d 3h" past a day, "2h 15m" past an hour, "5m" below.
pub open spec fn uptime_text(total_minutes: int) -> Seq<char> {
    let hours_total = trunc_div(total_minutes, 60);
    let minutes = trunc_rem(total_minutes, 60);
    let days = trunc_div(hours_total, 24);
    let hours = trunc_rem(hours_total, 24);
    if days > 0 {
        signed_decimal(days) + seq!['d', ' '] + signed_decimal(hours) + seq!['h']
    } else if hours > 0 {
        signed_decimal(hours) + seq!['h', ' '] + two_digits(minutes) + seq!['m']
    } else {
        signed_decimal(minutes) + seq!['m']
    }
}

/// The running time of a stream that has run `total_minutes` whole minutes.
pub fn format_uptime_minutes(total_minutes: i64) -> (res: String)
    ensures
        res@ == uptime_text(total_minutes as int),
{
    let mut out: Vec<char> = Vec::new();
    if total_minutes >= 0 {
        let m: u64 = total_minutes as u64;
        let hours_total = m / 60;
        let minutes = m % 60;
        let days = hours_total / 24;
        let hours = hours_total % 24;
        if days > 0 {
            push_decimal(&mut out, days);
            out.push('d');
            out.push(' ');
            push_decimal(&mut out, hours);
            out.push('h');
            assert(out@ == decimal(days as nat) + seq!['d', ' '] + decimal(hours as nat) + seq!['h']);
        } else if hours > 0 {
            push_decimal(&mut out, hours);
            out.push('h');
            out.push(' ');
            if minutes < 10 {
                out.push('0');
                out.push(digit(minutes));
            } else {
                push_decimal(&mut out, minutes);
            }
            out.push('m');
            assert(out@ == decimal(hours as nat) + seq!['h', ' '] + two_digits(minutes as int) + seq!['m']);
        } else {
            push_decimal(&mut out, minutes);
            out.push('m');
            assert(out@ == decimal(minutes as nat) + seq!['m']);
        }
    } else {
        let magnitude: u64 = if total_minutes == i64::MIN {
            9223372036854775808u64
        } else {
            (-total_minutes) as u64
        };
        let minutes: u64 = magnitude % 60;
        let ghost tm = total_minutes as int;
        assert(trunc_div(tm, 60) == -((magnitude / 60) as int));
        assert(trunc_rem(tm, 60) == -(minutes as int));
        assert(trunc_div(trunc_div(tm, 60), 24) <= 0);
        assert(trunc_rem(trunc_div(tm, 60), 24) <= 0);
        if minutes == 0 {
            out.push('0');
            assert(out@ == signed_decimal(0) + Seq::<char>::empty());
        } else {
            out.push('-');
            push_decimal(&mut out, minutes);
            assert(out@ == signed_decimal(-(minutes as int)));
        }
        out.push('m');
    }
    string_of(&out)
}

/// What `chrono` accepts as an RFC 3339 date and time.
pub uninterp spec fn rfc3339_accepts(text: Seq<char>) -> bool;

/// `chrono::DateTime::parse_from_rfc3339`, then `chrono::Utc::now` and
/// `signed_duration_since(..).num_minutes()`: the whole minutes, rounded
/// toward zero, from the time in `text` to now; `None` exactly when chrono
/// does not accept the text. The number depends on the clock, so nothing is
/// stated of it.
#[verifier::external_body]
fn minutes_since_rfc3339(text: &str) -> (res: Option<i64>)
    ensures
        res.is_some() == rfc3339_accepts(text@),
{
    let start = chrono::DateTime::parse_from_rfc3339(text).ok()?;
    Some(chrono::Utc::now().signed_duration_since(start).num_minutes())
}

/// How long ago `started_at` (RFC 3339) was, as the detail and browse panes
/// print it; the empty string when the text is no RFC 3339 time.
pub fn format_uptime(started_at: &str) -> (res: String)
    ensures
        !rfc3339_accepts(started_at@) ==> res@ == Seq::<char>::empty(),
        rfc3339_accepts(started_at@) ==> exists|m: i64| res@ == uptime_text(m as int),
{
    match minutes_since_rfc3339(started_at) {
        Some(m) => format_uptime_minutes(m),
        None => String::new(),
    }
}

} // verus!

