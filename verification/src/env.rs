//! Application environment: where logs go, which directories files are kept in and how their
//! names are stamped with time.

use vstd::prelude::*;

use crate::text::{decimal, push_decimal, string_push};
use crate::timing::local_clock;

verus! {

/// Where the log is written.
#[derive(Clone, Copy, Debug, PartialEq, Eq, Structural)]
pub enum LogDestination {
    StdOut,
    LogFile,
    Disabled,
}

/// Directories the application keeps files in.
#[derive(Clone, Copy, Debug, PartialEq, Eq, Structural)]
pub enum Directory {
    Data,
    Cache,
    Runtime,
}

/// The path a directory setting takes: the value of its environment variable when it is set,
/// the default path otherwise.
pub fn path_or_default(value: Option<String>, default_path: &str) -> (result: String)
    ensures
        result@ == (match value {
            Some(v) => v@,
            None => default_path@,
        }),
{
    match value {
        Some(v) => v,
        None => String::from_str(default_path),
    }
}

/// Whether a file in the cache directory is an old log to be removed: it is a log file and it was
/// last accessed before `transition_time`, or its access time cannot be read. Times are counted
/// in nanoseconds.
pub fn is_old_log(is_log: bool, access_time: Option<u128>, transition_time: u128) -> (result: bool)
    ensures
        result == (is_log && match access_time {
            Some(time) => time < transition_time,
            None => true,
        }),
{
    if is_log {
        match access_time {
            Some(time) => time < transition_time,
            None => true,
        }
    } else {
        false
    }
}

/// The decimal representation of `n` padded with leading zeros to at least `width` digits.
pub open spec fn zero_padded(n: nat, width: nat) -> Seq<char> {
    let digits = decimal(n);
    if digits.len() < width {
        Seq::new((width - digits.len()) as nat, |i: int| '0') + digits
    } else {
        digits
    }
}

/// Number of decimal digits of `n`.
pub open spec fn digit_count(n: nat) -> nat {
    decimal(n).len()
}

/// Returns the number of decimal digits of `n`.
fn count_digits(n: u64) -> (result: usize)
    ensures
        result == digit_count(n as nat),
        1 <= result <= 20,
    decreases n,
{
    if n < 10 {
        1
    } else {
        let rest = count_digits(n / 10);
        proof {
            assert(decimal(n as nat).len() == decimal((n / 10) as nat).len() + 1);
        }
        assert(rest < 20) by {
            lemma_decimal_length_bound((n / 10) as nat);
        }
        rest + 1
    }
}

/// The decimal representation of a number below `10^k` has at most `k` digits.
proof fn lemma_decimal_length_bound(n: nat)
    requires
        n <= u64::MAX / 10,
    ensures
        decimal(n).len() < 20,
    decreases n,
{
    reveal_with_fuel(pow10, 20);
    lemma_decimal_length_up_to(n, 19);
}

/// The representation of a number below `10^k` has at most `k` digits.
proof fn lemma_decimal_length_up_to(n: nat, k: nat)
    requires
        k >= 1,
        n < pow10(k),
    ensures
        decimal(n).len() <= k,
    decreases k,
{
    if n >= 10 {
        assert(k >= 2) by {
            if k == 1 {
                assert(pow10(1) == 10 * pow10(0));
            }
        }
        assert(pow10(k) == 10 * pow10((k - 1) as nat));
        assert(n / 10 < pow10((k - 1) as nat)) by (nonlinear_arith)
            requires
                n < 10 * pow10((k - 1) as nat),
        ;
        lemma_decimal_length_up_to(n / 10, (k - 1) as nat);
    }
}

/// Ten to the power `k`.
spec fn pow10(k: nat) -> nat
    decreases k,
{
    if k == 0 {
        1
    } else {
        10 * pow10((k - 1) as nat)
    }
}

/// Appends `n` padded with leading zeros to at least `width` digits.
pub fn push_zero_padded(s: &mut String, n: u64, width: usize)
    ensures
        final(s)@ == old(s)@ + zero_padded(n as nat, width as nat),
{
    let digits = count_digits(n);
    let ghost start = s@;
    let mut pad: usize = 0;
    if digits < width {
        while pad < width - digits
            invariant
                digits < width,
                pad <= width - digits,
                s@ == start + Seq::new(pad as nat, |i: int| '0'),
            decreases width - digits - pad,
        {
            string_push(s, '0');
            pad = pad + 1;
            assert(s@ =~= start + Seq::new(pad as nat, |i: int| '0'));
        }
    }
    push_decimal(s, n);
    proof {
        if digits < width {
            assert(s@ =~= start + zero_padded(n as nat, width as nat));
        } else {
            assert(s@ =~= start + zero_padded(n as nat, width as nat));
        }
    }
}

/// Text stamping a name with time: day of the year, hour, minute and second, zero padded to
/// three, two, two and two digits and joined by dashes.
pub open spec fn time_representation(yday: nat, hour: nat, minute: nat, second: nat) -> Seq<char> {
    zero_padded(yday, 3) + seq!['-'] + zero_padded(hour, 2) + seq!['-'] + zero_padded(minute, 2)
        + seq!['-'] + zero_padded(second, 2)
}

/// Formats a time stamp of the form `ddd-hh-mm-ss`.
pub fn format_time_representation(yday: u32, hour: u32, minute: u32, second: u32) -> (result:
    String)
    ensures
        result@ == time_representation(yday as nat, hour as nat, minute as nat, second as nat),
{
    let mut s = String::new();
    push_zero_padded(&mut s, yday as u64, 3);
    string_push(&mut s, '-');
    push_zero_padded(&mut s, hour as u64, 2);
    string_push(&mut s, '-');
    push_zero_padded(&mut s, minute as u64, 2);
    string_push(&mut s, '-');
    push_zero_padded(&mut s, second as u64, 2);
    assert(s@ =~= time_representation(yday as nat, hour as nat, minute as nat, second as nat));
    s
}

/// Returns the local time as `ddd-hh-mm-ss`: zero padded day of the year, hour, minute and
/// second. Used to generate names of temporary directories and files.
pub fn get_time_representation() -> (result: String)
    ensures
        exists|yday: nat, hour: nat, minute: nat, second: nat|
            yday <= 365 && hour <= 23 && minute <= 59 && second <= 60 && result@
                == time_representation(yday, hour, minute, second),
{
    let clock = local_clock();
    let result = format_time_representation(
        clock.year_day,
        clock.hour,
        clock.minute,
        clock.second,
    );
    assert(result@ == time_representation(
        clock.year_day as nat,
        clock.hour as nat,
        clock.minute as nat,
        clock.second as nat,
    ));
    result
}

} // verus!
