use vstd::prelude::*;
use vstd::string::StringSliceAdditionalSpecFns;
use crate::duration::Duration;
use crate::engine::ScheduleError;

verus! {

/// Whether a byte is an ASCII decimal digit.
pub open spec fn is_digit(b: u8) -> bool {
    48 <= b <= 57
}

/// Whether a byte is a lower-case ASCII letter.
pub open spec fn is_letter(b: u8) -> bool {
    97 <= b <= 122
}

/// The end of the run of digits that starts at `i`.
pub open spec fn digits_end(s: Seq<u8>, i: nat) -> nat
    decreases s.len() - i,
{
    if i < s.len() && is_digit(s[i as int]) {
        digits_end(s, i + 1)
    } else {
        i
    }
}

/// The end of the run of letters that starts at `i`.
pub open spec fn letters_end(s: Seq<u8>, i: nat) -> nat
    decreases s.len() - i,
{
    if i < s.len() && is_letter(s[i as int]) {
        letters_end(s, i + 1)
    } else {
        i
    }
}

/// The number that the digits from `i` up to `j` write in base ten.
pub open spec fn decimal_value(s: Seq<u8>, i: nat, j: nat) -> nat
    decreases j - i,
{
    if i < j <= s.len() {
        decimal_value(s, i, (j - 1) as nat) * 10 + (s[j - 1] - 48) as nat
    } else {
        0
    }
}

/// The milliseconds in one of a unit: `h`, `min` or `m`, `s`, `ms`.
pub open spec fn unit_millis(unit: Seq<u8>) -> Option<nat> {
    if unit.len() == 1 && unit[0] == 104 {
        Some(3_600_000)
    } else if unit.len() == 1 && unit[0] == 109 {
        Some(60_000)
    } else if unit.len() == 3 && unit[0] == 109 && unit[1] == 105 && unit[2] == 110 {
        Some(60_000)
    } else if unit.len() == 1 && unit[0] == 115 {
        Some(1000)
    } else if unit.len() == 2 && unit[0] == 109 && unit[1] == 115 {
        Some(1)
    } else {
        None
    }
}

/// The sum of the segments from `i` to the end of `s`, where each segment
/// is a run of digits and then a unit; `None` where the rest of `s` is not
/// made of such segments.
pub open spec fn millis_from(s: Seq<u8>, i: nat) -> Option<nat>
    decreases s.len() - i,
{
    if i >= s.len() {
        Some(0)
    } else {
        let j = digits_end(s, i);
        let k = letters_end(s, j);
        if !(i < j < k <= s.len()) {
            None
        } else {
            match unit_millis(s.subrange(j as int, k as int)) {
                Some(unit) => plus(decimal_value(s, i, j) * unit, millis_from(s, k)),
                None => None,
            }
        }
    }
}

/// The milliseconds that a text such as `90s`, `5min` or `1h30m` stands
/// for; `None` where the text is empty or is no such text.
pub open spec fn parsed_millis(s: Seq<u8>) -> Option<nat> {
    if s.len() == 0 {
        None
    } else {
        millis_from(s, 0)
    }
}

/// `total` added to a sum that may be missing.
pub open spec fn plus(total: nat, rest: Option<nat>) -> Option<nat> {
    match rest {
        Some(r) => Some(total + r),
        None => None,
    }
}

/// Reads the digits from `start`: where they end, and their value unless it
/// is beyond `u64`.
fn read_number(s: &[u8], start: usize) -> (found: (usize, Option<u64>))
    requires
        start <= s@.len(),
    ensures
        found.0 == digits_end(s@, start as nat),
        start <= found.0 <= s@.len(),
        match found.1 {
            Some(v) => v == decimal_value(s@, start as nat, found.0 as nat),
            None => decimal_value(s@, start as nat, found.0 as nat) > u64::MAX,
        },
{
    let n: usize = s.len();
    let mut j: usize = start;
    let mut value: Option<u64> = Some(0);
    while j < n && 48 <= s[j] && s[j] <= 57
        invariant
            n == s@.len(),
            start <= j <= n,
            digits_end(s@, start as nat) == digits_end(s@, j as nat),
            match value {
                Some(v) => v == decimal_value(s@, start as nat, j as nat),
                None => decimal_value(s@, start as nat, j as nat) > u64::MAX,
            },
        decreases n - j,
    {
        let digit: u64 = (s[j] - 48) as u64;
        value = match value {
            Some(v) => match v.checked_mul(10) {
                Some(tens) => tens.checked_add(digit),
                None => None,
            },
            None => None,
        };
        j += 1;
    }
    (j, value)
}

/// Reads the letters from `start`: where they end.
fn read_letters(s: &[u8], start: usize) -> (end: usize)
    requires
        start <= s@.len(),
    ensures
        end == letters_end(s@, start as nat),
        start <= end <= s@.len(),
{
    let n: usize = s.len();
    let mut j: usize = start;
    while j < n && 97 <= s[j] && s[j] <= 122
        invariant
            n == s@.len(),
            start <= j <= n,
            letters_end(s@, start as nat) == letters_end(s@, j as nat),
        decreases n - j,
    {
        j += 1;
    }
    j
}

/// The milliseconds in one of the unit written from `from` up to `to`.
fn read_unit(s: &[u8], from: usize, to: usize) -> (unit: Option<u64>)
    requires
        from <= to <= s@.len(),
    ensures
        match unit {
            Some(u) => unit_millis(s@.subrange(from as int, to as int)) == Some(u as nat),
            None => unit_millis(s@.subrange(from as int, to as int)).is_none(),
        },
{
    let len: usize = to - from;
    if len == 1 && s[from] == 104 {
        Some(3_600_000)
    } else if len == 1 && s[from] == 109 {
        Some(60_000)
    } else if len == 3 && s[from] == 109 && s[from + 1] == 105 && s[from + 2] == 110 {
        Some(60_000)
    } else if len == 1 && s[from] == 115 {
        Some(1000)
    } else if len == 2 && s[from] == 109 && s[from + 1] == 115 {
        Some(1)
    } else {
        None
    }
}

/// Reads a duration from ASCII bytes: one or more segments, each a decimal
/// number and a unit (`h`, `min` or `m`, `s`, `ms`), added up.
///
/// Fails on bytes that are no such text, and on a sum beyond `u64`
/// milliseconds.
pub fn parse_duration_bytes(s: &[u8]) -> (parsed: Result<Duration, ScheduleError>)
    ensures
        match parsed {
            Ok(d) => parsed_millis(s@) == Some(d@),
            Err(e) => e == ScheduleError::InvalidDuration && match parsed_millis(s@) {
                Some(millis) => millis > u64::MAX,
                None => true,
            },
        },
{
    let n: usize = s.len();
    if n == 0 {
        return Err(ScheduleError::InvalidDuration);
    }
    let mut i: usize = 0;
    let mut total: u64 = 0;
    while i < n
        invariant
            n == s@.len(),
            i <= n,
            millis_from(s@, 0) == plus(total as nat, millis_from(s@, i as nat)),
        decreases n - i,
    {
        let (j, value) = read_number(s, i);
        let k: usize = read_letters(s, j);
        if j == i || k == j {
            return Err(ScheduleError::InvalidDuration);
        }
        let unit: u64 = match read_unit(s, j, k) {
            Some(u) => u,
            None => {
                return Err(ScheduleError::InvalidDuration);
            },
        };
        proof {
            let dv = decimal_value(s@, i as nat, j as nat);
            assert(dv * unit >= dv) by (nonlinear_arith)
                requires
                    unit >= 1,
            ;
        }
        let number: u64 = match value {
            Some(v) => v,
            None => {
                return Err(ScheduleError::InvalidDuration);
            },
        };
        let segment: u64 = match number.checked_mul(unit) {
            Some(m) => m,
            None => {
                return Err(ScheduleError::InvalidDuration);
            },
        };
        total = match total.checked_add(segment) {
            Some(t) => t,
            None => {
                return Err(ScheduleError::InvalidDuration);
            },
        };
        i = k;
    }
    Ok(Duration { millis: total })
}

/// Reads a duration from text such as `90s`, `5min` or `1h30m`.
pub fn parse_duration(text: &str) -> (parsed: Result<Duration, ScheduleError>)
    ensures
        match parsed {
            Ok(d) => parsed_millis(text.spec_bytes()) == Some(d@),
            Err(e) => e == ScheduleError::InvalidDuration && match parsed_millis(
                text.spec_bytes(),
            ) {
                Some(millis) => millis > u64::MAX,
                None => true,
            },
        },
{
    parse_duration_bytes(text.as_bytes())
}

} // verus!
