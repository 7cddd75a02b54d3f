use vstd::prelude::*;

verus! {

/// Milliseconds in one second, one minute and one hour.
pub const MS_PER_SECOND: u64 = 1000;
pub const MS_PER_MINUTE: u64 = 60_000;
pub const MS_PER_HOUR: u64 = 3_600_000;

/// The interval that a duration given in hours, minutes, seconds and
/// milliseconds stands for, in milliseconds.
pub open spec fn interval_ms_spec(hours: nat, minutes: nat, seconds: nat, milliseconds: nat) -> nat {
    milliseconds + seconds * 1000 + minutes * 60_000 + hours * 3_600_000
}

/// Combines a duration into one millisecond interval. The result must fit in
/// a `u64`.
pub fn calc_interval_ms(hours: u64, minutes: u64, seconds: u64, milliseconds: u64) -> (r: u64)
    requires
        interval_ms_spec(hours as nat, minutes as nat, seconds as nat, milliseconds as nat)
            <= u64::MAX,
    ensures
        r as nat == interval_ms_spec(hours as nat, minutes as nat, seconds as nat, milliseconds as nat),
{
    milliseconds + seconds * MS_PER_SECOND + minutes * MS_PER_MINUTE + hours * MS_PER_HOUR
}

/// Combines a duration into one millisecond interval, or `None` where it does
/// not fit in a `u64`.
pub fn checked_interval_ms(hours: u64, minutes: u64, seconds: u64, milliseconds: u64) -> (r:
    Option<u64>)
    ensures
        r is None <==> interval_ms_spec(hours as nat, minutes as nat, seconds as nat, milliseconds as nat)
            > u64::MAX,
        r matches Some(v) ==> v as nat == interval_ms_spec(
            hours as nat,
            minutes as nat,
            seconds as nat,
            milliseconds as nat,
        ),
{
    let h = hours.checked_mul(MS_PER_HOUR);
    let m = minutes.checked_mul(MS_PER_MINUTE);
    let s = seconds.checked_mul(MS_PER_SECOND);
    match (h, m, s) {
        (Some(h), Some(m), Some(s)) => {
            let total: u128 = milliseconds as u128 + s as u128 + m as u128 + h as u128;
            if total > u64::MAX as u128 {
                None
            } else {
                Some(calc_interval_ms(hours, minutes, seconds, milliseconds))
            }
        },
        _ => None,
    }
}

} // verus!
