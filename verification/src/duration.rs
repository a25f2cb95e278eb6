//! Uptime arithmetic: splitting a duration in whole seconds into
//! days, hours, minutes and seconds.

use vstd::prelude::*;

verus! {

/// The `(days, hours, minutes, seconds)` a duration in whole seconds
/// splits into by repeated floor division.
pub open spec fn spec_dhms(sec: int) -> (int, int, int, int) {
    let mins = sec / 60;
    let hours = mins / 60;
    (hours / 24, hours % 24, mins % 60, sec % 60)
}

/// Splits a number of whole seconds into `(days, hours, minutes, seconds)`
/// by floor division, so that the four parts add back up to the input and
/// the hour, minute and second parts lie in their calendar ranges.
pub fn format_dhms(sec: u64) -> (r: (u64, u8, u8, u8))
    ensures
        (r.0 as int, r.1 as int, r.2 as int, r.3 as int) == spec_dhms(sec as int),
        r.0 as int * 86400 + r.1 as int * 3600 + r.2 as int * 60 + r.3 as int == sec as int,
        r.1 < 24,
        r.2 < 60,
        r.3 < 60,
{
    let mins: u64 = sec / 60;
    let s: u8 = (sec % 60) as u8;
    let hours: u64 = mins / 60;
    let m: u8 = (mins % 60) as u8;
    let days: u64 = hours / 24;
    let h: u8 = (hours % 24) as u8;
    proof {
        assert(sec as int == 60 * (sec as int / 60) + sec as int % 60);
        assert(mins as int == 60 * (mins as int / 60) + mins as int % 60);
        assert(hours as int == 24 * (hours as int / 24) + hours as int % 24);
    }
    (days, h, m, s)
}

/// For every uptime `u` in milliseconds, the day, hour, minute and
/// second parts of the display add back up to the whole seconds of the
/// uptime, `u / 1000`, with the hour, minute and second parts in their
/// calendar ranges.
pub proof fn lemma_uptime_parts_sum_back(u: int)
    requires
        0 <= u,
    ensures
        ({
            let (d, h, m, s) = spec_dhms(u / 1000);
            &&& d * 86400 + h * 3600 + m * 60 + s == u / 1000
            &&& 0 <= d
            &&& 0 <= h < 24
            &&& 0 <= m < 60
            &&& 0 <= s < 60
        }),
{
    let sec = u / 1000;
    assert(sec == 60 * (sec / 60) + sec % 60);
    let mins = sec / 60;
    assert(mins == 60 * (mins / 60) + mins % 60);
    let hours = mins / 60;
    assert(hours == 24 * (hours / 24) + hours % 24);
}

} // verus!
