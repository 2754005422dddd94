//! UTC timestamps for evidence reports.
use vstd::prelude::*;

use crate::text::{decimal_pad, push_decimal_pad, push_str};

verus! {

/// `SystemTime::now().duration_since(UNIX_EPOCH)` as whole seconds and
/// milliseconds. The value depends on the machine clock; only the range of
/// the millisecond part is stated.
#[verifier::external_body]
pub fn unix_time_now() -> (r: (u64, u32))
    ensures
        r.1 < 1000,
{
    let d = std::time::SystemTime::now()
        .duration_since(std::time::UNIX_EPOCH)
        .unwrap_or_default();
    (d.as_secs(), d.subsec_millis())
}

/// Proleptic Gregorian date `(year, month, day)` of a day count since
/// 1970-01-01 (days-to-civil conversion over 400-year eras).
pub open spec fn civil_from_days(days: nat) -> (int, nat, nat) {
    let z = days + 719468;
    let era = z / 146097;
    let doe = z - era * 146097;
    let yoe = (doe - doe / 1460 + doe / 36524 - doe / 146096) / 365;
    let y = yoe + era * 400;
    let doy = doe - (365 * yoe + yoe / 4 - yoe / 100);
    let mp = (5 * doy + 2) / 153;
    let d = doy - (153 * mp + 2) / 5 + 1;
    let m = if mp < 10 { mp + 3 } else { mp - 9 };
    let y2 = if m <= 2 { y + 1 } else { y };
    (y2, m as nat, d as nat)
}

/// `YYYY-MM-DDTHH:MM:SS.mmmZ` for a time since the epoch.
pub open spec fn iso_text(secs: nat, millis: nat) -> Seq<char> {
    let days = secs / 86400;
    let rem = secs % 86400;
    let (y, m, d) = civil_from_days(days);
    decimal_pad(y as nat, 4) + "-"@ + decimal_pad(m, 2) + "-"@ + decimal_pad(d, 2) + "T"@
        + decimal_pad(rem / 3600, 2) + ":"@ + decimal_pad((rem % 3600) / 60, 2) + ":"@
        + decimal_pad(rem % 60, 2) + "."@ + decimal_pad(millis, 3) + "Z"@
}

fn civil_from_days_exec(days: u64) -> (r: (u64, u64, u64))
    requires
        days <= 0xffff_ffff_ffff,
    ensures
        (r.0 as int, r.1 as nat, r.2 as nat) == civil_from_days(days as nat),
        r.0 >= 0,
{
    let z: u64 = days + 719468;
    let era: u64 = z / 146097;
    assert(era * 146097 <= z) by (nonlinear_arith)
        requires era == z / 146097;
    let doe: u64 = z - era * 146097;
    assert(doe < 146097) by (nonlinear_arith)
        requires era == z / 146097, doe == z - era * 146097;
    let yoe: u64 = (doe - doe / 1460 + doe / 36524 - doe / 146096) / 365;
    assert(yoe <= 400);
    assert(era <= 0xffff_ffff_ffff);
    let y: u64 = yoe + era * 400;
    assert(365 * yoe + yoe / 4 - yoe / 100 <= doe) by (nonlinear_arith)
        requires doe < 146097, yoe == (doe - doe / 1460 + doe / 36524 - doe / 146096) / 365;
    let doy: u64 = doe - (365 * yoe + yoe / 4 - yoe / 100);
    assert(doy < 366) by (nonlinear_arith)
        requires doe < 146097, yoe == (doe - doe / 1460 + doe / 36524 - doe / 146096) / 365,
            doy == doe - (365 * yoe + yoe / 4 - yoe / 100);
    let mp: u64 = (5 * doy + 2) / 153;
    assert(mp <= 11);
    assert((153 * mp + 2) / 5 <= doy) by (nonlinear_arith)
        requires mp == (5 * doy + 2) / 153, doy < 366;
    let d: u64 = doy - (153 * mp + 2) / 5 + 1;
    let m: u64 = if mp < 10 { mp + 3 } else { mp - 9 };
    let y2: u64 = if m <= 2 { y + 1 } else { y };
    (y2, m, d)
}

/// Render a timestamp as `YYYY-MM-DDTHH:MM:SS.mmmZ`.
pub fn iso_timestamp_from(secs: u64, millis: u32) -> (r: String)
    requires
        millis < 1000,
    ensures
        r@ == iso_text(secs as nat, millis as nat),
{
    let days = secs / 86400;
    let rem = secs % 86400;
    assert(days <= 0xffff_ffff_ffff);
    let (y, m, d) = civil_from_days_exec(days);
    let mut r = String::new();
    push_decimal_pad(&mut r, y, 4);
    push_str(&mut r, "-");
    push_decimal_pad(&mut r, m, 2);
    push_str(&mut r, "-");
    push_decimal_pad(&mut r, d, 2);
    push_str(&mut r, "T");
    push_decimal_pad(&mut r, rem / 3600, 2);
    push_str(&mut r, ":");
    push_decimal_pad(&mut r, (rem % 3600) / 60, 2);
    push_str(&mut r, ":");
    push_decimal_pad(&mut r, rem % 60, 2);
    push_str(&mut r, ".");
    push_decimal_pad(&mut r, millis as u64, 3);
    push_str(&mut r, "Z");
    assert(r@ =~= iso_text(secs as nat, millis as nat));
    r
}

/// The current UTC time as `YYYY-MM-DDTHH:MM:SS.mmmZ`.
pub fn iso_timestamp_now() -> (r: String)
    ensures
        exists|secs: nat, millis: nat| millis < 1000 && r@ == iso_text(secs, millis),
{
    let (secs, millis) = unix_time_now();
    let r = iso_timestamp_from(secs, millis);
    assert(r@ == iso_text(secs as nat, millis as nat));
    r
}

} // verus!
