use vstd::prelude::*;

verus! {

/// A civil calendar date as the ledger prints it: the year as a plain
/// decimal number, and a month and day of month in their calendar ranges.
/// The tool stamps entries with the local calendar date; no time zone
/// normalization is applied.
#[derive(Debug, Clone, Copy, PartialEq, Eq, Structural)]
pub struct Date {
    pub year: u32,
    pub month: u8,
    pub day: u8,
}

impl Date {
    /// The month and day lie in their calendar ranges.
    pub open spec fn wf(&self) -> bool {
        &&& 1 <= self.month <= 12
        &&& 1 <= self.day <= 31
    }

    /// A date from its three fields.
    pub fn new(year: u32, month: u8, day: u8) -> (d: Date)
        requires
            1 <= month <= 12,
            1 <= day <= 31,
        ensures
            d == (Date { year, month, day }),
            d.wf(),
    {
        Date { year, month, day }
    }
}

/// Relies on time::now: the current broken-down local calendar time. Per the
/// crate's documentation, `tm_mon` counts months since January in [0, 11] and
/// `tm_mday` is the day of the month in [1, 31]; `tm_year` counts years since
/// 1900 and can, in principle, be any value.
#[verifier::external_body]
fn now_tm_fields() -> (r: (i32, i32, i32))
    ensures
        0 <= r.1 <= 11,
        1 <= r.2 <= 31,
{
    let tm = time::now();
    (tm.tm_year, tm.tm_mon, tm.tm_mday)
}

/// Turns raw broken-down-time fields — years since 1900, months since
/// January, day of month — into a well-formed `Date`, or `None` when any
/// field is outside its documented range.
pub fn date_from_tm_fields(tm_year: i32, tm_mon: i32, tm_mday: i32) -> (r: Option<Date>)
    ensures
        if tm_year >= -1900 && 0 <= tm_mon <= 11 && 1 <= tm_mday <= 31 {
            r == Some(
                Date {
                    year: (tm_year + 1900) as u32,
                    month: (tm_mon + 1) as u8,
                    day: tm_mday as u8,
                },
            )
        } else {
            r is None
        },
        r matches Some(d) ==> d.wf(),
{
    if tm_year >= -1900 && tm_mon >= 0 && tm_mon <= 11 && tm_mday >= 1 && tm_mday <= 31 {
        let year64: i64 = tm_year as i64 + 1900;
        Some(Date { year: year64 as u32, month: (tm_mon + 1) as u8, day: tm_mday as u8 })
    } else {
        None
    }
}

/// The local calendar date at the moment of the call, or `None` when the
/// clock reports a year before year zero.
pub fn today() -> (r: Option<Date>)
    ensures
        r matches Some(d) ==> d.wf(),
{
    let (tm_year, tm_mon, tm_mday) = now_tm_fields();
    date_from_tm_fields(tm_year, tm_mon, tm_mday)
}

} // verus!
