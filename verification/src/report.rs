//! The report on a usage summary.
//!
//! The shares of a summary are fractions, and they reach this crate as
//! they are shown: the program around it computes and rounds them. What is
//! fixed here is the report that is laid out from them.

use crate::decimal::{decimal_text, push_decimal};
use vstd::prelude::*;
use vstd::string::StringExecFns;

verus! {

/// The figures of one usage summary, as the report shows them.
#[derive(Debug, PartialEq, Eq)]
pub struct UsageFigures {
    /// The bytes used so far, in GiB, to three decimal places.
    pub used_gib: String,
    /// The allotment of the billing period, in GiB, to three decimal
    /// places.
    pub limit_gib: String,
    /// The share of the allotment that is used, in whole percent.
    pub percent: String,
    /// The day of the month on which the counter starts again, as the
    /// summary gives it.
    pub reset_day_of_month: u64,
}

/// The three lines of the report: what is used of the allotment, the
/// share in percent, and the day of the reset.
pub open spec fn report_text(figures: UsageFigures) -> Seq<char> {
    "已使用流量/总流量："@ + figures.used_gib@ + "GiB / "@ + figures.limit_gib@ + "GiB\n比例："@
        + figures.percent@ + "%\n每月流量重置日期："@ + decimal_text(
        figures.reset_day_of_month as nat,
    ) + "日"@
}

/// Lays out the report on `figures`.
pub fn render_report(figures: &UsageFigures) -> (report: String)
    ensures
        report@ == report_text(*figures),
{
    let mut out = String::from_str("已使用流量/总流量：");
    out.append(figures.used_gib.as_str());
    out.append("GiB / ");
    out.append(figures.limit_gib.as_str());
    out.append("GiB\n比例：");
    out.append(figures.percent.as_str());
    out.append("%\n每月流量重置日期：");
    push_decimal(&mut out, figures.reset_day_of_month as u128);
    out.append("日");
    assert(out@ =~= report_text(*figures));
    out
}

} // verus!
