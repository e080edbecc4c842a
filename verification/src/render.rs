//! The grouped human-readable listing: alerts below the minimum severity
//! are dropped, consecutive alerts sharing a path are grouped under one
//! path header, and each line carries a color tier for its severity.
use vstd::prelude::*;

use crate::security::{sev_name, sev_rank, Alert, AlertV, Severity};
use crate::text::str_eq;

verus! {

/// How a severity is colorized: Critical and High red, Medium and Low
/// yellow, everything else green.
#[derive(Clone, Copy, Debug, PartialEq, Eq, Structural)]
pub enum ColorTier {
    Red,
    Yellow,
    Green,
}

/// The color tier of a severity.
pub open spec fn tier_of(s: Severity) -> ColorTier {
    match s {
        Severity::Critical | Severity::High => ColorTier::Red,
        Severity::Medium | Severity::Low => ColorTier::Yellow,
        _ => ColorTier::Green,
    }
}

/// One line of the grouped listing: a path header when the path changed
/// from the previous displayed alert, then the severity (with its color
/// tier and display name) and the detail text.
pub struct DisplayItem {
    /// Path header to print before the line, when the path changed.
    pub header: Option<String>,
    /// Color tier of the severity.
    pub tier: ColorTier,
    /// Display name of the severity.
    pub severity: String,
    /// Detail text of the finding.
    pub details: String,
}

/// Spec-level value of a `DisplayItem`.
pub struct DisplayItemV {
    pub header: Option<Seq<char>>,
    pub tier: ColorTier,
    pub severity: Seq<char>,
    pub details: Seq<char>,
}

impl View for DisplayItem {
    type V = DisplayItemV;

    open spec fn view(&self) -> DisplayItemV {
        DisplayItemV {
            header: match self.header {
                Some(ref h) => Some(h@),
                None => None,
            },
            tier: self.tier,
            severity: self.severity@,
            details: self.details@,
        }
    }
}

impl DeepView for DisplayItem {
    type V = DisplayItemV;

    open spec fn deep_view(&self) -> DisplayItemV {
        self.view()
    }
}

/// The listing of `alerts` under minimum severity `min`, where `prev` is
/// the path of the last displayed alert. An alert less severe than `min`
/// is dropped and leaves `prev` unchanged; a displayed alert opens a
/// header exactly when its path differs from `prev`.
pub open spec fn listing_from(min: Severity, alerts: Seq<AlertV>, prev: Seq<char>) -> Seq<
    DisplayItemV,
>
    decreases alerts.len(),
{
    if alerts.len() == 0 {
        Seq::empty()
    } else {
        let a = alerts[0];
        if sev_rank(min) < sev_rank(a.severity) {
            listing_from(min, alerts.skip(1), prev)
        } else {
            seq![
                DisplayItemV {
                    header: if a.path.path != prev {
                        Some(a.path.path)
                    } else {
                        None
                    },
                    tier: tier_of(a.severity),
                    severity: sev_name(a.severity),
                    details: a.details,
                },
            ] + listing_from(min, alerts.skip(1), a.path.path)
        }
    }
}

/// The grouped listing of already-sorted alerts: what the caller prints,
/// in order. The scan reports a finding exactly when the listing is not
/// empty.
pub fn display_plan(severity: &Severity, results: &Vec<Alert>) -> (plan: Vec<DisplayItem>)
    ensures
        plan.deep_view() == listing_from(
            *severity,
            results.deep_view(),
            Seq::<char>::empty(),
        ),
{
    let ghost dv = results.deep_view();
    let n = results.len();
    let mut plan: Vec<DisplayItem> = Vec::new();
    let mut prev: String = String::new();
    let mut i: usize = 0;
    let min_rank = severity.rank();
    proof {
        assert(dv.skip(0) =~= dv);
        assert(plan.deep_view() =~= Seq::<DisplayItemV>::empty());
    }
    while i < n
        invariant
            n == results@.len(),
            dv == results.deep_view(),
            0 <= i <= n,
            min_rank as int == sev_rank(*severity),
            listing_from(*severity, dv, Seq::<char>::empty()) == plan.deep_view()
                + listing_from(*severity, dv.skip(i as int), prev@),
        decreases n - i,
    {
        proof {
            assert(dv.skip(i as int)[0] == dv[i as int]);
            assert(dv.skip(i as int).skip(1) =~= dv.skip(i + 1));
            assert(dv[i as int] == results@[i as int]@);
        }
        let a = &results[i];
        if min_rank < a.severity.rank() {
            i += 1;
            continue ;
        }
        let header: Option<String> = if !str_eq(prev.as_str(), a.path.path.as_str()) {
            Some(a.path.path.clone())
        } else {
            None
        };
        let item = DisplayItem {
            header,
            tier: match a.severity {
                Severity::Critical | Severity::High => ColorTier::Red,
                Severity::Medium | Severity::Low => ColorTier::Yellow,
                _ => ColorTier::Green,
            },
            severity: a.severity.name(),
            details: a.details.clone(),
        };
        let ghost before = plan.deep_view();
        plan.push(item);
        prev = a.path.path.clone();
        proof {
            assert(plan.deep_view() =~= before.push(plan@.last()@));
            assert(listing_from(*severity, dv, Seq::<char>::empty()) == plan.deep_view()
                + listing_from(*severity, dv.skip(i + 1), prev@));
        }
        i += 1;
    }
    proof {
        assert(dv.skip(n as int) =~= Seq::<AlertV>::empty());
    }
    plan
}

} // verus!
