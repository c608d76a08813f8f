//! The June Pride accent: when it shows.
use vstd::prelude::*;

verus! {

/// Whether `month` (1-based, as a calendar month) is June.
pub fn is_pride_month(month: u32) -> (r: bool)
    ensures
        r == (month == 6),
{
    month == 6
}

/// Whether the panel shows the rainbow accent: it is June, the setting is
/// on, and the panel is roomy enough (every size tier but the extra-small
/// one).
pub fn should_show_panel_accent(is_june: bool, enabled: bool, roomy_tier: bool) -> (r: bool)
    ensures
        r == (is_june && enabled && roomy_tier),
{
    is_june && enabled && roomy_tier
}

} // verus!
