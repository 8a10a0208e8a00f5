//! Return periods of a back-test result and the column headers of its report.

use vstd::prelude::*;

verus! {

#[derive(Debug, Clone, Copy, PartialEq, Eq, Hash, Structural)]
pub enum PerPeriod {
    Hourly,
    Daily,
    Weekly,
    Monthly,
    Yearly,
}

/// The minutes in one period.
pub open spec fn spec_period_minutes(p: PerPeriod) -> int {
    match p {
        PerPeriod::Hourly => 60,
        PerPeriod::Daily => 1440,
        PerPeriod::Weekly => 10_080,
        PerPeriod::Monthly => 43_200,
        PerPeriod::Yearly => 525_600,
    }
}

impl PerPeriod {
    /// The minutes in one period.
    pub fn get_periods(&self) -> (r: usize)
        ensures
            r == spec_period_minutes(*self),
    {
        match self {
            PerPeriod::Hourly => 60,
            PerPeriod::Daily => 60 * 24,
            PerPeriod::Weekly => 60 * 24 * 7,
            PerPeriod::Monthly => 60 * 24 * 30,
            PerPeriod::Yearly => 60 * 24 * 365,
        }
    }

    /// The name of the period.
    pub fn name(&self) -> (r: &'static str)
        ensures
            r@ == (match self {
                PerPeriod::Hourly => "Hourly"@,
                PerPeriod::Daily => "Daily"@,
                PerPeriod::Weekly => "Weekly"@,
                PerPeriod::Monthly => "Monthly"@,
                PerPeriod::Yearly => "Yearly"@,
            }),
    {
        match self {
            PerPeriod::Hourly => "Hourly",
            PerPeriod::Daily => "Daily",
            PerPeriod::Weekly => "Weekly",
            PerPeriod::Monthly => "Monthly",
            PerPeriod::Yearly => "Yearly",
        }
    }
}

/// The column headers of a back-test report.
pub fn test_headers() -> (r: [&'static str; 11])
    ensures
        r@.len() == 11,
        r@[0]@ == "Cash ($)"@,
        r@[1]@ == "Accuracy (%)"@,
        r@[2]@ == "Ticker"@,
        r@[3]@ == "Score"@,
        r@[4]@ == "Correct/Incorrect"@,
        r@[5]@ == "Enter Price"@,
        r@[6]@ == "Exit Price"@,
        r@[7]@ == "Change (%)"@,
        r@[8]@ == "Enter Time"@,
        r@[9]@ == "Exit Time"@,
        r@[10]@ == "Fee Reduction"@,
{
    [
        "Cash ($)",
        "Accuracy (%)",
        "Ticker",
        "Score",
        "Correct/Incorrect",
        "Enter Price",
        "Exit Price",
        "Change (%)",
        "Enter Time",
        "Exit Time",
        "Fee Reduction",
    ]
}

} // verus!
