//! Return periods of simulated trading data and the column headers of its report.

use vstd::prelude::*;

verus! {

#[derive(Debug, Clone, Copy, PartialEq, Eq, Hash, Structural)]
pub enum PerPeriod {
    Hourly,
    Daily,
    Weekly,
    Monthly,
    Yearly,
}

impl PerPeriod {
    /// The name of the period.
    pub fn name(&self) -> (r: &'static str)
        ensures
            r@ == (match self {
                PerPeriod::Hourly => "Hourly"@,
                PerPeriod::Daily => "Daily"@,
                PerPeriod::Weekly => "Weekly"@,
                PerPeriod::Monthly => "Monthly"@,
                PerPeriod::Yearly => "Yearly"@,
            }),
    {
        match self {
            PerPeriod::Hourly => "Hourly",
            PerPeriod::Daily => "Daily",
            PerPeriod::Weekly => "Weekly",
            PerPeriod::Monthly => "Monthly",
            PerPeriod::Yearly => "Yearly",
        }
    }
}

/// The column headers of a live test report.
pub fn test_headers() -> (r: [&'static str; 9])
    ensures
        r@.len() == 9,
        r@[0]@ == "Cash ($)"@,
        r@[1]@ == "Accuracy (%)"@,
        r@[2]@ == "Ticker"@,
        r@[3]@ == "Score"@,
        r@[4]@ == "Correct/Incorrect"@,
        r@[5]@ == "Enter Price"@,
        r@[6]@ == "Exit Price"@,
        r@[7]@ == "Change (%)"@,
        r@[8]@ == "Time"@,
{
    [
        "Cash ($)",
        "Accuracy (%)",
        "Ticker",
        "Score",
        "Correct/Incorrect",
        "Enter Price",
        "Exit Price",
        "Change (%)",
        "Time",
    ]
}

} // verus!
