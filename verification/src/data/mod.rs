pub mod interval;
pub mod dataset;
pub mod funding_rate;
pub mod technicals;
pub mod loader;
pub mod open_interest;
