use krypto::interval::{Interval, ParseIntervalError};

#[test]
fn as_str_and_minutes_of_each_interval() {
    assert_eq!(Interval::OneMinute.as_str(), "1m");
    assert_eq!(Interval::TwelveHours.as_str(), "12h");
    assert_eq!(Interval::OneMonth.as_str(), "1M");
    assert_eq!(Interval::OneWeek.to_minutes(), 10080);
    assert_eq!(Interval::ThreeDays.to_minutes(), 4320);
    assert_eq!(Interval::FourHours.to_string(), "4h");
}

#[test]
fn from_minutes_and_from_str_reject_unknown_values() {
    assert_eq!(Interval::from_minutes(240), Ok(Interval::FourHours));
    assert_eq!(Interval::from_minutes(7), Err(ParseIntervalError::InvalidMinutes(7)));
    assert_eq!("6h".parse::<Interval>(), Ok(Interval::SixHours));
    assert_eq!("1y".parse::<Interval>(), Err(ParseIntervalError::InvalidString("1y".to_string())));
}

#[test]
fn error_messages() {
    assert_eq!(ParseIntervalError::InvalidMinutes(7).message(), "Invalid minutes for Interval: 7");
    assert_eq!(ParseIntervalError::InvalidMinutes(1440).message(), "Invalid minutes for Interval: 1440");
    assert_eq!(
        ParseIntervalError::InvalidString("abc".to_string()).message(),
        "Invalid string for Interval: abc"
    );
}
