use krypto::data::interval::Interval;
use krypto::error::ParseIntervalError;

#[test]
fn test_to_str() {
    assert_eq!(Interval::OneMinute.to_string(), "1m");
    assert_eq!(Interval::ThreeMinutes.to_string(), "3m");
    assert_eq!(Interval::FiveMinutes.to_string(), "5m");
    assert_eq!(Interval::FifteenMinutes.to_string(), "15m");
    assert_eq!(Interval::ThirtyMinutes.to_string(), "30m");
    assert_eq!(Interval::OneHour.to_string(), "1h");
    assert_eq!(Interval::TwoHours.to_string(), "2h");
    assert_eq!(Interval::FourHours.to_string(), "4h");
    assert_eq!(Interval::SixHours.to_string(), "6h");
    assert_eq!(Interval::EightHours.to_string(), "8h");
    assert_eq!(Interval::TwelveHours.to_string(), "12h");
    assert_eq!(Interval::OneDay.to_string(), "1d");
    assert_eq!(Interval::ThreeDays.to_string(), "3d");
    assert_eq!(Interval::OneWeek.to_string(), "1w");
    assert_eq!(Interval::OneMonth.to_string(), "1M");
}

#[test]
fn test_to_minutes() {
    assert_eq!(Interval::OneMinute.to_minutes(), 1);
    assert_eq!(Interval::ThreeMinutes.to_minutes(), 3);
    assert_eq!(Interval::FiveMinutes.to_minutes(), 5);
    assert_eq!(Interval::FifteenMinutes.to_minutes(), 15);
    assert_eq!(Interval::ThirtyMinutes.to_minutes(), 30);
    assert_eq!(Interval::OneHour.to_minutes(), 60);
    assert_eq!(Interval::TwoHours.to_minutes(), 120);
    assert_eq!(Interval::FourHours.to_minutes(), 240);
    assert_eq!(Interval::SixHours.to_minutes(), 360);
    assert_eq!(Interval::EightHours.to_minutes(), 480);
    assert_eq!(Interval::TwelveHours.to_minutes(), 720);
    assert_eq!(Interval::OneDay.to_minutes(), 1440);
    assert_eq!(Interval::ThreeDays.to_minutes(), 4320);
    assert_eq!(Interval::OneWeek.to_minutes(), 10080);
    assert_eq!(Interval::OneMonth.to_minutes(), 43200);
}

#[test]
fn test_from_minutes() {
    assert_eq!(Interval::from_minutes(1).unwrap(), Interval::OneMinute);
    assert_eq!(Interval::from_minutes(3).unwrap(), Interval::ThreeMinutes);
    assert_eq!(Interval::from_minutes(5).unwrap(), Interval::FiveMinutes);
    assert_eq!(
        Interval::from_minutes(15).unwrap(),
        Interval::FifteenMinutes
    );
    assert_eq!(Interval::from_minutes(30).unwrap(), Interval::ThirtyMinutes);
    assert_eq!(Interval::from_minutes(60).unwrap(), Interval::OneHour);
    assert_eq!(Interval::from_minutes(120).unwrap(), Interval::TwoHours);
    assert_eq!(Interval::from_minutes(240).unwrap(), Interval::FourHours);
    assert_eq!(Interval::from_minutes(360).unwrap(), Interval::SixHours);
    assert_eq!(Interval::from_minutes(480).unwrap(), Interval::EightHours);
    assert_eq!(Interval::from_minutes(720).unwrap(), Interval::TwelveHours);
    assert_eq!(Interval::from_minutes(1440).unwrap(), Interval::OneDay);
    assert_eq!(Interval::from_minutes(4320).unwrap(), Interval::ThreeDays);
    assert_eq!(Interval::from_minutes(10080).unwrap(), Interval::OneWeek);
    assert_eq!(Interval::from_minutes(43200).unwrap(), Interval::OneMonth);
}

#[test]
fn test_from_minutes_invalid() {
    let invalid_minutes = [0, 2, 10, 999];
    for &minutes in &invalid_minutes {
        let result = Interval::from_minutes(minutes);
        assert!(result.is_err());
        match result {
            Err(ParseIntervalError::ParseIntError(m)) => assert_eq!(m, minutes),
            _ => panic!("Expected ParseIntError"),
        }
    }
}

#[test]
fn test_from_str() {
    assert_eq!("1m".parse::<Interval>().unwrap(), Interval::OneMinute);
    assert_eq!("3m".parse::<Interval>().unwrap(), Interval::ThreeMinutes);
    assert_eq!("5m".parse::<Interval>().unwrap(), Interval::FiveMinutes);
    assert_eq!("15m".parse::<Interval>().unwrap(), Interval::FifteenMinutes);
    assert_eq!("30m".parse::<Interval>().unwrap(), Interval::ThirtyMinutes);
    assert_eq!("1h".parse::<Interval>().unwrap(), Interval::OneHour);
    assert_eq!("2h".parse::<Interval>().unwrap(), Interval::TwoHours);
    assert_eq!("4h".parse::<Interval>().unwrap(), Interval::FourHours);
    assert_eq!("6h".parse::<Interval>().unwrap(), Interval::SixHours);
    assert_eq!("8h".parse::<Interval>().unwrap(), Interval::EightHours);
    assert_eq!("12h".parse::<Interval>().unwrap(), Interval::TwelveHours);
    assert_eq!("1d".parse::<Interval>().unwrap(), Interval::OneDay);
    assert_eq!("3d".parse::<Interval>().unwrap(), Interval::ThreeDays);
    assert_eq!("1w".parse::<Interval>().unwrap(), Interval::OneWeek);
    assert_eq!("1M".parse::<Interval>().unwrap(), Interval::OneMonth);
}

#[test]
fn test_from_str_invalid() {
    let invalid_strings = ["0m", "2m", "10h", "abc", ""];
    for &s in &invalid_strings {
        let result = s.parse::<Interval>();
        assert!(result.is_err());
        match result {
            Err(ParseIntervalError::ParseError(ref e)) => assert_eq!(e, s),
            _ => panic!("Expected ParseError"),
        }
    }
}

#[test]
fn round_trips_every_interval_through_minutes_and_labels() {
    let all = [
        Interval::OneMinute, Interval::ThreeMinutes, Interval::FiveMinutes, Interval::FifteenMinutes,
        Interval::ThirtyMinutes, Interval::OneHour, Interval::TwoHours, Interval::FourHours,
        Interval::SixHours, Interval::EightHours, Interval::TwelveHours, Interval::OneDay,
        Interval::ThreeDays, Interval::OneWeek, Interval::OneMonth,
    ];
    for i in all {
        assert_eq!(Interval::from_minutes(i.to_minutes() as usize).unwrap(), i);
        assert_eq!(Interval::parse(&i.to_string()).unwrap(), i);
    }
}

#[test]
fn labels_are_case_sensitive() {
    assert_eq!(Interval::parse("1M").unwrap(), Interval::OneMonth);
    assert_eq!(Interval::parse("1m").unwrap(), Interval::OneMinute);
    assert_eq!(Interval::parse("1H"), Err(ParseIntervalError::ParseError("1H".to_string())));
}
