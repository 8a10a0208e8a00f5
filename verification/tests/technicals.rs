use krypto::data::technicals::{resolve_technical_names, technicals_request, TechnicalKind};
use krypto::error::KryptoError;

#[test]
fn test_get_technicals_unknown_name() {
    let technical_names = vec!["RSI".to_string(), "UnknownIndicator".to_string()];
    let result = resolve_technical_names(&technical_names);
    assert!(result.is_err());
    match result {
        Err(KryptoError::TechnicalIndicatorError { indicator, .. }) => {
            assert_eq!(indicator, "UnknownIndicator");
        }
        _ => panic!("Expected TechnicalIndicatorError"),
    }
}

#[test]
fn test_get_technicals_valid() {
    let technical_names = vec!["RSI".to_string(), "Candlestick Ratio".to_string()];
    let result = resolve_technical_names(&technical_names);
    assert!(result.is_ok());
    let kinds = result.unwrap();
    assert_eq!(kinds.len(), technical_names.len());
    assert_eq!(kinds[0].name(), "RSI");
    assert_eq!(kinds[1].name(), "Candlestick Ratio");
}

#[test]
fn empty_name_list_is_a_configuration_error() {
    let result = resolve_technical_names(&[]);
    assert_eq!(
        result,
        Err(KryptoError::ConfigError("Technical names cannot be empty for calculation.".to_string()))
    );
}

#[test]
fn unknown_name_reason_says_requested() {
    let names = vec!["Nope".to_string(), "Also nope".to_string()];
    assert_eq!(
        resolve_technical_names(&names),
        Err(KryptoError::TechnicalIndicatorError {
            indicator: "Nope".to_string(),
            reason: "Unknown technical indicator name requested".to_string(),
        })
    );
}

#[test]
fn every_kind_round_trips_through_its_name() {
    let all = [
        TechnicalKind::RSI,
        TechnicalKind::FastStochastic,
        TechnicalKind::SlowStochastic,
        TechnicalKind::CCI,
        TechnicalKind::MFI,
        TechnicalKind::EfficiencyRatio,
        TechnicalKind::PercentageChangeEMA,
        TechnicalKind::VolumePercentageChangeEMA,
        TechnicalKind::BollingerBands,
        TechnicalKind::CandlestickRatio,
    ];
    for k in all {
        assert_eq!(TechnicalKind::from_name(k.name()), Ok(k));
    }
    assert_eq!(TechnicalKind::VolumePercentageChangeEMA.name(), "Volume Percentage Change EMA");
}

#[test]
fn from_name_refuses_unknown_names() {
    assert_eq!(
        TechnicalKind::from_name("rsi"),
        Err(KryptoError::TechnicalIndicatorError {
            indicator: "rsi".to_string(),
            reason: "Unknown technical indicator name provided".to_string(),
        })
    );
}

#[test]
fn test_get_technicals_empty_input() {
    let technical_names = vec!["RSI".to_string()];
    let result = technicals_request(0, &technical_names).unwrap();
    assert!(result.is_empty());
}

#[test]
fn empty_run_checks_no_names() {
    assert_eq!(technicals_request(0, &[]), Ok(vec![]));
    assert_eq!(technicals_request(0, &["Nope".to_string()]), Ok(vec![]));
    assert_eq!(
        technicals_request(3, &[]),
        Err(KryptoError::ConfigError("Technical names cannot be empty for calculation.".to_string()))
    );
    assert_eq!(
        technicals_request(2, &["CCI".to_string(), "MFI".to_string()]),
        Ok(vec![TechnicalKind::CCI, TechnicalKind::MFI])
    );
}
