//! The technical indicators by name: their standard names, and the check of a
//! requested list of names before any indicator is computed.

use vstd::prelude::*;
use crate::error::KryptoError;
use crate::text::{owned, str_eq};

verus! {

/// The kind of a technical indicator, apart from its value.
#[derive(Debug, Clone, Copy, PartialEq, Eq, Structural)]
pub enum TechnicalKind {
    RSI,
    FastStochastic,
    SlowStochastic,
    CCI,
    MFI,
    EfficiencyRatio,
    PercentageChangeEMA,
    VolumePercentageChangeEMA,
    BollingerBands,
    CandlestickRatio,
}

/// The standard name of an indicator kind.
pub open spec fn spec_technical_name(k: TechnicalKind) -> Seq<char> {
    match k {
        TechnicalKind::RSI => "RSI"@,
        TechnicalKind::FastStochastic => "Fast Stochastic"@,
        TechnicalKind::SlowStochastic => "Slow Stochastic"@,
        TechnicalKind::CCI => "CCI"@,
        TechnicalKind::MFI => "MFI"@,
        TechnicalKind::EfficiencyRatio => "Efficiency Ratio"@,
        TechnicalKind::PercentageChangeEMA => "Percentage Change EMA"@,
        TechnicalKind::VolumePercentageChangeEMA => "Volume Percentage Change EMA"@,
        TechnicalKind::BollingerBands => "Bollinger Bands"@,
        TechnicalKind::CandlestickRatio => "Candlestick Ratio"@,
    }
}

/// The indicator kind with standard name `s`, if there is one.
pub open spec fn spec_technical_from_name(s: Seq<char>) -> Option<TechnicalKind> {
    if s == "RSI"@ { Some(TechnicalKind::RSI) }
    else if s == "Fast Stochastic"@ { Some(TechnicalKind::FastStochastic) }
    else if s == "Slow Stochastic"@ { Some(TechnicalKind::SlowStochastic) }
    else if s == "CCI"@ { Some(TechnicalKind::CCI) }
    else if s == "MFI"@ { Some(TechnicalKind::MFI) }
    else if s == "Efficiency Ratio"@ { Some(TechnicalKind::EfficiencyRatio) }
    else if s == "Percentage Change EMA"@ { Some(TechnicalKind::PercentageChangeEMA) }
    else if s == "Volume Percentage Change EMA"@ { Some(TechnicalKind::VolumePercentageChangeEMA) }
    else if s == "Bollinger Bands"@ { Some(TechnicalKind::BollingerBands) }
    else if s == "Candlestick Ratio"@ { Some(TechnicalKind::CandlestickRatio) }
    else { None }
}

/// Whether every name of `names` is the name of an indicator.
pub open spec fn all_known(names: Seq<String>) -> bool {
    forall|i: int| 0 <= i < names.len() ==> (#[trigger] spec_technical_from_name(names[i]@)) is Some
}

/// `i` is the position of the first name of `names` that names no indicator.
pub open spec fn first_unknown_at(names: Seq<String>, i: int) -> bool {
    &&& 0 <= i < names.len()
    &&& spec_technical_from_name(names[i]@) is None
    &&& forall|j: int| 0 <= j < i ==> (#[trigger] spec_technical_from_name(names[j]@)) is Some
}

impl TechnicalKind {
    /// The standard name of the indicator.
    pub fn name(&self) -> (r: &'static str)
        ensures
            r@ == spec_technical_name(*self),
    {
        match self {
            TechnicalKind::RSI => "RSI",
            TechnicalKind::FastStochastic => "Fast Stochastic",
            TechnicalKind::SlowStochastic => "Slow Stochastic",
            TechnicalKind::CCI => "CCI",
            TechnicalKind::MFI => "MFI",
            TechnicalKind::EfficiencyRatio => "Efficiency Ratio",
            TechnicalKind::PercentageChangeEMA => "Percentage Change EMA",
            TechnicalKind::VolumePercentageChangeEMA => "Volume Percentage Change EMA",
            TechnicalKind::BollingerBands => "Bollinger Bands",
            TechnicalKind::CandlestickRatio => "Candlestick Ratio",
        }
    }

    /// The indicator kind named `name`; an unknown name is refused.
    pub fn from_name(name: &str) -> (r: Result<TechnicalKind, KryptoError>)
        ensures
            match spec_technical_from_name(name@) {
                Some(k) => r == Ok::<TechnicalKind, KryptoError>(k),
                None => r matches Err(KryptoError::TechnicalIndicatorError { indicator, reason })
                    && indicator@ == name@
                    && reason@ == "Unknown technical indicator name provided"@,
            },
    {
        match Self::lookup(name) {
            Some(k) => Ok(k),
            None => Err(KryptoError::TechnicalIndicatorError {
                indicator: owned(name),
                reason: owned("Unknown technical indicator name provided"),
            }),
        }
    }

    fn lookup(name: &str) -> (r: Option<TechnicalKind>)
        ensures
            r == spec_technical_from_name(name@),
    {
        if str_eq(name, "RSI") { Some(TechnicalKind::RSI) }
        else if str_eq(name, "Fast Stochastic") { Some(TechnicalKind::FastStochastic) }
        else if str_eq(name, "Slow Stochastic") { Some(TechnicalKind::SlowStochastic) }
        else if str_eq(name, "CCI") { Some(TechnicalKind::CCI) }
        else if str_eq(name, "MFI") { Some(TechnicalKind::MFI) }
        else if str_eq(name, "Efficiency Ratio") { Some(TechnicalKind::EfficiencyRatio) }
        else if str_eq(name, "Percentage Change EMA") { Some(TechnicalKind::PercentageChangeEMA) }
        else if str_eq(name, "Volume Percentage Change EMA") {
            Some(TechnicalKind::VolumePercentageChangeEMA)
        }
        else if str_eq(name, "Bollinger Bands") { Some(TechnicalKind::BollingerBands) }
        else if str_eq(name, "Candlestick Ratio") { Some(TechnicalKind::CandlestickRatio) }
        else { None }
    }
}

/// Checks the indicator names requested for a non-empty run of candles and
/// gives their kinds in the same order: an empty list is a configuration
/// error, and the first name that names no indicator is refused.
pub fn resolve_technical_names(names: &[String]) -> (r: Result<Vec<TechnicalKind>, KryptoError>)
    ensures
        names@.len() == 0 ==> (r matches Err(KryptoError::ConfigError(m))
            && m@ == "Technical names cannot be empty for calculation."@),
        names@.len() > 0 ==> match r {
            Ok(kinds) => all_known(names@) && kinds@.len() == names@.len()
                && forall|i: int| 0 <= i < names@.len()
                    ==> spec_technical_from_name(names@[i]@) == Some(#[trigger] kinds@[i]),
            Err(e) => exists|i: int| #[trigger] first_unknown_at(names@, i)
                && (e matches KryptoError::TechnicalIndicatorError { indicator, reason }
                && indicator@ == names@[i]@
                && reason@ == "Unknown technical indicator name requested"@),
        },
{
    if names.len() == 0 {
        return Err(KryptoError::ConfigError(owned("Technical names cannot be empty for calculation.")));
    }
    let mut kinds: Vec<TechnicalKind> = Vec::new();
    let mut i: usize = 0;
    while i < names.len()
        invariant
            i <= names@.len(),
            kinds@.len() == i,
            forall|j: int| 0 <= j < i ==> spec_technical_from_name(names@[j]@) == Some(#[trigger] kinds@[j]),
        decreases names@.len() - i,
    {
        match TechnicalKind::lookup(names[i].as_str()) {
            Some(k) => {
                kinds.push(k);
            },
            None => {
                proof {
                    assert forall|j: int| 0 <= j < i implies
                        (#[trigger] spec_technical_from_name(names@[j]@)) is Some by {
                        assert(spec_technical_from_name(names@[j]@) == Some(kinds@[j]));
                    }
                    assert(first_unknown_at(names@, i as int));
                }
                return Err(KryptoError::TechnicalIndicatorError {
                    indicator: names[i].clone(),
                    reason: owned("Unknown technical indicator name requested"),
                });
            },
        }
        i = i + 1;
    }
    proof {
        assert forall|j: int| 0 <= j < names@.len() implies
            (#[trigger] spec_technical_from_name(names@[j]@)) is Some by {
            assert(spec_technical_from_name(names@[j]@) == Some(kinds@[j]));
        }
    }
    Ok(kinds)
}

/// The indicator kinds requested for a run of `candle_count` candles: an
/// empty run needs no indicator and gives none, whatever the names; otherwise
/// the names are checked as `resolve_technical_names` checks them.
pub fn technicals_request(candle_count: usize, names: &[String]) -> (r: Result<Vec<TechnicalKind>, KryptoError>)
    ensures
        candle_count == 0 ==> (r matches Ok(v) && v@.len() == 0),
        candle_count > 0 && names@.len() == 0 ==> (r matches Err(KryptoError::ConfigError(m))
            && m@ == "Technical names cannot be empty for calculation."@),
        candle_count > 0 && names@.len() > 0 ==> match r {
            Ok(kinds) => all_known(names@) && kinds@.len() == names@.len()
                && forall|i: int| 0 <= i < names@.len()
                    ==> spec_technical_from_name(names@[i]@) == Some(#[trigger] kinds@[i]),
            Err(e) => exists|i: int| #[trigger] first_unknown_at(names@, i)
                && (e matches KryptoError::TechnicalIndicatorError { indicator, reason }
                && indicator@ == names@[i]@
                && reason@ == "Unknown technical indicator name requested"@),
        },
{
    if candle_count == 0 {
        return Ok(Vec::new());
    }
    resolve_technical_names(names)
}

/// Parsing an indicator's standard name gives that indicator back.
pub proof fn lemma_technical_name_round_trip(k: TechnicalKind)
    ensures
        spec_technical_from_name(spec_technical_name(k)) == Some(k),
{
    reveal_strlit("RSI");
    reveal_strlit("Fast Stochastic");
    reveal_strlit("Slow Stochastic");
    reveal_strlit("CCI");
    reveal_strlit("MFI");
    reveal_strlit("Efficiency Ratio");
    reveal_strlit("Percentage Change EMA");
    reveal_strlit("Volume Percentage Change EMA");
    reveal_strlit("Bollinger Bands");
    reveal_strlit("Candlestick Ratio");
    assert("RSI"@.len() == 3 && "RSI"@[0] == 'R');
    assert("Fast Stochastic"@.len() == 15 && "Fast Stochastic"@[0] == 'F');
    assert("Slow Stochastic"@.len() == 15 && "Slow Stochastic"@[0] == 'S');
    assert("CCI"@.len() == 3 && "CCI"@[0] == 'C');
    assert("MFI"@.len() == 3 && "MFI"@[0] == 'M');
    assert("Efficiency Ratio"@.len() == 16 && "Efficiency Ratio"@[0] == 'E');
    assert("Percentage Change EMA"@.len() == 21 && "Percentage Change EMA"@[0] == 'P');
    assert("Volume Percentage Change EMA"@.len() == 28 && "Volume Percentage Change EMA"@[0] == 'V');
    assert("Bollinger Bands"@.len() == 15 && "Bollinger Bands"@[0] == 'B');
    assert("Candlestick Ratio"@.len() == 17 && "Candlestick Ratio"@[0] == 'C');
}

/// A name that parses is the standard name of the indicator it parses to.
pub proof fn lemma_technical_parse_sound(s: Seq<char>)
    ensures
        spec_technical_from_name(s) matches Some(k) ==> spec_technical_name(k) == s,
{
}

} // verus!
