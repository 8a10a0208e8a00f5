use std::sync::Arc;

use krypto::data::interval::Interval;
use krypto::error::KryptoError;
use krypto::optimisation::{
    average_fitness, highest_possible_fitness, lowest_possible_fitness, CrossoverDraws, GenomeDraws,
    MutationDraws, TradingStrategy, TradingStrategyCrossover, TradingStrategyGenome, TradingStrategyGenomeBuilder,
};

fn names(v: &[&str]) -> Vec<String> {
    v.iter().map(|s| s.to_string()).collect()
}

fn genome(tickers: Vec<bool>, technicals: Vec<bool>) -> TradingStrategyGenome {
    TradingStrategyGenome {
        n: 2,
        d: 3,
        interval: Interval::OneHour,
        tickers,
        symbol: "ETHUSDT".to_string(),
        technicals,
    }
}

#[test]
fn phenotype_selects_masked_names() {
    let g = genome(vec![true, false, true], vec![false, true]);
    let st = g
        .to_phenotype(&names(&["BTCUSDT", "ETHUSDT", "SOLUSDT"]), &names(&["rsi", "macd"]))
        .unwrap();
    assert_eq!(st.tickers, names(&["BTCUSDT", "SOLUSDT"]));
    assert_eq!(st.technicals, names(&["macd"]));
    assert_eq!(st.n, 2);
    assert_eq!(st.d, 3);
    assert_eq!(st.symbol, "ETHUSDT");
}

#[test]
fn phenotype_reports_length_mismatch() {
    let g = genome(vec![true, false], vec![true]);
    let r = g.to_phenotype(&names(&["A", "B", "C"]), &names(&["rsi"]));
    assert_eq!(
        r,
        Err(KryptoError::ConfigError(
            "Genome tickers length (2) does not match available tickers length (3)".to_string()
        ))
    );
    let g = genome(vec![true], vec![true, true]);
    let r = g.to_phenotype(&names(&["A"]), &names(&["rsi"]));
    assert_eq!(
        r,
        Err(KryptoError::ConfigError(
            "Genome technicals length (2) does not match available technicals length (1)".to_string()
        ))
    );
}

#[test]
fn phenotype_rejects_empty_selections() {
    let g = genome(vec![false, false], vec![true]);
    assert_eq!(
        g.to_phenotype(&names(&["A", "B"]), &names(&["rsi"])),
        Err(KryptoError::FitnessCalculationError("Genome resulted in empty tickers list.".to_string()))
    );
    let g = genome(vec![true, false], vec![false]);
    assert_eq!(
        g.to_phenotype(&names(&["A", "B"]), &names(&["rsi"])),
        Err(KryptoError::FitnessCalculationError("Genome resulted in empty technicals list.".to_string()))
    );
}

fn builder() -> TradingStrategyGenomeBuilder {
    TradingStrategyGenomeBuilder::new(
        names(&["BTCUSDT", "ETHUSDT", "SOLUSDT", "XRPUSDT"]),
        vec![Interval::OneHour, Interval::OneDay],
        names(&["rsi", "macd", "atr"]),
        4,
        10,
    )
}

#[test]
fn builder_builds_genome_from_draws() {
    let b = builder();
    let draws = GenomeDraws {
        target_index: 1,
        additional: vec![3, 3],
        technical_picks: vec![false, false, false],
        technical_fallback: 2,
        depth: 2,
        interval_index: 1,
    };
    // 2 tickers, 1 technical, depth 2: dimension 4, under max_n 10
    assert_eq!(b.components_cap(&draws), 4);
    let g = b.build_genome(&draws, 3);
    assert_eq!(g.tickers, vec![false, true, false, true]);
    assert_eq!(g.technicals, vec![false, false, true]);
    assert_eq!(g.symbol, "ETHUSDT");
    assert_eq!(g.d, 2);
    assert_eq!(g.n, 3);
    assert_eq!(g.interval, Interval::OneDay);
}

#[test]
fn builder_caps_components_at_max_n() {
    let b = builder();
    let draws = GenomeDraws {
        target_index: 0,
        additional: vec![1, 2],
        technical_picks: vec![true, true, true],
        technical_fallback: 0,
        depth: 4,
        interval_index: 0,
    };
    // 3 * 3 * 4 = 36, capped at 10
    assert_eq!(b.components_cap(&draws), 10);
}

#[test]
fn crossover_mixes_and_repairs() {
    let op = TradingStrategyCrossover { available_tickers: Arc::new(names(&["A", "B", "C"])) };
    let p1 = TradingStrategyGenome {
        n: 4, d: 2, interval: Interval::OneHour,
        tickers: vec![false, false, false], symbol: "C".to_string(), technicals: vec![false, false],
    };
    let p2 = TradingStrategyGenome {
        n: 7, d: 5, interval: Interval::OneDay,
        tickers: vec![false, false, false], symbol: "A".to_string(), technicals: vec![false, true],
    };
    let draws = CrossoverDraws {
        interval_from_first: false,
        symbol_from_first: true,
        tickers_from_second: vec![true, true, true],
        technicals_from_second: vec![false, false],
        ticker_fallback: 1,
        technical_fallback: 0,
    };
    let child = op.crossover_with(&p1, &p2, &draws);
    assert_eq!(child.interval, Interval::OneDay);
    assert_eq!(child.symbol, "C");
    assert_eq!(child.d, 3);
    // nothing selected -> fallback 1, then the target "C" at 2
    assert_eq!(child.tickers, vec![false, true, true]);
    // technicals took nothing from the second parent -> fallback 0
    assert_eq!(child.technicals, vec![true, false]);
    // (4 + 7) / 2 = 5, capped by the dimension 3 * 2 * 1 = 6 -> 5
    assert_eq!(child.n, 5);
}

#[test]
fn crossover_symbol_missing_selects_first_ticker() {
    let op = TradingStrategyCrossover { available_tickers: Arc::new(names(&["A", "B"])) };
    let p = TradingStrategyGenome {
        n: 9, d: 1, interval: Interval::OneHour,
        tickers: vec![false, true], symbol: "Z".to_string(), technicals: vec![true],
    };
    let draws = CrossoverDraws {
        interval_from_first: true,
        symbol_from_first: true,
        tickers_from_second: vec![false, false],
        technicals_from_second: vec![false],
        ticker_fallback: 0,
        technical_fallback: 0,
    };
    let child = op.crossover_with(&p, &p, &draws);
    assert_eq!(child.tickers, vec![true, true]);
    // dimension 1 * 2 * 1 = 2 caps n
    assert_eq!(child.n, 2);
}

#[test]
fn mutation_flips_repairs_and_settles() {
    let g = TradingStrategyGenome {
        n: 5, d: 2, interval: Interval::OneHour,
        tickers: vec![true, false, false], symbol: "A".to_string(), technicals: vec![true, false],
    };
    let available = names(&["A", "B", "C"]);
    let draws = MutationDraws {
        interval_index: Some(1),
        symbol_index: Some(2),
        ticker_flips: vec![true, false, true],
        ticker_fallback: 1,
        technical_flips: vec![true, false],
        technical_fallback: 1,
        depth: None,
    };
    let m = g.mutate_masks(&available, &[Interval::OneHour, Interval::FourHours], 3, &draws);
    assert_eq!(m.interval, Interval::FourHours);
    assert_eq!(m.symbol, "C");
    // target C set, then flips clear A and C; none left -> fallback B; target C set again
    assert_eq!(m.tickers, vec![false, true, true]);
    // technical flipped off -> fallback 1
    assert_eq!(m.technicals, vec![false, true]);
    assert_eq!(m.d, 2);
    // dimension 2 * 2 * 1 = 4 < n = 5: redrawn
    assert_eq!(m.components_cap(10), 4);
    let s = m.settle_components(10, false, 3);
    assert_eq!(s.n, 3);
}

#[test]
fn settle_keeps_valid_components() {
    let g = TradingStrategyGenome {
        n: 2, d: 1, interval: Interval::OneHour,
        tickers: vec![true, true], symbol: "A".to_string(), technicals: vec![true],
    };
    assert_eq!(g.clone().settle_components(10, false, 1).n, 2);
    assert_eq!(g.clone().settle_components(10, true, 1).n, 1);
    // max_n 1 caps the components
    assert_eq!(g.settle_components(1, false, 1).n, 1);
}

#[test]
fn average_fitness_truncates_toward_zero() {
    assert_eq!(average_fitness(&[]), 0);
    assert_eq!(average_fitness(&[1, 2]), 1);
    assert_eq!(average_fitness(&[-1, -2]), -1);
    assert_eq!(average_fitness(&[i64::MAX, i64::MAX]), i64::MAX);
    assert_eq!(average_fitness(&[i64::MIN, i64::MIN, i64::MIN]), i64::MIN);
    assert_eq!(highest_possible_fitness(), i64::MAX / 2);
    assert_eq!(lowest_possible_fitness(), i64::MIN / 2);
}

#[test]
fn strategy_description() {
    let st = TradingStrategy::new(
        3,
        2,
        Interval::FourHours,
        names(&["BTCUSDT", "ETHUSDT"]),
        "BTCUSDT".to_string(),
        names(&["RSI", "CCI", "MFI"]),
    );
    assert_eq!(
        st.to_string(),
        "Strategy(Symbol: BTCUSDT, Interval: 4h, n: 3, d: 2, Features: [BTCUSDT,ETHUSDT], Techs: [RSI,CCI,MFI])"
    );
    let lone = TradingStrategy::new(1, 1, Interval::OneMonth, vec![], "X".to_string(), names(&["RSI"]));
    assert_eq!(lone.to_string(), "Strategy(Symbol: X, Interval: 1M, n: 1, d: 1, Features: [], Techs: [RSI])");
}
