//! Genomes of trading strategies for the genetic search, and the verified
//! parts of its operators: decoding a genome, building, crossing and mutating
//! genomes from random draws, and averaging fitness values.

use vstd::prelude::*;
use vstd::string::*;
use crate::data::interval::{Interval, spec_label};
use crate::error::KryptoError;
use crate::text::{comma_joined, decimal, decimal_string, join_commas, owned};

verus! {

/// The names whose mask entry is set, in order.
pub open spec fn selected(mask: Seq<bool>, names: Seq<String>) -> Seq<String>
    decreases mask.len(),
{
    if mask.len() == 0 {
        Seq::empty()
    } else {
        let rest = selected(mask.drop_last(), names);
        if mask.last() {
            rest.push(names[mask.len() - 1])
        } else {
            rest
        }
    }
}

/// The number of set entries of a mask.
pub open spec fn count_true(mask: Seq<bool>) -> nat
    decreases mask.len(),
{
    if mask.len() == 0 {
        0
    } else {
        count_true(mask.drop_last()) + if mask.last() { 1nat } else { 0nat }
    }
}

/// Whether some entry of a mask is set.
pub open spec fn any_true(mask: Seq<bool>) -> bool {
    exists|i: int| 0 <= i < mask.len() && mask[i]
}

/// The first position at which a name with the same text as `s` occurs in `names`.
pub open spec fn first_index(names: Seq<String>, s: String) -> Option<int>
    decreases names.len(),
{
    if names.len() == 0 {
        None
    } else {
        match first_index(names.drop_last(), s) {
            Some(i) => Some(i),
            None => if names.last()@ == s@ { Some(names.len() - 1) } else { None },
        }
    }
}

/// The message of a genome whose mask does not fit the list it selects from.
pub open spec fn mismatch_message(what: Seq<char>, got: nat, want: nat) -> Seq<char> {
    "Genome "@ + what + " length ("@ + decimal(got) + ") does not match available "@ + what
        + " length ("@ + decimal(want) + ")"@
}

/// A count never exceeds the length of the mask.
pub proof fn lemma_count_bounded(mask: Seq<bool>)
    ensures
        count_true(mask) <= mask.len(),
    decreases mask.len(),
{
    if mask.len() > 0 {
        lemma_count_bounded(mask.drop_last());
    }
}

/// A mask has a set entry exactly when its count is positive.
pub proof fn lemma_count_positive(mask: Seq<bool>)
    ensures
        (count_true(mask) > 0) == any_true(mask),
    decreases mask.len(),
{
    if mask.len() > 0 {
        lemma_count_positive(mask.drop_last());
        if mask.last() {
            assert(mask[mask.len() - 1]);
        }
        if any_true(mask) && !mask.last() {
            let i = choose|i: int| 0 <= i < mask.len() && mask[i];
            assert(mask.drop_last()[i]);
        }
        if any_true(mask.drop_last()) {
            let i = choose|i: int| 0 <= i < mask.len() - 1 && mask.drop_last()[i];
            assert(mask[i]);
        }
    }
}

/// The selection has one name per set entry of the mask.
pub proof fn lemma_selected_len(mask: Seq<bool>, names: Seq<String>)
    ensures
        selected(mask, names).len() == count_true(mask),
    decreases mask.len(),
{
    if mask.len() > 0 {
        lemma_selected_len(mask.drop_last(), names);
    }
}

/// What `first_index` finds is an occurrence, and nothing before it is.
pub proof fn lemma_first_index(names: Seq<String>, s: String)
    ensures
        match first_index(names, s) {
            Some(i) => 0 <= i < names.len() && names[i]@ == s@ && forall|j: int| 0 <= j < i ==> names[j]@ != s@,
            None => forall|j: int| 0 <= j < names.len() ==> names[j]@ != s@,
        },
    decreases names.len(),
{
    if names.len() > 0 {
        lemma_first_index(names.drop_last(), s);
        let p = names.drop_last();
        assert forall|j: int| 0 <= j < names.len() - 1 implies names[j] == p[j] by {}
    }
}

/// Counts the set entries of a mask.
pub fn count_selected(mask: &Vec<bool>) -> (r: usize)
    ensures
        r == count_true(mask@),
{
    let mut c: usize = 0;
    let mut i: usize = 0;
    while i < mask.len()
        invariant
            i <= mask.len(),
            c == count_true(mask@.take(i as int)),
        decreases mask.len() - i,
    {
        proof {
            assert(mask@.take(i + 1).drop_last() =~= mask@.take(i as int));
            lemma_count_bounded(mask@.take(i as int));
        }
        if mask[i] {
            c = c + 1;
        }
        i = i + 1;
    }
    assert(mask@.take(mask.len() as int) =~= mask@);
    c
}

/// The first position of `s` among `names`.
pub fn position_of(names: &[String], s: &String) -> (r: Option<usize>)
    ensures
        match r {
            Some(k) => first_index(names@, *s) == Some(k as int),
            None => first_index(names@, *s) is None,
        },
{
    let mut i: usize = 0;
    while i < names.len()
        invariant
            i <= names@.len(),
            first_index(names@.take(i as int), *s) is None,
        decreases names.len() - i,
    {
        assert(names@.take(i + 1).drop_last() =~= names@.take(i as int));
        if names[i] == *s {
            assert(first_index(names@.take(i + 1), *s) == Some(i as int));
            proof { lemma_first_index_prefix(names@, *s, i as int + 1); }
            return Some(i);
        }
        assert(first_index(names@.take(i + 1), *s) is None);
        i = i + 1;
    }
    assert(names@.take(names.len() as int) =~= names@);
    None
}

/// Once a prefix contains an occurrence, the whole sequence's first occurrence is the prefix's.
pub proof fn lemma_first_index_prefix(names: Seq<String>, s: String, k: int)
    requires
        0 <= k <= names.len(),
        first_index(names.take(k), s) is Some,
    ensures
        first_index(names, s) == first_index(names.take(k), s),
    decreases names.len() - k,
{
    if k < names.len() {
        assert(names.take(k + 1).drop_last() =~= names.take(k));
        lemma_first_index_prefix(names, s, k + 1);
    } else {
        assert(names.take(k) =~= names);
    }
}

/// Keeps the names whose mask entry is set.
fn select_names(mask: &Vec<bool>, names: &[String]) -> (r: Vec<String>)
    requires
        mask.len() == names.len(),
    ensures
        r@ == selected(mask@, names@),
{
    let mut r: Vec<String> = Vec::new();
    let mut i: usize = 0;
    while i < mask.len()
        invariant
            i <= mask.len(),
            mask.len() == names.len(),
            r@ == selected(mask@.take(i as int), names@),
        decreases mask.len() - i,
    {
        assert(mask@.take(i + 1).drop_last() =~= mask@.take(i as int));
        if mask[i] {
            r.push(names[i].clone());
        }
        i = i + 1;
    }
    assert(mask@.take(mask.len() as int) =~= mask@);
    r
}

fn mismatch(what: &str, got: usize, want: usize) -> (r: String)
    ensures
        r@ == mismatch_message(what@, got as nat, want as nat),
{
    let mut m = owned("Genome ");
    m.append(what);
    m.append(" length (");
    m.append(decimal_string(got as u64).as_str());
    m.append(") does not match available ");
    m.append(what);
    m.append(" length (");
    m.append(decimal_string(want as u64).as_str());
    m.append(")");
    assert(m@ =~= mismatch_message(what@, got as nat, want as nat));
    m
}

/// The genome of a trading strategy: the components and depth of the model,
/// the interval, which tickers and technicals feed the model (as masks over
/// the available lists), and the symbol that is traded.
#[derive(Clone, Debug, PartialEq, Eq)]
pub struct TradingStrategyGenome {
    pub n: usize,
    pub d: usize,
    pub interval: Interval,
    pub tickers: Vec<bool>,
    pub symbol: String,
    pub technicals: Vec<bool>,
}

/// A decoded strategy: the selected ticker and technical names.
#[derive(Clone, Debug, PartialEq, Eq)]
pub struct TradingStrategy {
    pub n: usize,
    pub d: usize,
    pub interval: Interval,
    pub tickers: Vec<String>,
    pub symbol: String,
    pub technicals: Vec<String>,
}

/// The description of a strategy: symbol, interval, components, depth and the
/// selected tickers and technicals.
pub open spec fn strategy_text(st: TradingStrategy) -> Seq<char> {
    "Strategy(Symbol: "@ + st.symbol@ + ", Interval: "@ + spec_label(st.interval) + ", n: "@
        + decimal(st.n as nat) + ", d: "@ + decimal(st.d as nat) + ", Features: ["@
        + comma_joined(st.tickers@) + "], Techs: ["@ + comma_joined(st.technicals@) + "])"@
}

impl TradingStrategy {
    /// Describes the strategy, as it is shown in logs and the optimisation summary.
    pub fn to_string(&self) -> (r: String)
        ensures
            r@ == strategy_text(*self),
    {
        let mut r = owned("Strategy(Symbol: ");
        r.append(self.symbol.as_str());
        r.append(", Interval: ");
        r.append(self.interval.to_string().as_str());
        r.append(", n: ");
        r.append(decimal_string(self.n as u64).as_str());
        r.append(", d: ");
        r.append(decimal_string(self.d as u64).as_str());
        r.append(", Features: [");
        r.append(join_commas(self.tickers.as_slice()).as_str());
        r.append("], Techs: [");
        r.append(join_commas(self.technicals.as_slice()).as_str());
        r.append("])");
        assert(r@ =~= strategy_text(*self));
        r
    }

    pub fn new(
        n: usize,
        d: usize,
        interval: Interval,
        tickers: Vec<String>,
        symbol: String,
        technicals: Vec<String>,
    ) -> (r: Self)
        ensures
            r.n == n,
            r.d == d,
            r.interval == interval,
            r.tickers@ == tickers@,
            r.symbol == symbol,
            r.technicals@ == technicals@,
    {
        Self { n, d, interval, tickers, symbol, technicals }
    }
}

/// What decoding a genome gives: the error kind and message, or the decoded names.
pub open spec fn phenotype_outcome(
    g: TradingStrategyGenome,
    tickers: Seq<String>,
    technicals: Seq<String>,
    r: Result<TradingStrategy, KryptoError>,
) -> bool {
    if g.tickers@.len() != tickers.len() {
        r matches Err(KryptoError::ConfigError(m))
            && m@ == mismatch_message("tickers"@, g.tickers@.len(), tickers.len())
    } else if g.technicals@.len() != technicals.len() {
        r matches Err(KryptoError::ConfigError(m))
            && m@ == mismatch_message("technicals"@, g.technicals@.len(), technicals.len())
    } else if !any_true(g.tickers@) {
        r matches Err(KryptoError::FitnessCalculationError(m))
            && m@ == "Genome resulted in empty tickers list."@
    } else if !any_true(g.technicals@) {
        r matches Err(KryptoError::FitnessCalculationError(m))
            && m@ == "Genome resulted in empty technicals list."@
    } else {
        r matches Ok(st) && st.n == g.n && st.d == g.d && st.interval == g.interval
            && st.symbol == g.symbol
            && st.tickers@ == selected(g.tickers@, tickers)
            && st.technicals@ == selected(g.technicals@, technicals)
    }
}

impl TradingStrategyGenome {
    /// Decodes the genome against the available ticker and technical names.
    pub fn to_phenotype(
        &self,
        available_tickers: &[String],
        available_technicals: &[String],
    ) -> (r: Result<TradingStrategy, KryptoError>)
        ensures
            phenotype_outcome(*self, available_tickers@, available_technicals@, r),
    {
        if self.tickers.len() != available_tickers.len() {
            return Err(KryptoError::ConfigError(mismatch(
                "tickers",
                self.tickers.len(),
                available_tickers.len(),
            )));
        }
        if self.technicals.len() != available_technicals.len() {
            return Err(KryptoError::ConfigError(mismatch(
                "technicals",
                self.technicals.len(),
                available_technicals.len(),
            )));
        }
        let tickers = select_names(&self.tickers, available_tickers);
        let technicals = select_names(&self.technicals, available_technicals);
        proof {
            lemma_selected_len(self.tickers@, available_tickers@);
            lemma_selected_len(self.technicals@, available_technicals@);
            lemma_count_positive(self.tickers@);
            lemma_count_positive(self.technicals@);
        }
        if tickers.len() == 0 {
            return Err(KryptoError::FitnessCalculationError(owned(
                "Genome resulted in empty tickers list.",
            )));
        }
        if technicals.len() == 0 {
            return Err(KryptoError::FitnessCalculationError(owned(
                "Genome resulted in empty technicals list.",
            )));
        }
        Ok(TradingStrategy::new(
            self.n,
            self.d,
            self.interval,
            tickers,
            self.symbol.clone(),
            technicals,
        ))
    }
}

/// The mask whose entries come from the second mask where `take_second` says so.
pub open spec fn mixed(first: Seq<bool>, second: Seq<bool>, take_second: Seq<bool>) -> Seq<bool> {
    Seq::new(first.len(), |i: int| if i < second.len() && take_second[i] { second[i] } else { first[i] })
}

/// The mask with entry `fallback` set when no entry was set.
pub open spec fn repaired(mask: Seq<bool>, fallback: int) -> Seq<bool> {
    if !any_true(mask) && mask.len() > 0 { mask.update(fallback, true) } else { mask }
}

/// The mask with the entry of the target symbol set, where the symbol has one inside the mask.
pub open spec fn ensure_target(mask: Seq<bool>, available: Seq<String>, symbol: String) -> Seq<bool> {
    match first_index(available, symbol) {
        Some(i) => if i < mask.len() { mask.update(i, true) } else { mask },
        None => mask,
    }
}

/// Like `ensure_target`, but setting the first entry where the symbol has no entry in the mask.
pub open spec fn force_target(mask: Seq<bool>, available: Seq<String>, symbol: String) -> Seq<bool> {
    match first_index(available, symbol) {
        Some(i) => if i < mask.len() {
            mask.update(i, true)
        } else if mask.len() > 0 {
            mask.update(0, true)
        } else {
            mask
        },
        None => if mask.len() > 0 { mask.update(0, true) } else { mask },
    }
}

/// The mask with the entries flipped where `flips` is set.
pub open spec fn flipped(mask: Seq<bool>, flips: Seq<bool>) -> Seq<bool> {
    Seq::new(mask.len(), |i: int| mask[i] != flips[i])
}

/// The number of model inputs that a depth and two masks give.
pub open spec fn feature_dimension(d: int, tickers: Seq<bool>, technicals: Seq<bool>) -> int {
    d * count_true(tickers) * count_true(technicals)
}

/// The smaller of two numbers.
pub open spec fn min(a: int, b: int) -> int {
    if a <= b { a } else { b }
}

/// The larger of two numbers.
pub open spec fn max(a: int, b: int) -> int {
    if a >= b { a } else { b }
}

/// The feature dimension never exceeds the one of full masks.
pub proof fn lemma_dimension_bounded(d: int, tickers: Seq<bool>, technicals: Seq<bool>)
    requires
        d >= 0,
    ensures
        0 <= feature_dimension(d, tickers, technicals) <= d * tickers.len() * technicals.len(),
{
    lemma_count_bounded(tickers);
    lemma_count_bounded(technicals);
    let ct = count_true(tickers) as int;
    let ck = count_true(technicals) as int;
    let lt = tickers.len() as int;
    let lk = technicals.len() as int;
    assert(0 <= d * ct * ck <= d * lt * lk) by (nonlinear_arith)
        requires
            d >= 0,
            0 <= ct <= lt,
            0 <= ck <= lk,
    ;
}

/// Setting an entry makes the mask have a set entry.
pub proof fn lemma_update_true(mask: Seq<bool>, i: int)
    requires
        0 <= i < mask.len(),
    ensures
        any_true(mask.update(i, true)),
{
    assert(mask.update(i, true)[i]);
}

/// A mask with a set entry keeps one after any entry is set.
pub proof fn lemma_any_update(mask: Seq<bool>, i: int)
    requires
        any_true(mask),
        0 <= i < mask.len(),
    ensures
        any_true(mask.update(i, true)),
{
    lemma_update_true(mask, i);
}

/// After repair, a non-empty mask has a set entry.
pub proof fn lemma_repaired(mask: Seq<bool>, fallback: int)
    requires
        mask.len() > 0 ==> 0 <= fallback < mask.len(),
    ensures
        repaired(mask, fallback).len() == mask.len(),
        mask.len() > 0 ==> any_true(repaired(mask, fallback)),
{
    if !any_true(mask) && mask.len() > 0 {
        lemma_update_true(mask, fallback);
    }
}

fn set_entry(mask: &mut Vec<bool>, i: usize)
    requires
        i < old(mask).len(),
    ensures
        final(mask)@ == old(mask)@.update(i as int, true),
{
    mask.set(i, true);
}

fn any_selected(mask: &Vec<bool>) -> (r: bool)
    ensures
        r == any_true(mask@),
{
    let c = count_selected(mask);
    proof { lemma_count_positive(mask@); }
    c > 0
}

fn repair(mask: &mut Vec<bool>, fallback: usize)
    requires
        old(mask).len() > 0 ==> fallback < old(mask).len(),
    ensures
        final(mask)@ == repaired(old(mask)@, fallback as int),
{
    if !any_selected(mask) && mask.len() > 0 {
        set_entry(mask, fallback);
    }
}

/// The random draws that building one genome consumes.
pub struct GenomeDraws {
    /// Index of the traded symbol among the available tickers.
    pub target_index: usize,
    /// Indices of the additional tickers (their number is itself a draw below the ticker count).
    pub additional: Vec<usize>,
    /// For each available technical, whether it is picked.
    pub technical_picks: Vec<bool>,
    /// The technical picked when no other is.
    pub technical_fallback: usize,
    /// The depth, between one and the maximum depth.
    pub depth: usize,
    /// Index of the interval among the available intervals.
    pub interval_index: usize,
}

/// Builds random genomes over the available tickers, intervals and technicals.
pub struct TradingStrategyGenomeBuilder {
    pub available_tickers: Vec<String>,
    pub available_intervals: Vec<Interval>,
    pub available_technicals: Vec<String>,
    pub max_depth: usize,
    pub max_n: usize,
}

/// The ticker mask of a built genome: the target and the additional indices.
pub open spec fn built_ticker_mask(len: nat, target: int, additional: Seq<usize>) -> Seq<bool> {
    Seq::new(len, |i: int| i == target || additional.contains(i as usize))
}

impl TradingStrategyGenomeBuilder {
    /// The builder is usable: every list is non-empty and both maxima are positive.
    pub open spec fn valid(&self) -> bool {
        &&& self.available_tickers@.len() > 0
        &&& self.available_intervals@.len() > 0
        &&& self.available_technicals@.len() > 0
        &&& self.max_depth > 0
        &&& self.max_n > 0
        &&& self.max_depth * self.available_tickers@.len() <= usize::MAX
        &&& self.max_depth * self.available_tickers@.len() * self.available_technicals@.len() <= usize::MAX
    }

    /// Whether a set of draws lies in the ranges that the builder draws from.
    pub open spec fn draws_in_range(&self, g: GenomeDraws) -> bool {
        &&& g.target_index < self.available_tickers@.len()
        &&& g.additional@.len() < self.available_tickers@.len()
        &&& forall|k: int| 0 <= k < g.additional@.len() ==> g.additional@[k] < self.available_tickers@.len()
        &&& g.technical_picks@.len() == self.available_technicals@.len()
        &&& g.technical_fallback < self.available_technicals@.len()
        &&& 1 <= g.depth <= self.max_depth
        &&& g.interval_index < self.available_intervals@.len()
    }

    /// The ticker mask that a set of draws gives.
    pub open spec fn spec_ticker_mask(&self, g: GenomeDraws) -> Seq<bool> {
        built_ticker_mask(self.available_tickers@.len(), g.target_index as int, g.additional@)
    }

    /// The technical mask that a set of draws gives.
    pub open spec fn spec_technical_mask(&self, g: GenomeDraws) -> Seq<bool> {
        repaired(g.technical_picks@, g.technical_fallback as int)
    }

    /// The largest number of components that a set of draws allows.
    pub open spec fn spec_cap(&self, g: GenomeDraws) -> int {
        min(
            feature_dimension(g.depth as int, self.spec_ticker_mask(g), self.spec_technical_mask(g)),
            self.max_n as int,
        )
    }

    /// Creates a builder; every list must be non-empty and both maxima positive.
    pub fn new(
        available_tickers: Vec<String>,
        available_intervals: Vec<Interval>,
        available_technicals: Vec<String>,
        max_depth: usize,
        max_n: usize,
    ) -> (r: Self)
        requires
            available_tickers@.len() > 0,
            available_intervals@.len() > 0,
            available_technicals@.len() > 0,
            max_depth > 0,
            max_n > 0,
        ensures
            r.available_tickers@ == available_tickers@,
            r.available_intervals@ == available_intervals@,
            r.available_technicals@ == available_technicals@,
            r.max_depth == max_depth,
            r.max_n == max_n,
    {
        Self { available_tickers, available_intervals, available_technicals, max_depth, max_n }
    }

    /// The ticker mask: the target and every additional index set; and the target symbol.
    pub fn generate_tickers(&self, target_index: usize, additional: &Vec<usize>) -> (r: (Vec<bool>, String))
        requires
            target_index < self.available_tickers@.len(),
            forall|k: int| 0 <= k < additional@.len() ==> additional@[k] < self.available_tickers@.len(),
        ensures
            r.0@ == built_ticker_mask(self.available_tickers@.len(), target_index as int, additional@),
            r.1 == self.available_tickers@[target_index as int],
    {
        let num = self.available_tickers.len();
        let mut mask: Vec<bool> = Vec::new();
        let mut i: usize = 0;
        while i < num
            invariant
                i <= num,
                num == self.available_tickers@.len(),
                mask@ == Seq::new(i as nat, |j: int| false),
            decreases num - i,
        {
            mask.push(false);
            i = i + 1;
            assert(mask@ =~= Seq::new(i as nat, |j: int| false));
        }
        let target_symbol = self.available_tickers[target_index].clone();
        set_entry(&mut mask, target_index);
        let mut k: usize = 0;
        while k < additional.len()
            invariant
                k <= additional@.len(),
                num == self.available_tickers@.len(),
                target_index < num,
                forall|q: int| 0 <= q < additional@.len() ==> additional@[q] < num,
                mask@ == built_ticker_mask(num as nat, target_index as int, additional@.take(k as int)),
            decreases additional.len() - k,
        {
            let idx = additional[k];
            set_entry(&mut mask, idx);
            proof {
                let next = additional@.take(k + 1);
                assert(next =~= additional@.take(k as int).push(idx));
                assert forall|j: int| 0 <= j < num implies mask@[j] == (j == target_index
                    || next.contains(j as usize)) by {
                    if j == idx {
                        assert(next[k as int] == idx);
                    }
                    if next.contains(j as usize) && j != idx {
                        let q = choose|q: int| 0 <= q < next.len() && next[q] == j as usize;
                        assert(additional@.take(k as int)[q] == j as usize);
                    }
                }
                assert(mask@ =~= built_ticker_mask(num as nat, target_index as int, next));
            }
            k = k + 1;
        }
        assert(additional@.take(additional.len() as int) =~= additional@);
        (mask, target_symbol)
    }

    /// The technical mask: the picks, or the fallback alone when nothing was picked.
    pub fn generate_technicals(&self, picks: &Vec<bool>, fallback: usize) -> (r: Vec<bool>)
        requires
            picks@.len() == self.available_technicals@.len(),
            fallback < self.available_technicals@.len(),
        ensures
            r@ == repaired(picks@, fallback as int),
    {
        let mut mask = picks.clone();
        assert(mask@ =~= picks@);
        repair(&mut mask, fallback);
        mask
    }

    /// The largest number of components that the draws allow (the draw of `n`
    /// lies between one and this number when it is positive).
    pub fn components_cap(&self, draws: &GenomeDraws) -> (r: usize)
        requires
            self.valid(),
            self.draws_in_range(*draws),
        ensures
            r == self.spec_cap(*draws),
    {
        let (tickers, _symbol) = self.generate_tickers(draws.target_index, &draws.additional);
        let technicals = self.generate_technicals(&draws.technical_picks, draws.technical_fallback);
        cap_components(draws.depth, &tickers, &technicals, self.max_n, self.max_depth,
            self.available_tickers.len(), self.available_technicals.len())
    }

    /// Builds a genome from its draws; `n_draw` is used when the cap is positive.
    pub fn build_genome(&self, draws: &GenomeDraws, n_draw: usize) -> (r: TradingStrategyGenome)
        requires
            self.valid(),
            self.draws_in_range(*draws),
            self.spec_cap(*draws) > 0 ==> 1 <= n_draw <= self.spec_cap(*draws),
        ensures
            r.tickers@ == self.spec_ticker_mask(*draws),
            r.symbol == self.available_tickers@[draws.target_index as int],
            r.technicals@ == self.spec_technical_mask(*draws),
            r.d == draws.depth,
            r.interval == self.available_intervals@[draws.interval_index as int],
            r.n == (if self.spec_cap(*draws) > 0 { n_draw as int } else { 1 }),
            // every built genome decodes: a ticker and a technical are selected
            any_true(r.tickers@),
            any_true(r.technicals@),
            r.tickers@[draws.target_index as int],
            1 <= r.n <= max(self.spec_cap(*draws), 1),
    {
        let (tickers, symbol) = self.generate_tickers(draws.target_index, &draws.additional);
        let technicals = self.generate_technicals(&draws.technical_picks, draws.technical_fallback);
        let cap = cap_components(draws.depth, &tickers, &technicals, self.max_n, self.max_depth,
            self.available_tickers.len(), self.available_technicals.len());
        let n = if cap > 0 { n_draw } else { 1 };
        proof {
            assert(tickers@[draws.target_index as int]);
            lemma_repaired(draws.technical_picks@, draws.technical_fallback as int);
        }
        TradingStrategyGenome {
            n,
            d: draws.depth,
            interval: self.available_intervals[draws.interval_index],
            tickers,
            symbol,
            technicals,
        }
    }
}

/// `min(d * selected tickers * selected technicals, max_n)`.
fn cap_components(
    d: usize,
    tickers: &Vec<bool>,
    technicals: &Vec<bool>,
    max_n: usize,
    max_d: usize,
    len_t: usize,
    len_k: usize,
) -> (r: usize)
    requires
        d <= max_d,
        tickers@.len() == len_t,
        technicals@.len() == len_k,
        max_d * len_t <= usize::MAX,
        max_d * len_t * len_k <= usize::MAX,
    ensures
        r == min(feature_dimension(d as int, tickers@, technicals@), max_n as int),
{
    let fd = dimension(d, tickers, technicals, max_d, len_t, len_k);
    if fd <= max_n { fd } else { max_n }
}

/// `d * selected tickers * selected technicals`.
fn dimension(
    d: usize,
    tickers: &Vec<bool>,
    technicals: &Vec<bool>,
    max_d: usize,
    len_t: usize,
    len_k: usize,
) -> (r: usize)
    requires
        d <= max_d,
        tickers@.len() == len_t,
        technicals@.len() == len_k,
        max_d * len_t <= usize::MAX,
        max_d * len_t * len_k <= usize::MAX,
    ensures
        r == feature_dimension(d as int, tickers@, technicals@),
{
    let ct = count_selected(tickers);
    let ck = count_selected(technicals);
    proof {
        lemma_count_bounded(tickers@);
        lemma_count_bounded(technicals@);
        lemma_dimension_bounded(d as int, tickers@, technicals@);
        let dd = d as int;
        let md = max_d as int;
        let lt = len_t as int;
        let lk = len_k as int;
        assert(dd * lt * lk <= md * lt * lk) by (nonlinear_arith)
            requires
                0 <= dd <= md,
                0 <= lt,
                0 <= lk,
        ;
        assert(0 <= dd * ct <= dd * lt <= md * lt) by (nonlinear_arith)
            requires
                0 <= dd <= md,
                0 <= ct <= lt,
        ;
    }
    d * ct * ck
}

fn mix(first: &Vec<bool>, second: &Vec<bool>, take_second: &Vec<bool>) -> (r: Vec<bool>)
    requires
        take_second@.len() >= min(first@.len() as int, second@.len() as int),
    ensures
        r@ == mixed(first@, second@, take_second@),
{
    let mut m: Vec<bool> = Vec::new();
    let mut i: usize = 0;
    while i < first.len()
        invariant
            i <= first@.len(),
            take_second@.len() >= min(first@.len() as int, second@.len() as int),
            m@ == mixed(first@, second@, take_second@).take(i as int),
        decreases first.len() - i,
    {
        let bit = if i < second.len() && take_second[i] { second[i] } else { first[i] };
        m.push(bit);
        i = i + 1;
        assert(m@ =~= mixed(first@, second@, take_second@).take(i as int));
    }
    assert(mixed(first@, second@, take_second@).take(first@.len() as int) =~= mixed(first@, second@, take_second@));
    m
}

fn flip(mask: &Vec<bool>, flips: &Vec<bool>) -> (r: Vec<bool>)
    requires
        flips@.len() == mask@.len(),
    ensures
        r@ == flipped(mask@, flips@),
{
    let mut m: Vec<bool> = Vec::new();
    let mut i: usize = 0;
    while i < mask.len()
        invariant
            i <= mask@.len(),
            flips@.len() == mask@.len(),
            m@ == flipped(mask@, flips@).take(i as int),
        decreases mask.len() - i,
    {
        m.push(mask[i] != flips[i]);
        i = i + 1;
        assert(m@ =~= flipped(mask@, flips@).take(i as int));
    }
    assert(flipped(mask@, flips@).take(mask@.len() as int) =~= flipped(mask@, flips@));
    m
}

fn ensure_target_in(mask: &mut Vec<bool>, available: &[String], symbol: &String)
    ensures
        final(mask)@ == ensure_target(old(mask)@, available@, *symbol),
{
    match position_of(available, symbol) {
        Some(i) => {
            if i < mask.len() {
                set_entry(mask, i);
            }
        },
        None => {},
    }
}

/// Setting entries keeps a set entry, and `ensure_target` sets the target's entry.
pub proof fn lemma_ensure_target(mask: Seq<bool>, available: Seq<String>, symbol: String)
    ensures
        ensure_target(mask, available, symbol).len() == mask.len(),
        any_true(mask) ==> any_true(ensure_target(mask, available, symbol)),
        first_index(available, symbol) matches Some(i) ==> (i < mask.len() ==> ensure_target(mask, available, symbol)[i]),
{
    lemma_first_index(available, symbol);
    if let Some(i) = first_index(available, symbol) {
        if i < mask.len() && any_true(mask) {
            lemma_any_update(mask, i);
        }
    }
}

/// `force_target` leaves every non-empty mask with a set entry, and sets the target's entry.
pub proof fn lemma_force_target(mask: Seq<bool>, available: Seq<String>, symbol: String)
    ensures
        force_target(mask, available, symbol).len() == mask.len(),
        mask.len() > 0 ==> any_true(force_target(mask, available, symbol)),
        first_index(available, symbol) matches Some(i) ==> (i < mask.len() ==> force_target(mask, available, symbol)[i]),
{
    lemma_first_index(available, symbol);
    if mask.len() > 0 {
        match first_index(available, symbol) {
            Some(i) => if i < mask.len() { lemma_update_true(mask, i); } else { lemma_update_true(mask, 0); },
            None => lemma_update_true(mask, 0),
        }
    }
}

/// The random draws that one crossover consumes.
pub struct CrossoverDraws {
    /// Whether the child takes the first parent's interval.
    pub interval_from_first: bool,
    /// Whether the child takes the first parent's symbol.
    pub symbol_from_first: bool,
    /// For each ticker entry both parents have, whether the child takes the second parent's.
    pub tickers_from_second: Vec<bool>,
    /// For each technical entry both parents have, whether the child takes the second parent's.
    pub technicals_from_second: Vec<bool>,
    /// The ticker entry set when the mixed mask has none.
    pub ticker_fallback: usize,
    /// The technical entry set when the mixed mask has none.
    pub technical_fallback: usize,
}

/// Uniform crossover of two genomes, repaired so that the child decodes.
#[derive(Clone, Debug)]
pub struct TradingStrategyCrossover {
    pub available_tickers: std::sync::Arc<Vec<String>>,
}

/// The child's depth: the parents' average, at least one.
pub open spec fn child_depth(p1: TradingStrategyGenome, p2: TradingStrategyGenome) -> int {
    max((p1.d + p2.d) / 2, 1)
}

/// The child's symbol.
pub open spec fn child_symbol(p1: TradingStrategyGenome, p2: TradingStrategyGenome, draws: CrossoverDraws) -> String {
    if draws.symbol_from_first { p1.symbol } else { p2.symbol }
}

/// The child's ticker mask.
pub open spec fn child_tickers(
    available: Seq<String>,
    p1: TradingStrategyGenome,
    p2: TradingStrategyGenome,
    draws: CrossoverDraws,
) -> Seq<bool> {
    force_target(
        repaired(mixed(p1.tickers@, p2.tickers@, draws.tickers_from_second@), draws.ticker_fallback as int),
        available,
        child_symbol(p1, p2, draws),
    )
}

/// The child's technical mask.
pub open spec fn child_technicals(p1: TradingStrategyGenome, p2: TradingStrategyGenome, draws: CrossoverDraws) -> Seq<bool> {
    repaired(mixed(p1.technicals@, p2.technicals@, draws.technicals_from_second@), draws.technical_fallback as int)
}

/// The child's number of components: the parents' average, clamped to the feature dimension.
pub open spec fn child_components(
    available: Seq<String>,
    p1: TradingStrategyGenome,
    p2: TradingStrategyGenome,
    draws: CrossoverDraws,
) -> int {
    let fd = feature_dimension(child_depth(p1, p2), child_tickers(available, p1, p2, draws), child_technicals(p1, p2, draws));
    let n0 = max((p1.n + p2.n) / 2, 1);
    if fd > 0 { min(n0, fd) } else { 1 }
}

impl TradingStrategyCrossover {
    /// Whether the draws cover the parents' masks.
    pub open spec fn draws_fit(p1: TradingStrategyGenome, p2: TradingStrategyGenome, draws: CrossoverDraws) -> bool {
        &&& draws.tickers_from_second@.len() >= min(p1.tickers@.len() as int, p2.tickers@.len() as int)
        &&& draws.technicals_from_second@.len() >= min(p1.technicals@.len() as int, p2.technicals@.len() as int)
        &&& p1.tickers@.len() > 0 ==> draws.ticker_fallback < p1.tickers@.len()
        &&& p1.technicals@.len() > 0 ==> draws.technical_fallback < p1.technicals@.len()
    }

    /// Crosses two parents into one child.
    pub fn crossover_with(
        &self,
        parent1: &TradingStrategyGenome,
        parent2: &TradingStrategyGenome,
        draws: &CrossoverDraws,
    ) -> (child: TradingStrategyGenome)
        requires
            Self::draws_fit(*parent1, *parent2, *draws),
            parent1.d + parent2.d <= usize::MAX,
            parent1.n + parent2.n <= usize::MAX,
            child_depth(*parent1, *parent2) * parent1.tickers@.len() <= usize::MAX,
            child_depth(*parent1, *parent2) * parent1.tickers@.len() * parent1.technicals@.len() <= usize::MAX,
        ensures
            child.interval == (if draws.interval_from_first { parent1.interval } else { parent2.interval }),
            child.symbol == child_symbol(*parent1, *parent2, *draws),
            // the child takes its symbol from the parent the draw picks
            draws.symbol_from_first ==> child.symbol == parent1.symbol,
            !draws.symbol_from_first ==> child.symbol == parent2.symbol,
            child.d == child_depth(*parent1, *parent2),
            // its depth is the parents' average, at least one
            child.d == (if (parent1.d + parent2.d) / 2 >= 1 { (parent1.d + parent2.d) / 2 } else { 1 }),
            child.tickers@ == child_tickers(self.available_tickers@, *parent1, *parent2, *draws),
            child.technicals@ == child_technicals(*parent1, *parent2, *draws),
            child.n == child_components(self.available_tickers@, *parent1, *parent2, *draws),
            // the child decodes whenever the masks are non-empty
            child.tickers@.len() == parent1.tickers@.len(),
            child.technicals@.len() == parent1.technicals@.len(),
            parent1.tickers@.len() > 0 ==> any_true(child.tickers@),
            parent1.technicals@.len() > 0 ==> any_true(child.technicals@),
            first_index(self.available_tickers@, child.symbol) matches Some(i)
                ==> (i < child.tickers@.len() ==> child.tickers@[i]),
            1 <= child.n,
            feature_dimension(child.d as int, child.tickers@, child.technicals@) > 0
                ==> child.n <= feature_dimension(child.d as int, child.tickers@, child.technicals@),
    {
        let interval = if draws.interval_from_first { parent1.interval } else { parent2.interval };
        let symbol = if draws.symbol_from_first { parent1.symbol.clone() } else { parent2.symbol.clone() };
        let half_d = (parent1.d + parent2.d) / 2;
        let d = if half_d >= 1 { half_d } else { 1 };

        let mut tickers = mix(&parent1.tickers, &parent2.tickers, &draws.tickers_from_second);
        repair(&mut tickers, draws.ticker_fallback);
        let ghost before_target = tickers@;
        let available: &Vec<String> = &*self.available_tickers;
        match position_of(available.as_slice(), &symbol) {
            Some(i) => {
                if i < tickers.len() {
                    set_entry(&mut tickers, i);
                } else if tickers.len() > 0 {
                    set_entry(&mut tickers, 0);
                }
            },
            None => {
                if tickers.len() > 0 {
                    set_entry(&mut tickers, 0);
                }
            },
        }
        assert(tickers@ == force_target(before_target, available@, symbol));

        let mut technicals = mix(&parent1.technicals, &parent2.technicals, &draws.technicals_from_second);
        repair(&mut technicals, draws.technical_fallback);

        proof {
            lemma_repaired(mixed(parent1.tickers@, parent2.tickers@, draws.tickers_from_second@), draws.ticker_fallback as int);
            lemma_repaired(mixed(parent1.technicals@, parent2.technicals@, draws.technicals_from_second@), draws.technical_fallback as int);
            lemma_force_target(before_target, available@, symbol);
        }
        let fd = dimension(d, &tickers, &technicals, d, tickers.len(), technicals.len());
        let half_n = (parent1.n + parent2.n) / 2;
        let mut n = if half_n >= 1 { half_n } else { 1 };
        if fd > 0 {
            if fd < n {
                n = fd;
            }
        } else {
            n = 1;
        }
        TradingStrategyGenome { n, d, interval, tickers, symbol, technicals }
    }
}

/// The random draws that one mutation consumes.
pub struct MutationDraws {
    /// The new interval's index, when the interval mutates.
    pub interval_index: Option<usize>,
    /// The new symbol's index among the available tickers, when the symbol mutates.
    pub symbol_index: Option<usize>,
    /// For each ticker entry, whether it flips.
    pub ticker_flips: Vec<bool>,
    /// The ticker entry set when no entry is left set.
    pub ticker_fallback: usize,
    /// For each technical entry, whether it flips.
    pub technical_flips: Vec<bool>,
    /// The technical entry set when no entry is left set.
    pub technical_fallback: usize,
    /// The new depth, when the depth mutates.
    pub depth: Option<usize>,
}

/// Whether mutation draws fit a genome and the available lists.
pub open spec fn mutation_draws_fit(
    g: TradingStrategyGenome,
    available_tickers: Seq<String>,
    available_intervals: Seq<Interval>,
    max_depth: usize,
    draws: MutationDraws,
) -> bool {
    &&& draws.interval_index matches Some(k) ==> k < available_intervals.len()
    &&& draws.symbol_index matches Some(k) ==> k < available_tickers.len()
    &&& draws.ticker_flips@.len() == g.tickers@.len()
    &&& g.tickers@.len() > 0 ==> draws.ticker_fallback < g.tickers@.len()
    &&& draws.technical_flips@.len() == g.technicals@.len()
    &&& g.technicals@.len() > 0 ==> draws.technical_fallback < g.technicals@.len()
    &&& draws.depth matches Some(x) ==> 1 <= x <= max_depth
}

/// The symbol after mutation.
pub open spec fn mutated_symbol(g: TradingStrategyGenome, available_tickers: Seq<String>, draws: MutationDraws) -> String {
    match draws.symbol_index {
        Some(k) => available_tickers[k as int],
        None => g.symbol,
    }
}

/// The ticker mask after mutation.
pub open spec fn mutated_tickers(g: TradingStrategyGenome, available_tickers: Seq<String>, draws: MutationDraws) -> Seq<bool> {
    let symbol = mutated_symbol(g, available_tickers, draws);
    let t1 = if draws.symbol_index is Some { ensure_target(g.tickers@, available_tickers, symbol) } else { g.tickers@ };
    let t3 = repaired(flipped(t1, draws.ticker_flips@), draws.ticker_fallback as int);
    ensure_target(t3, available_tickers, symbol)
}

/// The number of components that settling gives.
pub open spec fn settled_components(g: TradingStrategyGenome, max_n: int, redraw: bool, n_draw: int) -> int {
    let cap = min(feature_dimension(g.d as int, g.tickers@, g.technicals@), max_n);
    let n1 = if redraw || g.n > cap { if cap > 0 { n_draw } else { 1 } } else { g.n as int };
    let n2 = max(n1, 1);
    if cap > 0 { min(n2, cap) } else { 1 }
}

impl TradingStrategyGenome {
    /// `min(d * selected tickers * selected technicals, max_n)`, the range of the
    /// number of components.
    pub fn components_cap(&self, max_n: usize) -> (r: usize)
        requires
            self.d * self.tickers@.len() <= usize::MAX,
            self.d * self.tickers@.len() * self.technicals@.len() <= usize::MAX,
        ensures
            r == min(feature_dimension(self.d as int, self.tickers@, self.technicals@), max_n as int),
    {
        cap_components(self.d, &self.tickers, &self.technicals, max_n, self.d, self.tickers.len(), self.technicals.len())
    }

    /// Mutates the interval, symbol, masks and depth, repairing the masks so that the genome decodes.
    pub fn mutate_masks(
        self,
        available_tickers: &[String],
        available_intervals: &[Interval],
        max_depth: usize,
        draws: &MutationDraws,
    ) -> (r: TradingStrategyGenome)
        requires
            mutation_draws_fit(self, available_tickers@, available_intervals@, max_depth, *draws),
        ensures
            r.interval == (match draws.interval_index {
                Some(k) => available_intervals@[k as int],
                None => self.interval,
            }),
            r.symbol == mutated_symbol(self, available_tickers@, *draws),
            r.tickers@ == mutated_tickers(self, available_tickers@, *draws),
            r.technicals@ == repaired(flipped(self.technicals@, draws.technical_flips@), draws.technical_fallback as int),
            r.d == (match draws.depth { Some(x) => x, None => self.d }),
            r.n == self.n,
            r.tickers@.len() == self.tickers@.len(),
            r.technicals@.len() == self.technicals@.len(),
            self.tickers@.len() > 0 ==> any_true(r.tickers@),
            self.technicals@.len() > 0 ==> any_true(r.technicals@),
            first_index(available_tickers@, r.symbol) matches Some(i) ==> (i < r.tickers@.len() ==> r.tickers@[i]),
    {
        let mut genome = self;
        match draws.interval_index {
            Some(k) => { genome.interval = available_intervals[k]; },
            None => {},
        }
        let ghost t0 = genome.tickers@;
        match draws.symbol_index {
            Some(k) => {
                genome.symbol = available_tickers[k].clone();
                ensure_target_in(&mut genome.tickers, available_tickers, &genome.symbol);
            },
            None => {},
        }
        let ghost t1 = genome.tickers@;
        proof { lemma_ensure_target(t0, available_tickers@, genome.symbol); }
        let mut tickers = flip(&genome.tickers, &draws.ticker_flips);
        repair(&mut tickers, draws.ticker_fallback);
        let ghost t3 = tickers@;
        ensure_target_in(&mut tickers, available_tickers, &genome.symbol);
        proof {
            lemma_repaired(flipped(t1, draws.ticker_flips@), draws.ticker_fallback as int);
            lemma_ensure_target(t3, available_tickers@, genome.symbol);
        }
        genome.tickers = tickers;

        let mut technicals = flip(&genome.technicals, &draws.technical_flips);
        repair(&mut technicals, draws.technical_fallback);
        proof {
            lemma_repaired(flipped(self.technicals@, draws.technical_flips@), draws.technical_fallback as int);
        }
        genome.technicals = technicals;

        match draws.depth {
            Some(x) => { genome.d = x; },
            None => {},
        }
        genome
    }

    /// Settles the number of components after a mutation: redrawn when the
    /// mutation fires or when it exceeds the cap, then clamped to `[1, cap]`.
    pub fn settle_components(self, max_n: usize, redraw: bool, n_draw: usize) -> (r: TradingStrategyGenome)
        requires
            self.d * self.tickers@.len() <= usize::MAX,
            self.d * self.tickers@.len() * self.technicals@.len() <= usize::MAX,
        ensures
            r.n == settled_components(self, max_n as int, redraw, n_draw as int),
            r.d == self.d,
            r.interval == self.interval,
            r.symbol == self.symbol,
            r.tickers@ == self.tickers@,
            r.technicals@ == self.technicals@,
            // the number of components lies in [1, cap], or is 1 when the cap is 0
            min(feature_dimension(self.d as int, self.tickers@, self.technicals@), max_n as int) > 0 ==>
                1 <= r.n <= min(feature_dimension(self.d as int, self.tickers@, self.technicals@), max_n as int),
            min(feature_dimension(self.d as int, self.tickers@, self.technicals@), max_n as int) == 0 ==> r.n == 1,
    {
        let cap = self.components_cap(max_n);
        let mut genome = self;
        if redraw || genome.n > cap {
            genome.n = if cap > 0 { n_draw } else { 1 };
        }
        if genome.n < 1 {
            genome.n = 1;
        }
        if cap > 0 {
            if genome.n > cap {
                genome.n = cap;
            }
        } else {
            genome.n = 1;
        }
        genome
    }
}

/// Truncating division, as Rust's `/` on signed integers computes it.
pub open spec fn trunc_div(a: int, b: int) -> int {
    if a >= 0 { a / b } else { -((-a) / b) }
}

/// The sum of a sequence of fitness values.
pub open spec fn fitness_sum(v: Seq<i64>) -> int
    decreases v.len(),
{
    if v.len() == 0 { 0 } else { fitness_sum(v.drop_last()) + v.last() }
}

/// The sum of `k` fitness values lies between `k` times the extremes of `i64`.
pub proof fn lemma_sum_bounds(v: Seq<i64>)
    ensures
        v.len() * i64::MIN <= fitness_sum(v) <= v.len() * i64::MAX,
    decreases v.len(),
{
    if v.len() > 0 {
        lemma_sum_bounds(v.drop_last());
    }
}

/// The average of fitness values, rounded toward zero; zero for no values.
pub fn average_fitness(fitness_values: &[i64]) -> (r: i64)
    ensures
        fitness_values@.len() == 0 ==> r == 0,
        fitness_values@.len() > 0 ==> r == trunc_div(fitness_sum(fitness_values@), fitness_values@.len() as int),
{
    if fitness_values.len() == 0 {
        return 0;
    }
    let mut sum: i128 = 0;
    let mut i: usize = 0;
    while i < fitness_values.len()
        invariant
            i <= fitness_values@.len(),
            sum == fitness_sum(fitness_values@.take(i as int)),
        decreases fitness_values.len() - i,
    {
        proof {
            assert(fitness_values@.take(i + 1).drop_last() =~= fitness_values@.take(i as int));
            lemma_sum_bounds(fitness_values@.take(i + 1));
        }
        sum = sum + fitness_values[i] as i128;
        i = i + 1;
    }
    assert(fitness_values@.take(fitness_values.len() as int) =~= fitness_values@);
    let len = fitness_values.len() as i128;
    proof { lemma_sum_bounds(fitness_values@); }
    let avg = if sum >= 0 { sum / len } else { -((-sum) / len) };
    proof {
        let s = sum as int;
        let l = len as int;
        if s >= 0 {
            assert(0 <= s / l <= s) by (nonlinear_arith) requires s >= 0, l >= 1;
            assert(s / l <= i64::MAX) by (nonlinear_arith) requires 0 <= s <= l * i64::MAX, l >= 1;
        } else {
            assert(0 <= (-s) / l <= -s) by (nonlinear_arith) requires -s > 0, l >= 1;
            assert((-s) / l <= -(i64::MIN as int)) by (nonlinear_arith) requires 0 < -s <= l * (-(i64::MIN as int)), l >= 1;
        }
    }
    avg as i64
}

/// The fitness assigned to the best possible strategy.
pub fn highest_possible_fitness() -> (r: i64)
    ensures
        r == i64::MAX / 2,
{
    i64::MAX / 2
}

/// The fitness assigned to a strategy that could not be evaluated.
pub fn lowest_possible_fitness() -> (r: i64)
    ensures
        r == i64::MIN / 2,
{
    i64::MIN / 2
}

} // verus!
