//! The chains of markets by which an amount in one currency is expressed in
//! another: from the start currency each step rebases the price through one
//! market, to its quote or to its base currency, until the end currency is
//! reached or the markets of the setting are used up.

use crate::common::{CurrencyCode, CurrencyPair, ExchangeAccountId, TradePlaceAccount};
use crate::currency_pair_metadata::CurrencyPairMetadata;
use crate::exchange::CurrencyPairToMetadataConverter;
use crate::decimal::Decimal;
use crate::vec_map::{lookup, Key, VecMap};
use vstd::prelude::*;

verus! {

/// Why the chains could not be built.
#[derive(Clone, Copy, Debug, PartialEq, Eq, Structural)]
pub enum ChainError {
    /// There are no settings.
    EmptySettings,
    /// A market of a setting is not described.
    UnknownMarket,
    /// No market is left that trades the currency that the chain has come
    /// to.
    NoPairForCurrency,
    /// More than one market trades the currency that the chain has come to.
    SeveralPairsForCurrency,
}

/// The direction of a step: to the quote currency of its market or to the
/// base currency.
#[derive(Clone, Copy, Debug, PartialEq, Eq, Structural)]
pub enum RebaseDirection {
    ToQuote,
    ToBase,
}

/// A step of a chain: a market of an exchange, and the direction in which
/// the price is rebased through it.
#[derive(Debug)]
pub struct RebasePriceStep {
    pub exchange_id: String,
    pub currency_pair_metadata: CurrencyPairMetadata,
    pub direction: RebaseDirection,
}

impl Clone for RebasePriceStep {
    fn clone(&self) -> (r: Self)
        ensures
            r == *self,
    {
        RebasePriceStep {
            exchange_id: self.exchange_id.clone(),
            currency_pair_metadata: self.currency_pair_metadata.clone(),
            direction: self.direction,
        }
    }
}

impl RebasePriceStep {
    /// The currency that the step starts from: the base currency on the way
    /// to the quote currency, and the other way round.
    pub open spec fn spec_source(&self) -> CurrencyCode {
        match self.direction {
            RebaseDirection::ToQuote => self.currency_pair_metadata.base_currency_code,
            RebaseDirection::ToBase => self.currency_pair_metadata.quote_currency_code,
        }
    }

    /// The currency that the step leads to.
    pub open spec fn spec_target(&self) -> CurrencyCode {
        match self.direction {
            RebaseDirection::ToQuote => self.currency_pair_metadata.quote_currency_code,
            RebaseDirection::ToBase => self.currency_pair_metadata.base_currency_code,
        }
    }

    /// Whether two steps go through the same market of the same exchange in
    /// the same direction.
    pub open spec fn spec_same(&self, other: &RebasePriceStep) -> bool {
        &&& self.exchange_id@ == other.exchange_id@
        &&& self.currency_pair_metadata.spec_same(&other.currency_pair_metadata)
        &&& self.direction == other.direction
    }

    /// A step through a market of an exchange.
    pub fn new(exchange_id: String, currency_pair_metadata: CurrencyPairMetadata, direction: RebaseDirection) -> (r:
        Self)
        ensures
            r == (RebasePriceStep { exchange_id, currency_pair_metadata, direction }),
    {
        RebasePriceStep { exchange_id, currency_pair_metadata, direction }
    }

    /// The currency that the step leads to.
    pub fn target(&self) -> (r: CurrencyCode)
        ensures
            r == self.spec_target(),
    {
        match self.direction {
            RebaseDirection::ToQuote => self.currency_pair_metadata.quote_currency_code.clone(),
            RebaseDirection::ToBase => self.currency_pair_metadata.base_currency_code.clone(),
        }
    }

    /// Whether two steps go through the same market of the same exchange in
    /// the same direction.
    pub fn same(&self, other: &RebasePriceStep) -> (r: bool)
        ensures
            r == self.spec_same(other),
    {
        self.exchange_id == other.exchange_id && self.currency_pair_metadata.same(&other.currency_pair_metadata)
            && self.direction == other.direction
    }
}

/// A chain of steps from a start currency to an end currency.
#[derive(Debug)]
pub struct PriceSourceChain {
    pub start_currency_code: CurrencyCode,
    pub end_currency_code: CurrencyCode,
    pub rebase_price_steps: Vec<RebasePriceStep>,
}

/// A chain as contracts see it.
pub struct ChainView {
    pub start_currency_code: CurrencyCode,
    pub end_currency_code: CurrencyCode,
    pub rebase_price_steps: Seq<RebasePriceStep>,
}

impl View for PriceSourceChain {
    type V = ChainView;

    open spec fn view(&self) -> ChainView {
        ChainView {
            start_currency_code: self.start_currency_code,
            end_currency_code: self.end_currency_code,
            rebase_price_steps: self.rebase_price_steps@,
        }
    }
}

impl PriceSourceChain {
    /// Whether two chains have the same ends and the same steps.
    pub open spec fn spec_same(&self, other: &PriceSourceChain) -> bool {
        &&& self.start_currency_code@ == other.start_currency_code@
        &&& self.end_currency_code@ == other.end_currency_code@
        &&& self.rebase_price_steps@.len() == other.rebase_price_steps@.len()
        &&& forall|i: int|
            0 <= i < self.rebase_price_steps@.len() ==> (#[trigger] self.rebase_price_steps@[i]).spec_same(
                &other.rebase_price_steps@[i],
            )
    }

    /// The chain from `start_currency_code` to `end_currency_code` by the
    /// given steps.
    pub fn new(start_currency_code: CurrencyCode, end_currency_code: CurrencyCode, rebase_price_steps: Vec<RebasePriceStep>) -> (r:
        Self)
        ensures
            r@ == (ChainView { start_currency_code, end_currency_code, rebase_price_steps: rebase_price_steps@ }),
    {
        PriceSourceChain { start_currency_code, end_currency_code, rebase_price_steps }
    }

    /// Whether two chains have the same ends and the same steps.
    pub fn same(&self, other: &PriceSourceChain) -> (r: bool)
        ensures
            r == self.spec_same(other),
    {
        if !self.start_currency_code.same(&other.start_currency_code) || !self.end_currency_code.same(
            &other.end_currency_code,
        ) || self.rebase_price_steps.len() != other.rebase_price_steps.len() {
            return false;
        }
        let mut i: usize = 0;
        while i < self.rebase_price_steps.len()
            invariant
                i <= self.rebase_price_steps@.len(),
                self.rebase_price_steps@.len() == other.rebase_price_steps@.len(),
                forall|j: int|
                    0 <= j < i ==> (#[trigger] self.rebase_price_steps@[j]).spec_same(&other.rebase_price_steps@[j]),
            decreases self.rebase_price_steps@.len() - i,
        {
            if !self.rebase_price_steps[i].same(&other.rebase_price_steps[i]) {
                return false;
            }
            i = i + 1;
        }
        true
    }
}

/// A market of an account that a chain may go through.
#[derive(Debug)]
pub struct ExchangeIdCurrencyPairSettings {
    pub exchange_account_id: ExchangeAccountId,
    pub currency_pair: CurrencyPair,
}

/// The setting of a chain: its ends, and the markets that it may go
/// through.
#[derive(Debug)]
pub struct CurrencyPriceSourceSettings {
    pub start_currency_code: CurrencyCode,
    pub end_currency_code: CurrencyCode,
    pub exchange_id_currency_pair_settings: Vec<ExchangeIdCurrencyPairSettings>,
}

impl CurrencyPriceSourceSettings {
    /// The setting of a chain.
    pub fn new(
        start_currency_code: CurrencyCode,
        end_currency_code: CurrencyCode,
        exchange_id_currency_pair_settings: Vec<ExchangeIdCurrencyPairSettings>,
    ) -> (r: Self)
        ensures
            r.start_currency_code == start_currency_code,
            r.end_currency_code == end_currency_code,
            r.exchange_id_currency_pair_settings == exchange_id_currency_pair_settings,
    {
        CurrencyPriceSourceSettings { start_currency_code, end_currency_code, exchange_id_currency_pair_settings }
    }
}

/// A step that can be taken from a currency.
#[derive(Debug)]
pub struct Candidate {
    pub currency_code: CurrencyCode,
    pub step: RebasePriceStep,
}

impl Clone for Candidate {
    fn clone(&self) -> (r: Self)
        ensures
            r == *self,
    {
        Candidate { currency_code: self.currency_code.clone(), step: self.step.clone() }
    }
}

/// The descriptions of the markets by account and pair.
pub type Markets = Seq<(TradePlaceAccount, CurrencyPairMetadata)>;

/// The step that can be taken from `currency_code` through a market: to the
/// quote currency from the base currency, to the base currency from any
/// other.
pub open spec fn spec_candidate(
    currency_code: CurrencyCode,
    exchange_id: String,
    currency_pair_metadata: CurrencyPairMetadata,
) -> Candidate {
    Candidate {
        currency_code,
        step: RebasePriceStep {
            exchange_id,
            currency_pair_metadata,
            direction: if currency_code@ == currency_pair_metadata.base_currency_code@ {
                RebaseDirection::ToQuote
            } else {
                RebaseDirection::ToBase
            },
        },
    }
}

/// The steps that can be taken through the markets of a setting, in the
/// order of the markets: for each first the step from its quote currency,
/// then the step from its base currency. `None` where a market is not
/// described.
pub open spec fn spec_candidates(pairs: Seq<ExchangeIdCurrencyPairSettings>, markets: Markets) -> Option<Seq<Candidate>>
    decreases pairs.len(),
{
    if pairs.len() == 0 {
        Some(Seq::empty())
    } else {
        match spec_candidates(pairs.drop_last(), markets) {
            None => None,
            Some(candidates) => {
                let pair = pairs.last();
                match lookup(markets, (pair.exchange_account_id@, pair.currency_pair@)) {
                    None => None,
                    Some(metadata) => Some(
                        candidates.push(
                            spec_candidate(
                                metadata.quote_currency_code,
                                pair.exchange_account_id.exchange_id,
                                metadata,
                            ),
                        ).push(
                            spec_candidate(metadata.base_currency_code, pair.exchange_account_id.exchange_id, metadata),
                        ),
                    ),
                }
            },
        }
    }
}

/// How many steps can be taken from a currency.
pub open spec fn count_for(candidates: Seq<Candidate>, currency_code: Seq<char>) -> nat
    decreases candidates.len(),
{
    if candidates.len() == 0 {
        0
    } else {
        count_for(candidates.drop_last(), currency_code) + if candidates.last().currency_code@ == currency_code {
            1nat
        } else {
            0nat
        }
    }
}

/// The index of the first step that can be taken from a currency, the
/// number of candidates where there is none.
pub open spec fn first_for(candidates: Seq<Candidate>, currency_code: Seq<char>) -> int
    decreases candidates.len(),
{
    if candidates.len() == 0 {
        0
    } else if candidates[0].currency_code@ == currency_code {
        0
    } else {
        1 + first_for(candidates.drop_first(), currency_code)
    }
}

/// The candidates without the steps from a currency through a market.
pub open spec fn spec_without(
    candidates: Seq<Candidate>,
    currency_code: Seq<char>,
    currency_pair_metadata: CurrencyPairMetadata,
) -> Seq<Candidate>
    decreases candidates.len(),
{
    if candidates.len() == 0 {
        Seq::empty()
    } else {
        let rest = spec_without(candidates.drop_last(), currency_code, currency_pair_metadata);
        let last = candidates.last();
        if last.currency_code@ == currency_code && last.step.currency_pair_metadata.spec_same(
            &currency_pair_metadata,
        ) {
            rest
        } else {
            rest.push(last)
        }
    }
}

/// The steps of a chain that has come to `current` with `steps` taken and
/// `remaining` markets left to go through.
///
/// The step to take is the one that can be taken from `current`: it is an
/// error if there is none, or more than one. The chain is complete when the
/// step leads to `end`, or when no market is left; else the way back
/// through the same market is struck from the candidates, and the chain
/// goes on from where the step leads.
pub open spec fn spec_walk(
    candidates: Seq<Candidate>,
    current: CurrencyCode,
    end: CurrencyCode,
    remaining: nat,
    steps: Seq<RebasePriceStep>,
) -> Result<Seq<RebasePriceStep>, ChainError>
    decreases remaining,
{
    if remaining == 0 {
        Ok(steps)
    } else if count_for(candidates, current@) == 0 {
        Err(ChainError::NoPairForCurrency)
    } else if count_for(candidates, current@) > 1 {
        Err(ChainError::SeveralPairsForCurrency)
    } else {
        let step = candidates[first_for(candidates, current@)].step;
        let next = step.spec_target();
        if next@ == end@ {
            Ok(steps.push(step))
        } else {
            spec_walk(
                spec_without(candidates, next@, step.currency_pair_metadata),
                next,
                end,
                (remaining - 1) as nat,
                steps.push(step),
            )
        }
    }
}

/// The chain of a setting: without steps where the start is the end, else
/// the steps walked from the start through the markets of the setting.
pub open spec fn spec_chain(setting: CurrencyPriceSourceSettings, markets: Markets) -> Result<ChainView, ChainError> {
    if setting.start_currency_code@ == setting.end_currency_code@ {
        Ok(
            ChainView {
                start_currency_code: setting.start_currency_code,
                end_currency_code: setting.end_currency_code,
                rebase_price_steps: Seq::empty(),
            },
        )
    } else {
        match spec_candidates(setting.exchange_id_currency_pair_settings@, markets) {
            None => Err(ChainError::UnknownMarket),
            Some(candidates) => match spec_walk(
                candidates,
                setting.start_currency_code,
                setting.end_currency_code,
                setting.exchange_id_currency_pair_settings@.len(),
                Seq::empty(),
            ) {
                Ok(steps) => Ok(
                    ChainView {
                        start_currency_code: setting.start_currency_code,
                        end_currency_code: setting.end_currency_code,
                        rebase_price_steps: steps,
                    },
                ),
                Err(e) => Err(e),
            },
        }
    }
}

/// The chains of the settings, in their order; the error of the first
/// setting whose chain cannot be built.
pub open spec fn spec_chains_of(settings: Seq<CurrencyPriceSourceSettings>, markets: Markets) -> Result<
    Seq<ChainView>,
    ChainError,
>
    decreases settings.len(),
{
    if settings.len() == 0 {
        Ok(Seq::empty())
    } else {
        match spec_chains_of(settings.drop_last(), markets) {
            Err(e) => Err(e),
            Ok(chains) => match spec_chain(settings.last(), markets) {
                Err(e) => Err(e),
                Ok(chain) => Ok(chains.push(chain)),
            },
        }
    }
}

/// The chains of the settings; no settings are an error.
pub open spec fn spec_prepare_price_source_chains(settings: Seq<CurrencyPriceSourceSettings>, markets: Markets) -> Result<
    Seq<ChainView>,
    ChainError,
> {
    if settings.len() == 0 {
        Err(ChainError::EmptySettings)
    } else {
        spec_chains_of(settings, markets)
    }
}

/// The chains as contracts see them.
pub open spec fn views_of(chains: Seq<PriceSourceChain>) -> Seq<ChainView> {
    Seq::new(chains.len(), |i: int| chains[i]@)
}

/// The index of the first step from a currency is within bounds, names such
/// a step where there is one, and no earlier candidate is one.
pub proof fn lemma_first_for(candidates: Seq<Candidate>, currency_code: Seq<char>)
    ensures
        0 <= first_for(candidates, currency_code) <= candidates.len(),
        first_for(candidates, currency_code) < candidates.len() ==> candidates[first_for(
            candidates,
            currency_code,
        )].currency_code@ == currency_code,
        forall|j: int|
            0 <= j < first_for(candidates, currency_code) ==> (#[trigger] candidates[j]).currency_code@
                != currency_code,
    decreases candidates.len(),
{
    if candidates.len() > 0 && candidates[0].currency_code@ != currency_code {
        let rest = candidates.drop_first();
        lemma_first_for(rest, currency_code);
        assert forall|j: int| 0 <= j < first_for(candidates, currency_code) implies (
        #[trigger] candidates[j]).currency_code@ != currency_code by {
            if j > 0 {
                assert(candidates[j] == rest[j - 1]);
            }
        }
    }
}

/// An index with a step from the currency and none before it is the first.
proof fn lemma_first_for_is(candidates: Seq<Candidate>, currency_code: Seq<char>, index: int)
    requires
        0 <= index < candidates.len(),
        candidates[index].currency_code@ == currency_code,
        forall|j: int| 0 <= j < index ==> (#[trigger] candidates[j]).currency_code@ != currency_code,
    ensures
        first_for(candidates, currency_code) == index,
{
    lemma_first_for(candidates, currency_code);
    let first = first_for(candidates, currency_code);
    if first < index {
        assert(candidates[first].currency_code@ == currency_code);
    } else if first > index {
    }
}

/// Where the candidates of the first markets cannot be found, those of all
/// markets cannot.
proof fn lemma_candidates_fail(pairs: Seq<ExchangeIdCurrencyPairSettings>, markets: Markets, n: int)
    requires
        0 <= n <= pairs.len(),
        spec_candidates(pairs.take(n), markets) is None,
    ensures
        spec_candidates(pairs, markets) is None,
    decreases pairs.len() - n,
{
    if n < pairs.len() {
        assert(pairs.take(n + 1).drop_last() == pairs.take(n));
        lemma_candidates_fail(pairs, markets, n + 1);
    } else {
        assert(pairs.take(n) == pairs);
    }
}

/// Where the chains of the first settings cannot be built, those of all
/// settings fail with the same error.
proof fn lemma_chains_fail(settings: Seq<CurrencyPriceSourceSettings>, markets: Markets, n: int)
    requires
        0 <= n <= settings.len(),
        spec_chains_of(settings.take(n), markets) is Err,
    ensures
        spec_chains_of(settings, markets) == spec_chains_of(settings.take(n), markets),
    decreases settings.len() - n,
{
    if n < settings.len() {
        assert(settings.take(n + 1).drop_last() == settings.take(n));
        lemma_chains_fail(settings, markets, n + 1);
    } else {
        assert(settings.take(n) == settings);
    }
}

/// The steps that can be taken through the markets of a setting.
fn candidates_of(pairs: &Vec<ExchangeIdCurrencyPairSettings>, converter: &CurrencyPairToMetadataConverter) -> (r:
    Option<Vec<Candidate>>)
    ensures
        match r {
            Some(candidates) => spec_candidates(pairs@, converter.metadata.entries@) == Some(candidates@),
            None => spec_candidates(pairs@, converter.metadata.entries@) is None,
        },
{
    let mut candidates: Vec<Candidate> = Vec::new();
    let mut i: usize = 0;
    while i < pairs.len()
        invariant
            i <= pairs@.len(),
            spec_candidates(pairs@.take(i as int), converter.metadata.entries@) == Some(candidates@),
        decreases pairs@.len() - i,
    {
        proof {
            let next = pairs@.take(i + 1);
            assert(next.drop_last() == pairs@.take(i as int));
            assert(next.last() == pairs@[i as int]);
        }
        let pair = &pairs[i];
        match converter.try_get_currency_pair_metadata(&pair.exchange_account_id, &pair.currency_pair) {
            None => {
                proof {
                    lemma_candidates_fail(pairs@, converter.metadata.entries@, i + 1);
                }
                return None;
            },
            Some(metadata) => {
                candidates.push(
                    make_candidate(
                        metadata.quote_currency_code.clone(),
                        pair.exchange_account_id.exchange_id.clone(),
                        metadata.clone(),
                    ),
                );
                candidates.push(
                    make_candidate(
                        metadata.base_currency_code.clone(),
                        pair.exchange_account_id.exchange_id.clone(),
                        metadata.clone(),
                    ),
                );
            },
        }
        i = i + 1;
    }
    proof {
        assert(pairs@.take(i as int) == pairs@);
    }
    Some(candidates)
}

/// The step that can be taken from `currency_code` through a market.
fn make_candidate(currency_code: CurrencyCode, exchange_id: String, currency_pair_metadata: CurrencyPairMetadata) -> (r:
    Candidate)
    ensures
        r == spec_candidate(currency_code, exchange_id, currency_pair_metadata),
{
    let direction = if currency_code.same(&currency_pair_metadata.base_currency_code) {
        RebaseDirection::ToQuote
    } else {
        RebaseDirection::ToBase
    };
    Candidate { currency_code, step: RebasePriceStep { exchange_id, currency_pair_metadata, direction } }
}

/// How many steps can be taken from a currency, and the index of the first
/// of them.
fn find_for(candidates: &Vec<Candidate>, currency_code: &CurrencyCode) -> (r: (usize, usize))
    ensures
        r.0 == count_for(candidates@, currency_code@),
        r.1 == first_for(candidates@, currency_code@),
        r.0 > 0 ==> r.1 < candidates@.len(),
{
    let mut count: usize = 0;
    let mut first: usize = candidates.len();
    let mut i: usize = 0;
    while i < candidates.len()
        invariant
            i <= candidates@.len(),
            count == count_for(candidates@.take(i as int), currency_code@),
            count <= i,
            count == 0 ==> first == candidates@.len() && forall|j: int|
                0 <= j < i ==> (#[trigger] candidates@[j]).currency_code@ != currency_code@,
            count > 0 ==> first < i && first == first_for(candidates@, currency_code@),
        decreases candidates@.len() - i,
    {
        proof {
            let next = candidates@.take(i + 1);
            assert(next.drop_last() == candidates@.take(i as int));
            assert(next.last() == candidates@[i as int]);
        }
        if candidates[i].currency_code.same(currency_code) {
            if count == 0 {
                first = i;
                proof {
                    lemma_first_for_is(candidates@, currency_code@, i as int);
                }
            }
            count = count + 1;
        }
        i = i + 1;
    }
    proof {
        assert(candidates@.take(i as int) == candidates@);
        lemma_first_for(candidates@, currency_code@);
        if count == 0 {
            if first_for(candidates@, currency_code@) < candidates@.len() {
                assert(candidates@[first_for(candidates@, currency_code@)].currency_code@ == currency_code@);
            }
        }
    }
    (count, first)
}

/// The candidates without the steps from a currency through a market.
fn without(candidates: &Vec<Candidate>, currency_code: &CurrencyCode, currency_pair_metadata: &CurrencyPairMetadata) -> (r:
    Vec<Candidate>)
    ensures
        r@ == spec_without(candidates@, currency_code@, *currency_pair_metadata),
{
    let mut kept: Vec<Candidate> = Vec::new();
    let mut i: usize = 0;
    while i < candidates.len()
        invariant
            i <= candidates@.len(),
            kept@ == spec_without(candidates@.take(i as int), currency_code@, *currency_pair_metadata),
        decreases candidates@.len() - i,
    {
        proof {
            let next = candidates@.take(i + 1);
            assert(next.drop_last() == candidates@.take(i as int));
            assert(next.last() == candidates@[i as int]);
        }
        if !(candidates[i].currency_code.same(currency_code) && candidates[i].step.currency_pair_metadata.same(
            currency_pair_metadata,
        )) {
            kept.push(candidates[i].clone());
        }
        i = i + 1;
    }
    proof {
        assert(candidates@.take(i as int) == candidates@);
    }
    kept
}

/// The chain of a setting.
fn chain_of(setting: &CurrencyPriceSourceSettings, converter: &CurrencyPairToMetadataConverter) -> (r: Result<
    PriceSourceChain,
    ChainError,
>)
    ensures
        match r {
            Ok(chain) => spec_chain(*setting, converter.metadata.entries@) == Ok::<ChainView, ChainError>(chain@),
            Err(e) => spec_chain(*setting, converter.metadata.entries@) == Err::<ChainView, ChainError>(e),
        },
{
    if setting.start_currency_code.same(&setting.end_currency_code) {
        return Ok(
            PriceSourceChain::new(setting.start_currency_code.clone(), setting.end_currency_code.clone(), Vec::new()),
        );
    }
    let mut candidates = match candidates_of(&setting.exchange_id_currency_pair_settings, converter) {
        Some(candidates) => candidates,
        None => return Err(ChainError::UnknownMarket),
    };
    let ghost start = candidates@;
    let mut rebase_price_steps: Vec<RebasePriceStep> = Vec::new();
    let mut current_currency_code = setting.start_currency_code.clone();
    let n = setting.exchange_id_currency_pair_settings.len();
    let mut i: usize = 0;
    proof {
        assert(rebase_price_steps@ =~= Seq::<RebasePriceStep>::empty());
    }
    while i < n
        invariant
            i <= n,
            n == setting.exchange_id_currency_pair_settings@.len(),
            setting.start_currency_code@ != setting.end_currency_code@,
            spec_candidates(setting.exchange_id_currency_pair_settings@, converter.metadata.entries@) == Some(start),
            spec_walk(start, setting.start_currency_code, setting.end_currency_code, n as nat, Seq::empty())
                == spec_walk(
                candidates@,
                current_currency_code,
                setting.end_currency_code,
                (n - i) as nat,
                rebase_price_steps@,
            ),
        decreases n - i,
    {
        proof {
            reveal_with_fuel(spec_walk, 2);
        }
        let (count, first) = find_for(&candidates, &current_currency_code);
        if count == 0 {
            return Err(ChainError::NoPairForCurrency);
        }
        if count > 1 {
            return Err(ChainError::SeveralPairsForCurrency);
        }
        let step = candidates[first].step.clone();
        let next = step.target();
        rebase_price_steps.push(step.clone());
        if next.same(&setting.end_currency_code) {
            return Ok(
                PriceSourceChain::new(
                    setting.start_currency_code.clone(),
                    setting.end_currency_code.clone(),
                    rebase_price_steps,
                ),
            );
        }
        candidates = without(&candidates, &next, &step.currency_pair_metadata);
        current_currency_code = next;
        i = i + 1;
    }
    proof {
        reveal_with_fuel(spec_walk, 2);
    }
    Ok(PriceSourceChain::new(setting.start_currency_code.clone(), setting.end_currency_code.clone(), rebase_price_steps))
}

/// Builds the chain of each setting from the descriptions of the markets.
pub fn prepare_price_source_chains(
    price_source_settings: &Vec<CurrencyPriceSourceSettings>,
    currency_pair_to_metadata_converter: &CurrencyPairToMetadataConverter,
) -> (r: Result<Vec<PriceSourceChain>, ChainError>)
    ensures
        match r {
            Ok(chains) => spec_prepare_price_source_chains(
                price_source_settings@,
                currency_pair_to_metadata_converter.metadata.entries@,
            ) == Ok::<Seq<ChainView>, ChainError>(views_of(chains@)),
            Err(e) => spec_prepare_price_source_chains(
                price_source_settings@,
                currency_pair_to_metadata_converter.metadata.entries@,
            ) == Err::<Seq<ChainView>, ChainError>(e),
        },
{
    if price_source_settings.len() == 0 {
        return Err(ChainError::EmptySettings);
    }
    let ghost markets = currency_pair_to_metadata_converter.metadata.entries@;
    let mut chains: Vec<PriceSourceChain> = Vec::new();
    let mut i: usize = 0;
    proof {
        assert(price_source_settings@.take(0) =~= Seq::<CurrencyPriceSourceSettings>::empty());
        assert(views_of(chains@) =~= Seq::<ChainView>::empty());
    }
    while i < price_source_settings.len()
        invariant
            i <= price_source_settings@.len(),
            markets == currency_pair_to_metadata_converter.metadata.entries@,
            spec_chains_of(price_source_settings@.take(i as int), markets) == Ok::<Seq<ChainView>, ChainError>(
                views_of(chains@),
            ),
        decreases price_source_settings@.len() - i,
    {
        proof {
            let next = price_source_settings@.take(i + 1);
            assert(next.drop_last() == price_source_settings@.take(i as int));
            assert(next.last() == price_source_settings@[i as int]);
        }
        match chain_of(&price_source_settings[i], currency_pair_to_metadata_converter) {
            Err(e) => {
                proof {
                    lemma_chains_fail(price_source_settings@, markets, i + 1);
                }
                return Err(e);
            },
            Ok(chain) => {
                proof {
                    assert(views_of(chains@.push(chain)) =~= views_of(chains@).push(chain@));
                }
                chains.push(chain);
            },
        }
        i = i + 1;
    }
    proof {
        assert(price_source_settings@.take(i as int) == price_source_settings@);
    }
    Ok(chains)
}

/// Every candidate is a step from the currency that it stands under.
pub open spec fn sourced(candidates: Seq<Candidate>) -> bool {
    forall|i: int|
        0 <= i < candidates.len() ==> (#[trigger] candidates[i]).step.spec_source()@ == candidates[i].currency_code@
}

/// Each step of a chain starts from where the step before it leads, and the
/// first from the start of the chain.
pub open spec fn connected(start: CurrencyCode, steps: Seq<RebasePriceStep>) -> bool {
    forall|i: int|
        0 <= i < steps.len() ==> (#[trigger] steps[i]).spec_source()@ == if i == 0 {
            start@
        } else {
            steps[i - 1].spec_target()@
        }
}

/// The candidates of a setting are steps from the currencies that they
/// stand under.
pub proof fn lemma_candidates_sourced(pairs: Seq<ExchangeIdCurrencyPairSettings>, markets: Markets)
    ensures
        spec_candidates(pairs, markets) matches Some(candidates) ==> sourced(candidates),
    decreases pairs.len(),
{
    if pairs.len() > 0 {
        lemma_candidates_sourced(pairs.drop_last(), markets);
    }
}

/// What is left of candidates after some were struck are still steps from
/// the currencies that they stand under.
pub proof fn lemma_without_sourced(
    candidates: Seq<Candidate>,
    currency_code: Seq<char>,
    currency_pair_metadata: CurrencyPairMetadata,
)
    requires
        sourced(candidates),
    ensures
        sourced(spec_without(candidates, currency_code, currency_pair_metadata)),
    decreases candidates.len(),
{
    if candidates.len() > 0 {
        let shorter = candidates.drop_last();
        assert forall|i: int| 0 <= i < shorter.len() implies (#[trigger] shorter[i]).step.spec_source()@
            == shorter[i].currency_code@ by {
            assert(shorter[i] == candidates[i]);
        }
        lemma_without_sourced(shorter, currency_code, currency_pair_metadata);
        assert(candidates.last() == candidates[candidates.len() - 1]);
    }
}

/// A walk goes on connected: the steps that it adds start where the steps
/// before them lead.
pub proof fn lemma_walk_connected(
    candidates: Seq<Candidate>,
    start: CurrencyCode,
    current: CurrencyCode,
    end: CurrencyCode,
    remaining: nat,
    steps: Seq<RebasePriceStep>,
)
    requires
        sourced(candidates),
        connected(start, steps),
        steps.len() == 0 ==> current@ == start@,
        steps.len() > 0 ==> steps.last().spec_target()@ == current@,
    ensures
        spec_walk(candidates, current, end, remaining, steps) matches Ok(chain) ==> connected(start, chain),
    decreases remaining,
{
    if remaining > 0 && count_for(candidates, current@) == 1 {
        lemma_first_for(candidates, current@);
        lemma_count_positive(candidates, current@);
        let step = candidates[first_for(candidates, current@)].step;
        let longer = steps.push(step);
        assert forall|i: int| 0 <= i < longer.len() implies (#[trigger] longer[i]).spec_source()@ == if i == 0 {
            start@
        } else {
            longer[i - 1].spec_target()@
        } by {
            if i < steps.len() {
                assert(longer[i] == steps[i]);
                if i > 0 {
                    assert(longer[i - 1] == steps[i - 1]);
                }
            }
        }
        let next = step.spec_target();
        if next@ != end@ {
            lemma_without_sourced(candidates, next@, step.currency_pair_metadata);
            lemma_walk_connected(
                spec_without(candidates, next@, step.currency_pair_metadata),
                start,
                next,
                end,
                (remaining - 1) as nat,
                longer,
            );
        }
    }
}

/// Where a step can be taken from a currency, the first such step is among
/// the candidates.
pub proof fn lemma_count_positive(candidates: Seq<Candidate>, currency_code: Seq<char>)
    requires
        count_for(candidates, currency_code) > 0,
    ensures
        first_for(candidates, currency_code) < candidates.len(),
    decreases candidates.len(),
{
    lemma_first_for(candidates, currency_code);
    if first_for(candidates, currency_code) >= candidates.len() {
        lemma_count_zero(candidates, currency_code);
    }
}

/// Where no candidate is a step from a currency, none is counted.
proof fn lemma_count_zero(candidates: Seq<Candidate>, currency_code: Seq<char>)
    requires
        forall|j: int| 0 <= j < candidates.len() ==> (#[trigger] candidates[j]).currency_code@ != currency_code,
    ensures
        count_for(candidates, currency_code) == 0,
    decreases candidates.len(),
{
    if candidates.len() > 0 {
        let shorter = candidates.drop_last();
        assert forall|j: int| 0 <= j < shorter.len() implies (#[trigger] shorter[j]).currency_code@
            != currency_code by {
            assert(shorter[j] == candidates[j]);
        }
        lemma_count_zero(shorter, currency_code);
        assert(candidates.last() == candidates[candidates.len() - 1]);
    }
}

/// A chain that was built is connected: its first step starts from the
/// start currency, and each further step from where the one before it
/// leads.
pub proof fn law_chains_are_connected(setting: CurrencyPriceSourceSettings, markets: Markets)
    ensures
        spec_chain(setting, markets) matches Ok(chain) ==> connected(chain.start_currency_code, chain.rebase_price_steps)
            && chain.start_currency_code == setting.start_currency_code && chain.end_currency_code
            == setting.end_currency_code && chain.rebase_price_steps.len()
            <= setting.exchange_id_currency_pair_settings@.len(),
{
    if setting.start_currency_code@ != setting.end_currency_code@ {
        lemma_candidates_sourced(setting.exchange_id_currency_pair_settings@, markets);
        match spec_candidates(setting.exchange_id_currency_pair_settings@, markets) {
            Some(candidates) => {
                lemma_walk_connected(
                    candidates,
                    setting.start_currency_code,
                    setting.start_currency_code,
                    setting.end_currency_code,
                    setting.exchange_id_currency_pair_settings@.len(),
                    Seq::empty(),
                );
                lemma_walk_length(
                    candidates,
                    setting.start_currency_code,
                    setting.end_currency_code,
                    setting.exchange_id_currency_pair_settings@.len(),
                    Seq::empty(),
                );
            },
            None => {},
        }
    }
}

/// A walk adds no more steps than there are markets left.
pub proof fn lemma_walk_length(
    candidates: Seq<Candidate>,
    current: CurrencyCode,
    end: CurrencyCode,
    remaining: nat,
    steps: Seq<RebasePriceStep>,
)
    ensures
        spec_walk(candidates, current, end, remaining, steps) matches Ok(chain) ==> steps.len() <= chain.len()
            <= steps.len() + remaining,
    decreases remaining,
{
    if remaining > 0 && count_for(candidates, current@) == 1 {
        let step = candidates[first_for(candidates, current@)].step;
        let next = step.spec_target();
        if next@ != end@ {
            lemma_walk_length(
                spec_without(candidates, next@, step.currency_pair_metadata),
                next,
                end,
                (remaining - 1) as nat,
                steps.push(step),
            );
        }
    }
}

/// A market of an exchange, whatever the account.
#[derive(Debug)]
pub struct TradePlace {
    pub exchange_id: String,
    pub currency_pair: CurrencyPair,
}

impl View for TradePlace {
    type V = (Seq<char>, Seq<char>);

    open spec fn view(&self) -> (Seq<char>, Seq<char>) {
        (self.exchange_id@, self.currency_pair@)
    }
}

impl TradePlace {
    /// The market `currency_pair` of the exchange `exchange_id`.
    pub fn new(exchange_id: String, currency_pair: CurrencyPair) -> (r: Self)
        ensures
            r == (TradePlace { exchange_id, currency_pair }),
    {
        TradePlace { exchange_id, currency_pair }
    }

    /// Whether two markets are the same.
    pub fn same(&self, other: &TradePlace) -> (r: bool)
        ensures
            r == (self@ == other@),
    {
        self.exchange_id == other.exchange_id && self.currency_pair.same(&other.currency_pair)
    }
}

/// The market that a step goes through.
pub open spec fn place_of(step: RebasePriceStep) -> (Seq<char>, Seq<char>) {
    (step.exchange_id@, step.currency_pair_metadata.currency_pair@)
}

/// Whether a market is among the places.
pub open spec fn has_place(places: Seq<TradePlace>, place: (Seq<char>, Seq<char>)) -> bool {
    exists|k: int| 0 <= k < places.len() && (#[trigger] places[k])@ == place
}

/// Whether a market is one that a step of the first `chains` chains goes
/// through, or one of the first `steps` steps of the chain after them.
pub open spec fn used_before(all: Seq<PriceSourceChain>, chains: int, steps: int, place: (Seq<char>, Seq<char>)) -> bool {
    exists|c: int, s: int|
        0 <= c < all.len() && 0 <= s < all[c].rebase_price_steps@.len() && (c < chains || (c == chains && s < steps))
            && place_of(#[trigger] all[c].rebase_price_steps@[s]) == place
}

/// Whether a market is one that a step of a chain goes through.
pub open spec fn used(all: Seq<PriceSourceChain>, place: (Seq<char>, Seq<char>)) -> bool {
    used_before(all, all.len() as int, 0, place)
}

/// The markets that the chains go through, each once, in the order in which
/// the chains come to them.
pub fn map_to_used_trade_places(price_source_chains: &Vec<PriceSourceChain>) -> (r: Vec<TradePlace>)
    ensures
        forall|place: (Seq<char>, Seq<char>)| has_place(r@, place) <==> used(price_source_chains@, place),
        forall|i: int, j: int| 0 <= i < j < r@.len() ==> (#[trigger] r@[i])@ != (#[trigger] r@[j])@,
{
    let mut places: Vec<TradePlace> = Vec::new();
    let mut c: usize = 0;
    while c < price_source_chains.len()
        invariant
            c <= price_source_chains@.len(),
            forall|place: (Seq<char>, Seq<char>)|
                has_place(places@, place) <==> used_before(price_source_chains@, c as int, 0, place),
            forall|i: int, j: int| 0 <= i < j < places@.len() ==> (#[trigger] places@[i])@ != (#[trigger] places@[j])@,
        decreases price_source_chains@.len() - c,
    {
        let chain = &price_source_chains[c];
        let mut s: usize = 0;
        while s < chain.rebase_price_steps.len()
            invariant
                c < price_source_chains@.len(),
                *chain == price_source_chains@[c as int],
                s <= chain.rebase_price_steps@.len(),
                forall|place: (Seq<char>, Seq<char>)|
                    has_place(places@, place) <==> used_before(price_source_chains@, c as int, s as int, place),
                forall|i: int, j: int|
                    0 <= i < j < places@.len() ==> (#[trigger] places@[i])@ != (#[trigger] places@[j])@,
            decreases chain.rebase_price_steps@.len() - s,
        {
            let step = &chain.rebase_price_steps[s];
            let place = TradePlace::new(step.exchange_id.clone(), step.currency_pair_metadata.currency_pair());
            let mut k: usize = 0;
            let mut found = false;
            while k < places.len()
                invariant
                    k <= places@.len(),
                    !found ==> forall|m: int| 0 <= m < k ==> (#[trigger] places@[m])@ != place@,
                    found ==> has_place(places@, place@),
                decreases places@.len() - k,
            {
                if places[k].same(&place) {
                    found = true;
                }
                k = k + 1;
            }
            let ghost before = places@;
            if !found {
                places.push(place);
            }
            proof {
                let all = price_source_chains@;
                let here = place_of(all[c as int].rebase_price_steps@[s as int]);
                assert(here == place@);
                assert forall|q: (Seq<char>, Seq<char>)| has_place(places@, q) <==> used_before(
                    all,
                    c as int,
                    s + 1,
                    q,
                ) by {
                    if has_place(places@, q) {
                        let m = choose|m: int| 0 <= m < places@.len() && (#[trigger] places@[m])@ == q;
                        if m < before.len() {
                            assert(before[m] == places@[m]);
                            assert(has_place(before, q));
                            assert(used_before(all, c as int, s as int, q));
                            let (x, y) = choose|x: int, y: int|
                                0 <= x < all.len() && 0 <= y < all[x].rebase_price_steps@.len() && (x < c || (x == c
                                    && y < s)) && place_of(#[trigger] all[x].rebase_price_steps@[y]) == q;
                            assert(place_of(all[x].rebase_price_steps@[y]) == q);
                        } else {
                            assert(q == here);
                            assert(place_of(all[c as int].rebase_price_steps@[s as int]) == q);
                        }
                    }
                    if used_before(all, c as int, s + 1, q) {
                        let (x, y) = choose|x: int, y: int|
                            0 <= x < all.len() && 0 <= y < all[x].rebase_price_steps@.len() && (x < c || (x == c && y
                                < s + 1)) && place_of(#[trigger] all[x].rebase_price_steps@[y]) == q;
                        if x == c && y == s {
                            if found {
                                let m = choose|m: int| 0 <= m < before.len() && (#[trigger] before[m])@ == place@;
                                assert(places@[m] == before[m]);
                            } else {
                                assert(places@[before.len() as int]@ == q);
                            }
                        } else {
                            assert(place_of(all[x].rebase_price_steps@[y]) == q);
                            assert(used_before(all, c as int, s as int, q));
                            assert(has_place(before, q));
                            let m = choose|m: int| 0 <= m < before.len() && (#[trigger] before[m])@ == q;
                            assert(places@[m] == before[m]);
                        }
                    }
                }
                assert forall|i: int, j: int| 0 <= i < j < places@.len() implies (#[trigger] places@[i])@ != (
                #[trigger] places@[j])@ by {
                    if j < before.len() {
                        assert(places@[i] == before[i] && places@[j] == before[j]);
                    } else {
                        assert(places@[i] == before[i]);
                    }
                }
            }
            s = s + 1;
        }
        proof {
            let all = price_source_chains@;
            assert forall|q: (Seq<char>, Seq<char>)| used_before(all, c as int, s as int, q) <==> used_before(
                all,
                c + 1,
                0,
                q,
            ) by {
                if used_before(all, c as int, s as int, q) {
                    let (x, y) = choose|x: int, y: int|
                        0 <= x < all.len() && 0 <= y < all[x].rebase_price_steps@.len() && (x < c || (x == c && y
                            < s)) && place_of(#[trigger] all[x].rebase_price_steps@[y]) == q;
                    assert(place_of(all[x].rebase_price_steps@[y]) == q);
                }
                if used_before(all, c + 1, 0, q) {
                    let (x, y) = choose|x: int, y: int|
                        0 <= x < all.len() && 0 <= y < all[x].rebase_price_steps@.len() && (x < c + 1 || (x == c + 1
                            && y < 0)) && place_of(#[trigger] all[x].rebase_price_steps@[y]) == q;
                    assert(place_of(all[x].rebase_price_steps@[y]) == q);
                }
            }
        }
        c = c + 1;
    }
    proof {
        let all = price_source_chains@;
        assert forall|q: (Seq<char>, Seq<char>)| has_place(places@, q) <==> used(all, q) by {}
    }
    places
}

impl Clone for TradePlace {
    fn clone(&self) -> (r: Self)
        ensures
            r == *self,
    {
        TradePlace { exchange_id: self.exchange_id.clone(), currency_pair: self.currency_pair.clone() }
    }
}

impl Key for TradePlace {
    type Id = (Seq<char>, Seq<char>);

    open spec fn id(&self) -> (Seq<char>, Seq<char>) {
        (self.exchange_id@, self.currency_pair@)
    }

    fn same(&self, other: &Self) -> (r: bool) {
        let r = self.exchange_id == other.exchange_id && self.currency_pair.same(&other.currency_pair);
        assert(r == (self.id() == other.id()));
        r
    }
}

/// The best prices of a market: the highest bid and the lowest ask, where
/// the order book has any.
#[derive(Clone, Copy, Debug)]
pub struct PriceByOrderSide {
    pub top_bid: Option<Decimal>,
    pub top_ask: Option<Decimal>,
}

/// Whether two prices that may be missing are both missing or equal.
pub open spec fn same_price(a: Option<Decimal>, b: Option<Decimal>) -> bool {
    match (a, b) {
        (Some(x), Some(y)) => x@ == y@,
        (None, None) => true,
        _ => false,
    }
}

impl PriceByOrderSide {
    /// Whether two pairs of best prices are the same.
    pub open spec fn spec_same(self, other: PriceByOrderSide) -> bool {
        same_price(self.top_bid, other.top_bid) && same_price(self.top_ask, other.top_ask)
    }

    /// The best prices of a market.
    pub fn new(top_bid: Option<Decimal>, top_ask: Option<Decimal>) -> (r: Self)
        ensures
            r == (PriceByOrderSide { top_bid, top_ask }),
    {
        PriceByOrderSide { top_bid, top_ask }
    }

    /// Whether two pairs of best prices are the same.
    pub fn same(&self, other: &PriceByOrderSide) -> (r: bool)
        ensures
            r == self.spec_same(*other),
    {
        let bids = match (self.top_bid, other.top_bid) {
            (Some(x), Some(y)) => x.equals(&y),
            (None, None) => true,
            _ => false,
        };
        let asks = match (self.top_ask, other.top_ask) {
            (Some(x), Some(y)) => x.equals(&y),
            (None, None) => true,
            _ => false,
        };
        bids && asks
    }
}

/// The best prices that were seen last, by market.
#[derive(Debug)]
pub struct PriceCache {
    pub prices: VecMap<TradePlace, PriceByOrderSide>,
}

impl PriceCache {
    /// A cache without prices.
    pub fn new() -> (r: Self)
        ensures
            r.prices.entries@ == Seq::<(TradePlace, PriceByOrderSide)>::empty(),
    {
        PriceCache { prices: VecMap::new() }
    }

    /// Puts the best prices of a market into the cache. Returns whether the
    /// cache has changed: it has not where it held the same prices for the
    /// market.
    pub fn try_update_cache(&mut self, trade_place: TradePlace, new_value: PriceByOrderSide) -> (r: bool)
        ensures
            r == match lookup(old(self).prices.entries@, trade_place@) {
                Some(old_value) => !old_value.spec_same(new_value),
                None => true,
            },
            final(self).prices.entries@ == if r {
                crate::vec_map::spec_insert(old(self).prices.entries@, trade_place, new_value)
            } else {
                old(self).prices.entries@
            },
    {
        let unchanged = match self.prices.get(&trade_place) {
            Some(old_value) => old_value.same(&new_value),
            None => false,
        };
        if unchanged {
            false
        } else {
            self.prices.insert(trade_place, new_value);
            true
        }
    }
}

/// The chain among `chains` that leads from one currency to another: the
/// last one with these ends.
pub open spec fn spec_chain_for(chains: Seq<PriceSourceChain>, from: Seq<char>, to: Seq<char>) -> Option<int>
    decreases chains.len(),
{
    if chains.len() == 0 {
        None
    } else if chains.last().start_currency_code@ == from && chains.last().end_currency_code@ == to {
        Some(chains.len() - 1)
    } else {
        spec_chain_for(chains.drop_last(), from, to)
    }
}

/// The chains of the price sources, found by their ends.
#[derive(Debug)]
pub struct PriceSourceChains {
    pub chains: Vec<PriceSourceChain>,
}

impl PriceSourceChains {
    /// The chains of the settings.
    pub fn new(
        price_source_settings: &Vec<CurrencyPriceSourceSettings>,
        currency_pair_to_metadata_converter: &CurrencyPairToMetadataConverter,
    ) -> (r: Result<Self, ChainError>)
        ensures
            match r {
                Ok(chains) => spec_prepare_price_source_chains(
                    price_source_settings@,
                    currency_pair_to_metadata_converter.metadata.entries@,
                ) == Ok::<Seq<ChainView>, ChainError>(views_of(chains.chains@)),
                Err(e) => spec_prepare_price_source_chains(
                    price_source_settings@,
                    currency_pair_to_metadata_converter.metadata.entries@,
                ) == Err::<Seq<ChainView>, ChainError>(e),
            },
    {
        match prepare_price_source_chains(price_source_settings, currency_pair_to_metadata_converter) {
            Ok(chains) => Ok(PriceSourceChains { chains }),
            Err(e) => Err(e),
        }
    }

    /// The chain that leads from one currency to another; where several
    /// settings have these ends, the chain of the last one.
    pub fn get(&self, from: &CurrencyCode, to: &CurrencyCode) -> (r: Option<&PriceSourceChain>)
        ensures
            match r {
                Some(chain) => spec_chain_for(self.chains@, from@, to@) matches Some(index) && 0 <= index
                    < self.chains@.len() && *chain == self.chains@[index],
                None => spec_chain_for(self.chains@, from@, to@) is None,
            },
    {
        let mut i: usize = self.chains.len();
        proof {
            assert(self.chains@.take(i as int) == self.chains@);
        }
        while i > 0
            invariant
                i <= self.chains@.len(),
                spec_chain_for(self.chains@, from@, to@) == spec_chain_for(self.chains@.take(i as int), from@, to@),
            decreases i,
        {
            proof {
                let here = self.chains@.take(i as int);
                assert(here.last() == self.chains@[i - 1]);
                assert(here.drop_last() == self.chains@.take(i - 1));
            }
            if self.chains[i - 1].start_currency_code.same(from) && self.chains[i - 1].end_currency_code.same(to) {
                return Some(&self.chains[i - 1]);
            }
            i = i - 1;
        }
        proof {
            assert(self.chains@.take(0) =~= Seq::<PriceSourceChain>::empty());
        }
        None
    }
}

} // verus!
