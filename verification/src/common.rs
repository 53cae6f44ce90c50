//! Identifiers shared by the balance reservation manager and the exchange
//! blocker.
//!
//! Identifiers that carry text are compared by the text they hold: the ghost
//! identity of each is made of the character sequences of its strings.

use crate::vec_map::Key;
use vstd::prelude::*;
use vstd::string::StringExecFns;

verus! {

/// A point in time, in milliseconds since the Unix epoch.
pub type DateTime = i64;

/// The side of an order.
#[derive(Clone, Copy, Debug, PartialEq, Eq, Structural)]
pub enum OrderSide {
    Buy,
    Sell,
}

/// Whether a currency is asked for as held before a trade or after it.
#[derive(Clone, Copy, Debug, PartialEq, Eq, Structural)]
pub enum BeforeAfter {
    Before,
    After,
}

/// The code of a currency, such as `BTC`.
#[derive(Debug)]
pub struct CurrencyCode {
    pub code: String,
}

impl View for CurrencyCode {
    type V = Seq<char>;

    open spec fn view(&self) -> Seq<char> {
        self.code@
    }
}

impl Clone for CurrencyCode {
    fn clone(&self) -> (r: Self)
        ensures
            r == *self,
    {
        CurrencyCode { code: self.code.clone() }
    }
}

impl Key for CurrencyCode {
    type Id = Seq<char>;

    open spec fn id(&self) -> Seq<char> {
        self.code@
    }

    fn same(&self, other: &Self) -> (r: bool) {
        let r = self.code == other.code;
        assert(r == (self.id() == other.id()));
        r
    }
}

impl CurrencyCode {
    /// The code with the given text.
    pub fn new(code: &str) -> (r: Self)
        ensures
            r@ == code@,
    {
        CurrencyCode { code: code.to_owned() }
    }
}

/// A pair of currencies traded against each other, such as `BTC/USDT`.
#[derive(Debug)]
pub struct CurrencyPair {
    pub pair: String,
}

impl View for CurrencyPair {
    type V = Seq<char>;

    open spec fn view(&self) -> Seq<char> {
        self.pair@
    }
}

impl Clone for CurrencyPair {
    fn clone(&self) -> (r: Self)
        ensures
            r == *self,
    {
        CurrencyPair { pair: self.pair.clone() }
    }
}

impl Key for CurrencyPair {
    type Id = Seq<char>;

    open spec fn id(&self) -> Seq<char> {
        self.pair@
    }

    fn same(&self, other: &Self) -> (r: bool) {
        let r = self.pair == other.pair;
        assert(r == (self.id() == other.id()));
        r
    }
}

/// The text of the pair of two currencies: the base, a slash, the quote.
pub open spec fn spec_pair_text(base: Seq<char>, quote: Seq<char>) -> Seq<char> {
    base + seq!['/'] + quote
}

impl CurrencyPair {
    /// The pair with the given text.
    pub fn new(pair: &str) -> (r: Self)
        ensures
            r@ == pair@,
    {
        CurrencyPair { pair: pair.to_owned() }
    }

    /// The pair of a base and a quote currency.
    pub fn from_codes(base: &CurrencyCode, quote: &CurrencyCode) -> (r: Self)
        ensures
            r@ == spec_pair_text(base@, quote@),
    {
        proof {
            reveal_strlit("/");
        }
        let pair = base.code.clone().concat("/").concat(quote.code.as_str());
        assert("/"@ =~= seq!['/']);
        CurrencyPair { pair }
    }
}

/// An account on an exchange: the exchange's name and the number of the
/// account there.
#[derive(Debug)]
pub struct ExchangeAccountId {
    pub exchange_id: String,
    pub account_number: u8,
}

impl View for ExchangeAccountId {
    type V = (Seq<char>, u8);

    open spec fn view(&self) -> (Seq<char>, u8) {
        (self.exchange_id@, self.account_number)
    }
}

impl Clone for ExchangeAccountId {
    fn clone(&self) -> (r: Self)
        ensures
            r == *self,
    {
        ExchangeAccountId { exchange_id: self.exchange_id.clone(), account_number: self.account_number }
    }
}

impl Key for ExchangeAccountId {
    type Id = (Seq<char>, u8);

    open spec fn id(&self) -> (Seq<char>, u8) {
        (self.exchange_id@, self.account_number)
    }

    fn same(&self, other: &Self) -> (r: bool) {
        let r = self.exchange_id == other.exchange_id && self.account_number == other.account_number;
        assert(r == (self.id() == other.id()));
        r
    }
}

impl ExchangeAccountId {
    /// The account `account_number` on the exchange `exchange_id`.
    pub fn new(exchange_id: &str, account_number: u8) -> (r: Self)
        ensures
            r@ == (exchange_id@, account_number),
    {
        ExchangeAccountId { exchange_id: exchange_id.to_owned(), account_number }
    }
}

/// The tag of a strategy's configuration, which keeps the balances of several
/// strategies apart.
#[derive(Debug)]
pub struct ConfigurationDescriptor {
    pub service_name: String,
    pub service_configuration_key: String,
}

impl View for ConfigurationDescriptor {
    type V = (Seq<char>, Seq<char>);

    open spec fn view(&self) -> (Seq<char>, Seq<char>) {
        (self.service_name@, self.service_configuration_key@)
    }
}

impl Clone for ConfigurationDescriptor {
    fn clone(&self) -> (r: Self)
        ensures
            r == *self,
    {
        ConfigurationDescriptor {
            service_name: self.service_name.clone(),
            service_configuration_key: self.service_configuration_key.clone(),
        }
    }
}

impl ConfigurationDescriptor {
    /// The tag of the configuration `service_configuration_key` of the service
    /// `service_name`.
    pub fn new(service_name: &str, service_configuration_key: &str) -> (r: Self)
        ensures
            r@ == (service_name@, service_configuration_key@),
    {
        ConfigurationDescriptor {
            service_name: service_name.to_owned(),
            service_configuration_key: service_configuration_key.to_owned(),
        }
    }

    /// Whether two tags are the same.
    pub fn same(&self, other: &Self) -> (r: bool)
        ensures
            r == (self@ == other@),
    {
        self.service_name == other.service_name && self.service_configuration_key
            == other.service_configuration_key
    }
}

/// The identifier of a reservation. Identifiers are handed out in increasing
/// order.
#[derive(Clone, Copy, Debug, PartialEq, Eq, Structural)]
pub struct ReservationId {
    pub id: u64,
}

impl Key for ReservationId {
    type Id = u64;

    open spec fn id(&self) -> u64 {
        self.id
    }

    fn same(&self, other: &Self) -> (r: bool) {
        let r = self.id == other.id;
        assert(r == (self.id() == other.id()));
        r
    }
}

impl ReservationId {
    /// The identifier with the given number.
    pub fn new(id: u64) -> (r: Self)
        ensures
            r.id == id,
    {
        ReservationId { id }
    }
}

/// The identifier that the engine gave to an order.
#[derive(Debug)]
pub struct ClientOrderId {
    pub id: String,
}

impl View for ClientOrderId {
    type V = Seq<char>;

    open spec fn view(&self) -> Seq<char> {
        self.id@
    }
}

impl Clone for ClientOrderId {
    fn clone(&self) -> (r: Self)
        ensures
            r == *self,
    {
        ClientOrderId { id: self.id.clone() }
    }
}

impl Key for ClientOrderId {
    type Id = Seq<char>;

    open spec fn id(&self) -> Seq<char> {
        self.id@
    }

    fn same(&self, other: &Self) -> (r: bool) {
        let r = self.id == other.id;
        assert(r == (self.id() == other.id()));
        r
    }
}

impl ClientOrderId {
    /// The identifier with the given text.
    pub fn new(id: &str) -> (r: Self)
        ensures
            r@ == id@,
    {
        ClientOrderId { id: id.to_owned() }
    }
}

/// The identifier that the engine gave to a fill of an order.
#[derive(Debug)]
pub struct ClientOrderFillId {
    pub id: String,
}

impl View for ClientOrderFillId {
    type V = Seq<char>;

    open spec fn view(&self) -> Seq<char> {
        self.id@
    }
}

impl Clone for ClientOrderFillId {
    fn clone(&self) -> (r: Self)
        ensures
            r == *self,
    {
        ClientOrderFillId { id: self.id.clone() }
    }
}

impl ClientOrderFillId {
    /// The identifier with the given text.
    pub fn new(id: &str) -> (r: Self)
        ensures
            r@ == id@,
    {
        ClientOrderFillId { id: id.to_owned() }
    }
}

/// A market on an account: the account and the currency pair.
#[derive(Debug)]
pub struct TradePlaceAccount {
    pub exchange_account_id: ExchangeAccountId,
    pub currency_pair: CurrencyPair,
}

impl View for TradePlaceAccount {
    type V = ((Seq<char>, u8), Seq<char>);

    open spec fn view(&self) -> ((Seq<char>, u8), Seq<char>) {
        (self.exchange_account_id@, self.currency_pair@)
    }
}

impl Clone for TradePlaceAccount {
    fn clone(&self) -> (r: Self)
        ensures
            r == *self,
    {
        TradePlaceAccount {
            exchange_account_id: self.exchange_account_id.clone(),
            currency_pair: self.currency_pair.clone(),
        }
    }
}

impl Key for TradePlaceAccount {
    type Id = ((Seq<char>, u8), Seq<char>);

    open spec fn id(&self) -> ((Seq<char>, u8), Seq<char>) {
        (self.exchange_account_id@, self.currency_pair@)
    }

    fn same(&self, other: &Self) -> (r: bool) {
        let r = self.exchange_account_id.same(&other.exchange_account_id) && self.currency_pair.same(
            &other.currency_pair,
        );
        assert(r == (self.id() == other.id()));
        r
    }
}

impl TradePlaceAccount {
    /// The market `currency_pair` on the account `exchange_account_id`.
    pub fn new(exchange_account_id: ExchangeAccountId, currency_pair: CurrencyPair) -> (r: Self)
        ensures
            r.exchange_account_id == exchange_account_id,
            r.currency_pair == currency_pair,
    {
        TradePlaceAccount { exchange_account_id, currency_pair }
    }
}

/// A currency held on an account.
#[derive(Debug)]
pub struct AccountCurrency {
    pub exchange_account_id: ExchangeAccountId,
    pub currency_code: CurrencyCode,
}

impl Clone for AccountCurrency {
    fn clone(&self) -> (r: Self)
        ensures
            r == *self,
    {
        AccountCurrency {
            exchange_account_id: self.exchange_account_id.clone(),
            currency_code: self.currency_code.clone(),
        }
    }
}

impl Key for AccountCurrency {
    type Id = ((Seq<char>, u8), Seq<char>);

    open spec fn id(&self) -> ((Seq<char>, u8), Seq<char>) {
        (self.exchange_account_id@, self.currency_code@)
    }

    fn same(&self, other: &Self) -> (r: bool) {
        let r = self.exchange_account_id.same(&other.exchange_account_id) && self.currency_code.same(
            &other.currency_code,
        );
        assert(r == (self.id() == other.id()));
        r
    }
}

impl AccountCurrency {
    /// The currency `currency_code` on the account `exchange_account_id`.
    pub fn new(exchange_account_id: ExchangeAccountId, currency_code: CurrencyCode) -> (r: Self)
        ensures
            r.exchange_account_id == exchange_account_id,
            r.currency_code == currency_code,
    {
        AccountCurrency { exchange_account_id, currency_code }
    }
}

/// The identity of a balance request: the texts and the account number that
/// it is made of.
pub struct RequestId {
    pub configuration: (Seq<char>, Seq<char>),
    pub exchange: (Seq<char>, u8),
    pub pair: Seq<char>,
    pub code: Seq<char>,
}

/// The key of every map of balances: a configuration, an account, a currency
/// pair and a currency.
#[derive(Debug)]
pub struct BalanceRequest {
    pub configuration_descriptor: ConfigurationDescriptor,
    pub exchange_account_id: ExchangeAccountId,
    pub currency_pair: CurrencyPair,
    pub currency_code: CurrencyCode,
}

impl View for BalanceRequest {
    type V = RequestId;

    open spec fn view(&self) -> RequestId {
        RequestId {
            configuration: self.configuration_descriptor@,
            exchange: self.exchange_account_id@,
            pair: self.currency_pair@,
            code: self.currency_code@,
        }
    }
}

impl Clone for BalanceRequest {
    fn clone(&self) -> (r: Self)
        ensures
            r == *self,
    {
        BalanceRequest {
            configuration_descriptor: self.configuration_descriptor.clone(),
            exchange_account_id: self.exchange_account_id.clone(),
            currency_pair: self.currency_pair.clone(),
            currency_code: self.currency_code.clone(),
        }
    }
}

impl Key for BalanceRequest {
    type Id = RequestId;

    open spec fn id(&self) -> RequestId {
        self@
    }

    fn same(&self, other: &Self) -> (r: bool) {
        let r = self.configuration_descriptor.same(&other.configuration_descriptor)
            && self.exchange_account_id.same(&other.exchange_account_id) && self.currency_pair.same(
            &other.currency_pair,
        ) && self.currency_code.same(&other.currency_code);
        assert(r == (self.id() == other.id()));
        r
    }
}

impl BalanceRequest {
    /// The request for `currency_code` in the market `currency_pair` on the
    /// account `exchange_account_id`, under `configuration_descriptor`.
    pub fn new(
        configuration_descriptor: ConfigurationDescriptor,
        exchange_account_id: ExchangeAccountId,
        currency_pair: CurrencyPair,
        currency_code: CurrencyCode,
    ) -> (r: Self)
        ensures
            r == (BalanceRequest {
                configuration_descriptor,
                exchange_account_id,
                currency_pair,
                currency_code,
            }),
    {
        BalanceRequest { configuration_descriptor, exchange_account_id, currency_pair, currency_code }
    }
}

} // verus!
