//! The client side of the Coinmotion API: what is asked and what comes back.
//!
//! A call has two halves. The first builds the request, signed where the
//! exchange asks for it; the second decodes the bytes of the response. Sending
//! the one and receiving the other is the caller's part.

use crate::de::decimal_field;
use crate::de::decimal_member;
use crate::de::text_field;
use crate::de::text_member;
use crate::de::u64_field;
use crate::de::u64_member;
use crate::decimal::Decimal;
use crate::json::json_document;
use crate::json::Json;
use crate::sign::sign;
use crate::sign::signature;
use crate::text::decimal_digits;
use crate::text::lemma_u64_round_trip;
use crate::text::push_decimal;
use crate::time::Timestamp;
use vstd::prelude::*;

verus! {

/// The price the exchange charges for one withdrawal, in euros.
pub const WITHDRAWAL_FEE: &'static str = "0.90";

/// Where the exchange is reached.
pub const BASE_URL: &'static str = "https://api.coinmotion.com/v1";

/// The header that names the account.
pub const API_KEY_HEADER: &'static str = "X-Coinmotion-APIKey";

/// The header that carries the signature.
pub const SIGNATURE_HEADER: &'static str = "X-Coinmotion-Signature";

/// The header that says what the body is.
pub const CONTENT_TYPE_HEADER: &'static str = "Content-Type";

/// What the body of a signed request is.
pub const JSON_CONTENT_TYPE: &'static str = "application/json";

/// How much to sell: a number of satoshis, or their worth in euro cents.
#[derive(Clone, Copy, Debug, PartialEq, Eq, Structural)]
pub enum BuySellAmount {
    /// An amount of bitcoin, in satoshis.
    BtcSatoshis(u64),
    /// An amount of euros, in cents.
    EurCents(u64),
}

/// Why a call to the exchange gave no result.
#[derive(Clone, Debug, PartialEq, Eq)]
pub enum Error {
    /// The exchange could not be reached, or the connection broke.
    ConnectionError,
    /// The response is not of the shape that was agreed on.
    ParseError,
    /// The exchange refused the request and said why.
    BackendError(String),
    /// The exchange reported a failure under a status that is not known.
    UnknownStatus(String),
}

/// An [`Error`] as a mathematical value.
pub enum ErrorView {
    ConnectionError,
    ParseError,
    BackendError(Seq<char>),
    UnknownStatus(Seq<char>),
}

impl View for Error {
    type V = ErrorView;

    open spec fn view(&self) -> ErrorView {
        match *self {
            Error::ConnectionError => ErrorView::ConnectionError,
            Error::ParseError => ErrorView::ParseError,
            Error::BackendError(message) => ErrorView::BackendError(message@),
            Error::UnknownStatus(status) => ErrorView::UnknownStatus(status@),
        }
    }
}

/// The exchange's quotes for one bitcoin, in euros.
#[derive(Clone, Copy, Debug, PartialEq, Eq, Structural)]
pub struct Rates {
    /// What the exchange pays for a bitcoin.
    pub btc_bid: Decimal,
    /// What the exchange asks for a bitcoin.
    pub btc_ask: Decimal,
}

impl View for Rates {
    type V = Rates;

    open spec fn view(&self) -> Rates {
        *self
    }
}

/// The balances of the account.
#[derive(Clone, Copy, Debug, PartialEq, Eq, Structural)]
pub struct Balances {
    /// Euros in total.
    pub eur_bal: Decimal,
    /// Euros free to use.
    pub eur_avl: Decimal,
    /// Euros held back.
    pub eur_res: Decimal,
    /// Bitcoin in total.
    pub btc_bal: Decimal,
    /// Bitcoin free to use.
    pub btc_avl: Decimal,
    /// Bitcoin held back.
    pub btc_res: Decimal,
}

impl View for Balances {
    type V = Balances;

    open spec fn view(&self) -> Balances {
        *self
    }
}

/// A completed sale.
#[derive(Clone, Debug, PartialEq, Eq)]
pub struct Trade {
    /// The exchange's name for the trade.
    pub id: String,
    /// The price per bitcoin.
    pub rate: Decimal,
    /// When the trade was made, as the exchange writes it.
    pub timestamp: String,
    /// The euros that changed hands.
    pub amount_cur: Decimal,
    /// The bitcoin that changed hands.
    pub amount_vir: Decimal,
}

/// A [`Trade`] as a mathematical value.
pub struct TradeView {
    pub id: Seq<char>,
    pub rate: Decimal,
    pub timestamp: Seq<char>,
    pub amount_cur: Decimal,
    pub amount_vir: Decimal,
}

impl View for Trade {
    type V = TradeView;

    open spec fn view(&self) -> TradeView {
        TradeView {
            id: self.id@,
            rate: self.rate,
            timestamp: self.timestamp@,
            amount_cur: self.amount_cur,
            amount_vir: self.amount_vir,
        }
    }
}

/// A requested withdrawal.
#[derive(Clone, Debug, PartialEq, Eq)]
pub struct Withdrawal {
    /// The exchange's number for the withdrawal.
    pub id: u64,
    /// The account the money goes to.
    pub iban: String,
    /// The bank of that account.
    pub bic: String,
    /// The reference the transfer carries.
    pub ref_no: String,
}

/// A [`Withdrawal`] as a mathematical value.
pub struct WithdrawalView {
    pub id: u64,
    pub iban: Seq<char>,
    pub bic: Seq<char>,
    pub ref_no: Seq<char>,
}

impl View for Withdrawal {
    type V = WithdrawalView;

    open spec fn view(&self) -> WithdrawalView {
        WithdrawalView { id: self.id, iban: self.iban@, bic: self.bic@, ref_no: self.ref_no@ }
    }
}

/// A type that is read from the payload of a response.
pub trait FromJson: Sized + View {
    /// The value that the payload `doc` holds; `None` where a member that the
    /// type needs is missing or of the wrong kind.
    spec fn decode(doc: Json) -> Option<Self::V>;

    /// Reads the value from the payload.
    fn from_json(doc: &Json) -> (r: Option<Self>)
        ensures
            match r {
                Some(value) => Self::decode(*doc) == Some(value@),
                None => Self::decode(*doc) is None,
            },
    ;
}

impl FromJson for Rates {
    open spec fn decode(doc: Json) -> Option<Rates> {
        match (decimal_member(doc, "btc_bid"@), decimal_member(doc, "btc_ask"@)) {
            (Some(btc_bid), Some(btc_ask)) => Some(Rates { btc_bid, btc_ask }),
            _ => None,
        }
    }

    fn from_json(doc: &Json) -> (r: Option<Rates>) {
        let btc_bid = decimal_field(doc, "btc_bid")?;
        let btc_ask = decimal_field(doc, "btc_ask")?;
        Some(Rates { btc_bid, btc_ask })
    }
}

impl FromJson for Balances {
    open spec fn decode(doc: Json) -> Option<Balances> {
        match (
            decimal_member(doc, "eur_bal"@),
            decimal_member(doc, "eur_avl"@),
            decimal_member(doc, "eur_res"@),
            decimal_member(doc, "btc_bal"@),
            decimal_member(doc, "btc_avl"@),
            decimal_member(doc, "btc_res"@),
        ) {
            (
                Some(eur_bal),
                Some(eur_avl),
                Some(eur_res),
                Some(btc_bal),
                Some(btc_avl),
                Some(btc_res),
            ) => Some(Balances { eur_bal, eur_avl, eur_res, btc_bal, btc_avl, btc_res }),
            _ => None,
        }
    }

    fn from_json(doc: &Json) -> (r: Option<Balances>) {
        let eur_bal = decimal_field(doc, "eur_bal")?;
        let eur_avl = decimal_field(doc, "eur_avl")?;
        let eur_res = decimal_field(doc, "eur_res")?;
        let btc_bal = decimal_field(doc, "btc_bal")?;
        let btc_avl = decimal_field(doc, "btc_avl")?;
        let btc_res = decimal_field(doc, "btc_res")?;
        Some(Balances { eur_bal, eur_avl, eur_res, btc_bal, btc_avl, btc_res })
    }
}

impl FromJson for Trade {
    open spec fn decode(doc: Json) -> Option<TradeView> {
        match (
            text_member(doc, "id"@),
            decimal_member(doc, "rate"@),
            text_member(doc, "timestamp"@),
            decimal_member(doc, "amount_cur"@),
            decimal_member(doc, "amount_vir"@),
        ) {
            (Some(id), Some(rate), Some(timestamp), Some(amount_cur), Some(amount_vir)) => Some(
                TradeView { id, rate, timestamp, amount_cur, amount_vir },
            ),
            _ => None,
        }
    }

    fn from_json(doc: &Json) -> (r: Option<Trade>) {
        let id = text_field(doc, "id")?;
        let rate = decimal_field(doc, "rate")?;
        let timestamp = text_field(doc, "timestamp")?;
        let amount_cur = decimal_field(doc, "amount_cur")?;
        let amount_vir = decimal_field(doc, "amount_vir")?;
        Some(Trade { id, rate, timestamp, amount_cur, amount_vir })
    }
}

impl FromJson for Withdrawal {
    open spec fn decode(doc: Json) -> Option<WithdrawalView> {
        match (
            u64_member(doc, "id"@),
            text_member(doc, "iban"@),
            text_member(doc, "bic"@),
            text_member(doc, "ref_no"@),
        ) {
            (Some(id), Some(iban), Some(bic), Some(ref_no)) => Some(
                WithdrawalView { id, iban, bic, ref_no },
            ),
            _ => None,
        }
    }

    fn from_json(doc: &Json) -> (r: Option<Withdrawal>) {
        let id = u64_field(doc, "id")?;
        let iban = text_field(doc, "iban")?;
        let bic = text_field(doc, "bic")?;
        let ref_no = text_field(doc, "ref_no")?;
        Some(Withdrawal { id, iban, bic, ref_no })
    }
}

/// Whether the member `key` of `doc` is `amount`, written as a string or as a
/// number whose text stands for it.
pub open spec fn holds_amount(doc: Json, key: Seq<char>, amount: Decimal) -> bool {
    match doc.member(key) {
        Some(Json::Text(text)) => Decimal::of_text(text@) == Some(amount),
        Some(Json::Number(text)) => Decimal::of_text(text@) == Some(amount),
        _ => false,
    }
}

/// Whether the member `key` of `doc` is the string `text`.
pub open spec fn holds_text(doc: Json, key: Seq<char>, text: Seq<char>) -> bool {
    match doc.member(key) {
        Some(Json::Text(found)) => found@ == text,
        _ => false,
    }
}

/// Whether the member `key` of `doc` is the number `n`, written in decimal
/// digits.
pub open spec fn holds_u64(doc: Json, key: Seq<char>, n: u64) -> bool {
    match doc.member(key) {
        Some(Json::Number(found)) => found@ == decimal_digits(n as nat),
        _ => false,
    }
}

/// Whether `doc` is `rates` on the wire.
pub open spec fn is_rates_on_wire(doc: Json, rates: Rates) -> bool {
    &&& holds_amount(doc, "btc_bid"@, rates.btc_bid)
    &&& holds_amount(doc, "btc_ask"@, rates.btc_ask)
}

/// Whether `doc` is `balances` on the wire.
pub open spec fn is_balances_on_wire(doc: Json, balances: Balances) -> bool {
    &&& holds_amount(doc, "eur_bal"@, balances.eur_bal)
    &&& holds_amount(doc, "eur_avl"@, balances.eur_avl)
    &&& holds_amount(doc, "eur_res"@, balances.eur_res)
    &&& holds_amount(doc, "btc_bal"@, balances.btc_bal)
    &&& holds_amount(doc, "btc_avl"@, balances.btc_avl)
    &&& holds_amount(doc, "btc_res"@, balances.btc_res)
}

/// Whether `doc` is `trade` on the wire.
pub open spec fn is_trade_on_wire(doc: Json, trade: TradeView) -> bool {
    &&& holds_text(doc, "id"@, trade.id)
    &&& holds_amount(doc, "rate"@, trade.rate)
    &&& holds_text(doc, "timestamp"@, trade.timestamp)
    &&& holds_amount(doc, "amount_cur"@, trade.amount_cur)
    &&& holds_amount(doc, "amount_vir"@, trade.amount_vir)
}

/// Whether `doc` is `withdrawal` on the wire.
pub open spec fn is_withdrawal_on_wire(doc: Json, withdrawal: WithdrawalView) -> bool {
    &&& holds_u64(doc, "id"@, withdrawal.id)
    &&& holds_text(doc, "iban"@, withdrawal.iban)
    &&& holds_text(doc, "bic"@, withdrawal.bic)
    &&& holds_text(doc, "ref_no"@, withdrawal.ref_no)
}

/// Rates that were put on the wire are read back as they were, whether their
/// amounts were written as strings or as numbers, and whatever else the
/// document holds.
pub proof fn lemma_rates_round_trip(doc: Json, rates: Rates)
    requires
        is_rates_on_wire(doc, rates),
    ensures
        Rates::decode(doc) == Some(rates),
{
}

/// Balances that were put on the wire are read back as they were.
pub proof fn lemma_balances_round_trip(doc: Json, balances: Balances)
    requires
        is_balances_on_wire(doc, balances),
    ensures
        Balances::decode(doc) == Some(balances),
{
}

/// A trade that was put on the wire is read back as it was.
pub proof fn lemma_trade_round_trip(doc: Json, trade: TradeView)
    requires
        is_trade_on_wire(doc, trade),
    ensures
        Trade::decode(doc) == Some(trade),
{
}

/// A withdrawal that was put on the wire is read back as it was.
pub proof fn lemma_withdrawal_round_trip(doc: Json, withdrawal: WithdrawalView)
    requires
        is_withdrawal_on_wire(doc, withdrawal),
    ensures
        Withdrawal::decode(doc) == Some(withdrawal),
{
    lemma_u64_round_trip(withdrawal.id);
}

/// A value that travels as the payload of a successful response comes out of
/// the envelope as it went in.
pub proof fn lemma_payload_round_trip<T: FromJson>(doc: Json, payload: Json, value: T::V)
    requires
        doc.member("success"@) == Some(Json::Bool(true)),
        doc.member("payload"@) == Some(payload),
        T::decode(payload) == Some(value),
    ensures
        typed_envelope::<T>(doc) == Some(Envelope::Response(value)),
        outcome(typed_envelope::<T>(doc).unwrap()) == Ok::<T::V, ErrorView>(value),
{
}

/// The three shapes of a response, as a mathematical value.
pub enum Envelope<P> {
    /// The call succeeded, and this is what it gave.
    Response(P),
    /// The exchange refused the call, with this message.
    Error(Seq<char>),
    /// The call failed under this status.
    UnknownStatus(Seq<char>),
}

/// The three shapes of a response.
#[derive(Debug, PartialEq, Eq)]
pub enum ResponseWrapper<T> {
    /// The call succeeded, and this is what it gave.
    Response(T),
    /// The exchange refused the call, with this message.
    Error(String),
    /// The call failed under this status.
    UnknownStatus(String),
}

impl<T: View> View for ResponseWrapper<T> {
    type V = Envelope<T::V>;

    open spec fn view(&self) -> Envelope<T::V> {
        match *self {
            ResponseWrapper::Response(payload) => Envelope::Response(payload@),
            ResponseWrapper::Error(message) => Envelope::Error(message@),
            ResponseWrapper::UnknownStatus(status) => Envelope::UnknownStatus(status@),
        }
    }
}

/// The message of a refused call. It stands in the member `message`, or, where
/// there is no such member, in the member `error`, and is a string.
pub open spec fn failure_message(doc: Json) -> Option<Seq<char>> {
    match doc.member("message"@) {
        Some(_) => text_member(doc, "message"@),
        None => text_member(doc, "error"@),
    }
}

/// The envelope of the response `doc`, its payload not yet looked into.
///
/// `success` is a boolean. Where it is `true`, `payload` holds the result. Where
/// it is `false`, `status` is a string: `"error"` comes with a message, any
/// other status stands for itself. Whatever else is found is no envelope.
pub open spec fn envelope(doc: Json) -> Option<Envelope<Json>> {
    match doc.member("success"@) {
        Some(Json::Bool(true)) => match doc.member("payload"@) {
            Some(payload) => Some(Envelope::Response(payload)),
            None => None,
        },
        Some(Json::Bool(false)) => match text_member(doc, "status"@) {
            Some(status) => if status == "error"@ {
                match failure_message(doc) {
                    Some(message) => Some(Envelope::Error(message)),
                    None => None,
                }
            } else {
                Some(Envelope::UnknownStatus(status))
            },
            None => None,
        },
        _ => None,
    }
}

/// The envelope of the response `doc` with its payload read as a `T`.
pub open spec fn typed_envelope<T: FromJson>(doc: Json) -> Option<Envelope<T::V>> {
    match envelope(doc) {
        Some(Envelope::Response(payload)) => match T::decode(payload) {
            Some(value) => Some(Envelope::Response(value)),
            None => None,
        },
        Some(Envelope::Error(message)) => Some(Envelope::Error(message)),
        Some(Envelope::UnknownStatus(status)) => Some(Envelope::UnknownStatus(status)),
        None => None,
    }
}

/// What a call gives whose response had the envelope `wrapper`.
pub open spec fn outcome<V>(wrapper: Envelope<V>) -> Result<V, ErrorView> {
    match wrapper {
        Envelope::Response(value) => Ok(value),
        Envelope::Error(message) => Err(ErrorView::BackendError(message)),
        Envelope::UnknownStatus(status) => Err(ErrorView::UnknownStatus(status)),
    }
}

/// What a call gives whose response had the body `body`.
pub open spec fn response_of<T: FromJson>(body: Seq<u8>) -> Result<T::V, ErrorView> {
    match json_document(body) {
        Some(doc) => match typed_envelope::<T>(doc) {
            Some(wrapper) => outcome(wrapper),
            None => Err(ErrorView::ParseError),
        },
        None => Err(ErrorView::ParseError),
    }
}

/// A response that reports the status `"error"` gives the message that comes
/// with it, as a backend error.
pub proof fn lemma_refusal_gives_message<T: FromJson>(doc: Json, message: Seq<char>)
    requires
        doc.member("success"@) == Some(Json::Bool(false)),
        text_member(doc, "status"@) == Some("error"@),
        failure_message(doc) == Some(message),
    ensures
        typed_envelope::<T>(doc) == Some(Envelope::<T::V>::Error(message)),
        outcome(typed_envelope::<T>(doc).unwrap()) == Err::<T::V, ErrorView>(
            ErrorView::BackendError(message),
        ),
{
}

/// A response that reports any other status gives that status.
pub proof fn lemma_other_status_stands_for_itself<T: FromJson>(doc: Json, status: Seq<char>)
    requires
        doc.member("success"@) == Some(Json::Bool(false)),
        text_member(doc, "status"@) == Some(status),
        status != "error"@,
    ensures
        typed_envelope::<T>(doc) == Some(Envelope::<T::V>::UnknownStatus(status)),
        outcome(typed_envelope::<T>(doc).unwrap()) == Err::<T::V, ErrorView>(
            ErrorView::UnknownStatus(status),
        ),
{
}

/// A response without the member `success` is no envelope.
pub proof fn lemma_success_is_required<T: FromJson>(doc: Json)
    requires
        doc.member("success"@) is None,
    ensures
        typed_envelope::<T>(doc) is None,
{
}

/// Reads the message of a refused call.
fn read_failure_message(doc: &Json) -> (r: Option<String>)
    ensures
        match r {
            Some(message) => failure_message(*doc) == Some(message@),
            None => failure_message(*doc) is None,
        },
{
    match doc.get("message") {
        Some(_) => text_field(doc, "message"),
        None => text_field(doc, "error"),
    }
}

impl<T: FromJson> ResponseWrapper<T> {
    /// Reads the envelope of a response and the payload in it. `None` where the
    /// document is no envelope, or the payload no `T`.
    pub fn deserialize(doc: &Json) -> (r: Option<ResponseWrapper<T>>)
        ensures
            match r {
                Some(wrapper) => typed_envelope::<T>(*doc) == Some(wrapper@),
                None => typed_envelope::<T>(*doc) is None,
            },
    {
        let success = match doc.get("success") {
            Some(flag) => match flag.as_bool() {
                Some(success) => success,
                None => {
                    return None;
                },
            },
            None => {
                return None;
            },
        };
        if success {
            match doc.get("payload") {
                Some(payload) => match T::from_json(payload) {
                    Some(value) => Some(ResponseWrapper::Response(value)),
                    None => None,
                },
                None => None,
            }
        } else {
            let status = match text_field(doc, "status") {
                Some(status) => status,
                None => {
                    return None;
                },
            };
            if status == "error".to_owned() {
                match read_failure_message(doc) {
                    Some(message) => Some(ResponseWrapper::Error(message)),
                    None => None,
                }
            } else {
                Some(ResponseWrapper::UnknownStatus(status))
            }
        }
    }

    /// The result of the call: the payload, or the failure that the exchange
    /// reported.
    pub fn into_result(self) -> (r: Result<T, Error>)
        ensures
            match r {
                Ok(value) => outcome(self@) == Ok::<T::V, ErrorView>(value@),
                Err(why) => outcome(self@) == Err::<T::V, ErrorView>(why@),
            },
    {
        match self {
            ResponseWrapper::Response(value) => Ok(value),
            ResponseWrapper::Error(message) => Err(Error::BackendError(message)),
            ResponseWrapper::UnknownStatus(status) => Err(Error::UnknownStatus(status)),
        }
    }
}

/// Decodes the body of a response into the result of the call.
///
/// A body that is no JSON text, no envelope, or whose payload is no `T` gives
/// [`Error::ParseError`]; a failure that the exchange reports gives
/// [`Error::BackendError`] or [`Error::UnknownStatus`].
pub fn decode_response<T: FromJson>(body: &[u8]) -> (r: Result<T, Error>)
    ensures
        match r {
            Ok(value) => response_of::<T>(body@) == Ok::<T::V, ErrorView>(value@),
            Err(why) => response_of::<T>(body@) == Err::<T::V, ErrorView>(why@),
        },
{
    match Json::parse(body) {
        Some(doc) => match ResponseWrapper::<T>::deserialize(&doc) {
            Some(wrapper) => wrapper.into_result(),
            None => Err(Error::ParseError),
        },
        None => Err(Error::ParseError),
    }
}

/// The nonce of a request made at `now`: hundredths of a second since the
/// epoch, that is the seconds times 100 plus the hundredths of the running
/// second.
pub open spec fn nonce_value(now: Timestamp) -> int {
    (now.nanos / 1_000_000_000) * 100 + (now.nanos % 1_000_000_000) / 10_000_000
}

/// The nonce of a request made at `now`, or `None` where it is no `u64`.
pub fn nonce_at(now: Timestamp) -> (r: Option<u64>)
    ensures
        r == if nonce_value(now) <= u64::MAX {
            Some(nonce_value(now) as u64)
        } else {
            None::<u64>
        },
{
    let secs: u128 = now.nanos / 1_000_000_000;
    let hundredths: u128 = (now.nanos % 1_000_000_000) / 10_000_000;
    let nonce: u128 = secs * 100 + hundredths;
    if nonce <= u64::MAX as u128 {
        Some(nonce as u64)
    } else {
        None
    }
}

/// The nonce of a request made now. `None` where the clock stands before the
/// epoch, or so late that the nonce is no `u64`.
pub fn next_nonce() -> (r: Option<u64>)
    ensures
        r matches Some(nonce) ==> exists|now: Timestamp| nonce == #[trigger] nonce_value(now),
{
    match Timestamp::now() {
        Some(now) => nonce_at(now),
        None => None,
    }
}

/// A later request never has the smaller nonce.
pub proof fn lemma_nonce_monotonic(earlier: Timestamp, later: Timestamp)
    requires
        earlier.nanos <= later.nanos,
    ensures
        nonce_value(earlier) <= nonce_value(later),
{
    lemma_nonce_is_hundredths(earlier);
    lemma_nonce_is_hundredths(later);
}

/// The nonce counts the hundredths of a second since the epoch.
pub proof fn lemma_nonce_is_hundredths(now: Timestamp)
    ensures
        nonce_value(now) == now.nanos / 10_000_000,
{
}

/// What a signed request asks for.
#[derive(Clone, Copy, Debug, PartialEq, Eq, Structural)]
pub enum Payload {
    /// The balances of the account.
    Balances,
    /// The sale of this amount.
    Sell(BuySellAmount),
    /// The withdrawal of this many euro cents.
    Withdraw(u64),
}

/// The members of the request body that follow the nonce. A sale names exactly
/// one of its two amounts.
pub open spec fn payload_members(payload: Payload) -> Seq<char> {
    match payload {
        Payload::Balances => Seq::<char>::empty(),
        Payload::Sell(BuySellAmount::BtcSatoshis(amount)) => ",\"amount_btc\":"@ + decimal_digits(
            amount as nat,
        ),
        Payload::Sell(BuySellAmount::EurCents(amount)) => ",\"amount_cur\":"@ + decimal_digits(
            amount as nat,
        ),
        Payload::Withdraw(amount) => ",\"amount_cur\":"@ + decimal_digits(amount as nat),
    }
}

/// The body of a signed request: one flat JSON object that starts with the
/// nonce, written as a string.
pub open spec fn body_text(nonce: u64, payload: Payload) -> Seq<char> {
    "{\"nonce\":\""@ + decimal_digits(nonce as nat) + "\""@ + payload_members(payload) + "}"@
}

/// Writes the body of a signed request.
pub fn request_body(nonce: u64, payload: &Payload) -> (body: String)
    ensures
        body@ == body_text(nonce, *payload),
{
    let mut body = "{\"nonce\":\"".to_owned();
    push_decimal(&mut body, nonce);
    body.append("\"");
    match payload {
        Payload::Balances => {},
        Payload::Sell(BuySellAmount::BtcSatoshis(amount)) => {
            body.append(",\"amount_btc\":");
            push_decimal(&mut body, *amount);
        },
        Payload::Sell(BuySellAmount::EurCents(amount)) => {
            body.append(",\"amount_cur\":");
            push_decimal(&mut body, *amount);
        },
        Payload::Withdraw(amount) => {
            body.append(",\"amount_cur\":");
            push_decimal(&mut body, *amount);
        },
    }
    body.append("}");
    body
}

/// How a request is made.
#[derive(Clone, Copy, Debug, PartialEq, Eq, Structural)]
pub enum Method {
    Get,
    Post,
}

/// One header of a request.
#[derive(Debug, PartialEq, Eq)]
pub struct Header {
    pub name: String,
    pub value: String,
}

/// A [`Header`] as a mathematical value.
pub struct HeaderView {
    pub name: Seq<char>,
    pub value: Seq<char>,
}

impl View for Header {
    type V = HeaderView;

    open spec fn view(&self) -> HeaderView {
        HeaderView { name: self.name@, value: self.value@ }
    }
}

/// A request, ready to be sent.
#[derive(Debug, PartialEq, Eq)]
pub struct ApiRequest {
    pub method: Method,
    pub url: String,
    /// The headers, in the order in which they are set.
    pub headers: Vec<Header>,
    /// The bytes to send, as text; empty for a request without a body.
    pub body: String,
}

/// An [`ApiRequest`] as a mathematical value.
pub struct RequestView {
    pub method: Method,
    pub url: Seq<char>,
    pub headers: Seq<HeaderView>,
    pub body: Seq<char>,
}

impl View for ApiRequest {
    type V = RequestView;

    open spec fn view(&self) -> RequestView {
        RequestView {
            method: self.method,
            url: self.url@,
            headers: self.headers@.map_values(|header: Header| header@),
            body: self.body@,
        }
    }
}

/// A client as a mathematical value.
pub struct ClientView {
    pub base_url: Seq<char>,
    pub api_key: Seq<char>,
    pub api_secret: Seq<char>,
}

/// The request that reads `endpoint`: no headers, no body.
pub open spec fn get_request(client: ClientView, endpoint: Seq<char>) -> RequestView {
    RequestView {
        method: Method::Get,
        url: client.base_url + endpoint,
        headers: Seq::<HeaderView>::empty(),
        body: Seq::<char>::empty(),
    }
}

/// The signed request that posts `body` to `endpoint`. It names the content
/// type, then the account, then the signature; what is signed is the body as it
/// is sent.
pub open spec fn post_request(client: ClientView, endpoint: Seq<char>, body: Seq<char>) -> RequestView {
    RequestView {
        method: Method::Post,
        url: client.base_url + endpoint,
        headers: seq![
            HeaderView { name: CONTENT_TYPE_HEADER@, value: JSON_CONTENT_TYPE@ },
            HeaderView { name: API_KEY_HEADER@, value: client.api_key },
            HeaderView { name: SIGNATURE_HEADER@, value: signature(client.api_secret, body) },
        ],
        body,
    }
}

/// The signed request for `payload` under the nonce `nonce`.
pub open spec fn signed_request(
    client: ClientView,
    endpoint: Seq<char>,
    payload: Payload,
    nonce: u64,
) -> RequestView {
    post_request(client, endpoint, body_text(nonce, payload))
}

/// An account at the exchange.
pub struct Coinmotion {
    base_url: String,
    api_key: String,
    api_secret: String,
}

impl View for Coinmotion {
    type V = ClientView;

    closed spec fn view(&self) -> ClientView {
        ClientView {
            base_url: self.base_url@,
            api_key: self.api_key@,
            api_secret: self.api_secret@,
        }
    }
}

impl Coinmotion {
    /// A client for the account with the given key and secret.
    pub fn new(api_key: &str, api_secret: &str) -> (client: Self)
        ensures
            client@ == (ClientView {
                base_url: BASE_URL@,
                api_key: api_key@,
                api_secret: api_secret@,
            }),
    {
        Coinmotion {
            base_url: BASE_URL.to_owned(),
            api_key: api_key.to_owned(),
            api_secret: api_secret.to_owned(),
        }
    }

    /// The request that reads `endpoint`.
    pub fn get(&self, endpoint: &str) -> (request: ApiRequest)
        ensures
            request@ == get_request(self@, endpoint@),
    {
        let mut url = self.base_url.clone();
        url.append(endpoint);
        let request = ApiRequest {
            method: Method::Get,
            url,
            headers: Vec::new(),
            body: String::new(),
        };
        assert(request@.headers =~= Seq::<HeaderView>::empty());
        request
    }

    /// The signed request that posts `payload` to `endpoint` under `nonce`.
    pub fn post(&self, endpoint: &str, payload: &Payload, nonce: u64) -> (request: ApiRequest)
        ensures
            request@ == signed_request(self@, endpoint@, *payload, nonce),
    {
        let mut url = self.base_url.clone();
        url.append(endpoint);
        let body = request_body(nonce, payload);
        let signature = sign(self.api_secret.as_str(), body.as_str());
        let mut headers: Vec<Header> = Vec::new();
        headers.push(
            Header { name: CONTENT_TYPE_HEADER.to_owned(), value: JSON_CONTENT_TYPE.to_owned() },
        );
        headers.push(Header { name: API_KEY_HEADER.to_owned(), value: self.api_key.clone() });
        headers.push(Header { name: SIGNATURE_HEADER.to_owned(), value: signature });
        let request = ApiRequest { method: Method::Post, url, headers, body };
        assert(request@.headers =~= signed_request(self@, endpoint@, *payload, nonce).headers);
        request
    }

    /// The request for the current rates.
    pub fn rates(&self) -> (request: ApiRequest)
        ensures
            request@ == get_request(self@, "/rates"@),
    {
        self.get("/rates")
    }

    /// The request for the balances, signed under the nonce of this moment.
    /// `None` where the clock gives no nonce.
    pub fn balances(&self) -> (r: Option<ApiRequest>)
        ensures
            r matches Some(request) ==> exists|nonce: u64|
                request@ == #[trigger] signed_request(
                    self@,
                    "/balances"@,
                    Payload::Balances,
                    nonce,
                ),
    {
        match next_nonce() {
            Some(nonce) => Some(self.post("/balances", &Payload::Balances, nonce)),
            None => None,
        }
    }

    /// The request to sell `amount`, signed under the nonce of this moment.
    /// `None` where the clock gives no nonce.
    pub fn sell(&self, amount: BuySellAmount) -> (r: Option<ApiRequest>)
        ensures
            r matches Some(request) ==> exists|nonce: u64|
                request@ == #[trigger] signed_request(
                    self@,
                    "/sell"@,
                    Payload::Sell(amount),
                    nonce,
                ),
    {
        match next_nonce() {
            Some(nonce) => Some(self.post("/sell", &Payload::Sell(amount), nonce)),
            None => None,
        }
    }

    /// The request to withdraw `eur_cents`, signed under the nonce of this
    /// moment. `None` where the clock gives no nonce.
    pub fn withdraw(&self, eur_cents: u64) -> (r: Option<ApiRequest>)
        ensures
            r matches Some(request) ==> exists|nonce: u64|
                request@ == #[trigger] signed_request(
                    self@,
                    "/withdraw"@,
                    Payload::Withdraw(eur_cents),
                    nonce,
                ),
    {
        match next_nonce() {
            Some(nonce) => Some(self.post("/withdraw", &Payload::Withdraw(eur_cents), nonce)),
            None => None,
        }
    }
}

} // verus!
