//! The records, errors, events and effects of the escrow.

use vstd::prelude::*;

verus! {

/// Errors returned by the escrow operations.
#[derive(Clone, Copy, Debug, PartialEq, Eq, Structural, PartialOrd, Ord)]
pub enum Error {
    /// The operation named a `trade_id` under which no trade is stored.
    TradeNotFound,
    /// A trade with this `trade_id` already exists.
    TradeAlreadyExists,
    /// The caller is not the trade's party that may take this action.
    UnauthorizedCaller,
    /// The trade is not in the state that this action requires.
    InvalidState,
    /// A trade's price must be strictly positive.
    InvalidPrice,
}

/// The number under which an error is reported to callers of the contract.
pub open spec fn error_code(e: Error) -> u32 {
    match e {
        Error::TradeNotFound => 1,
        Error::TradeAlreadyExists => 2,
        Error::UnauthorizedCaller => 3,
        Error::InvalidState => 4,
        Error::InvalidPrice => 5,
    }
}

impl Error {
    /// The number under which this error is reported to callers of the contract.
    pub fn code(&self) -> (c: u32)
        ensures
            c == error_code(*self),
    {
        match self {
            Error::TradeNotFound => 1,
            Error::TradeAlreadyExists => 2,
            Error::UnauthorizedCaller => 3,
            Error::InvalidState => 4,
            Error::InvalidPrice => 5,
        }
    }
}

/// Lifecycle state of a trade.
#[derive(Clone, Copy, Debug, PartialEq, Eq, Structural)]
pub enum TradeState {
    /// Created; no funds have moved. Cancellable.
    Pending,
    /// The buyer's payment is locked in escrow.
    Funded,
    /// The farmer marked the crop as delivered.
    Delivered,
    /// The buyer confirmed receipt; the payment was released to the farmer.
    Completed,
    /// A party raised a dispute; the funds stay locked.
    Disputed,
    /// Cancelled before funding; nothing was paid, so nothing is refunded.
    Cancelled,
}

/// A Stellar address (an account or a contract), held as its strkey text.
/// Two addresses name the same party exactly when their strkeys are equal.
#[derive(Debug)]
pub struct Address {
    pub strkey: String,
}

impl View for Address {
    type V = Seq<char>;

    open spec fn view(&self) -> Seq<char> {
        self.strkey@
    }
}

impl Address {
    /// Whether `self` and `other` name the same party.
    pub fn same_as(&self, other: &Address) -> (r: bool)
        ensures
            r == (self@ == other@),
    {
        self.strkey == other.strkey
    }
}

impl Clone for Address {
    fn clone(&self) -> (r: Self)
        ensures
            r == *self,
    {
        Address { strkey: self.strkey.clone() }
    }
}

/// A trade and its escrow record: the single unit of state of the escrow.
#[derive(Clone, Debug)]
pub struct Trade {
    /// Unique identifier, also the key under which the record is stored.
    pub trade_id: String,
    /// Seller. Creates the trade and confirms delivery.
    pub farmer: Address,
    /// Buyer. Funds the escrow and confirms receipt.
    pub buyer: Address,
    /// Token contract whose units are escrowed.
    pub asset: Address,
    /// Description of the produce, kept byte for byte as given.
    pub crop_details: Vec<u8>,
    /// Agreed price in the smallest unit of `asset`: exactly the amount that
    /// is locked on deposit and released on receipt.
    pub price: i128,
    /// Current lifecycle state.
    pub state: TradeState,
}

/// Storage keys: each trade record is kept under `DataKey::Trade(trade_id)`.
#[derive(Debug)]
pub enum DataKey {
    Trade(String),
}

/// The key under which a trade record is persisted: its own identifier.
pub fn storage_key(trade: &Trade) -> (key: DataKey)
    ensures
        key matches DataKey::Trade(id) && id@ == trade.trade_id@,
{
    DataKey::Trade(trade.trade_id.clone())
}

/// Published when a trade is created (`Pending`).
#[derive(Debug)]
pub struct TradeCreated {
    pub trade_id: String,
    pub farmer: Address,
    pub buyer: Address,
    pub crop_details: Vec<u8>,
    pub price: i128,
}

/// Published when the buyer locks payment in escrow (`Funded`).
#[derive(Debug)]
pub struct TradeFunded {
    pub trade_id: String,
    pub buyer: Address,
    pub amount: i128,
}

/// Published when the farmer marks the crop as delivered (`Delivered`).
#[derive(Debug)]
pub struct TradeDelivered {
    pub trade_id: String,
    pub farmer: Address,
}

/// Published when the buyer confirms receipt and payment is released
/// (`Completed`).
#[derive(Debug)]
pub struct TradeCompleted {
    pub trade_id: String,
    pub farmer: Address,
    pub buyer: Address,
    pub amount: i128,
}

/// Published when either party raises a dispute (`Disputed`).
#[derive(Debug)]
pub struct TradeDisputed {
    pub trade_id: String,
    pub caller: Address,
    pub reason: Vec<u8>,
}

/// Published when a `Pending` trade is cancelled (`Cancelled`).
#[derive(Debug)]
pub struct TradeCancelled {
    pub trade_id: String,
    pub caller: Address,
}

/// The event that a state transition publishes.
#[derive(Debug)]
pub enum TradeEvent {
    Created(TradeCreated),
    Funded(TradeFunded),
    Delivered(TradeDelivered),
    Completed(TradeCompleted),
    Disputed(TradeDisputed),
    Cancelled(TradeCancelled),
}

/// One side of a token transfer.
#[derive(Debug)]
pub enum Holder {
    /// A party of a trade.
    Party(Address),
    /// The escrow contract itself.
    Escrow,
}

/// A movement of `amount` units of the token contract `asset`.
#[derive(Debug)]
pub struct Transfer {
    pub asset: Address,
    pub from: Holder,
    pub to: Holder,
    pub amount: i128,
}

/// What an accepted operation does: the record to store (and return), the
/// token transfer to make before storing it, if any, and the event to publish
/// after storing it.
#[derive(Debug)]
pub struct Effects {
    pub trade: Trade,
    pub transfer: Option<Transfer>,
    pub event: TradeEvent,
}

/// The decision taken on an operation. When `caller_must_authorize` holds,
/// the caller's authorization is demanded first, and the operation aborts
/// without effect if it is missing; then `result` is carried out: an error is
/// returned, or the effects are applied.
#[derive(Debug)]
pub struct Outcome {
    pub caller_must_authorize: bool,
    pub result: Result<Effects, Error>,
}

// ---------------------------------------------------------------------------
// Mathematical views
// ---------------------------------------------------------------------------

/// A trade record as mathematical values: addresses and the identifier as
/// their text, the description as its bytes, the price as an integer.
pub struct TradeView {
    pub trade_id: Seq<char>,
    pub farmer: Seq<char>,
    pub buyer: Seq<char>,
    pub asset: Seq<char>,
    pub crop_details: Seq<u8>,
    pub price: int,
    pub state: TradeState,
}

impl View for Trade {
    type V = TradeView;

    open spec fn view(&self) -> TradeView {
        TradeView {
            trade_id: self.trade_id@,
            farmer: self.farmer@,
            buyer: self.buyer@,
            asset: self.asset@,
            crop_details: self.crop_details@,
            price: self.price as int,
            state: self.state,
        }
    }
}

/// The view of a stored record, if any.
pub open spec fn stored_view(stored: Option<Trade>) -> Option<TradeView> {
    match stored {
        Some(t) => Some(t@),
        None => None,
    }
}

/// An event as mathematical values.
pub enum TradeEventView {
    Created { trade_id: Seq<char>, farmer: Seq<char>, buyer: Seq<char>, crop_details: Seq<u8>, price: int },
    Funded { trade_id: Seq<char>, buyer: Seq<char>, amount: int },
    Delivered { trade_id: Seq<char>, farmer: Seq<char> },
    Completed { trade_id: Seq<char>, farmer: Seq<char>, buyer: Seq<char>, amount: int },
    Disputed { trade_id: Seq<char>, caller: Seq<char>, reason: Seq<u8> },
    Cancelled { trade_id: Seq<char>, caller: Seq<char> },
}

impl View for TradeEvent {
    type V = TradeEventView;

    open spec fn view(&self) -> TradeEventView {
        match self {
            TradeEvent::Created(e) => TradeEventView::Created {
                trade_id: e.trade_id@,
                farmer: e.farmer@,
                buyer: e.buyer@,
                crop_details: e.crop_details@,
                price: e.price as int,
            },
            TradeEvent::Funded(e) => TradeEventView::Funded {
                trade_id: e.trade_id@,
                buyer: e.buyer@,
                amount: e.amount as int,
            },
            TradeEvent::Delivered(e) => TradeEventView::Delivered {
                trade_id: e.trade_id@,
                farmer: e.farmer@,
            },
            TradeEvent::Completed(e) => TradeEventView::Completed {
                trade_id: e.trade_id@,
                farmer: e.farmer@,
                buyer: e.buyer@,
                amount: e.amount as int,
            },
            TradeEvent::Disputed(e) => TradeEventView::Disputed {
                trade_id: e.trade_id@,
                caller: e.caller@,
                reason: e.reason@,
            },
            TradeEvent::Cancelled(e) => TradeEventView::Cancelled {
                trade_id: e.trade_id@,
                caller: e.caller@,
            },
        }
    }
}

/// One side of a transfer as a mathematical value.
pub enum HolderView {
    Party(Seq<char>),
    Escrow,
}

impl View for Holder {
    type V = HolderView;

    open spec fn view(&self) -> HolderView {
        match self {
            Holder::Party(a) => HolderView::Party(a@),
            Holder::Escrow => HolderView::Escrow,
        }
    }
}

/// A transfer as mathematical values.
pub struct TransferView {
    pub asset: Seq<char>,
    pub from: HolderView,
    pub to: HolderView,
    pub amount: int,
}

impl View for Transfer {
    type V = TransferView;

    open spec fn view(&self) -> TransferView {
        TransferView { asset: self.asset@, from: self.from@, to: self.to@, amount: self.amount as int }
    }
}

/// The effects of an accepted operation as mathematical values.
pub struct EffectsView {
    pub trade: TradeView,
    pub transfer: Option<TransferView>,
    pub event: TradeEventView,
}

impl View for Effects {
    type V = EffectsView;

    open spec fn view(&self) -> EffectsView {
        EffectsView {
            trade: self.trade@,
            transfer: match self.transfer {
                Some(x) => Some(x@),
                None => None,
            },
            event: self.event@,
        }
    }
}

/// The decision on an operation as mathematical values.
pub struct OutcomeView {
    pub caller_must_authorize: bool,
    pub result: Result<EffectsView, Error>,
}

impl View for Outcome {
    type V = OutcomeView;

    open spec fn view(&self) -> OutcomeView {
        OutcomeView {
            caller_must_authorize: self.caller_must_authorize,
            result: match self.result {
                Ok(e) => Ok(e@),
                Err(e) => Err(e),
            },
        }
    }
}

} // verus!
