//! The escrow operations.

use vstd::prelude::*;
use crate::model::{
    accepted, cancel_outcome, create_outcome, delivery_outcome, deposit_outcome, dispute_outcome,
    load_result, receipt_outcome, refused,
};
use crate::types::{
    stored_view, Address, Effects, Error, Holder, Outcome, Trade, TradeCancelled, TradeCompleted,
    TradeCreated, TradeDelivered, TradeDisputed, TradeEvent, TradeFunded, TradeState, TradeView,
    Transfer,
};

verus! {

/// The AgriTrust escrow.
pub struct AgriTrustContract;

/// The stored record, or `TradeNotFound` where none is stored under the key.
pub fn load_trade(stored: Option<Trade>) -> (r: Result<Trade, Error>)
    ensures
        r == (match stored {
            Some(t) => Ok(t),
            None => Err::<Trade, Error>(Error::TradeNotFound),
        }),
        read_view(r) == load_result(stored_view(stored)),
{
    match stored {
        Some(t) => Ok(t),
        None => Err(Error::TradeNotFound),
    }
}

/// The view of a read.
pub open spec fn read_view(r: Result<Trade, Error>) -> Result<TradeView, Error> {
    match r {
        Ok(t) => Ok(t@),
        Err(e) => Err(e),
    }
}

fn refuse(auth: bool, e: Error) -> (out: Outcome)
    ensures
        out@ == refused(auth, e),
{
    Outcome { caller_must_authorize: auth, result: Err(e) }
}

fn accept(trade: Trade, transfer: Option<Transfer>, event: TradeEvent) -> (out: Outcome)
    ensures
        out@ == accepted(
            trade@,
            match transfer {
                Some(x) => Some(x@),
                None => None,
            },
            event@,
        ),
{
    Outcome { caller_must_authorize: true, result: Ok(Effects { trade, transfer, event }) }
}

impl AgriTrustContract {
    /// Creates a new trade in the `Pending` state. `trade_exists` tells
    /// whether a record is already stored under `trade_id`.
    ///
    /// The farmer's authorization is always demanded. No funds move.
    /// Errors: `TradeAlreadyExists` when `trade_id` is in use, else
    /// `InvalidPrice` when `price` is not strictly positive.
    pub fn create_trade(
        trade_exists: bool,
        trade_id: String,
        farmer: Address,
        buyer: Address,
        asset: Address,
        crop_details: Vec<u8>,
        price: i128,
    ) -> (out: Outcome)
        ensures
            out@ == create_outcome(
                trade_exists,
                trade_id@,
                farmer@,
                buyer@,
                asset@,
                crop_details@,
                price as int,
            ),
    {
        if trade_exists {
            return refuse(true, Error::TradeAlreadyExists);
        }
        if price <= 0 {
            return refuse(true, Error::InvalidPrice);
        }
        let details = crop_details.clone();
        assert(details@ =~= crop_details@);
        let event = TradeEvent::Created(TradeCreated {
            trade_id: trade_id.clone(),
            farmer: farmer.clone(),
            buyer: buyer.clone(),
            crop_details: details,
            price,
        });
        let trade = Trade {
            trade_id,
            farmer,
            buyer,
            asset,
            crop_details,
            price,
            state: TradeState::Pending,
        };
        accept(trade, None, event)
    }

    /// Locks the buyer's payment in escrow: the trade becomes `Funded` and
    /// exactly `price` moves from the buyer to the escrow. `stored` is the
    /// record kept under `trade_id`.
    ///
    /// Errors: `TradeNotFound` when nothing is stored, else
    /// `UnauthorizedCaller` when `buyer` is not the registered buyer (both
    /// without demanding authorization), else, after demanding the buyer's
    /// authorization, `InvalidState` unless the trade is `Pending`.
    pub fn deposit_payment(stored: Option<Trade>, trade_id: String, buyer: Address) -> (out: Outcome)
        ensures
            out@ == deposit_outcome(stored_view(stored), trade_id@, buyer@),
    {
        let trade = match load_trade(stored) {
            Ok(t) => t,
            Err(e) => return refuse(false, e),
        };
        if !buyer.same_as(&trade.buyer) {
            return refuse(false, Error::UnauthorizedCaller);
        }
        if trade.state != TradeState::Pending {
            return refuse(true, Error::InvalidState);
        }
        let transfer = Transfer {
            asset: trade.asset.clone(),
            from: Holder::Party(buyer.clone()),
            to: Holder::Escrow,
            amount: trade.price,
        };
        let event = TradeEvent::Funded(TradeFunded { trade_id, buyer, amount: trade.price });
        accept(Trade { state: TradeState::Funded, ..trade }, Some(transfer), event)
    }

    /// The farmer marks the crop as delivered: the trade becomes `Delivered`.
    ///
    /// Errors: `TradeNotFound`, else `UnauthorizedCaller` when `farmer` is not
    /// the registered farmer, else (after demanding the farmer's
    /// authorization) `InvalidState` unless the trade is `Funded`.
    pub fn confirm_delivery(stored: Option<Trade>, trade_id: String, farmer: Address) -> (out: Outcome)
        ensures
            out@ == delivery_outcome(stored_view(stored), trade_id@, farmer@),
    {
        let trade = match load_trade(stored) {
            Ok(t) => t,
            Err(e) => return refuse(false, e),
        };
        if !farmer.same_as(&trade.farmer) {
            return refuse(false, Error::UnauthorizedCaller);
        }
        if trade.state != TradeState::Funded {
            return refuse(true, Error::InvalidState);
        }
        let event = TradeEvent::Delivered(TradeDelivered { trade_id, farmer });
        accept(Trade { state: TradeState::Delivered, ..trade }, None, event)
    }

    /// The buyer confirms receipt: the trade becomes `Completed` and exactly
    /// `price` is released from escrow to the farmer. This is the only
    /// operation that moves funds out of the escrow.
    ///
    /// Errors: `TradeNotFound`, else `UnauthorizedCaller` when `buyer` is not
    /// the registered buyer, else (after demanding the buyer's authorization)
    /// `InvalidState` unless the trade is `Delivered`.
    pub fn confirm_receipt(stored: Option<Trade>, trade_id: String, buyer: Address) -> (out: Outcome)
        ensures
            out@ == receipt_outcome(stored_view(stored), trade_id@, buyer@),
    {
        let trade = match load_trade(stored) {
            Ok(t) => t,
            Err(e) => return refuse(false, e),
        };
        if !buyer.same_as(&trade.buyer) {
            return refuse(false, Error::UnauthorizedCaller);
        }
        if trade.state != TradeState::Delivered {
            return refuse(true, Error::InvalidState);
        }
        let transfer = Transfer {
            asset: trade.asset.clone(),
            from: Holder::Escrow,
            to: Holder::Party(trade.farmer.clone()),
            amount: trade.price,
        };
        let event = TradeEvent::Completed(TradeCompleted {
            trade_id,
            farmer: trade.farmer.clone(),
            buyer,
            amount: trade.price,
        });
        accept(Trade { state: TradeState::Completed, ..trade }, Some(transfer), event)
    }

    /// Either party freezes the escrow: the trade becomes `Disputed` and the
    /// funds stay locked.
    ///
    /// Errors: `TradeNotFound`, else `UnauthorizedCaller` when `caller` is
    /// neither party, else (after demanding the caller's authorization)
    /// `InvalidState` unless the trade is `Funded` or `Delivered`.
    pub fn raise_dispute(
        stored: Option<Trade>,
        trade_id: String,
        caller: Address,
        reason: Vec<u8>,
    ) -> (out: Outcome)
        ensures
            out@ == dispute_outcome(stored_view(stored), trade_id@, caller@, reason@),
    {
        let trade = match load_trade(stored) {
            Ok(t) => t,
            Err(e) => return refuse(false, e),
        };
        if !caller.same_as(&trade.farmer) && !caller.same_as(&trade.buyer) {
            return refuse(false, Error::UnauthorizedCaller);
        }
        if trade.state != TradeState::Funded && trade.state != TradeState::Delivered {
            return refuse(true, Error::InvalidState);
        }
        let event = TradeEvent::Disputed(TradeDisputed { trade_id, caller, reason });
        accept(Trade { state: TradeState::Disputed, ..trade }, None, event)
    }

    /// Cancels a `Pending` trade: it becomes `Cancelled`; nothing was paid, so
    /// nothing is refunded, and the record is kept.
    ///
    /// Errors: `TradeNotFound`, else `UnauthorizedCaller` when `caller` is
    /// neither party, else (after demanding the caller's authorization)
    /// `InvalidState` unless the trade is `Pending`.
    pub fn cancel_trade(stored: Option<Trade>, trade_id: String, caller: Address) -> (out: Outcome)
        ensures
            out@ == cancel_outcome(stored_view(stored), trade_id@, caller@),
    {
        let trade = match load_trade(stored) {
            Ok(t) => t,
            Err(e) => return refuse(false, e),
        };
        if !caller.same_as(&trade.farmer) && !caller.same_as(&trade.buyer) {
            return refuse(false, Error::UnauthorizedCaller);
        }
        if trade.state != TradeState::Pending {
            return refuse(true, Error::InvalidState);
        }
        let event = TradeEvent::Cancelled(TradeCancelled { trade_id, caller });
        accept(Trade { state: TradeState::Cancelled, ..trade }, None, event)
    }

    /// Reads the full record of a trade; no authorization is demanded.
    /// Error: `TradeNotFound` when nothing is stored under the identifier.
    pub fn get_trade(stored: Option<Trade>) -> (r: Result<Trade, Error>)
        ensures
            r == (match stored {
                Some(t) => Ok(t),
                None => Err::<Trade, Error>(Error::TradeNotFound),
            }),
            read_view(r) == load_result(stored_view(stored)),
    {
        load_trade(stored)
    }
}

} // verus!
