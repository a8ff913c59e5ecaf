//! What each escrow operation decides, as a function of the stored record and
//! the request, over the mathematical views of the values involved.

use vstd::prelude::*;
use crate::types::{
    EffectsView, Error, HolderView, OutcomeView, TradeEventView, TradeState, TradeView, TransferView,
};

verus! {

/// `caller` is the farmer or the buyer of `t`.
pub open spec fn is_party(t: TradeView, caller: Seq<char>) -> bool {
    caller == t.farmer || caller == t.buyer
}

/// `t` with its state replaced by `s` and every other field kept.
pub open spec fn with_state(t: TradeView, s: TradeState) -> TradeView {
    TradeView { state: s, ..t }
}

/// An operation refused with `e`, demanding the caller's authorization first
/// exactly when `auth` holds.
pub open spec fn refused(auth: bool, e: Error) -> OutcomeView {
    OutcomeView { caller_must_authorize: auth, result: Err(e) }
}

/// An accepted operation (the caller's authorization is always demanded).
pub open spec fn accepted(
    trade: TradeView,
    transfer: Option<TransferView>,
    event: TradeEventView,
) -> OutcomeView {
    OutcomeView {
        caller_must_authorize: true,
        result: Ok(EffectsView { trade, transfer, event }),
    }
}

/// Reading a trade: the stored record, or `TradeNotFound` where none is stored.
pub open spec fn load_result(stored: Option<TradeView>) -> Result<TradeView, Error> {
    match stored {
        Some(t) => Ok(t),
        None => Err(Error::TradeNotFound),
    }
}

/// Creating a trade: the farmer must authorize; an identifier already in use
/// is refused, then a price that is not strictly positive; otherwise a
/// `Pending` record is made and announced.
pub open spec fn create_outcome(
    trade_exists: bool,
    trade_id: Seq<char>,
    farmer: Seq<char>,
    buyer: Seq<char>,
    asset: Seq<char>,
    crop_details: Seq<u8>,
    price: int,
) -> OutcomeView {
    if trade_exists {
        refused(true, Error::TradeAlreadyExists)
    } else if price <= 0 {
        refused(true, Error::InvalidPrice)
    } else {
        accepted(
            TradeView { trade_id, farmer, buyer, asset, crop_details, price, state: TradeState::Pending },
            None,
            TradeEventView::Created { trade_id, farmer, buyer, crop_details, price },
        )
    }
}

/// Funding the escrow: only the registered buyer, only from `Pending`; the
/// buyer pays exactly the price into escrow and the trade becomes `Funded`.
pub open spec fn deposit_outcome(
    stored: Option<TradeView>,
    trade_id: Seq<char>,
    buyer: Seq<char>,
) -> OutcomeView {
    match stored {
        None => refused(false, Error::TradeNotFound),
        Some(t) => if buyer != t.buyer {
            refused(false, Error::UnauthorizedCaller)
        } else if t.state != TradeState::Pending {
            refused(true, Error::InvalidState)
        } else {
            accepted(
                with_state(t, TradeState::Funded),
                Some(TransferView { asset: t.asset, from: HolderView::Party(buyer), to: HolderView::Escrow, amount: t.price }),
                TradeEventView::Funded { trade_id, buyer, amount: t.price },
            )
        },
    }
}

/// Marking delivery: only the registered farmer, only from `Funded`; no funds
/// move and the trade becomes `Delivered`.
pub open spec fn delivery_outcome(
    stored: Option<TradeView>,
    trade_id: Seq<char>,
    farmer: Seq<char>,
) -> OutcomeView {
    match stored {
        None => refused(false, Error::TradeNotFound),
        Some(t) => if farmer != t.farmer {
            refused(false, Error::UnauthorizedCaller)
        } else if t.state != TradeState::Funded {
            refused(true, Error::InvalidState)
        } else {
            accepted(
                with_state(t, TradeState::Delivered),
                None,
                TradeEventView::Delivered { trade_id, farmer },
            )
        },
    }
}

/// Confirming receipt: only the registered buyer, only from `Delivered`; the
/// escrow pays exactly the price to the farmer and the trade becomes
/// `Completed`.
pub open spec fn receipt_outcome(
    stored: Option<TradeView>,
    trade_id: Seq<char>,
    buyer: Seq<char>,
) -> OutcomeView {
    match stored {
        None => refused(false, Error::TradeNotFound),
        Some(t) => if buyer != t.buyer {
            refused(false, Error::UnauthorizedCaller)
        } else if t.state != TradeState::Delivered {
            refused(true, Error::InvalidState)
        } else {
            accepted(
                with_state(t, TradeState::Completed),
                Some(TransferView { asset: t.asset, from: HolderView::Escrow, to: HolderView::Party(t.farmer), amount: t.price }),
                TradeEventView::Completed { trade_id, farmer: t.farmer, buyer, amount: t.price },
            )
        },
    }
}

/// Raising a dispute: only a party of the trade, only from `Funded` or
/// `Delivered`; no funds move and the trade becomes `Disputed`.
pub open spec fn dispute_outcome(
    stored: Option<TradeView>,
    trade_id: Seq<char>,
    caller: Seq<char>,
    reason: Seq<u8>,
) -> OutcomeView {
    match stored {
        None => refused(false, Error::TradeNotFound),
        Some(t) => if !is_party(t, caller) {
            refused(false, Error::UnauthorizedCaller)
        } else if t.state != TradeState::Funded && t.state != TradeState::Delivered {
            refused(true, Error::InvalidState)
        } else {
            accepted(
                with_state(t, TradeState::Disputed),
                None,
                TradeEventView::Disputed { trade_id, caller, reason },
            )
        },
    }
}

/// Cancelling: only a party of the trade, only from `Pending`; no funds move
/// and the trade becomes `Cancelled`.
pub open spec fn cancel_outcome(
    stored: Option<TradeView>,
    trade_id: Seq<char>,
    caller: Seq<char>,
) -> OutcomeView {
    match stored {
        None => refused(false, Error::TradeNotFound),
        Some(t) => if !is_party(t, caller) {
            refused(false, Error::UnauthorizedCaller)
        } else if t.state != TradeState::Pending {
            refused(true, Error::InvalidState)
        } else {
            accepted(
                with_state(t, TradeState::Cancelled),
                None,
                TradeEventView::Cancelled { trade_id, caller },
            )
        },
    }
}

} // verus!
