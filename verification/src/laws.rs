//! Properties of the escrow as a whole, proved over the decisions of its
//! operations.

use vstd::prelude::*;
use crate::model::{
    cancel_outcome, create_outcome, delivery_outcome, deposit_outcome, dispute_outcome, is_party,
    receipt_outcome, with_state,
};
use crate::types::{
    error_code, Error, HolderView, OutcomeView, TradeEventView, TradeState, TradeView, TransferView,
};

verus! {

/// A request made on a stored trade, with the address that makes it.
pub enum Request {
    Deposit(Seq<char>),
    ConfirmDelivery(Seq<char>),
    ConfirmReceipt(Seq<char>),
    RaiseDispute(Seq<char>, Seq<u8>),
    Cancel(Seq<char>),
}

/// The decision on `req` for the record `stored` kept under `trade_id`.
pub open spec fn request_outcome(stored: Option<TradeView>, trade_id: Seq<char>, req: Request) -> OutcomeView {
    match req {
        Request::Deposit(buyer) => deposit_outcome(stored, trade_id, buyer),
        Request::ConfirmDelivery(farmer) => delivery_outcome(stored, trade_id, farmer),
        Request::ConfirmReceipt(buyer) => receipt_outcome(stored, trade_id, buyer),
        Request::RaiseDispute(caller, reason) => dispute_outcome(stored, trade_id, caller, reason),
        Request::Cancel(caller) => cancel_outcome(stored, trade_id, caller),
    }
}

/// The party whose address a request names.
pub open spec fn requester(req: Request) -> Seq<char> {
    match req {
        Request::Deposit(a) => a,
        Request::ConfirmDelivery(a) => a,
        Request::ConfirmReceipt(a) => a,
        Request::RaiseDispute(a, _) => a,
        Request::Cancel(a) => a,
    }
}

/// The requester is the party of `t` that may make `req`: the buyer funds
/// and confirms receipt, the farmer confirms delivery, either party disputes
/// or cancels.
pub open spec fn entitled(t: TradeView, req: Request) -> bool {
    match req {
        Request::Deposit(a) => a == t.buyer,
        Request::ConfirmDelivery(a) => a == t.farmer,
        Request::ConfirmReceipt(a) => a == t.buyer,
        Request::RaiseDispute(a, _) => is_party(t, a),
        Request::Cancel(a) => is_party(t, a),
    }
}

/// The edges of the documented lifecycle.
pub open spec fn lifecycle_step(from: TradeState, to: TradeState) -> bool {
    ||| from == TradeState::Pending && to == TradeState::Funded
    ||| from == TradeState::Pending && to == TradeState::Cancelled
    ||| from == TradeState::Funded && to == TradeState::Delivered
    ||| from == TradeState::Funded && to == TradeState::Disputed
    ||| from == TradeState::Delivered && to == TradeState::Completed
    ||| from == TradeState::Delivered && to == TradeState::Disputed
}

/// States from which no operation leads anywhere.
pub open spec fn is_final(s: TradeState) -> bool {
    s == TradeState::Completed || s == TradeState::Disputed || s == TradeState::Cancelled
}

/// The units of the trade's asset that the escrow holds for it: the price
/// while funded, delivered or disputed, nothing otherwise.
pub open spec fn escrowed(t: TradeView) -> int {
    if t.state == TradeState::Funded || t.state == TradeState::Delivered || t.state
        == TradeState::Disputed {
        t.price
    } else {
        0
    }
}

/// The net units that a transfer moves into the escrow.
pub open spec fn escrow_inflow(transfer: Option<TransferView>) -> int {
    match transfer {
        None => 0,
        Some(x) => match (x.from, x.to) {
            (HolderView::Escrow, HolderView::Escrow) => 0,
            (HolderView::Party(_), HolderView::Escrow) => x.amount,
            (HolderView::Escrow, HolderView::Party(_)) => -x.amount,
            (HolderView::Party(_), HolderView::Party(_)) => 0,
        },
    }
}

/// Every accepted request moves the trade along an edge of the lifecycle;
/// no request leads back to `Pending`.
pub proof fn lemma_requests_follow_lifecycle(t: TradeView, trade_id: Seq<char>, req: Request)
    ensures
        request_outcome(Some(t), trade_id, req).result matches Ok(e) ==> lifecycle_step(
            t.state,
            e.trade.state,
        ),
        request_outcome(Some(t), trade_id, req).result matches Ok(e) ==> e.trade.state
            != TradeState::Pending,
{
}

/// A trade is created `Pending`, with a strictly positive price, holding
/// nothing and moving no funds.
pub proof fn lemma_trades_start_pending_and_unfunded(
    trade_exists: bool,
    trade_id: Seq<char>,
    farmer: Seq<char>,
    buyer: Seq<char>,
    asset: Seq<char>,
    crop_details: Seq<u8>,
    price: int,
)
    ensures
        create_outcome(trade_exists, trade_id, farmer, buyer, asset, crop_details, price).result matches Ok(
            e,
        ) ==> {
            &&& e.trade.state == TradeState::Pending
            &&& e.trade.price > 0
            &&& escrowed(e.trade) == 0
            &&& e.transfer is None
        },
{
}

/// Completed, disputed and cancelled trades are final: every request on
/// them is refused, so disputed funds stay locked.
pub proof fn lemma_final_states_refuse_everything(t: TradeView, trade_id: Seq<char>, req: Request)
    requires
        is_final(t.state),
    ensures
        request_outcome(Some(t), trade_id, req).result is Err,
{
}

/// An accepted request changes only the state of the record: identifier,
/// parties, asset, description and price never change.
pub proof fn lemma_only_the_state_changes(t: TradeView, trade_id: Seq<char>, req: Request)
    ensures
        request_outcome(Some(t), trade_id, req).result matches Ok(e) ==> e.trade == with_state(
            t,
            e.trade.state,
        ),
{
}

/// A request succeeds only for the party entitled to make it, and always
/// demands that party's authorization; a request from anyone else is refused
/// with `UnauthorizedCaller` before any authorization is demanded.
pub proof fn lemma_only_entitled_parties_act(t: TradeView, trade_id: Seq<char>, req: Request)
    ensures
        request_outcome(Some(t), trade_id, req).result is Ok ==> entitled(t, req)
            && request_outcome(Some(t), trade_id, req).caller_must_authorize,
        !entitled(t, req) ==> request_outcome(Some(t), trade_id, req) == (OutcomeView {
            caller_must_authorize: false,
            result: Err(Error::UnauthorizedCaller),
        }),
{
}

/// Funds move only in the trade's asset and always exactly its price: into
/// escrow from the buyer on funding, out of escrow to the farmer on confirmed
/// receipt, and on no other request.
pub proof fn lemma_transfers_move_exactly_the_price(t: TradeView, trade_id: Seq<char>, req: Request)
    ensures
        request_outcome(Some(t), trade_id, req).result matches Ok(e) ==> match e.transfer {
            None => !(req is Deposit) && !(req is ConfirmReceipt),
            Some(x) => {
                &&& x.asset == t.asset
                &&& x.amount == t.price
                &&& (req is Deposit ==> x.from == HolderView::Party(requester(req)) && x.to
                    == HolderView::Escrow)
                &&& (req is ConfirmReceipt ==> x.from == HolderView::Escrow && x.to == HolderView::Party(
                    t.farmer,
                ))
                &&& (req is Deposit || req is ConfirmReceipt)
            },
        },
{
}

/// What the escrow holds for a trade changes exactly by what an accepted
/// request moves into or out of it.
pub proof fn lemma_escrow_balance_follows_transfers(t: TradeView, trade_id: Seq<char>, req: Request)
    ensures
        request_outcome(Some(t), trade_id, req).result matches Ok(e) ==> escrowed(e.trade)
            == escrowed(t) + escrow_inflow(e.transfer),
{
}

/// The record after applying `reqs` in order to `t`, each refused request
/// leaving it as it was.
pub open spec fn replay(t: TradeView, reqs: Seq<Request>) -> TradeView
    decreases reqs.len(),
{
    if reqs.len() == 0 {
        t
    } else {
        let prev = replay(t, reqs.drop_last());
        match request_outcome(Some(prev), prev.trade_id, reqs.last()).result {
            Ok(e) => e.trade,
            Err(_) => prev,
        }
    }
}

/// The net units moved into escrow while applying `reqs` in order to `t`.
pub open spec fn replay_inflow(t: TradeView, reqs: Seq<Request>) -> int
    decreases reqs.len(),
{
    if reqs.len() == 0 {
        0
    } else {
        let prev = replay(t, reqs.drop_last());
        replay_inflow(t, reqs.drop_last()) + match request_outcome(
            Some(prev),
            prev.trade_id,
            reqs.last(),
        ).result {
            Ok(e) => escrow_inflow(e.transfer),
            Err(_) => 0,
        }
    }
}

/// How many requests that fund the escrow are accepted while applying `reqs`
/// in order to `t`.
pub open spec fn replay_deposits(t: TradeView, reqs: Seq<Request>) -> nat
    decreases reqs.len(),
{
    if reqs.len() == 0 {
        0
    } else {
        let prev = replay(t, reqs.drop_last());
        replay_deposits(t, reqs.drop_last()) + if reqs.last() is Deposit && request_outcome(
            Some(prev),
            prev.trade_id,
            reqs.last(),
        ).result is Ok {
            1nat
        } else {
            0nat
        }
    }
}

/// Over any sequence of requests on a trade, the escrow holds exactly what
/// was paid in minus what was paid out: the price while funded, delivered
/// or disputed, nothing before funding or after completion or cancellation.
pub proof fn lemma_escrow_conservation(t: TradeView, reqs: Seq<Request>)
    ensures
        escrowed(replay(t, reqs)) == escrowed(t) + replay_inflow(t, reqs),
        replay(t, reqs) == with_state(t, replay(t, reqs).state),
    decreases reqs.len(),
{
    if reqs.len() > 0 {
        lemma_escrow_conservation(t, reqs.drop_last());
        let prev = replay(t, reqs.drop_last());
        lemma_escrow_balance_follows_transfers(prev, prev.trade_id, reqs.last());
        lemma_only_the_state_changes(prev, prev.trade_id, reqs.last());
    }
}

/// Over any sequence of requests, a new trade is funded at most once.
pub proof fn lemma_funded_at_most_once(t: TradeView, reqs: Seq<Request>)
    requires
        t.state == TradeState::Pending,
    ensures
        replay_deposits(t, reqs) <= 1,
        replay_deposits(t, reqs) == 1 ==> replay(t, reqs).state != TradeState::Pending,
    decreases reqs.len(),
{
    if reqs.len() > 0 {
        lemma_funded_at_most_once(t, reqs.drop_last());
        let prev = replay(t, reqs.drop_last());
        lemma_requests_follow_lifecycle(prev, prev.trade_id, reqs.last());
    }
}

/// The intended run: the buyer funds, the farmer delivers, the buyer
/// confirms receipt. Every step is accepted, the trade ends `Completed`,
/// and the escrow, having taken in the price and paid it out to the farmer,
/// holds nothing.
pub proof fn lemma_happy_path(t: TradeView)
    requires
        t.state == TradeState::Pending,
    ensures
        ({
            let reqs = seq![
                Request::Deposit(t.buyer),
                Request::ConfirmDelivery(t.farmer),
                Request::ConfirmReceipt(t.buyer),
            ];
            &&& replay(t, reqs) == with_state(t, TradeState::Completed)
            &&& replay_inflow(t, reqs) == 0
            &&& escrowed(replay(t, reqs)) == 0
        }),
{
    let reqs = seq![
        Request::Deposit(t.buyer),
        Request::ConfirmDelivery(t.farmer),
        Request::ConfirmReceipt(t.buyer),
    ];
    let r1 = seq![Request::Deposit(t.buyer)];
    let r2 = seq![Request::Deposit(t.buyer), Request::ConfirmDelivery(t.farmer)];
    assert(r1.drop_last() =~= Seq::<Request>::empty());
    assert(r2.drop_last() =~= r1);
    assert(reqs.drop_last() =~= r2);
    assert(replay(t, Seq::<Request>::empty()) == t);
    assert(replay_inflow(t, Seq::<Request>::empty()) == 0);
    assert(r1.last() == Request::Deposit(t.buyer));
    assert(replay(t, r1) == with_state(t, TradeState::Funded));
    assert(replay(t, r2) == with_state(t, TradeState::Delivered));
    assert(replay_inflow(t, r1) == t.price);
    assert(replay_inflow(t, r2) == t.price);
    lemma_escrow_conservation(t, reqs);
}

// ---------------------------------------------------------------------------
// What each operation is for, over all inputs
// ---------------------------------------------------------------------------

/// Creating a trade succeeds exactly when the identifier is free and the
/// price is strictly positive; it always demands the farmer's authorization;
/// an identifier in use is reported before a bad price. An accepted creation
/// yields a `Pending` record holding exactly the requested identifier,
/// parties, asset, description (every byte) and price, moves no funds, and
/// announces those same values.
pub proof fn lemma_create_trade_law(
    trade_exists: bool,
    trade_id: Seq<char>,
    farmer: Seq<char>,
    buyer: Seq<char>,
    asset: Seq<char>,
    crop_details: Seq<u8>,
    price: int,
)
    ensures
        ({
            let out = create_outcome(trade_exists, trade_id, farmer, buyer, asset, crop_details, price);
            &&& out.caller_must_authorize
            &&& (out.result is Ok <==> !trade_exists && price > 0)
            &&& (trade_exists ==> out.result == Err::<crate::types::EffectsView, Error>(
                Error::TradeAlreadyExists,
            ))
            &&& (!trade_exists && price <= 0 ==> out.result == Err::<crate::types::EffectsView, Error>(
                Error::InvalidPrice,
            ))
            &&& (out.result is Ok ==> {
                let e = out.result->Ok_0;
                &&& e.trade.trade_id == trade_id
                &&& e.trade.farmer == farmer
                &&& e.trade.buyer == buyer
                &&& e.trade.asset == asset
                &&& e.trade.crop_details == crop_details
                &&& e.trade.crop_details.len() == crop_details.len()
                &&& e.trade.price == price
                &&& e.trade.state == TradeState::Pending
                &&& e.transfer is None
                &&& e.event == (TradeEventView::Created { trade_id, farmer, buyer, crop_details, price })
            })
        }),
{
}

/// Funding succeeds exactly on a stored `Pending` trade requested by its
/// registered buyer. A missing trade, then a caller other than the buyer,
/// are refused without demanding authorization; any other refusal is
/// `InvalidState` after demanding it. An accepted deposit keeps every field
/// but the state, which becomes `Funded`, and moves exactly the price in the
/// trade's asset from the buyer into escrow.
pub proof fn lemma_deposit_payment_law(stored: Option<TradeView>, trade_id: Seq<char>, buyer: Seq<char>)
    ensures
        ({
            let out = deposit_outcome(stored, trade_id, buyer);
            &&& (out.result is Ok <==> (stored is Some && buyer == stored->Some_0.buyer
                && stored->Some_0.state == TradeState::Pending))
            &&& (stored is None ==> !out.caller_must_authorize && out.result
                == Err::<crate::types::EffectsView, Error>(Error::TradeNotFound))
            &&& (stored is Some && buyer != stored->Some_0.buyer ==> !out.caller_must_authorize
                && out.result == Err::<crate::types::EffectsView, Error>(Error::UnauthorizedCaller))
            &&& (stored is Some && buyer == stored->Some_0.buyer ==> out.caller_must_authorize)
            &&& (stored is Some && buyer == stored->Some_0.buyer && stored->Some_0.state
                != TradeState::Pending ==> out.result == Err::<crate::types::EffectsView, Error>(
                Error::InvalidState,
            ))
            &&& (out.result is Ok ==> {
                let t = stored->Some_0;
                let e = out.result->Ok_0;
                &&& e.trade == (TradeView { state: TradeState::Funded, ..t })
                &&& e.transfer == Some(
                    TransferView {
                        asset: t.asset,
                        from: HolderView::Party(t.buyer),
                        to: HolderView::Escrow,
                        amount: t.price,
                    },
                )
                &&& e.event == (TradeEventView::Funded { trade_id, buyer, amount: t.price })
            })
        }),
{
}

/// Confirming delivery succeeds exactly on a stored `Funded` trade requested
/// by its registered farmer; a second confirmation, or one on any other
/// state, is `InvalidState`. An accepted confirmation keeps every field but
/// the state, which becomes `Delivered`, and moves no funds.
pub proof fn lemma_confirm_delivery_law(stored: Option<TradeView>, trade_id: Seq<char>, farmer: Seq<char>)
    ensures
        ({
            let out = delivery_outcome(stored, trade_id, farmer);
            &&& (out.result is Ok <==> (stored is Some && farmer == stored->Some_0.farmer
                && stored->Some_0.state == TradeState::Funded))
            &&& (stored is None ==> !out.caller_must_authorize && out.result
                == Err::<crate::types::EffectsView, Error>(Error::TradeNotFound))
            &&& (stored is Some && farmer != stored->Some_0.farmer ==> !out.caller_must_authorize
                && out.result == Err::<crate::types::EffectsView, Error>(Error::UnauthorizedCaller))
            &&& (stored is Some && farmer == stored->Some_0.farmer ==> out.caller_must_authorize)
            &&& (stored is Some && farmer == stored->Some_0.farmer && stored->Some_0.state
                != TradeState::Funded ==> out.result == Err::<crate::types::EffectsView, Error>(
                Error::InvalidState,
            ))
            &&& (out.result is Ok ==> {
                let t = stored->Some_0;
                let e = out.result->Ok_0;
                &&& e.trade == (TradeView { state: TradeState::Delivered, ..t })
                &&& e.transfer is None
                &&& e.event == (TradeEventView::Delivered { trade_id, farmer })
            })
        }),
{
}

/// Confirming receipt succeeds exactly on a stored `Delivered` trade
/// requested by its registered buyer. An accepted confirmation keeps every
/// field but the state, which becomes `Completed`, and releases exactly the
/// price in the trade's asset from escrow to the farmer.
pub proof fn lemma_confirm_receipt_law(stored: Option<TradeView>, trade_id: Seq<char>, buyer: Seq<char>)
    ensures
        ({
            let out = receipt_outcome(stored, trade_id, buyer);
            &&& (out.result is Ok <==> (stored is Some && buyer == stored->Some_0.buyer
                && stored->Some_0.state == TradeState::Delivered))
            &&& (stored is None ==> !out.caller_must_authorize && out.result
                == Err::<crate::types::EffectsView, Error>(Error::TradeNotFound))
            &&& (stored is Some && buyer != stored->Some_0.buyer ==> !out.caller_must_authorize
                && out.result == Err::<crate::types::EffectsView, Error>(Error::UnauthorizedCaller))
            &&& (stored is Some && buyer == stored->Some_0.buyer ==> out.caller_must_authorize)
            &&& (stored is Some && buyer == stored->Some_0.buyer && stored->Some_0.state
                != TradeState::Delivered ==> out.result == Err::<crate::types::EffectsView, Error>(
                Error::InvalidState,
            ))
            &&& (out.result is Ok ==> {
                let t = stored->Some_0;
                let e = out.result->Ok_0;
                &&& e.trade == (TradeView { state: TradeState::Completed, ..t })
                &&& e.transfer == Some(
                    TransferView {
                        asset: t.asset,
                        from: HolderView::Escrow,
                        to: HolderView::Party(t.farmer),
                        amount: t.price,
                    },
                )
                &&& e.event == (TradeEventView::Completed {
                    trade_id,
                    farmer: t.farmer,
                    buyer,
                    amount: t.price,
                })
            })
        }),
{
}

/// Either party (farmer or buyer alike) can raise a dispute on a stored
/// trade that is `Funded` or `Delivered`, and only then. An accepted dispute
/// keeps every field but the state, which becomes `Disputed`, moves no funds
/// (the price stays locked), and announces the caller and the reason.
pub proof fn lemma_raise_dispute_law(
    stored: Option<TradeView>,
    trade_id: Seq<char>,
    caller: Seq<char>,
    reason: Seq<u8>,
)
    ensures
        ({
            let out = dispute_outcome(stored, trade_id, caller, reason);
            let party = stored is Some && (caller == stored->Some_0.farmer || caller
                == stored->Some_0.buyer);
            &&& (out.result is Ok <==> (party && (stored->Some_0.state == TradeState::Funded
                || stored->Some_0.state == TradeState::Delivered)))
            &&& (stored is None ==> !out.caller_must_authorize && out.result
                == Err::<crate::types::EffectsView, Error>(Error::TradeNotFound))
            &&& (stored is Some && !party ==> !out.caller_must_authorize && out.result
                == Err::<crate::types::EffectsView, Error>(Error::UnauthorizedCaller))
            &&& (party ==> out.caller_must_authorize)
            &&& (party && stored->Some_0.state != TradeState::Funded && stored->Some_0.state
                != TradeState::Delivered ==> out.result == Err::<crate::types::EffectsView, Error>(
                Error::InvalidState,
            ))
            &&& (out.result is Ok ==> {
                let t = stored->Some_0;
                let e = out.result->Ok_0;
                &&& e.trade == (TradeView { state: TradeState::Disputed, ..t })
                &&& e.transfer is None
                &&& e.event == (TradeEventView::Disputed { trade_id, caller, reason })
            })
        }),
{
}

/// Either party can cancel a stored trade while it is `Pending`, and only
/// then: after funding, delivery or any later state the request is
/// `InvalidState`. An accepted cancellation keeps every field but the state,
/// which becomes `Cancelled`, and moves no funds.
pub proof fn lemma_cancel_trade_law(stored: Option<TradeView>, trade_id: Seq<char>, caller: Seq<char>)
    ensures
        ({
            let out = cancel_outcome(stored, trade_id, caller);
            let party = stored is Some && (caller == stored->Some_0.farmer || caller
                == stored->Some_0.buyer);
            &&& (out.result is Ok <==> (party && stored->Some_0.state == TradeState::Pending))
            &&& (stored is None ==> !out.caller_must_authorize && out.result
                == Err::<crate::types::EffectsView, Error>(Error::TradeNotFound))
            &&& (stored is Some && !party ==> !out.caller_must_authorize && out.result
                == Err::<crate::types::EffectsView, Error>(Error::UnauthorizedCaller))
            &&& (party ==> out.caller_must_authorize)
            &&& (party && stored->Some_0.state != TradeState::Pending ==> out.result
                == Err::<crate::types::EffectsView, Error>(Error::InvalidState))
            &&& (out.result is Ok ==> {
                let t = stored->Some_0;
                let e = out.result->Ok_0;
                &&& e.trade == (TradeView { state: TradeState::Cancelled, ..t })
                &&& e.transfer is None
                &&& e.event == (TradeEventView::Cancelled { trade_id, caller })
            })
        }),
{
}

/// The error codes reported on chain are 1 to 5 in declaration order, one
/// per error, so that no two errors can be confused by a caller.
pub proof fn lemma_error_codes_are_distinct(a: Error, b: Error)
    ensures
        1 <= error_code(a) <= 5,
        error_code(a) == error_code(b) ==> a == b,
        error_code(Error::TradeNotFound) == 1,
        error_code(Error::TradeAlreadyExists) == 2,
        error_code(Error::UnauthorizedCaller) == 3,
        error_code(Error::InvalidState) == 4,
        error_code(Error::InvalidPrice) == 5,
{
}

// ---------------------------------------------------------------------------
// The whole store against the escrow's token holdings
// ---------------------------------------------------------------------------

/// A store of trade records is well formed when it is finite and every record
/// is kept under its own identifier.
pub open spec fn store_wf(store: Map<Seq<char>, TradeView>) -> bool {
    &&& store.dom().finite()
    &&& forall|k: Seq<char>| store.dom().contains(k) ==> (#[trigger] store[k]).trade_id == k
}

/// The record stored under `trade_id`, if any.
pub open spec fn lookup(store: Map<Seq<char>, TradeView>, trade_id: Seq<char>) -> Option<TradeView> {
    if store.dom().contains(trade_id) {
        Some(store[trade_id])
    } else {
        None
    }
}

/// What the escrow holds in the token `asset` for the trade `t`.
pub open spec fn escrowed_in(t: TradeView, asset: Seq<char>) -> int {
    if t.asset == asset {
        escrowed(t)
    } else {
        0
    }
}

/// The sum of what the escrow holds in `asset` for the records under `keys`.
pub open spec fn held_over(store: Map<Seq<char>, TradeView>, keys: Set<Seq<char>>, asset: Seq<char>) -> int
    decreases keys.len(),
    when keys.finite()
{
    if keys.len() == 0 {
        0
    } else {
        let k = keys.choose();
        escrowed_in(store[k], asset) + held_over(store, keys.remove(k), asset)
    }
}

/// The sum of the prices of all funded, delivered or disputed trades of the
/// store whose asset is `asset`.
pub open spec fn total_escrowed(store: Map<Seq<char>, TradeView>, asset: Seq<char>) -> int {
    held_over(store, store.dom(), asset)
}

/// The escrow's token holdings, per asset, are exactly what the store says
/// it holds.
pub open spec fn holdings_match(
    store: Map<Seq<char>, TradeView>,
    holdings: spec_fn(Seq<char>) -> int,
) -> bool {
    forall|asset: Seq<char>| #[trigger] holdings(asset) == total_escrowed(store, asset)
}

/// The escrow's holdings after a transfer moves exactly the amount asked.
/// The escrow is its own holder: a party of a trade is never the escrow.
pub open spec fn holdings_after(
    holdings: spec_fn(Seq<char>) -> int,
    transfer: Option<TransferView>,
) -> spec_fn(Seq<char>) -> int {
    match transfer {
        None => holdings,
        Some(x) => |asset: Seq<char>|
            if asset == x.asset {
                holdings(asset) + escrow_inflow(Some(x))
            } else {
                holdings(asset)
            },
    }
}

/// The store after the host carries out `out`: a refused operation changes
/// nothing; an accepted one stores its record under its own identifier.
pub open spec fn store_after(store: Map<Seq<char>, TradeView>, out: OutcomeView) -> Map<Seq<char>, TradeView> {
    match out.result {
        Ok(e) => store.insert(e.trade.trade_id, e.trade),
        Err(_) => store,
    }
}

/// The escrow's holdings after the host carries out `out`.
pub open spec fn escrow_holdings_after(
    holdings: spec_fn(Seq<char>) -> int,
    out: OutcomeView,
) -> spec_fn(Seq<char>) -> int {
    match out.result {
        Ok(e) => holdings_after(holdings, e.transfer),
        Err(_) => holdings,
    }
}

proof fn lemma_held_over_remove(
    store: Map<Seq<char>, TradeView>,
    keys: Set<Seq<char>>,
    k: Seq<char>,
    asset: Seq<char>,
)
    requires
        keys.finite(),
        keys.contains(k),
    ensures
        held_over(store, keys, asset) == escrowed_in(store[k], asset) + held_over(
            store,
            keys.remove(k),
            asset,
        ),
    decreases keys.len(),
{
    let c = keys.choose();
    if c != k {
        lemma_held_over_remove(store, keys.remove(c), k, asset);
        lemma_held_over_remove(store, keys.remove(k), c, asset);
        assert(keys.remove(c).remove(k) =~= keys.remove(k).remove(c));
    }
}

proof fn lemma_held_over_agree(
    s1: Map<Seq<char>, TradeView>,
    s2: Map<Seq<char>, TradeView>,
    keys: Set<Seq<char>>,
    asset: Seq<char>,
)
    requires
        keys.finite(),
        forall|j: Seq<char>| keys.contains(j) ==> s1[j] == s2[j],
    ensures
        held_over(s1, keys, asset) == held_over(s2, keys, asset),
    decreases keys.len(),
{
    if keys.len() > 0 {
        let k = keys.choose();
        lemma_held_over_agree(s1, s2, keys.remove(k), asset);
    }
}

proof fn lemma_total_after_insert(
    store: Map<Seq<char>, TradeView>,
    k: Seq<char>,
    t: TradeView,
    asset: Seq<char>,
)
    requires
        store.dom().finite(),
    ensures
        total_escrowed(store.insert(k, t), asset) == total_escrowed(store, asset) - (if store.dom().contains(k) {
            escrowed_in(store[k], asset)
        } else {
            0
        }) + escrowed_in(t, asset),
{
    let s2 = store.insert(k, t);
    let d = store.dom();
    assert(s2.dom() =~= d.insert(k));
    lemma_held_over_remove(s2, s2.dom(), k, asset);
    assert(s2.dom().remove(k) =~= d.remove(k));
    lemma_held_over_agree(s2, store, d.remove(k), asset);
    if d.contains(k) {
        lemma_held_over_remove(store, d, k, asset);
    } else {
        assert(d.remove(k) =~= d);
    }
}

/// An empty store holds nothing, matching an escrow that holds no tokens.
pub proof fn lemma_empty_store_holds_nothing(asset: Seq<char>)
    ensures
        total_escrowed(Map::<Seq<char>, TradeView>::empty(), asset) == 0,
        store_wf(Map::<Seq<char>, TradeView>::empty()),
{
    assert(Map::<Seq<char>, TradeView>::empty().dom() =~= Set::<Seq<char>>::empty());
}

/// Whatever request the host carries out on the record stored under
/// `trade_id`, the store stays well formed and, in every asset, the escrow's
/// token holdings stay equal to the sum of the prices of the funded,
/// delivered or disputed trades in that asset.
pub proof fn lemma_requests_keep_holdings_matched(
    store: Map<Seq<char>, TradeView>,
    holdings: spec_fn(Seq<char>) -> int,
    trade_id: Seq<char>,
    req: Request,
)
    requires
        store_wf(store),
        holdings_match(store, holdings),
    ensures
        ({
            let out = request_outcome(lookup(store, trade_id), trade_id, req);
            &&& store_wf(store_after(store, out))
            &&& holdings_match(store_after(store, out), escrow_holdings_after(holdings, out))
        }),
{
    let out = request_outcome(lookup(store, trade_id), trade_id, req);
    if let Ok(e) = out.result {
        let t = store[trade_id];
        assert(store.dom().contains(trade_id));
        lemma_only_the_state_changes(t, trade_id, req);
        lemma_escrow_balance_follows_transfers(t, trade_id, req);
        lemma_transfers_move_exactly_the_price(t, trade_id, req);
        let s2 = store_after(store, out);
        let h2 = escrow_holdings_after(holdings, out);
        assert forall|k: Seq<char>| s2.dom().contains(k) implies (#[trigger] s2[k]).trade_id == k by {}
        assert(s2.dom() =~= store.dom().insert(e.trade.trade_id));
        assert forall|asset: Seq<char>| #[trigger] h2(asset) == total_escrowed(s2, asset) by {
            lemma_total_after_insert(store, trade_id, e.trade, asset);
            assert(holdings(asset) == total_escrowed(store, asset));
        }
    }
}

/// Creating a trade, carried out by the host with `trade_exists` read from
/// the store, keeps the store well formed and the escrow's holdings matched:
/// an identifier in use is never overwritten and a new trade holds nothing.
pub proof fn lemma_creation_keeps_holdings_matched(
    store: Map<Seq<char>, TradeView>,
    holdings: spec_fn(Seq<char>) -> int,
    trade_id: Seq<char>,
    farmer: Seq<char>,
    buyer: Seq<char>,
    asset: Seq<char>,
    crop_details: Seq<u8>,
    price: int,
)
    requires
        store_wf(store),
        holdings_match(store, holdings),
    ensures
        ({
            let out = create_outcome(
                store.dom().contains(trade_id),
                trade_id,
                farmer,
                buyer,
                asset,
                crop_details,
                price,
            );
            &&& store_wf(store_after(store, out))
            &&& holdings_match(store_after(store, out), escrow_holdings_after(holdings, out))
            &&& (store.dom().contains(trade_id) ==> store_after(store, out) == store)
        }),
{
    let out = create_outcome(
        store.dom().contains(trade_id),
        trade_id,
        farmer,
        buyer,
        asset,
        crop_details,
        price,
    );
    if let Ok(e) = out.result {
        let s2 = store_after(store, out);
        let h2 = escrow_holdings_after(holdings, out);
        assert forall|k: Seq<char>| s2.dom().contains(k) implies (#[trigger] s2[k]).trade_id == k by {}
        assert(s2.dom() =~= store.dom().insert(trade_id));
        assert forall|a: Seq<char>| #[trigger] h2(a) == total_escrowed(s2, a) by {
            lemma_total_after_insert(store, trade_id, e.trade, a);
            assert(holdings(a) == total_escrowed(store, a));
        }
    }
}

} // verus!
