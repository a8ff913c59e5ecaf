// The decisions of each escrow operation, checked on concrete records.

use agritrust::contract::{load_trade, AgriTrustContract};
use agritrust::types::{
    storage_key, Address, DataKey, Effects, Error, Holder, Outcome, Trade, TradeEvent, TradeState,
};

fn addr(s: &str) -> Address {
    Address { strkey: s.to_string() }
}

fn trade(state: TradeState) -> Trade {
    Trade {
        trade_id: "t7".to_string(),
        farmer: addr("GFARM"),
        buyer: addr("GBUY"),
        asset: addr("CASSET"),
        crop_details: b"500kg maize".to_vec(),
        price: 250,
        state,
    }
}

fn effects(out: Outcome) -> Effects {
    assert!(out.caller_must_authorize);
    match out.result {
        Ok(e) => e,
        Err(e) => panic!("refused with {:?}", e),
    }
}

fn refusal(out: &Outcome) -> (bool, Error) {
    match &out.result {
        Ok(_) => panic!("accepted"),
        Err(e) => (out.caller_must_authorize, *e),
    }
}

const ALL_STATES: [TradeState; 6] = [
    TradeState::Pending,
    TradeState::Funded,
    TradeState::Delivered,
    TradeState::Completed,
    TradeState::Disputed,
    TradeState::Cancelled,
];

/// Every request, made by the entitled party, on a trade in state `s`.
fn all_requests(s: TradeState) -> Vec<Outcome> {
    vec![
        AgriTrustContract::deposit_payment(Some(trade(s)), "t7".to_string(), addr("GBUY")),
        AgriTrustContract::confirm_delivery(Some(trade(s)), "t7".to_string(), addr("GFARM")),
        AgriTrustContract::confirm_receipt(Some(trade(s)), "t7".to_string(), addr("GBUY")),
        AgriTrustContract::raise_dispute(Some(trade(s)), "t7".to_string(), addr("GFARM"), b"late".to_vec()),
        AgriTrustContract::raise_dispute(Some(trade(s)), "t7".to_string(), addr("GBUY"), b"bad".to_vec()),
        AgriTrustContract::cancel_trade(Some(trade(s)), "t7".to_string(), addr("GFARM")),
        AgriTrustContract::cancel_trade(Some(trade(s)), "t7".to_string(), addr("GBUY")),
    ]
}

fn escrowed(t: &Trade) -> i128 {
    match t.state {
        TradeState::Funded | TradeState::Delivered | TradeState::Disputed => t.price,
        _ => 0,
    }
}

fn inflow(e: &Effects) -> i128 {
    match &e.transfer {
        None => 0,
        Some(x) => match (&x.from, &x.to) {
            (Holder::Party(_), Holder::Escrow) => x.amount,
            (Holder::Escrow, Holder::Party(_)) => -x.amount,
            _ => 0,
        },
    }
}

#[test]
fn error_codes_are_stable() {
    assert_eq!(Error::TradeNotFound.code(), 1);
    assert_eq!(Error::TradeAlreadyExists.code(), 2);
    assert_eq!(Error::UnauthorizedCaller.code(), 3);
    assert_eq!(Error::InvalidState.code(), 4);
    assert_eq!(Error::InvalidPrice.code(), 5);
}

#[test]
fn create_builds_a_pending_record_and_announces_it() {
    let e = effects(AgriTrustContract::create_trade(
        false,
        "t9".to_string(),
        addr("GFARM"),
        addr("GBUY"),
        addr("CASSET"),
        b"1t rice".to_vec(),
        42,
    ));
    assert_eq!(e.trade.trade_id, "t9");
    assert_eq!(e.trade.farmer.strkey, "GFARM");
    assert_eq!(e.trade.buyer.strkey, "GBUY");
    assert_eq!(e.trade.asset.strkey, "CASSET");
    assert_eq!(e.trade.crop_details, b"1t rice".to_vec());
    assert_eq!(e.trade.price, 42);
    assert_eq!(e.trade.state, TradeState::Pending);
    assert!(e.transfer.is_none());
    match e.event {
        TradeEvent::Created(c) => {
            assert_eq!(c.trade_id, "t9");
            assert_eq!(c.farmer.strkey, "GFARM");
            assert_eq!(c.buyer.strkey, "GBUY");
            assert_eq!(c.crop_details, b"1t rice".to_vec());
            assert_eq!(c.price, 42);
        },
        other => panic!("unexpected event {:?}", other),
    }
}

#[test]
fn create_refusals_and_their_order() {
    let create = |exists: bool, price: i128| {
        AgriTrustContract::create_trade(
            exists,
            "t9".to_string(),
            addr("GFARM"),
            addr("GBUY"),
            addr("CASSET"),
            b"x".to_vec(),
            price,
        )
    };
    // The farmer's authorization is demanded before anything else.
    assert_eq!(refusal(&create(true, 10)), (true, Error::TradeAlreadyExists));
    assert_eq!(refusal(&create(true, -5)), (true, Error::TradeAlreadyExists));
    assert_eq!(refusal(&create(false, 0)), (true, Error::InvalidPrice));
    assert_eq!(refusal(&create(false, -1)), (true, Error::InvalidPrice));
    assert_eq!(refusal(&create(false, i128::MIN)), (true, Error::InvalidPrice));
    assert!(create(false, 1).result.is_ok());
}

#[test]
fn missing_trade_is_refused_before_anything_else() {
    let outs = vec![
        AgriTrustContract::deposit_payment(None, "x".to_string(), addr("GBUY")),
        AgriTrustContract::confirm_delivery(None, "x".to_string(), addr("GFARM")),
        AgriTrustContract::confirm_receipt(None, "x".to_string(), addr("GBUY")),
        AgriTrustContract::raise_dispute(None, "x".to_string(), addr("GBUY"), b"r".to_vec()),
        AgriTrustContract::cancel_trade(None, "x".to_string(), addr("GBUY")),
    ];
    for o in &outs {
        assert_eq!(refusal(o), (false, Error::TradeNotFound));
    }
    assert!(matches!(AgriTrustContract::get_trade(None), Err(Error::TradeNotFound)));
    assert!(matches!(load_trade(None), Err(Error::TradeNotFound)));
}

#[test]
fn wrong_party_is_refused_without_demanding_authorization() {
    for s in ALL_STATES {
        let outs = vec![
            AgriTrustContract::deposit_payment(Some(trade(s)), "t7".to_string(), addr("GFARM")),
            AgriTrustContract::confirm_delivery(Some(trade(s)), "t7".to_string(), addr("GBUY")),
            AgriTrustContract::confirm_receipt(Some(trade(s)), "t7".to_string(), addr("GFARM")),
            AgriTrustContract::raise_dispute(Some(trade(s)), "t7".to_string(), addr("GOTHER"), b"r".to_vec()),
            AgriTrustContract::cancel_trade(Some(trade(s)), "t7".to_string(), addr("GOTHER")),
        ];
        for o in &outs {
            assert_eq!(refusal(o), (false, Error::UnauthorizedCaller));
        }
    }
}

#[test]
fn deposit_locks_exactly_the_price() {
    let e = effects(AgriTrustContract::deposit_payment(Some(trade(TradeState::Pending)), "t7".to_string(), addr("GBUY")));
    assert_eq!(e.trade.state, TradeState::Funded);
    let x = e.transfer.expect("a transfer");
    assert_eq!(x.asset.strkey, "CASSET");
    assert!(matches!(&x.from, Holder::Party(a) if a.strkey == "GBUY"));
    assert!(matches!(x.to, Holder::Escrow));
    assert_eq!(x.amount, 250);
    match e.event {
        TradeEvent::Funded(f) => {
            assert_eq!(f.trade_id, "t7");
            assert_eq!(f.buyer.strkey, "GBUY");
            assert_eq!(f.amount, 250);
        },
        other => panic!("unexpected event {:?}", other),
    }
}

#[test]
fn receipt_releases_exactly_the_price_to_the_farmer() {
    let e = effects(AgriTrustContract::confirm_receipt(Some(trade(TradeState::Delivered)), "t7".to_string(), addr("GBUY")));
    assert_eq!(e.trade.state, TradeState::Completed);
    let x = e.transfer.expect("a transfer");
    assert_eq!(x.asset.strkey, "CASSET");
    assert!(matches!(x.from, Holder::Escrow));
    assert!(matches!(&x.to, Holder::Party(a) if a.strkey == "GFARM"));
    assert_eq!(x.amount, 250);
    match e.event {
        TradeEvent::Completed(c) => {
            assert_eq!(c.trade_id, "t7");
            assert_eq!(c.farmer.strkey, "GFARM");
            assert_eq!(c.buyer.strkey, "GBUY");
            assert_eq!(c.amount, 250);
        },
        other => panic!("unexpected event {:?}", other),
    }
}

#[test]
fn delivery_dispute_and_cancel_move_no_funds() {
    let e = effects(AgriTrustContract::confirm_delivery(Some(trade(TradeState::Funded)), "t7".to_string(), addr("GFARM")));
    assert_eq!(e.trade.state, TradeState::Delivered);
    assert!(e.transfer.is_none());
    assert!(matches!(&e.event, TradeEvent::Delivered(d) if d.farmer.strkey == "GFARM" && d.trade_id == "t7"));

    let e = effects(AgriTrustContract::raise_dispute(Some(trade(TradeState::Delivered)), "t7".to_string(), addr("GBUY"), b"mould".to_vec()));
    assert_eq!(e.trade.state, TradeState::Disputed);
    assert!(e.transfer.is_none());
    assert!(matches!(&e.event, TradeEvent::Disputed(d) if d.caller.strkey == "GBUY" && d.reason == b"mould".to_vec()));

    let e = effects(AgriTrustContract::cancel_trade(Some(trade(TradeState::Pending)), "t7".to_string(), addr("GFARM")));
    assert_eq!(e.trade.state, TradeState::Cancelled);
    assert!(e.transfer.is_none());
    assert!(matches!(&e.event, TradeEvent::Cancelled(c) if c.caller.strkey == "GFARM"));
}

#[test]
fn illegal_transitions_demand_authorization_then_fail() {
    let out = AgriTrustContract::deposit_payment(Some(trade(TradeState::Funded)), "t7".to_string(), addr("GBUY"));
    assert_eq!(refusal(&out), (true, Error::InvalidState));
    let out = AgriTrustContract::confirm_delivery(Some(trade(TradeState::Pending)), "t7".to_string(), addr("GFARM"));
    assert_eq!(refusal(&out), (true, Error::InvalidState));
    let out = AgriTrustContract::confirm_receipt(Some(trade(TradeState::Funded)), "t7".to_string(), addr("GBUY"));
    assert_eq!(refusal(&out), (true, Error::InvalidState));
    let out = AgriTrustContract::raise_dispute(Some(trade(TradeState::Pending)), "t7".to_string(), addr("GBUY"), b"r".to_vec());
    assert_eq!(refusal(&out), (true, Error::InvalidState));
    let out = AgriTrustContract::cancel_trade(Some(trade(TradeState::Delivered)), "t7".to_string(), addr("GBUY"));
    assert_eq!(refusal(&out), (true, Error::InvalidState));
}

fn lifecycle_step(from: TradeState, to: TradeState) -> bool {
    matches!(
        (from, to),
        (TradeState::Pending, TradeState::Funded)
            | (TradeState::Pending, TradeState::Cancelled)
            | (TradeState::Funded, TradeState::Delivered)
            | (TradeState::Funded, TradeState::Disputed)
            | (TradeState::Delivered, TradeState::Completed)
            | (TradeState::Delivered, TradeState::Disputed)
    )
}

#[test]
fn every_accepted_request_follows_the_lifecycle_and_keeps_the_record() {
    for s in ALL_STATES {
        for out in all_requests(s) {
            if let Ok(e) = &out.result {
                assert!(out.caller_must_authorize);
                assert!(lifecycle_step(s, e.trade.state));
                let t = trade(s);
                assert_eq!(e.trade.trade_id, t.trade_id);
                assert_eq!(e.trade.farmer.strkey, t.farmer.strkey);
                assert_eq!(e.trade.buyer.strkey, t.buyer.strkey);
                assert_eq!(e.trade.asset.strkey, t.asset.strkey);
                assert_eq!(e.trade.crop_details, t.crop_details);
                assert_eq!(e.trade.price, t.price);
                assert_eq!(escrowed(&e.trade), escrowed(&t) + inflow(e));
            }
        }
    }
}

#[test]
fn final_states_refuse_every_request() {
    for s in [TradeState::Completed, TradeState::Disputed, TradeState::Cancelled] {
        for out in all_requests(s) {
            assert_eq!(refusal(&out), (true, Error::InvalidState));
        }
    }
}

#[test]
fn the_escrow_holds_the_price_only_between_funding_and_release() {
    let t0 = trade(TradeState::Pending);
    let e1 = effects(AgriTrustContract::deposit_payment(Some(t0), "t7".to_string(), addr("GBUY")));
    let mut held = inflow(&e1);
    assert_eq!(held, 250);
    // A second deposit is refused: funded at most once.
    let again = AgriTrustContract::deposit_payment(Some(trade(e1.trade.state)), "t7".to_string(), addr("GBUY"));
    assert_eq!(refusal(&again), (true, Error::InvalidState));
    let e2 = effects(AgriTrustContract::confirm_delivery(Some(e1.trade), "t7".to_string(), addr("GFARM")));
    held += inflow(&e2);
    assert_eq!(held, 250);
    let e3 = effects(AgriTrustContract::confirm_receipt(Some(e2.trade), "t7".to_string(), addr("GBUY")));
    held += inflow(&e3);
    assert_eq!(held, 0);
    assert_eq!(e3.trade.state, TradeState::Completed);
}

#[test]
fn records_are_kept_under_their_own_identifier() {
    let t = trade(TradeState::Funded);
    match storage_key(&t) {
        DataKey::Trade(id) => assert_eq!(id, "t7"),
    }
    let read = AgriTrustContract::get_trade(Some(trade(TradeState::Delivered))).expect("stored");
    assert_eq!(read.trade_id, "t7");
    assert_eq!(read.state, TradeState::Delivered);
    assert_eq!(read.price, 250);
}

#[test]
fn descriptions_are_kept_byte_for_byte() {
    let details = vec![0xff, 0x00, 0xc3, 0x28, b'k', b'g'];
    let e = effects(AgriTrustContract::create_trade(
        false,
        "t3".to_string(),
        addr("GFARM"),
        addr("GBUY"),
        addr("CASSET"),
        details.clone(),
        9,
    ));
    assert_eq!(e.trade.crop_details, details);
    assert!(matches!(&e.event, TradeEvent::Created(c) if c.crop_details == details));
    let reason = vec![0x80, 0x81];
    let e = effects(AgriTrustContract::raise_dispute(Some(trade(TradeState::Funded)), "t7".to_string(), addr("GFARM"), reason.clone()));
    assert!(matches!(&e.event, TradeEvent::Disputed(d) if d.reason == reason));
}

fn total_escrowed(store: &[Trade], asset: &str) -> i128 {
    store.iter().filter(|t| t.asset.strkey == asset).map(escrowed).sum()
}

#[test]
fn escrow_holdings_match_the_store_across_trades_and_assets() {
    // Two trades in one asset, one in another, driven through different paths.
    let mk = |id: &str, asset: &str, price: i128| {
        effects(AgriTrustContract::create_trade(
            false,
            id.to_string(),
            addr("GFARM"),
            addr("GBUY"),
            addr(asset),
            b"grain".to_vec(),
            price,
        ))
        .trade
    };
    let mut store = vec![mk("a", "CUSD", 100), mk("b", "CUSD", 40), mk("c", "CXLM", 7)];
    let mut usd: i128 = 0;
    let mut xlm: i128 = 0;
    let steps: Vec<(usize, u8)> = vec![(0, 0), (1, 0), (2, 0), (0, 1), (1, 3), (0, 2), (2, 1)];
    for (i, op) in steps {
        let cur = Some(store[i].clone());
        let id = store[i].trade_id.clone();
        let out = match op {
            0 => AgriTrustContract::deposit_payment(cur, id, addr("GBUY")),
            1 => AgriTrustContract::confirm_delivery(cur, id, addr("GFARM")),
            2 => AgriTrustContract::confirm_receipt(cur, id, addr("GBUY")),
            _ => AgriTrustContract::raise_dispute(cur, id, addr("GBUY"), b"late".to_vec()),
        };
        let e = effects(out);
        let flow = inflow(&e);
        if e.trade.asset.strkey == "CUSD" {
            usd += flow;
        } else {
            xlm += flow;
        }
        store[i] = e.trade;
        assert_eq!(usd, total_escrowed(&store, "CUSD"));
        assert_eq!(xlm, total_escrowed(&store, "CXLM"));
    }
    // a completed, b disputed (40 locked), c delivered (7 locked).
    assert_eq!(usd, 40);
    assert_eq!(xlm, 7);
}

#[test]
fn addresses_compare_by_strkey() {
    let a = addr("GABC");
    let b = a.clone();
    assert_eq!(b.strkey, "GABC");
    assert!(a.same_as(&b));
    assert!(!a.same_as(&addr("GABD")));
    assert!(!a.same_as(&addr("GAB")));
}
