use bfx::client::{
    deposit_address_result_from_json, key_permission_from_body, key_permission_from_permissions,
    ledger_from_json, permission_from_json, platform_status_from_json, stat_from_json,
    stats_from_body, wallet_from_json, wallets_from_body, Permission,
};
use bfx::codec::{decode_fields, req, res, FieldKind, FieldValue};
use bfx::error::{BitfinexError, DecodeFailure};
use bfx::funding::{candle_from_json, candles_from_body, funding_offer_result_from_json};
use bfx::json::JsonValue;
use bfx::trading::TradingOrderType;

fn num(s: &str) -> JsonValue {
    JsonValue::Num(s.to_string())
}

fn text(s: &str) -> JsonValue {
    JsonValue::Str(s.to_string())
}

#[test]
fn wallet_decodes_with_reserved_null_slots() {
    let row = JsonValue::Arr(vec![
        text("exchange"),
        text("USD"),
        num("100.5"),
        num("0"),
        num("100.5"),
        JsonValue::Null,
        JsonValue::Null,
    ]);
    let w = wallet_from_json(&row).expect("the row must decode");
    assert_eq!(w.typ, "exchange");
    assert_eq!(w.ccy, "USD");
    assert_eq!(w.balance, "100.5");
    assert_eq!(w.unsettled_amount, "0");
    assert_eq!(w.free, "100.5");
}

#[test]
fn wallet_arity_mismatch_is_a_decode_error() {
    let row = JsonValue::Arr(vec![
        text("exchange"),
        text("USD"),
        num("100.5"),
        num("0"),
        num("100.5"),
        JsonValue::Null,
    ]);
    assert_eq!(
        wallet_from_json(&row),
        Err(BitfinexError::DecodeError(DecodeFailure::Arity { expected: 7, actual: 6 }))
    );
    assert_eq!(
        wallet_from_json(&text("not an array")),
        Err(BitfinexError::DecodeError(DecodeFailure::NotArray))
    );
}

#[test]
fn boolean_fields_accept_integers_and_tokens() {
    let p = permission_from_json(&JsonValue::Arr(vec![text("account"), num("1"), num("0")]))
        .expect("integer bits must decode");
    assert_eq!(p, Permission { name: "account".to_string(), read: true, write: false });
    let p = permission_from_json(&JsonValue::Arr(vec![
        text("orders"),
        text("true"),
        text("false"),
    ]))
    .expect("boolean tokens must decode");
    assert!(p.read);
    assert!(!p.write);
    let p = permission_from_json(&JsonValue::Arr(vec![
        text("x"),
        JsonValue::Bool(true),
        JsonValue::Bool(false),
    ]))
    .expect("native booleans must decode");
    assert!(p.read);
    assert_eq!(
        permission_from_json(&JsonValue::Arr(vec![text("x"), num("2"), num("0")])),
        Err(BitfinexError::DecodeError(DecodeFailure::Field { position: 1 }))
    );
}

#[test]
fn platform_status_decodes_the_one_bit() {
    let p = platform_status_from_json(&JsonValue::Arr(vec![num("1")])).unwrap();
    assert!(p.status);
    let p = platform_status_from_json(&JsonValue::Arr(vec![num("0")])).unwrap();
    assert!(!p.status);
}

#[test]
fn wallets_decode_from_body_text() {
    let body = "[[\"exchange\",\"USD\",100.5,0,100.5,null,null],[\"funding\",\"BTC\",2,0,2,null,null]]";
    let ws = wallets_from_body(body).expect("the body must decode");
    assert_eq!(ws.len(), 2);
    assert_eq!(ws[0].ccy, "USD");
    assert_eq!(ws[1].typ, "funding");
    assert_eq!(ws[1].balance, "2");
    assert!(wallets_from_body("not json").is_err());
    assert_eq!(
        wallets_from_body("{\"a\":1}"),
        Err(BitfinexError::DecodeError(DecodeFailure::NotArray))
    );
}

#[test]
fn stats_decode_with_calendar_checked_times() {
    let ss = stats_from_body("[[1700000000000, 42.5]]").unwrap();
    assert_eq!(ss.len(), 1);
    assert_eq!(ss[0].time, 1700000000000);
    assert_eq!(ss[0].value, "42.5");
}

#[test]
fn out_of_range_times_are_decode_errors() {
    // Far beyond any calendar: the millisecond count fits no timestamp.
    let r = stat_from_json(&JsonValue::Arr(vec![num("9000000000000000000"), num("1")]));
    assert_eq!(r, Err(BitfinexError::DecodeError(DecodeFailure::Field { position: 0 })));
    // Not an integer at all.
    let r = stat_from_json(&JsonValue::Arr(vec![num("1.5"), num("1")]));
    assert_eq!(r, Err(BitfinexError::DecodeError(DecodeFailure::Field { position: 0 })));
}

#[test]
fn candles_decode() {
    let c = candle_from_json(&JsonValue::Arr(vec![
        num("1700000000000"),
        num("1.0"),
        num("2.0"),
        num("3.0"),
        num("0.5"),
        num("1000"),
    ]))
    .unwrap();
    assert_eq!(c.time, 1700000000000);
    assert_eq!(c.open, "1.0");
    assert_eq!(c.volume, "1000");
    let cs = candles_from_body("[[1700000000000,1,2,3,0.5,1000]]").unwrap();
    assert_eq!(cs.len(), 1);
    assert_eq!(cs[0].close, "2");
}

#[test]
fn ledger_rows_decode_with_optional_description() {
    let l = ledger_from_json(&JsonValue::Arr(vec![
        num("9001"),
        text("USD"),
        text("funding"),
        num("1700000000000"),
        JsonValue::Null,
        num("1.25"),
        num("100"),
        JsonValue::Null,
        text("interest payment"),
    ]))
    .unwrap();
    assert_eq!(l.id, 9001);
    assert_eq!(l.wallet, "funding");
    assert_eq!(l.description, Some("interest payment".to_string()));
    let l = ledger_from_json(&JsonValue::Arr(vec![
        num("1"),
        text("USD"),
        text("funding"),
        num("0"),
        JsonValue::Null,
        num("1"),
        num("1"),
        JsonValue::Null,
        JsonValue::Null,
    ]))
    .unwrap();
    assert_eq!(l.description, None);
}

#[test]
fn enumerated_fields_fall_back_to_the_default_variant() {
    let schema = vec![req(FieldKind::OrderType)];
    let out = decode_fields(&vec![text("EXCHANGE LIMIT")], &schema).unwrap();
    assert_eq!(out, vec![FieldValue::Order(TradingOrderType::ExchangeLimit)]);
    let out = decode_fields(&vec![text("BRAND NEW KIND")], &schema).unwrap();
    assert_eq!(out, vec![FieldValue::Order(TradingOrderType::Limit)]);
}

#[test]
fn reserved_slots_accept_any_value_and_are_dropped() {
    let schema = vec![res(), req(FieldKind::Str), res()];
    let out = decode_fields(
        &vec![JsonValue::Arr(vec![num("1")]), text("kept"), JsonValue::Bool(true)],
        &schema,
    )
    .unwrap();
    assert_eq!(out, vec![FieldValue::Text("kept".to_string())]);
}

#[test]
fn funding_offer_envelope_decodes_with_its_nested_offer() {
    let offer_row = JsonValue::Arr(vec![
        num("12345"),
        text("fUSD"),
        num("1700000000000"),
        num("1700000000001"),
        num("1000"),
        num("1000"),
        text("LIMIT"),
        JsonValue::Null,
        JsonValue::Null,
        JsonValue::Null,
        text("ACTIVE"),
        JsonValue::Null,
        JsonValue::Null,
        JsonValue::Null,
        num("0.0001"),
        num("2"),
        num("0"),
        num("0"),
        JsonValue::Null,
        num("0"),
        JsonValue::Null,
    ]);
    let envelope = JsonValue::Arr(vec![
        num("1700000000002"),
        text("fon-req"),
        JsonValue::Null,
        JsonValue::Null,
        offer_row,
        JsonValue::Null,
        text("SUCCESS"),
        text("Submitting funding offer"),
    ]);
    let r = funding_offer_result_from_json(&envelope).expect("the envelope must decode");
    assert_eq!(r.event_type, "fon-req");
    assert_eq!(r.status, "SUCCESS");
    assert_eq!(r.offer.id, 12345);
    assert_eq!(r.offer.symbol, "fUSD");
    assert_eq!(r.offer.rate, "0.0001");
    assert_eq!(r.offer.period, 2);
    assert_eq!(r.offer.notify, Some(0));
    assert_eq!(r.message, Some("Submitting funding offer".to_string()));
}

#[test]
fn deposit_address_envelope_decodes_its_address_list() {
    let addr_row = JsonValue::Arr(vec![
        JsonValue::Null,
        text("bitcoin"),
        text("BTC"),
        JsonValue::Null,
        text("bc1qexampleaddress"),
        JsonValue::Null,
    ]);
    let envelope = JsonValue::Arr(vec![
        num("1700000000000"),
        text("acc_dep"),
        JsonValue::Null,
        JsonValue::Null,
        JsonValue::Arr(vec![addr_row]),
        JsonValue::Null,
        text("SUCCESS"),
        JsonValue::Null,
    ]);
    let r = deposit_address_result_from_json(&envelope).expect("the envelope must decode");
    assert_eq!(r.noti_type, "acc_dep");
    assert_eq!(r.addresses.len(), 1);
    assert_eq!(r.addresses[0].method, "bitcoin");
    assert_eq!(r.addresses[0].address, "bc1qexampleaddress");
    assert_eq!(r.addresses[0].pool_address, None);
}

#[test]
fn key_permissions_assemble_by_scope_name() {
    let names = [
        "account",
        "orders",
        "funding",
        "settings",
        "wallets",
        "withdraw",
        "history",
        "positions",
        "ui_withdraw",
        "bfxpay",
        "eaas_agreement",
        "eaas_withdraw",
        "eaas_deposit",
        "eaas_brokerage",
    ];
    let mut body = String::from("[");
    for (i, n) in names.iter().enumerate() {
        if i > 0 {
            body.push(',');
        }
        body.push_str(&format!("[\"{}\",1,0]", n));
    }
    body.push(']');
    let kp = key_permission_from_body(&body).expect("all scopes are present");
    assert!(kp.account.read);
    assert!(!kp.account.write);
    assert_eq!(kp.eaas_brokerage.name, "eaas_brokerage");

    // A later row of the same name wins.
    let mut perms = Vec::new();
    for n in names.iter() {
        perms.push(Permission { name: n.to_string(), read: false, write: false });
    }
    perms.push(Permission { name: "orders".to_string(), read: true, write: true });
    let kp = key_permission_from_permissions(&perms).unwrap();
    assert!(kp.orders.read && kp.orders.write);
    assert!(!kp.account.read);

    // A missing scope is refused.
    let perms = vec![Permission { name: "account".to_string(), read: true, write: true }];
    assert_eq!(
        key_permission_from_permissions(&perms),
        Err(BitfinexError::DecodeError(DecodeFailure::MissingEntry))
    );
}

fn order_row(order_type: &str) -> JsonValue {
    JsonValue::Arr(vec![
        num("555"),                // id
        JsonValue::Null,           // group id
        num("777"),                // client order id
        text("tBTCUSD"),           // symbol
        num("1700000000000"),      // created
        num("1700000000001"),      // updated
        num("0.1"),                // amount
        num("0.1"),                // original amount
        text(order_type),          // order type
        JsonValue::Null,           // previous type
        JsonValue::Null,           // time in force
        JsonValue::Null,           // reserved
        num("0"),                  // flags
        text("ACTIVE"),            // status
        JsonValue::Null,           // reserved
        JsonValue::Null,           // reserved
        num("30000"),              // price
        num("0"),                  // average price
        num("0"),                  // trailing price
        num("0"),                  // auxiliary limit price
        JsonValue::Null,           // reserved
        JsonValue::Null,           // reserved
        JsonValue::Null,           // reserved
        num("0"),                  // notify
        num("0"),                  // hidden
        JsonValue::Null,           // placed id
        JsonValue::Null,           // reserved
        JsonValue::Null,           // reserved
        text("API>BFX"),           // routing
        JsonValue::Null,           // reserved
        JsonValue::Null,           // reserved
        JsonValue::Null,           // meta
    ])
}

#[test]
fn trading_orders_decode_with_their_enumerated_type() {
    let o = bfx::trading::trading_order_from_json(&order_row("EXCHANGE LIMIT")).unwrap();
    assert_eq!(o.id, 555);
    assert_eq!(o.symbol, "tBTCUSD");
    assert_eq!(o.order_type, TradingOrderType::ExchangeLimit);
    assert_eq!(o.price, "30000");
    assert_eq!(o.routing, "API>BFX");
    assert_eq!(o.group_id, None);
    assert_eq!(o.notify, Some(0));
    // An unmapped wire token falls back to the documented default variant.
    let o = bfx::trading::trading_order_from_json(&order_row("SOME FUTURE KIND")).unwrap();
    assert_eq!(o.order_type, TradingOrderType::Limit);
}

#[test]
fn trading_order_envelopes_decode() {
    let envelope = JsonValue::Arr(vec![
        num("1700000000002"),
        text("on-req"),
        JsonValue::Null,
        JsonValue::Null,
        order_row("LIMIT"),
        JsonValue::Null,
        text("SUCCESS"),
        text("Submitting order"),
    ]);
    let r = bfx::trading::trading_order_result_from_json(&envelope).unwrap();
    assert_eq!(r.noti_type, "on-req");
    assert_eq!(r.order.id, 555);

    let multi = JsonValue::Arr(vec![
        num("1700000000002"),
        text("on-req"),
        JsonValue::Null,
        JsonValue::Null,
        JsonValue::Arr(vec![order_row("LIMIT"), order_row("MARKET")]),
        JsonValue::Null,
        text("SUCCESS"),
        JsonValue::Null,
    ]);
    let r = bfx::trading::trading_order_multi_result_from_json(&multi).unwrap();
    assert_eq!(r.orders.len(), 2);
    assert_eq!(r.orders[1].order_type, TradingOrderType::Market);
}

#[test]
fn trades_and_book_levels_decode() {
    let t = bfx::funding::funding_trade_from_json(&JsonValue::Arr(vec![
        num("1"),
        num("1700000000000"),
        num("100"),
        num("0.0002"),
        num("30"),
    ]))
    .unwrap();
    assert_eq!(t.period, 30);
    assert_eq!(t.rate, "0.0002");

    let t = bfx::trading::trading_trade_from_json(&JsonValue::Arr(vec![
        num("2"),
        num("1700000000000"),
        num("-0.5"),
        num("30000"),
    ]))
    .unwrap();
    assert_eq!(t.amount, "-0.5");

    let b = bfx::funding::funding_book_from_json(&JsonValue::Arr(vec![
        num("0.0002"),
        num("2"),
        num("5"),
        num("-1000"),
    ]))
    .unwrap();
    assert_eq!(b.count, 5);
    assert_eq!(b.period, 2);

    let b = bfx::trading::trading_book_from_json(&JsonValue::Arr(vec![
        num("30000"),
        num("3"),
        num("0.25"),
    ]))
    .unwrap();
    assert_eq!(b.price, "30000");
    assert_eq!(b.count, 3);
}

#[test]
fn tickers_and_raw_books_decode() {
    let t = bfx::trading::trading_ticker_from_json(&JsonValue::Arr(vec![
        num("29999"),
        num("10"),
        num("30001"),
        num("12"),
        num("-100"),
        num("-0.003"),
        num("30000"),
        num("555"),
        num("31000"),
        num("29000"),
    ]))
    .unwrap();
    assert_eq!(t.bid, "29999");
    assert_eq!(t.low, "29000");

    let t = bfx::funding::funding_ticker_from_json(&JsonValue::Arr(vec![
        num("0.0002"),
        num("0.00019"),
        num("2"),
        num("1000"),
        num("0.00021"),
        num("30"),
        num("2000"),
        num("0.00001"),
        num("0.05"),
        num("0.0002"),
        num("100000"),
        num("0.00025"),
        num("0.00015"),
        JsonValue::Null,
        JsonValue::Null,
        num("50000"),
    ]))
    .unwrap();
    assert_eq!(t.bid_period, 2);
    assert_eq!(t.ask_period, 30);
    assert_eq!(t.frr_amount_available, "50000");

    let b = bfx::trading::trading_book_raw_from_json(&JsonValue::Arr(vec![
        num("99"),
        num("30000"),
        num("0.5"),
    ]))
    .unwrap();
    assert_eq!(b.order_id, 99);

    let b = bfx::funding::funding_book_raw_from_json(&JsonValue::Arr(vec![
        num("77"),
        num("30"),
        num("0.0002"),
        num("-500"),
    ]))
    .unwrap();
    assert_eq!(b.period, 30);
    assert_eq!(b.amount, "-500");
}

#[test]
fn funding_credits_decode() {
    let c = bfx::funding::funding_credit_from_json(&JsonValue::Arr(vec![
        num("321"),
        text("fUSD"),
        num("1"),
        num("1700000000000"),
        num("1700000000001"),
        num("500"),
        JsonValue::Null,
        text("ACTIVE"),
        text("FIXED"),
        JsonValue::Null,
        JsonValue::Null,
        num("0.0002"),
        num("30"),
        num("1700000000002"),
        num("1700000000003"),
        JsonValue::Null,
        num("0"),
        JsonValue::Null,
        num("1"),
        JsonValue::Null,
        num("0"),
        text("tBTCUSD"),
    ]))
    .unwrap();
    assert_eq!(c.id, 321);
    assert_eq!(c.side, 1);
    assert_eq!(c.period, 30);
    assert_eq!(c.notify, None);
    assert!(!c.hidden);
    assert!(c.renew);
    assert!(!c.no_close);
    assert_eq!(c.pair, "tBTCUSD");
}

#[test]
fn ledger_lists_decode_from_body_text() {
    let body = "[[9001,\"USD\",\"funding\",1700000000000,null,1.25,100,null,\"interest payment\"],[9002,\"USD\",\"funding\",1700000000001,null,2,102,null,null]]";
    let ls = bfx::client::ledgers_from_body(body).expect("the body must decode");
    assert_eq!(ls.len(), 2);
    assert_eq!(ls[0].id, 9001);
    assert_eq!(ls[1].description, None);
    assert!(bfx::client::ledgers_from_body("not json").is_err());
}

#[test]
fn raw_book_lists_decode() {
    let v = JsonValue::Arr(vec![
        JsonValue::Arr(vec![num("99"), num("30000"), num("0.5")]),
        JsonValue::Arr(vec![num("98"), num("29999"), num("-0.5")]),
    ]);
    let bs = bfx::trading::trading_books_raw_from_json(&v).unwrap();
    assert_eq!(bs.len(), 2);
    assert_eq!(bs[1].order_id, 98);

    let v = JsonValue::Arr(vec![JsonValue::Arr(vec![
        num("77"),
        num("30"),
        num("0.0002"),
        num("-500"),
    ])]);
    let bs = bfx::funding::funding_books_raw_from_json(&v).unwrap();
    assert_eq!(bs.len(), 1);
    assert_eq!(bs[0].rate, "0.0002");
}

#[test]
fn a_list_with_one_bad_row_is_an_error() {
    // The second row's boolean slot holds an unacceptable number.
    let v = JsonValue::Arr(vec![
        JsonValue::Arr(vec![text("account"), num("1"), num("1")]),
        JsonValue::Arr(vec![text("orders"), num("7"), num("0")]),
    ]);
    assert_eq!(
        bfx::client::permissions_from_json(&v),
        Err(BitfinexError::DecodeError(DecodeFailure::Field { position: 1 }))
    );
    // A row that is no array at all.
    let v = JsonValue::Arr(vec![text("not a row")]);
    assert_eq!(
        bfx::client::permissions_from_json(&v),
        Err(BitfinexError::DecodeError(DecodeFailure::NotArray))
    );
}

#[test]
fn an_envelope_with_a_bad_row_in_its_list_is_an_error() {
    let multi = JsonValue::Arr(vec![
        num("1700000000002"),
        text("on-req"),
        JsonValue::Null,
        JsonValue::Null,
        JsonValue::Arr(vec![order_row("LIMIT"), JsonValue::Arr(vec![num("1")])]),
        JsonValue::Null,
        text("SUCCESS"),
        JsonValue::Null,
    ]);
    assert_eq!(
        bfx::trading::trading_order_multi_result_from_json(&multi),
        Err(BitfinexError::DecodeError(DecodeFailure::Arity { expected: 32, actual: 1 }))
    );
}

#[test]
fn unsigned_fields_enforce_their_bounds() {
    let schema = vec![req(FieldKind::UIntMax(255))];
    assert_eq!(decode_fields(&vec![num("255")], &schema).unwrap(), vec![FieldValue::UInt(255)]);
    assert_eq!(
        decode_fields(&vec![num("256")], &schema),
        Err(DecodeFailure::Field { position: 0 })
    );
    assert_eq!(
        decode_fields(&vec![num("-1")], &schema),
        Err(DecodeFailure::Field { position: 0 })
    );
    let schema = vec![req(FieldKind::UIntMax(u64::MAX))];
    assert_eq!(
        decode_fields(&vec![num("18446744073709551615")], &schema).unwrap(),
        vec![FieldValue::UInt(u64::MAX)]
    );
    let schema = vec![req(FieldKind::IntRange(-1, 1))];
    assert_eq!(decode_fields(&vec![num("-1")], &schema).unwrap(), vec![FieldValue::Int(-1)]);
    assert_eq!(
        decode_fields(&vec![num("2")], &schema),
        Err(DecodeFailure::Field { position: 0 })
    );
}
