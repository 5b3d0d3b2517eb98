use bfx::client::{
    deposit_address_payload, deriv_status_path, exchange_rate_payload, funding_stats_path,
    ledger_payload, ledgers_path, stat_path, DepositMethod, LedgerType, StatKey, WalletType,
};
use bfx::error::{BitfinexError, PreconditionFailure};
use bfx::funding::{
    cancel_all_funding_offers_payload, cancel_funding_offer_payload, candle_period_segment,
    funding_book_path, funding_book_raw_path, funding_candles_path, funding_credits_hist_path,
    funding_credits_path, funding_offers_hist_path, funding_offers_path, funding_ticker_path,
    funding_trades_path, submit_funding_offer_payload, BookPrecision, CandleAggPeriod,
    CandleTimeFrame, FundingOrderType,
};
use bfx::trading::{
    cancel_all_orders_payload, cancel_trading_order_payload, orders_hist_payload,
    submit_trading_order_payload, trading_book_path, trading_book_raw_path, trading_candles_path,
    trading_orders_hist_path, trading_orders_path, trading_orders_payload, trading_ticker_path,
    trading_trades_path, update_trading_order_payload, TradingOrderType,
};
use bfx::utils::parse_ccy_from_symbol;

#[test]
fn candle_aggregation_arithmetic() {
    assert_eq!(candle_period_segment(30, &CandleAggPeriod::A10), "a10:p21:p30");
    assert_eq!(candle_period_segment(20, &CandleAggPeriod::Nil), "p20");
    assert_eq!(candle_period_segment(30, &CandleAggPeriod::A30), "a30:p2:p30");
    assert_eq!(candle_period_segment(120, &CandleAggPeriod::A120), "a120:p2:p120");
    assert_eq!(candle_period_segment(5, &CandleAggPeriod::A10), "a10:p2:p5");
}

#[test]
fn funding_candle_path_carries_the_aggregation() {
    let p = funding_candles_path(
        "fUSD",
        30,
        CandleAggPeriod::A10,
        CandleTimeFrame::Min30,
        Some(20),
        None,
        None,
    );
    assert_eq!(p, "candles/trade:30m:fUSD:a10:p21:p30/hist?sort=-1&limit=20");
    let p = funding_candles_path(
        "fUSD",
        20,
        CandleAggPeriod::Nil,
        CandleTimeFrame::Hour1,
        None,
        Some(1000),
        Some(2000),
    );
    assert_eq!(p, "candles/trade:1h:fUSD:p20/hist?sort=-1&start=1000&end=2000");
}

#[test]
fn default_candle_setup() {
    assert_eq!(
        bfx::funding::funding_candles_default_path("fUSD"),
        "candles/trade:30m:fUSD:a30:p2:p30/hist?sort=-1"
    );
}

#[test]
fn trading_candle_path_checks_the_marker() {
    let p = trading_candles_path("tBTCUSD", CandleTimeFrame::Hour1, None, None, None).unwrap();
    assert_eq!(p, "candles/trade:1h:tBTCUSD/hist?sort=-1");
    assert_eq!(
        trading_candles_path("fUSD", CandleTimeFrame::Hour1, None, None, None),
        Err(BitfinexError::PreconditionViolation(PreconditionFailure::TradingSymbolRequired))
    );
}

#[test]
fn stat_routing_defaults_the_pair_qualifier_with_a_notice() {
    let (path, notice) =
        stat_path("fUSD", StatKey::CreditsSizeSym, None, None, None, None, None).unwrap();
    assert_eq!(path, "stats1/credits.size.sym:1m:fUSD:tBTCUSD/hist?sort=-1");
    assert!(notice);
    let (path, notice) = stat_path(
        "fUSD",
        StatKey::CreditsSizeSym,
        Some("tETHUSD".to_string()),
        None,
        None,
        None,
        None,
    )
    .unwrap();
    assert_eq!(path, "stats1/credits.size.sym:1m:fUSD:tETHUSD/hist?sort=-1");
    assert!(!notice);
}

#[test]
fn stat_routing_table() {
    let (path, notice) =
        stat_path("fUSD", StatKey::FundingSize, None, None, None, None, None).unwrap();
    assert_eq!(path, "stats1/funding.size:1m:fUSD/hist?sort=-1");
    assert!(!notice);
    let (path, _) = stat_path("tBTCUSD", StatKey::PosSize, None, None, None, None, None).unwrap();
    assert_eq!(path, "stats1/pos.size:1m:tBTCUSD:long/hist?sort=-1");
    let (path, _) =
        stat_path("tBTCUSD", StatKey::PosSize, None, Some(true), None, None, None).unwrap();
    assert_eq!(path, "stats1/pos.size:1m:tBTCUSD:short/hist?sort=-1");
    let (path, _) = stat_path("tBTCUSD", StatKey::Vwap, None, None, None, None, None).unwrap();
    assert_eq!(path, "stats1/vwap:1d:tBTCUSD/hist?sort=-1");
    let (path, _) = stat_path("tBTCUSD", StatKey::Vol30d, None, None, Some(3), None, None).unwrap();
    assert_eq!(path, "stats1/vol.30d:30m:BFX/hist?sort=-1&limit=3");
}

#[test]
fn stat_routing_enforces_instrument_category() {
    assert_eq!(
        stat_path("tBTCUSD", StatKey::FundingSize, None, None, None, None, None),
        Err(BitfinexError::PreconditionViolation(PreconditionFailure::FundingSymbolRequired))
    );
    assert_eq!(
        stat_path("fUSD", StatKey::PosSize, None, None, None, None, None),
        Err(BitfinexError::PreconditionViolation(PreconditionFailure::TradingSymbolRequired))
    );
    assert_eq!(
        stat_path("BTCUSD", StatKey::CreditsSizeSym, None, None, None, None, None),
        Err(BitfinexError::PreconditionViolation(PreconditionFailure::FundingSymbolRequired))
    );
}

#[test]
fn book_paths_take_the_precision_suffix() {
    assert_eq!(funding_book_path("fUSD", BookPrecision::Two).unwrap(), "book/fUSD/P2?len=250");
    assert_eq!(funding_book_path("fUSD", BookPrecision::Four).unwrap(), "book/fUSD/P4?len=250");
    assert_eq!(funding_book_raw_path("fUSD").unwrap(), "book/fUSD/R0?len=250");
    assert_eq!(trading_book_path("tBTCUSD", BookPrecision::One).unwrap(), "book/tBTCUSD/P1?len=250");
    assert_eq!(trading_book_raw_path("tBTCUSD").unwrap(), "book/tBTCUSD/R0?len=250");
    assert_eq!(
        funding_book_path("tBTCUSD", BookPrecision::Two),
        Err(BitfinexError::PreconditionViolation(PreconditionFailure::FundingSymbolRequired))
    );
    assert_eq!(
        trading_book_path("fUSD", BookPrecision::Two),
        Err(BitfinexError::PreconditionViolation(PreconditionFailure::TradingSymbolRequired))
    );
}

#[test]
fn trades_and_ticker_paths() {
    assert_eq!(
        funding_trades_path("fUSD", Some(100), Some(1), Some(2)).unwrap(),
        "trades/fUSD/hist?sort=-1&limit=100&start=1&end=2"
    );
    assert_eq!(trading_trades_path("tBTCUSD", None, None, None).unwrap(), "trades/tBTCUSD/hist?sort=-1");
    assert_eq!(funding_ticker_path("fUSD").unwrap(), "ticker/fUSD");
    assert_eq!(trading_ticker_path("tBTCUSD").unwrap(), "ticker/tBTCUSD");
    assert!(funding_ticker_path("USD").is_err());
}

#[test]
fn funding_stats_path_opens_the_query_with_a_bare_question_mark() {
    assert_eq!(funding_stats_path("fUSD", None, None, None), "funding/stats/fUSD/hist?");
    assert_eq!(funding_stats_path("fUSD", Some(5), None, None), "funding/stats/fUSD/hist?&limit=5");
}

#[test]
fn ledger_path_and_payload() {
    assert_eq!(ledgers_path("USD"), "auth/r/ledgers/USD/hist");
    assert_eq!(ledger_payload(None), "{\"category\":28}");
    assert_eq!(ledger_payload(Some(LedgerType::TradingFee)), "{\"category\":201}");
    assert_eq!(ledger_payload(Some(LedgerType::Exchange)), "{\"category\":5}");
}

#[test]
fn small_payloads() {
    assert_eq!(exchange_rate_payload("USD", "EUR"), "{\"ccy1\":\"USD\",\"ccy2\":\"EUR\"}");
    assert_eq!(
        deposit_address_payload(&WalletType::Funding, &DepositMethod::Bitcoin),
        "{\"wallet\":\"funding\",\"method\":\"bitcoin\",\"op_renew\":0}"
    );
    assert_eq!(deriv_status_path("ALL"), "status/deriv?keys=ALL");
    assert_eq!(cancel_funding_offer_payload(42), "{\"id\":42}");
    assert_eq!(cancel_all_orders_payload(), "{\"all\":1}");
}

#[test]
fn payload_strings_are_escaped() {
    assert_eq!(
        exchange_rate_payload("U\"S\\D", "EUR"),
        "{\"ccy1\":\"U\\\"S\\\\D\",\"ccy2\":\"EUR\"}"
    );
}

#[test]
fn funding_offer_submission_payload() {
    assert_eq!(
        submit_funding_offer_payload("fUSD", "1000", "0.0001", 2, &FundingOrderType::Limit).unwrap(),
        "{\"symbol\":\"fUSD\",\"amount\":\"1000\",\"rate\":\"0.0001\",\"period\":2,\"type\":\"LIMIT\"}"
    );
    assert_eq!(
        submit_funding_offer_payload("fUSD", "1", "0.1", 1, &FundingOrderType::Limit),
        Err(BitfinexError::PreconditionViolation(PreconditionFailure::PeriodOutOfRange))
    );
    assert_eq!(
        submit_funding_offer_payload("fUSD", "1", "0.1", 121, &FundingOrderType::FrrDeltaVar),
        Err(BitfinexError::PreconditionViolation(PreconditionFailure::PeriodOutOfRange))
    );
}

#[test]
fn cancel_all_offers_names_the_currency() {
    assert_eq!(cancel_all_funding_offers_payload("fUSD"), "{\"currency\":\"USD\"}");
    assert_eq!(cancel_all_funding_offers_payload("tBTCUSD"), "{\"currency\":\"USD\"}");
    assert_eq!(cancel_all_funding_offers_payload("tETH:USDT"), "{\"currency\":\"USDT\"}");
}

#[test]
fn currency_extraction() {
    assert_eq!(parse_ccy_from_symbol("fUSD"), "USD");
    assert_eq!(parse_ccy_from_symbol("tBTCUSD"), "USD");
    assert_eq!(parse_ccy_from_symbol("tETH:USDT"), "USDT");
    assert_eq!(parse_ccy_from_symbol("XYZ"), "XYZ");
    assert_eq!(parse_ccy_from_symbol(""), "");
}

#[test]
fn auth_funding_paths() {
    assert_eq!(funding_credits_path("fUSD"), "auth/r/funding/credits/fUSD");
    assert_eq!(funding_credits_hist_path("fUSD"), "auth/r/funding/credits/fUSD/hist");
    assert_eq!(funding_offers_path("fUSD"), "auth/r/funding/offers/fUSD");
    assert_eq!(funding_offers_hist_path("fUSD"), "auth/r/funding/offers/fUSD/hist");
}

#[test]
fn order_paths_and_payloads() {
    assert_eq!(trading_orders_path(None), "auth/r/orders");
    let sym = "tBTCUSD".to_string();
    assert_eq!(trading_orders_path(Some(&sym)), "auth/r/orders/tBTCUSD");
    assert_eq!(trading_orders_hist_path(Some(&sym)), "auth/r/orders/tBTCUSD/hist");
    assert_eq!(trading_orders_hist_path(None), "auth/r/orders/hist");

    assert_eq!(trading_orders_payload(None, None, None).unwrap(), "{}");
    assert_eq!(trading_orders_payload(Some(5), None, None).unwrap(), "{\"gid\":5}");
    assert_eq!(
        trading_orders_payload(None, Some("77".to_string()), Some("2020-01-15".to_string()))
            .unwrap(),
        "{\"cid\":\"77\",\"cid_date\":\"2020-01-15\"}"
    );
    assert_eq!(
        trading_orders_payload(None, Some("77".to_string()), None),
        Err(BitfinexError::PreconditionViolation(PreconditionFailure::MissingCompanion))
    );
}

#[test]
fn order_submission_payload() {
    assert_eq!(
        submit_trading_order_payload(
            "tBTCUSD",
            &TradingOrderType::ExchangeLimit,
            "0.1",
            "30000",
            None,
            None,
            None,
            None,
            None,
            None,
            None,
            None,
        ),
        "{\"symbol\":\"tBTCUSD\",\"type\":\"EXCHANGE LIMIT\",\"amount\":\"0.1\",\"price\":\"30000\"}"
    );
    assert_eq!(
        submit_trading_order_payload(
            "tBTCUSD",
            &TradingOrderType::Limit,
            "1",
            "2",
            Some(10),
            None,
            None,
            None,
            Some(3),
            Some(4),
            Some(64),
            Some("2020-01-15 10:45:23".to_string()),
        ),
        "{\"symbol\":\"tBTCUSD\",\"type\":\"LIMIT\",\"amount\":\"1\",\"price\":\"2\",\"lev\":10,\"gid\":3,\"cid\":4,\"flags\":64,\"tif\":\"2020-01-15 10:45:23\"}"
    );
}

#[test]
fn order_update_and_cancel_payloads() {
    assert_eq!(update_trading_order_payload(7, None, None, None, None, None, None, None, None, None, None, None), "{\"id\":7}");
    assert_eq!(
        update_trading_order_payload(
            7,
            Some("2".to_string()),
            Some("3".to_string()),
            None,
            None,
            None,
            None,
            None,
            None,
            None,
            None,
            None,
        ),
        "{\"id\":7,\"amount\":\"2\",\"price\":\"3\"}"
    );
    assert_eq!(cancel_trading_order_payload(Some(1), None, None).unwrap(), "{\"id\":1}");
    assert_eq!(
        cancel_trading_order_payload(None, Some(2), Some("2020-01-15".to_string())).unwrap(),
        "{\"cid\":2,\"cid_date\":\"2020-01-15\"}"
    );
    assert_eq!(
        cancel_trading_order_payload(None, None, None),
        Err(BitfinexError::PreconditionViolation(PreconditionFailure::MissingCompanion))
    );
    assert_eq!(
        cancel_trading_order_payload(None, Some(2), None),
        Err(BitfinexError::PreconditionViolation(PreconditionFailure::MissingCompanion))
    );
    assert_eq!(orders_hist_payload(Some(10), Some(1), Some(2)), "{\"limit\":10,\"start\":1,\"end\":2}");
    assert_eq!(orders_hist_payload(None, None, None), "{}");
}

#[test]
fn enum_token_tables() {
    assert_eq!(TradingOrderType::from("exchange limit"), TradingOrderType::ExchangeLimit);
    assert_eq!(TradingOrderType::from("exchange li-mit"), TradingOrderType::ExchangeLimit);
    assert_eq!(TradingOrderType::from("Stop Limit"), TradingOrderType::StopLimit);
    assert_eq!(TradingOrderType::from("nonsense"), TradingOrderType::Limit);
    assert_eq!(TradingOrderType::ExchangeFok.as_str(), "EXCHANGE FOK");
    assert_eq!(TradingOrderType::Ioc.to_string(), "IOC");

    assert_eq!(FundingOrderType::from("frrdeltavar"), FundingOrderType::FrrDeltaVar);
    assert_eq!(FundingOrderType::from("other"), FundingOrderType::Limit);
    assert_eq!(FundingOrderType::FrrDeltaFix.to_string(), "FRRDELTAFIX");

    assert_eq!(CandleTimeFrame::from("1M"), CandleTimeFrame::Month1);
    assert_eq!(CandleTimeFrame::from("1m"), CandleTimeFrame::Min1);
    assert_eq!(CandleTimeFrame::from("zz"), CandleTimeFrame::Hour4);
    assert_eq!(CandleTimeFrame::Week2.as_str(), "2w");

    assert_eq!(StatKey::from("vol.7d"), StatKey::Vol7d);
    assert_eq!(StatKey::from("unknown"), StatKey::PosSize);
    assert_eq!(StatKey::CreditsSizeSym.as_str(), "credits.size.sym");

    assert_eq!(WalletType::from("margin"), WalletType::Margin);
    assert_eq!(WalletType::from("whatever"), WalletType::Funding);
    assert_eq!(WalletType::Exchange.as_str(), "exchange");

    assert_eq!(LedgerType::from("Transfer"), LedgerType::Transfer);
    assert_eq!(LedgerType::from("odd"), LedgerType::Interest);
    assert_eq!(LedgerType::TradingFee.as_u8(), 201);
    assert_eq!(LedgerType::Interest.as_u8(), 28);

    assert_eq!(BookPrecision::from(1), BookPrecision::One);
    assert_eq!(BookPrecision::from(9), BookPrecision::Two);
    assert_eq!(BookPrecision::Three.as_u8(), 3);

    assert_eq!(CandleAggPeriod::from(120), CandleAggPeriod::A120);
    assert_eq!(CandleAggPeriod::from(0), CandleAggPeriod::Nil);
    assert_eq!(CandleAggPeriod::A10.as_u8(), 10);

    assert_eq!(DepositMethod::from("zcash").as_str(), "zcash");
    assert_eq!(DepositMethod::from("tetheruso").to_string(), "tetheruso");
}

#[test]
fn unknown_deposit_methods_are_a_typed_error() {
    assert_eq!(
        DepositMethod::try_from_token("monero").map(|m| m.as_str()),
        Ok("monero")
    );
    assert_eq!(
        DepositMethod::try_from_token("dogecoin"),
        Err(BitfinexError::PreconditionViolation(PreconditionFailure::UnknownDepositMethod))
    );
}
