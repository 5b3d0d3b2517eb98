//! The trading side of the endpoint query builder: the order type table and
//! the public trading paths.

use vstd::prelude::*;
use vstd::string::StringExecFns;

use crate::error::{BitfinexError, PreconditionFailure};
use crate::funding::{book_path_spec, raw_book_path_spec, ticker_path_spec, trades_path_spec};
use crate::funding::{build_book_path, BookPrecision, CandleTimeFrame};
use crate::query::{append_hist_params, hist_params};
use crate::text::{chars_of, first_char_is, strip_dash, upper_nodash_chars, upper_seq, vec_char_eq};

verus! {

/// The order types a trading order can carry.
#[derive(Debug, PartialEq, Eq, Structural, Clone, Copy)]
pub enum TradingOrderType {
    Limit,
    ExchangeLimit,
    Market,
    ExchangeMarket,
    Stop,
    ExchangeStop,
    StopLimit,
    ExchangeStopLimit,
    TrailingStop,
    ExchangeTrailingStop,
    Fok,
    ExchangeFok,
    Ioc,
    ExchangeIoc,
}

/// The trading order type a token selects, compared without regard to letter
/// case and with dashes removed; an unknown token falls back to the limit
/// type.
pub open spec fn trading_order_type_of(s: Seq<char>) -> TradingOrderType {
    let n = upper_seq(strip_dash(s));
    if n == "LIMIT"@ {
        TradingOrderType::Limit
    } else if n == "EXCHANGE LIMIT"@ {
        TradingOrderType::ExchangeLimit
    } else if n == "MARKET"@ {
        TradingOrderType::Market
    } else if n == "EXCHANGE MARKET"@ {
        TradingOrderType::ExchangeMarket
    } else if n == "STOP"@ {
        TradingOrderType::Stop
    } else if n == "EXCHANGE STOP"@ {
        TradingOrderType::ExchangeStop
    } else if n == "STOP LIMIT"@ {
        TradingOrderType::StopLimit
    } else if n == "EXCHANGE STOP LIMIT"@ {
        TradingOrderType::ExchangeStopLimit
    } else if n == "TRAILING STOP"@ {
        TradingOrderType::TrailingStop
    } else if n == "EXCHANGE TRAILING STOP"@ {
        TradingOrderType::ExchangeTrailingStop
    } else if n == "FOK"@ {
        TradingOrderType::Fok
    } else if n == "EXCHANGE FOK"@ {
        TradingOrderType::ExchangeFok
    } else if n == "IOC"@ {
        TradingOrderType::Ioc
    } else if n == "EXCHANGE IOC"@ {
        TradingOrderType::ExchangeIoc
    } else {
        TradingOrderType::Limit
    }
}

impl TradingOrderType {
    /// The wire token of this order type.
    pub open spec fn spec_token(&self) -> Seq<char> {
        match self {
            TradingOrderType::Limit => "LIMIT"@,
            TradingOrderType::ExchangeLimit => "EXCHANGE LIMIT"@,
            TradingOrderType::Market => "MARKET"@,
            TradingOrderType::ExchangeMarket => "EXCHANGE MARKET"@,
            TradingOrderType::Stop => "STOP"@,
            TradingOrderType::ExchangeStop => "EXCHANGE STOP"@,
            TradingOrderType::StopLimit => "STOP LIMIT"@,
            TradingOrderType::ExchangeStopLimit => "EXCHANGE STOP LIMIT"@,
            TradingOrderType::TrailingStop => "TRAILING STOP"@,
            TradingOrderType::ExchangeTrailingStop => "EXCHANGE TRAILING STOP"@,
            TradingOrderType::Fok => "FOK"@,
            TradingOrderType::ExchangeFok => "EXCHANGE FOK"@,
            TradingOrderType::Ioc => "IOC"@,
            TradingOrderType::ExchangeIoc => "EXCHANGE IOC"@,
        }
    }

    /// The trading order type a token selects, without regard to letter case
    /// and dashes; an unknown token falls back to the limit type.
    pub fn from(value: &str) -> (r: TradingOrderType)
        ensures
            r == trading_order_type_of(value@),
    {
        let n = upper_nodash_chars(value);
        if vec_char_eq(&n, &chars_of("LIMIT")) {
            TradingOrderType::Limit
        } else if vec_char_eq(&n, &chars_of("EXCHANGE LIMIT")) {
            TradingOrderType::ExchangeLimit
        } else if vec_char_eq(&n, &chars_of("MARKET")) {
            TradingOrderType::Market
        } else if vec_char_eq(&n, &chars_of("EXCHANGE MARKET")) {
            TradingOrderType::ExchangeMarket
        } else if vec_char_eq(&n, &chars_of("STOP")) {
            TradingOrderType::Stop
        } else if vec_char_eq(&n, &chars_of("EXCHANGE STOP")) {
            TradingOrderType::ExchangeStop
        } else if vec_char_eq(&n, &chars_of("STOP LIMIT")) {
            TradingOrderType::StopLimit
        } else if vec_char_eq(&n, &chars_of("EXCHANGE STOP LIMIT")) {
            TradingOrderType::ExchangeStopLimit
        } else if vec_char_eq(&n, &chars_of("TRAILING STOP")) {
            TradingOrderType::TrailingStop
        } else if vec_char_eq(&n, &chars_of("EXCHANGE TRAILING STOP")) {
            TradingOrderType::ExchangeTrailingStop
        } else if vec_char_eq(&n, &chars_of("FOK")) {
            TradingOrderType::Fok
        } else if vec_char_eq(&n, &chars_of("EXCHANGE FOK")) {
            TradingOrderType::ExchangeFok
        } else if vec_char_eq(&n, &chars_of("IOC")) {
            TradingOrderType::Ioc
        } else if vec_char_eq(&n, &chars_of("EXCHANGE IOC")) {
            TradingOrderType::ExchangeIoc
        } else {
            TradingOrderType::Limit
        }
    }

    /// The wire token of this order type.
    pub fn as_str(&self) -> (r: &'static str)
        ensures
            r@ == self.spec_token(),
    {
        match self {
            TradingOrderType::Limit => "LIMIT",
            TradingOrderType::ExchangeLimit => "EXCHANGE LIMIT",
            TradingOrderType::Market => "MARKET",
            TradingOrderType::ExchangeMarket => "EXCHANGE MARKET",
            TradingOrderType::Stop => "STOP",
            TradingOrderType::ExchangeStop => "EXCHANGE STOP",
            TradingOrderType::StopLimit => "STOP LIMIT",
            TradingOrderType::ExchangeStopLimit => "EXCHANGE STOP LIMIT",
            TradingOrderType::TrailingStop => "TRAILING STOP",
            TradingOrderType::ExchangeTrailingStop => "EXCHANGE TRAILING STOP",
            TradingOrderType::Fok => "FOK",
            TradingOrderType::ExchangeFok => "EXCHANGE FOK",
            TradingOrderType::Ioc => "IOC",
            TradingOrderType::ExchangeIoc => "EXCHANGE IOC",
        }
    }

    /// The wire token of this order type, as an owned string.
    pub fn to_string(&self) -> (r: String)
        ensures
            r@ == self.spec_token(),
    {
        self.as_str().to_owned()
    }
}

/// The path of a trading order book at a precision level; the symbol must
/// carry the trading marker.
pub fn trading_book_path(symbol: &str, prec: BookPrecision) -> (r: Result<String, BitfinexError>)
    ensures
        r is Ok <==> symbol@.len() > 0 && symbol@[0] == 't',
        r matches Ok(p) ==> p@ == book_path_spec(symbol@, prec.spec_level()),
        r matches Err(e) ==> e == BitfinexError::PreconditionViolation(
            PreconditionFailure::TradingSymbolRequired,
        ),
{
    if !first_char_is(symbol, 't') {
        return Err(
            BitfinexError::PreconditionViolation(PreconditionFailure::TradingSymbolRequired),
        );
    }
    Ok(build_book_path(symbol, &prec))
}

/// The path of a raw trading order book; the symbol must carry the trading
/// marker.
pub fn trading_book_raw_path(symbol: &str) -> (r: Result<String, BitfinexError>)
    ensures
        r is Ok <==> symbol@.len() > 0 && symbol@[0] == 't',
        r matches Ok(p) ==> p@ == raw_book_path_spec(symbol@),
        r matches Err(e) ==> e == BitfinexError::PreconditionViolation(
            PreconditionFailure::TradingSymbolRequired,
        ),
{
    if !first_char_is(symbol, 't') {
        return Err(
            BitfinexError::PreconditionViolation(PreconditionFailure::TradingSymbolRequired),
        );
    }
    let mut p = String::from_str("book/");
    p.append(symbol);
    p.append("/R0?len=250");
    proof {
        assert(p@ =~= raw_book_path_spec(symbol@));
    }
    Ok(p)
}

/// The path of a trading market's trade history; the symbol must carry the
/// trading marker.
pub fn trading_trades_path(
    symbol: &str,
    limit: Option<u16>,
    start: Option<i64>,
    end: Option<i64>,
) -> (r: Result<String, BitfinexError>)
    ensures
        r is Ok <==> symbol@.len() > 0 && symbol@[0] == 't',
        r matches Ok(p) ==> p@ == trades_path_spec(symbol@, limit, start, end),
        r matches Err(e) ==> e == BitfinexError::PreconditionViolation(
            PreconditionFailure::TradingSymbolRequired,
        ),
{
    if !first_char_is(symbol, 't') {
        return Err(
            BitfinexError::PreconditionViolation(PreconditionFailure::TradingSymbolRequired),
        );
    }
    let mut p = String::from_str("trades/");
    p.append(symbol);
    p.append("/hist?sort=-1");
    append_hist_params(&mut p, limit, start, end);
    proof {
        assert(p@ =~= trades_path_spec(symbol@, limit, start, end));
    }
    Ok(p)
}

/// The path of a trading market's ticker; the symbol must carry the trading
/// marker.
pub fn trading_ticker_path(symbol: &str) -> (r: Result<String, BitfinexError>)
    ensures
        r is Ok <==> symbol@.len() > 0 && symbol@[0] == 't',
        r matches Ok(p) ==> p@ == ticker_path_spec(symbol@),
        r matches Err(e) ==> e == BitfinexError::PreconditionViolation(
            PreconditionFailure::TradingSymbolRequired,
        ),
{
    if !first_char_is(symbol, 't') {
        return Err(
            BitfinexError::PreconditionViolation(PreconditionFailure::TradingSymbolRequired),
        );
    }
    let mut p = String::from_str("ticker/");
    p.append(symbol);
    proof {
        assert(p@ =~= ticker_path_spec(symbol@));
    }
    Ok(p)
}

/// The path of a trading market's candles with its optional parameters.
pub open spec fn trading_candles_path_spec(
    symbol: Seq<char>,
    tf: CandleTimeFrame,
    limit: Option<u16>,
    start: Option<i64>,
    end: Option<i64>,
) -> Seq<char> {
    "candles/trade:"@ + tf.spec_token() + ":"@ + symbol + "/hist?sort=-1"@ + hist_params(
        limit,
        start,
        end,
    )
}

/// The path of a trading market's candles; the symbol must carry the trading
/// marker.
pub fn trading_candles_path(
    symbol: &str,
    tf: CandleTimeFrame,
    limit: Option<u16>,
    start: Option<i64>,
    end: Option<i64>,
) -> (r: Result<String, BitfinexError>)
    ensures
        r is Ok <==> symbol@.len() > 0 && symbol@[0] == 't',
        r matches Ok(p) ==> p@ == trading_candles_path_spec(symbol@, tf, limit, start, end),
        r matches Err(e) ==> e == BitfinexError::PreconditionViolation(
            PreconditionFailure::TradingSymbolRequired,
        ),
{
    if !first_char_is(symbol, 't') {
        return Err(
            BitfinexError::PreconditionViolation(PreconditionFailure::TradingSymbolRequired),
        );
    }
    let mut p = String::from_str("candles/trade:");
    p.append(tf.as_str());
    p.append(":");
    p.append(symbol);
    p.append("/hist?sort=-1");
    append_hist_params(&mut p, limit, start, end);
    proof {
        assert(p@ =~= trading_candles_path_spec(symbol@, tf, limit, start, end));
    }
    Ok(p)
}

/// The path of the active orders, narrowed to one symbol when one is given.
pub open spec fn orders_path_spec(symbol: Option<String>) -> Seq<char> {
    match symbol {
        None => "auth/r/orders"@,
        Some(s) => "auth/r/orders/"@ + s@,
    }
}

/// Builds the path of the active orders, narrowed to one symbol when one is
/// given.
pub fn trading_orders_path(symbol: Option<&String>) -> (p: String)
    ensures
        p@ == (match symbol {
            None => "auth/r/orders"@,
            Some(s) => "auth/r/orders/"@ + s@,
        }),
{
    match symbol {
        None => {
            let p = String::from_str("auth/r/orders");
            p
        },
        Some(s) => {
            let mut p = String::from_str("auth/r/orders/");
            p.append(s.as_str());
            proof {
                assert(p@ =~= "auth/r/orders/"@ + s@);
            }
            p
        },
    }
}

/// Builds the path of the order history, narrowed to one symbol when one is
/// given.
pub fn trading_orders_hist_path(symbol: Option<&String>) -> (p: String)
    ensures
        p@ == (match symbol {
            None => "auth/r/orders"@,
            Some(s) => "auth/r/orders/"@ + s@,
        }) + "/hist"@,
{
    let mut p = trading_orders_path(symbol);
    p.append("/hist");
    p
}

/// The body of an active-order query: the optional group filter and, as a
/// pair, the client order identifier with its date.  A client identifier
/// without its date is refused.
pub fn trading_orders_payload(
    group_id: Option<u64>,
    client_id: Option<String>,
    client_id_date: Option<String>,
) -> (r: Result<String, BitfinexError>)
    ensures
        r is Ok <==> (client_id is Some ==> client_id_date is Some),
        r matches Ok(s) ==> s@ == crate::json::obj_text(
            crate::json::opt_u64_field("gid"@, group_id) + crate::json::opt_text_field(
                "cid"@,
                client_id,
            ) + (match client_id {
                Some(_) => crate::json::opt_text_field("cid_date"@, client_id_date),
                None => Seq::<(Seq<char>, Seq<char>)>::empty(),
            }),
        ),
        r matches Err(e) ==> e == BitfinexError::PreconditionViolation(
            PreconditionFailure::MissingCompanion,
        ),
{
    let mut fields: Vec<(String, crate::json::JsonScalar)> = Vec::new();
    if let Some(gid) = group_id {
        crate::json::push_uint_field(&mut fields, "gid", gid);
    }
    let has_cid = client_id.is_some();
    if let Some(cid) = &client_id {
        crate::json::push_text_field(&mut fields, "cid", cid.as_str());
        match &client_id_date {
            None => {
                return Err(
                    BitfinexError::PreconditionViolation(PreconditionFailure::MissingCompanion),
                );
            },
            Some(d) => {
                crate::json::push_text_field(&mut fields, "cid_date", d.as_str());
            },
        }
    }
    let s = crate::json::obj_to_text(&fields);
    proof {
        assert(crate::json::fields_view(fields@) =~= crate::json::opt_u64_field("gid"@, group_id)
            + crate::json::opt_text_field("cid"@, client_id) + (match client_id {
            Some(_) => crate::json::opt_text_field("cid_date"@, client_id_date),
            None => Seq::<(Seq<char>, Seq<char>)>::empty(),
        }));
    }
    Ok(s)
}

/// The body of an order-history query: the optional limit and time bounds.
pub fn orders_hist_payload(limit: Option<u16>, start: Option<i64>, end: Option<i64>) -> (s: String)
    ensures
        s@ == crate::json::obj_text(
            crate::json::opt_u64_field(
                "limit"@,
                match limit {
                    Some(l) => Some(l as u64),
                    None => None,
                },
            ) + crate::json::opt_i64_field("start"@, start) + crate::json::opt_i64_field(
                "end"@,
                end,
            ),
        ),
{
    let mut fields: Vec<(String, crate::json::JsonScalar)> = Vec::new();
    if let Some(l) = limit {
        crate::json::push_uint_field(&mut fields, "limit", l as u64);
    }
    if let Some(st) = start {
        crate::json::push_int_field(&mut fields, "start", st);
    }
    if let Some(e) = end {
        crate::json::push_int_field(&mut fields, "end", e);
    }
    let s = crate::json::obj_to_text(&fields);
    proof {
        assert(crate::json::fields_view(fields@) =~= crate::json::opt_u64_field(
            "limit"@,
            match limit {
                Some(l) => Some(l as u64),
                None => None,
            },
        ) + crate::json::opt_i64_field("start"@, start) + crate::json::opt_i64_field("end"@, end));
    }
    s
}

/// The body of a new trading order: the symbol, type token, amount and
/// price, then whichever optional parameters the caller set, in a fixed
/// order.  Amounts and prices travel as string literals.
#[verifier::rlimit(100)]
pub fn submit_trading_order_payload(
    symbol: &str,
    order_type: &TradingOrderType,
    amount: &str,
    price: &str,
    lev: Option<u32>,
    price_trailing: Option<String>,
    price_aux_limit: Option<String>,
    price_oco_stop: Option<String>,
    gid: Option<u32>,
    cid: Option<u32>,
    flags: Option<u32>,
    time_in_force: Option<String>,
) -> (s: String)
    ensures
        s@ == crate::json::obj_text(
            seq![
                ("symbol"@, crate::json::json_quote(symbol@)),
                ("type"@, crate::json::json_quote(order_type.spec_token())),
                ("amount"@, crate::json::json_quote(amount@)),
                ("price"@, crate::json::json_quote(price@)),
            ] + crate::json::opt_u64_field(
                "lev"@,
                match lev {
                    Some(l) => Some(l as u64),
                    None => None,
                },
            ) + crate::json::opt_text_field("price_trailing"@, price_trailing)
                + crate::json::opt_text_field("price_aux_limit"@, price_aux_limit)
                + crate::json::opt_text_field("price_oco_stop"@, price_oco_stop)
                + crate::json::opt_u64_field(
                "gid"@,
                match gid {
                    Some(g) => Some(g as u64),
                    None => None,
                },
            ) + crate::json::opt_u64_field(
                "cid"@,
                match cid {
                    Some(c) => Some(c as u64),
                    None => None,
                },
            ) + crate::json::opt_u64_field(
                "flags"@,
                match flags {
                    Some(f) => Some(f as u64),
                    None => None,
                },
            ) + crate::json::opt_text_field("tif"@, time_in_force),
        ),
{
    let mut fields: Vec<(String, crate::json::JsonScalar)> = Vec::new();
    crate::json::push_text_field(&mut fields, "symbol", symbol);
    crate::json::push_text_field(&mut fields, "type", order_type.as_str());
    crate::json::push_text_field(&mut fields, "amount", amount);
    crate::json::push_text_field(&mut fields, "price", price);
    if let Some(l) = lev {
        crate::json::push_uint_field(&mut fields, "lev", l as u64);
    }
    if let Some(pt) = &price_trailing {
        crate::json::push_text_field(&mut fields, "price_trailing", pt.as_str());
    }
    if let Some(pa) = &price_aux_limit {
        crate::json::push_text_field(&mut fields, "price_aux_limit", pa.as_str());
    }
    if let Some(po) = &price_oco_stop {
        crate::json::push_text_field(&mut fields, "price_oco_stop", po.as_str());
    }
    if let Some(g) = gid {
        crate::json::push_uint_field(&mut fields, "gid", g as u64);
    }
    if let Some(c) = cid {
        crate::json::push_uint_field(&mut fields, "cid", c as u64);
    }
    if let Some(f) = flags {
        crate::json::push_uint_field(&mut fields, "flags", f as u64);
    }
    if let Some(t) = &time_in_force {
        crate::json::push_text_field(&mut fields, "tif", t.as_str());
    }
    let s = crate::json::obj_to_text(&fields);
    proof {
        assert(crate::json::fields_view(fields@) =~= seq![
            ("symbol"@, crate::json::json_quote(symbol@)),
            ("type"@, crate::json::json_quote(order_type.spec_token())),
            ("amount"@, crate::json::json_quote(amount@)),
            ("price"@, crate::json::json_quote(price@)),
        ] + crate::json::opt_u64_field(
            "lev"@,
            match lev {
                Some(l) => Some(l as u64),
                None => None,
            },
        ) + crate::json::opt_text_field("price_trailing"@, price_trailing)
            + crate::json::opt_text_field("price_aux_limit"@, price_aux_limit)
            + crate::json::opt_text_field("price_oco_stop"@, price_oco_stop)
            + crate::json::opt_u64_field(
            "gid"@,
            match gid {
                Some(g) => Some(g as u64),
                None => None,
            },
        ) + crate::json::opt_u64_field(
            "cid"@,
            match cid {
                Some(c) => Some(c as u64),
                None => None,
            },
        ) + crate::json::opt_u64_field(
            "flags"@,
            match flags {
                Some(f) => Some(f as u64),
                None => None,
            },
        ) + crate::json::opt_text_field("tif"@, time_in_force));
    }
    s
}

/// The body of an order update: the order's identifier, then whichever
/// optional parameters the caller set, in a fixed order.
#[verifier::rlimit(100)]
pub fn update_trading_order_payload(
    id: u64,
    amount: Option<String>,
    price: Option<String>,
    delta: Option<String>,
    lev: Option<u32>,
    price_trailing: Option<String>,
    price_aux_limit: Option<String>,
    gid: Option<u32>,
    cid: Option<u64>,
    cid_date: Option<String>,
    flags: Option<u32>,
    time_in_force: Option<String>,
) -> (s: String)
    ensures
        s@ == crate::json::obj_text(
            seq![("id"@, crate::text::dec_of(id as nat))] + crate::json::opt_text_field(
                "amount"@,
                amount,
            ) + crate::json::opt_text_field("price"@, price) + crate::json::opt_text_field(
                "delta"@,
                delta,
            ) + crate::json::opt_u64_field(
                "lev"@,
                match lev {
                    Some(l) => Some(l as u64),
                    None => None,
                },
            ) + crate::json::opt_text_field("price_trailing"@, price_trailing)
                + crate::json::opt_text_field("price_aux_limit"@, price_aux_limit)
                + crate::json::opt_u64_field(
                "gid"@,
                match gid {
                    Some(g) => Some(g as u64),
                    None => None,
                },
            ) + crate::json::opt_u64_field("cid"@, cid) + crate::json::opt_text_field(
                "cid_date"@,
                cid_date,
            ) + crate::json::opt_u64_field(
                "flags"@,
                match flags {
                    Some(f) => Some(f as u64),
                    None => None,
                },
            ) + crate::json::opt_text_field("tif"@, time_in_force),
        ),
{
    let mut fields: Vec<(String, crate::json::JsonScalar)> = Vec::new();
    crate::json::push_uint_field(&mut fields, "id", id);
    if let Some(a) = &amount {
        crate::json::push_text_field(&mut fields, "amount", a.as_str());
    }
    if let Some(p) = &price {
        crate::json::push_text_field(&mut fields, "price", p.as_str());
    }
    if let Some(d) = &delta {
        crate::json::push_text_field(&mut fields, "delta", d.as_str());
    }
    if let Some(l) = lev {
        crate::json::push_uint_field(&mut fields, "lev", l as u64);
    }
    if let Some(pt) = &price_trailing {
        crate::json::push_text_field(&mut fields, "price_trailing", pt.as_str());
    }
    if let Some(pa) = &price_aux_limit {
        crate::json::push_text_field(&mut fields, "price_aux_limit", pa.as_str());
    }
    if let Some(g) = gid {
        crate::json::push_uint_field(&mut fields, "gid", g as u64);
    }
    if let Some(c) = cid {
        crate::json::push_uint_field(&mut fields, "cid", c);
    }
    if let Some(cd) = &cid_date {
        crate::json::push_text_field(&mut fields, "cid_date", cd.as_str());
    }
    if let Some(f) = flags {
        crate::json::push_uint_field(&mut fields, "flags", f as u64);
    }
    if let Some(t) = &time_in_force {
        crate::json::push_text_field(&mut fields, "tif", t.as_str());
    }
    let s = crate::json::obj_to_text(&fields);
    proof {
        assert(crate::json::fields_view(fields@) =~= seq![
            ("id"@, crate::text::dec_of(id as nat)),
        ] + crate::json::opt_text_field("amount"@, amount) + crate::json::opt_text_field(
            "price"@,
            price,
        ) + crate::json::opt_text_field("delta"@, delta) + crate::json::opt_u64_field(
            "lev"@,
            match lev {
                Some(l) => Some(l as u64),
                None => None,
            },
        ) + crate::json::opt_text_field("price_trailing"@, price_trailing)
            + crate::json::opt_text_field("price_aux_limit"@, price_aux_limit)
            + crate::json::opt_u64_field(
            "gid"@,
            match gid {
                Some(g) => Some(g as u64),
                None => None,
            },
        ) + crate::json::opt_u64_field("cid"@, cid) + crate::json::opt_text_field(
            "cid_date"@,
            cid_date,
        ) + crate::json::opt_u64_field(
            "flags"@,
            match flags {
                Some(f) => Some(f as u64),
                None => None,
            },
        ) + crate::json::opt_text_field("tif"@, time_in_force));
    }
    s
}

/// The body of an order cancellation: by identifier, or by client identifier
/// with its date.  One of the two must be given, and a client identifier
/// needs its date.
pub fn cancel_trading_order_payload(
    id: Option<u64>,
    cid: Option<u64>,
    cid_date: Option<String>,
) -> (r: Result<String, BitfinexError>)
    ensures
        r is Ok <==> (id is Some || cid is Some) && (cid is Some ==> cid_date is Some),
        r matches Ok(s) ==> s@ == crate::json::obj_text(
            crate::json::opt_u64_field("id"@, id) + crate::json::opt_u64_field("cid"@, cid) + (
            match cid {
                Some(_) => crate::json::opt_text_field("cid_date"@, cid_date),
                None => Seq::<(Seq<char>, Seq<char>)>::empty(),
            }),
        ),
        r matches Err(e) ==> e == BitfinexError::PreconditionViolation(
            PreconditionFailure::MissingCompanion,
        ),
{
    if id.is_none() && cid.is_none() {
        return Err(BitfinexError::PreconditionViolation(PreconditionFailure::MissingCompanion));
    }
    let mut fields: Vec<(String, crate::json::JsonScalar)> = Vec::new();
    if let Some(i) = id {
        crate::json::push_uint_field(&mut fields, "id", i);
    }
    if let Some(c) = cid {
        crate::json::push_uint_field(&mut fields, "cid", c);
        match &cid_date {
            None => {
                return Err(
                    BitfinexError::PreconditionViolation(PreconditionFailure::MissingCompanion),
                );
            },
            Some(d) => {
                crate::json::push_text_field(&mut fields, "cid_date", d.as_str());
            },
        }
    }
    let s = crate::json::obj_to_text(&fields);
    proof {
        assert(crate::json::fields_view(fields@) =~= crate::json::opt_u64_field("id"@, id)
            + crate::json::opt_u64_field("cid"@, cid) + (match cid {
            Some(_) => crate::json::opt_text_field("cid_date"@, cid_date),
            None => Seq::<(Seq<char>, Seq<char>)>::empty(),
        }));
    }
    Ok(s)
}

/// The body that cancels every active order.
pub fn cancel_all_orders_payload() -> (s: String)
    ensures
        s@ == crate::json::obj_text(seq![("all"@, crate::text::dec_of(1))]),
{
    let mut fields: Vec<(String, crate::json::JsonScalar)> = Vec::new();
    crate::json::push_uint_field(&mut fields, "all", 1);
    let s = crate::json::obj_to_text(&fields);
    proof {
        assert(crate::json::fields_view(fields@) =~= seq![("all"@, crate::text::dec_of(1))]);
    }
    s
}

/// One trading trade: its identifier, time, amount and price.
#[derive(Debug, PartialEq, Eq)]
pub struct TradingTrade {
    pub id: u64,
    pub time: i64,
    pub amount: String,
    pub price: String,
}

/// The trading trade row schema.
pub open spec fn trading_trade_schema_spec() -> Seq<crate::codec::FieldSpec> {
    seq![
        crate::codec::s_req(crate::codec::FieldKind::UIntMax(0xffff_ffff_ffff_ffffu64)),
        crate::codec::s_req(crate::codec::FieldKind::TimeMs),
        crate::codec::s_req(crate::codec::FieldKind::NumText),
        crate::codec::s_req(crate::codec::FieldKind::NumText),
    ]
}

/// True when the decoded fields of a trading trade row carry exactly this
/// record.
pub open spec fn trading_trade_matches(
    fvs: Seq<crate::codec::FieldValue>,
    t: TradingTrade,
) -> bool {
    &&& fvs.len() == 4
    &&& fvs[0] == crate::codec::FieldValue::UInt(t.id)
    &&& fvs[1] == crate::codec::FieldValue::Time(t.time)
    &&& fvs[2] == crate::codec::FieldValue::Num(t.amount)
    &&& fvs[3] == crate::codec::FieldValue::Num(t.price)
}

/// Decodes one trading trade row from its wire array.
pub fn trading_trade_from_json(v: &crate::json::JsonValue) -> (r: Result<
    TradingTrade,
    BitfinexError,
>)
    ensures
        (match *v {
            crate::json::JsonValue::Arr(items) => match crate::codec::decode_fields_spec(
                items@,
                trading_trade_schema_spec(),
            ) {
                Ok(fvs) => r matches Ok(t) && trading_trade_matches(fvs, t),
                Err(e) => r == Err::<TradingTrade, BitfinexError>(BitfinexError::DecodeError(e)),
            },
            _ => r == Err::<TradingTrade, BitfinexError>(
                BitfinexError::DecodeError(crate::error::DecodeFailure::NotArray),
            ),
        }),
{
    match v {
        crate::json::JsonValue::Arr(items) => {
            let mut schema: Vec<crate::codec::FieldSpec> = Vec::new();
            schema.push(crate::codec::req(crate::codec::FieldKind::UIntMax(0xffff_ffff_ffff_ffffu64)));
            schema.push(crate::codec::req(crate::codec::FieldKind::TimeMs));
            schema.push(crate::codec::req(crate::codec::FieldKind::NumText));
            schema.push(crate::codec::req(crate::codec::FieldKind::NumText));
            proof {
                assert(schema@ =~= trading_trade_schema_spec());
            }
            match crate::codec::decode_fields(items, &schema) {
                Err(e) => Err(BitfinexError::DecodeError(e)),
                Ok(fvs) => {
                    proof {
                        reveal_with_fuel(crate::codec::decode_fields_from, 6);
                        assert(fvs@.len() == 4);
                        assert(fvs@[0] is UInt);
                        assert(fvs@[1] is Time);
                        assert(fvs@[2] is Num);
                        assert(fvs@[3] is Num);
                    }
                    Ok(
                        TradingTrade {
                            id: crate::codec::take_u64(&fvs[0]),
                            time: crate::codec::take_time(&fvs[1]),
                            amount: crate::codec::take_num(&fvs[2]),
                            price: crate::codec::take_num(&fvs[3]),
                        },
                    )
                },
            }
        },
        _ => Err(BitfinexError::DecodeError(crate::error::DecodeFailure::NotArray)),
    }
}

/// One trading book level: the price, order count and amount.
#[derive(Debug, PartialEq, Eq)]
pub struct TradingBook {
    pub price: String,
    pub count: u64,
    pub amount: String,
}

/// The trading book level schema.
pub open spec fn trading_book_schema_spec() -> Seq<crate::codec::FieldSpec> {
    seq![
        crate::codec::s_req(crate::codec::FieldKind::NumText),
        crate::codec::s_req(crate::codec::FieldKind::UIntMax(0xffff_ffffu64)),
        crate::codec::s_req(crate::codec::FieldKind::NumText),
    ]
}

/// True when the decoded fields of a trading book level carry exactly this
/// record.
pub open spec fn trading_book_matches(fvs: Seq<crate::codec::FieldValue>, b: TradingBook) -> bool {
    &&& fvs.len() == 3
    &&& fvs[0] == crate::codec::FieldValue::Num(b.price)
    &&& fvs[1] == crate::codec::FieldValue::UInt(b.count)
    &&& fvs[2] == crate::codec::FieldValue::Num(b.amount)
}

/// Decodes one trading book level from its wire array.
pub fn trading_book_from_json(v: &crate::json::JsonValue) -> (r: Result<
    TradingBook,
    BitfinexError,
>)
    ensures
        (match *v {
            crate::json::JsonValue::Arr(items) => match crate::codec::decode_fields_spec(
                items@,
                trading_book_schema_spec(),
            ) {
                Ok(fvs) => r matches Ok(b) && trading_book_matches(fvs, b),
                Err(e) => r == Err::<TradingBook, BitfinexError>(BitfinexError::DecodeError(e)),
            },
            _ => r == Err::<TradingBook, BitfinexError>(
                BitfinexError::DecodeError(crate::error::DecodeFailure::NotArray),
            ),
        }),
{
    match v {
        crate::json::JsonValue::Arr(items) => {
            let mut schema: Vec<crate::codec::FieldSpec> = Vec::new();
            schema.push(crate::codec::req(crate::codec::FieldKind::NumText));
            schema.push(crate::codec::req(crate::codec::FieldKind::UIntMax(0xffff_ffffu64)));
            schema.push(crate::codec::req(crate::codec::FieldKind::NumText));
            proof {
                assert(schema@ =~= trading_book_schema_spec());
            }
            match crate::codec::decode_fields(items, &schema) {
                Err(e) => Err(BitfinexError::DecodeError(e)),
                Ok(fvs) => {
                    proof {
                        reveal_with_fuel(crate::codec::decode_fields_from, 5);
                        assert(fvs@.len() == 3);
                        assert(fvs@[0] is Num);
                        assert(fvs@[1] is UInt);
                        assert(fvs@[2] is Num);
                    }
                    Ok(
                        TradingBook {
                            price: crate::codec::take_num(&fvs[0]),
                            count: crate::codec::take_u64(&fvs[1]),
                            amount: crate::codec::take_num(&fvs[2]),
                        },
                    )
                },
            }
        },
        _ => Err(BitfinexError::DecodeError(crate::error::DecodeFailure::NotArray)),
    }
}

/// One raw trading book entry: the order's identifier, price and amount.
#[derive(Debug, PartialEq, Eq)]
pub struct TradingBookRaw {
    pub order_id: u64,
    pub price: String,
    pub amount: String,
}

/// The raw trading book entry schema.
pub open spec fn trading_book_raw_schema_spec() -> Seq<crate::codec::FieldSpec> {
    seq![
        crate::codec::s_req(crate::codec::FieldKind::UIntMax(0xffff_ffff_ffff_ffffu64)),
        crate::codec::s_req(crate::codec::FieldKind::NumText),
        crate::codec::s_req(crate::codec::FieldKind::NumText),
    ]
}

/// True when the decoded fields of a raw trading book entry carry exactly
/// this record.
pub open spec fn trading_book_raw_matches(
    fvs: Seq<crate::codec::FieldValue>,
    b: TradingBookRaw,
) -> bool {
    &&& fvs.len() == 3
    &&& fvs[0] == crate::codec::FieldValue::UInt(b.order_id)
    &&& fvs[1] == crate::codec::FieldValue::Num(b.price)
    &&& fvs[2] == crate::codec::FieldValue::Num(b.amount)
}

/// Decodes one raw trading book entry from its wire array.
pub fn trading_book_raw_from_json(v: &crate::json::JsonValue) -> (r: Result<
    TradingBookRaw,
    BitfinexError,
>)
    ensures
        (match *v {
            crate::json::JsonValue::Arr(items) => match crate::codec::decode_fields_spec(
                items@,
                trading_book_raw_schema_spec(),
            ) {
                Ok(fvs) => r matches Ok(b) && trading_book_raw_matches(fvs, b),
                Err(e) => r == Err::<TradingBookRaw, BitfinexError>(BitfinexError::DecodeError(e)),
            },
            _ => r == Err::<TradingBookRaw, BitfinexError>(
                BitfinexError::DecodeError(crate::error::DecodeFailure::NotArray),
            ),
        }),
{
    match v {
        crate::json::JsonValue::Arr(items) => {
            let mut schema: Vec<crate::codec::FieldSpec> = Vec::new();
            schema.push(crate::codec::req(crate::codec::FieldKind::UIntMax(0xffff_ffff_ffff_ffffu64)));
            schema.push(crate::codec::req(crate::codec::FieldKind::NumText));
            schema.push(crate::codec::req(crate::codec::FieldKind::NumText));
            proof {
                assert(schema@ =~= trading_book_raw_schema_spec());
            }
            match crate::codec::decode_fields(items, &schema) {
                Err(e) => Err(BitfinexError::DecodeError(e)),
                Ok(fvs) => {
                    proof {
                        reveal_with_fuel(crate::codec::decode_fields_from, 5);
                        assert(fvs@.len() == 3);
                        assert(fvs@[0] is UInt);
                        assert(fvs@[1] is Num);
                        assert(fvs@[2] is Num);
                    }
                    Ok(
                        TradingBookRaw {
                            order_id: crate::codec::take_u64(&fvs[0]),
                            price: crate::codec::take_num(&fvs[1]),
                            amount: crate::codec::take_num(&fvs[2]),
                        },
                    )
                },
            }
        },
        _ => Err(BitfinexError::DecodeError(crate::error::DecodeFailure::NotArray)),
    }
}

/// True when a wire element decodes to this raw trading book entry.
pub open spec fn trading_book_raw_elem_ok(jv: crate::json::JsonValue, b: TradingBookRaw) -> bool {
    match jv {
        crate::json::JsonValue::Arr(fields) => match crate::codec::decode_fields_spec(
            fields@,
            trading_book_raw_schema_spec(),
        ) {
            Ok(fvs) => trading_book_raw_matches(fvs, b),
            Err(_) => false,
        },
        _ => false,
    }
}

/// True when a wire element cannot decode as a raw trading book entry.
pub open spec fn trading_book_raw_elem_fails(jv: crate::json::JsonValue) -> bool {
    match jv {
        crate::json::JsonValue::Arr(fields) => crate::codec::decode_fields_spec(
            fields@,
            trading_book_raw_schema_spec(),
        ) is Err,
        _ => true,
    }
}

/// Decodes a raw trading book from its wire array of entries.
#[verifier::loop_isolation(false)]
pub fn trading_books_raw_from_json(v: &crate::json::JsonValue) -> (r: Result<
    Vec<TradingBookRaw>,
    BitfinexError,
>)
    ensures
        (match *v {
            crate::json::JsonValue::Arr(items) => (match r {
                Ok(bs) => bs@.len() == items@.len() && forall|i: int|
                    0 <= i < items@.len() ==> trading_book_raw_elem_ok(items@[i], bs@[i]),
                Err(e) => e matches BitfinexError::DecodeError(_) && exists|i: int|
                    0 <= i < items@.len() && trading_book_raw_elem_fails(items@[i]),
            }),
            _ => r == Err::<Vec<TradingBookRaw>, BitfinexError>(
                BitfinexError::DecodeError(crate::error::DecodeFailure::NotArray),
            ),
        }),
{
    match v {
        crate::json::JsonValue::Arr(items) => {
            let n = items.len();
            let mut out: Vec<TradingBookRaw> = Vec::new();
            for i in 0..n
                invariant
                    n == items@.len(),
                    out@.len() == i,
                    forall|j: int| 0 <= j < i ==> trading_book_raw_elem_ok(items@[j], out@[j]),
            {
                match trading_book_raw_from_json(&items[i]) {
                    Ok(b) => {
                        out.push(b);
                    },
                    Err(e) => {
                        proof {
                            assert(trading_book_raw_elem_fails(items@[i as int]));
                        }
                        return Err(e);
                    },
                }
            }
            Ok(out)
        },
        _ => Err(BitfinexError::DecodeError(crate::error::DecodeFailure::NotArray)),
    }
}

/// The trading ticker: the best bid and ask with their sizes, the daily
/// numbers, and the last price; every field keeps the wire's decimal text.
#[derive(Debug, PartialEq, Eq)]
pub struct TradingTicker {
    pub bid: String,
    pub bid_size: String,
    pub ask: String,
    pub ask_size: String,
    pub daily_change: String,
    pub daily_change_relative: String,
    pub last_price: String,
    pub volume: String,
    pub high: String,
    pub low: String,
}

/// The trading ticker schema: ten numbers.
pub open spec fn trading_ticker_schema_spec() -> Seq<crate::codec::FieldSpec> {
    seq![
        crate::codec::s_req(crate::codec::FieldKind::NumText),
        crate::codec::s_req(crate::codec::FieldKind::NumText),
        crate::codec::s_req(crate::codec::FieldKind::NumText),
        crate::codec::s_req(crate::codec::FieldKind::NumText),
        crate::codec::s_req(crate::codec::FieldKind::NumText),
        crate::codec::s_req(crate::codec::FieldKind::NumText),
        crate::codec::s_req(crate::codec::FieldKind::NumText),
        crate::codec::s_req(crate::codec::FieldKind::NumText),
        crate::codec::s_req(crate::codec::FieldKind::NumText),
        crate::codec::s_req(crate::codec::FieldKind::NumText),
    ]
}

/// True when the decoded fields of the trading ticker carry exactly this
/// record.
pub open spec fn trading_ticker_matches(
    fvs: Seq<crate::codec::FieldValue>,
    t: TradingTicker,
) -> bool {
    &&& fvs.len() == 10
    &&& fvs[0] == crate::codec::FieldValue::Num(t.bid)
    &&& fvs[1] == crate::codec::FieldValue::Num(t.bid_size)
    &&& fvs[2] == crate::codec::FieldValue::Num(t.ask)
    &&& fvs[3] == crate::codec::FieldValue::Num(t.ask_size)
    &&& fvs[4] == crate::codec::FieldValue::Num(t.daily_change)
    &&& fvs[5] == crate::codec::FieldValue::Num(t.daily_change_relative)
    &&& fvs[6] == crate::codec::FieldValue::Num(t.last_price)
    &&& fvs[7] == crate::codec::FieldValue::Num(t.volume)
    &&& fvs[8] == crate::codec::FieldValue::Num(t.high)
    &&& fvs[9] == crate::codec::FieldValue::Num(t.low)
}

/// Decodes the trading ticker from its wire array.
#[verifier::rlimit(100)]
pub fn trading_ticker_from_json(v: &crate::json::JsonValue) -> (r: Result<
    TradingTicker,
    BitfinexError,
>)
    ensures
        (match *v {
            crate::json::JsonValue::Arr(items) => match crate::codec::decode_fields_spec(
                items@,
                trading_ticker_schema_spec(),
            ) {
                Ok(fvs) => r matches Ok(t) && trading_ticker_matches(fvs, t),
                Err(e) => r == Err::<TradingTicker, BitfinexError>(BitfinexError::DecodeError(e)),
            },
            _ => r == Err::<TradingTicker, BitfinexError>(
                BitfinexError::DecodeError(crate::error::DecodeFailure::NotArray),
            ),
        }),
{
    match v {
        crate::json::JsonValue::Arr(items) => {
            let mut schema: Vec<crate::codec::FieldSpec> = Vec::new();
            let mut i: u8 = 0;
            while i < 10
                invariant
                    i <= 10,
                    schema@.len() == i,
                    forall|j: int|
                        0 <= j < i ==> schema@[j] == crate::codec::s_req(
                            crate::codec::FieldKind::NumText,
                        ),
                decreases 10 - i,
            {
                schema.push(crate::codec::req(crate::codec::FieldKind::NumText));
                i = i + 1;
            }
            proof {
                assert(schema@ =~= trading_ticker_schema_spec());
            }
            match crate::codec::decode_fields(items, &schema) {
                Err(e) => Err(BitfinexError::DecodeError(e)),
                Ok(fvs) => {
                    proof {
                        reveal_with_fuel(crate::codec::decode_fields_from, 12);
                        assert(fvs@.len() == 10);
                        assert(fvs@[0] is Num);
                        assert(fvs@[1] is Num);
                        assert(fvs@[2] is Num);
                        assert(fvs@[3] is Num);
                        assert(fvs@[4] is Num);
                        assert(fvs@[5] is Num);
                        assert(fvs@[6] is Num);
                        assert(fvs@[7] is Num);
                        assert(fvs@[8] is Num);
                        assert(fvs@[9] is Num);
                    }
                    Ok(
                        TradingTicker {
                            bid: crate::codec::take_num(&fvs[0]),
                            bid_size: crate::codec::take_num(&fvs[1]),
                            ask: crate::codec::take_num(&fvs[2]),
                            ask_size: crate::codec::take_num(&fvs[3]),
                            daily_change: crate::codec::take_num(&fvs[4]),
                            daily_change_relative: crate::codec::take_num(&fvs[5]),
                            last_price: crate::codec::take_num(&fvs[6]),
                            volume: crate::codec::take_num(&fvs[7]),
                            high: crate::codec::take_num(&fvs[8]),
                            low: crate::codec::take_num(&fvs[9]),
                        },
                    )
                },
            }
        },
        _ => Err(BitfinexError::DecodeError(crate::error::DecodeFailure::NotArray)),
    }
}

/// True when a wire element decodes to this trading trade row.
pub open spec fn trading_trade_elem_ok(jv: crate::json::JsonValue, t: TradingTrade) -> bool {
    match jv {
        crate::json::JsonValue::Arr(fields) => match crate::codec::decode_fields_spec(
            fields@,
            trading_trade_schema_spec(),
        ) {
            Ok(fvs) => trading_trade_matches(fvs, t),
            Err(_) => false,
        },
        _ => false,
    }
}

/// True when a wire element cannot decode as a trading trade row.
pub open spec fn trading_trade_elem_fails(jv: crate::json::JsonValue) -> bool {
    match jv {
        crate::json::JsonValue::Arr(fields) => crate::codec::decode_fields_spec(
            fields@,
            trading_trade_schema_spec(),
        ) is Err,
        _ => true,
    }
}

/// Decodes a trading trade list from its wire array of rows.
#[verifier::loop_isolation(false)]
pub fn trading_trades_from_json(v: &crate::json::JsonValue) -> (r: Result<
    Vec<TradingTrade>,
    BitfinexError,
>)
    ensures
        (match *v {
            crate::json::JsonValue::Arr(items) => (match r {
                Ok(ts) => ts@.len() == items@.len() && forall|i: int|
                    0 <= i < items@.len() ==> trading_trade_elem_ok(items@[i], ts@[i]),
                Err(e) => e matches BitfinexError::DecodeError(_) && exists|i: int|
                    0 <= i < items@.len() && trading_trade_elem_fails(items@[i]),
            }),
            _ => r == Err::<Vec<TradingTrade>, BitfinexError>(
                BitfinexError::DecodeError(crate::error::DecodeFailure::NotArray),
            ),
        }),
{
    match v {
        crate::json::JsonValue::Arr(items) => {
            let n = items.len();
            let mut out: Vec<TradingTrade> = Vec::new();
            for i in 0..n
                invariant
                    n == items@.len(),
                    out@.len() == i,
                    forall|j: int| 0 <= j < i ==> trading_trade_elem_ok(items@[j], out@[j]),
            {
                match trading_trade_from_json(&items[i]) {
                    Ok(t) => {
                        out.push(t);
                    },
                    Err(e) => {
                        proof {
                            assert(trading_trade_elem_fails(items@[i as int]));
                        }
                        return Err(e);
                    },
                }
            }
            Ok(out)
        },
        _ => Err(BitfinexError::DecodeError(crate::error::DecodeFailure::NotArray)),
    }
}

/// True when a wire element decodes to this trading book level.
pub open spec fn trading_book_elem_ok(jv: crate::json::JsonValue, b: TradingBook) -> bool {
    match jv {
        crate::json::JsonValue::Arr(fields) => match crate::codec::decode_fields_spec(
            fields@,
            trading_book_schema_spec(),
        ) {
            Ok(fvs) => trading_book_matches(fvs, b),
            Err(_) => false,
        },
        _ => false,
    }
}

/// True when a wire element cannot decode as a trading book level.
pub open spec fn trading_book_elem_fails(jv: crate::json::JsonValue) -> bool {
    match jv {
        crate::json::JsonValue::Arr(fields) => crate::codec::decode_fields_spec(
            fields@,
            trading_book_schema_spec(),
        ) is Err,
        _ => true,
    }
}

/// Decodes a trading book from its wire array of levels.
#[verifier::loop_isolation(false)]
pub fn trading_books_from_json(v: &crate::json::JsonValue) -> (r: Result<
    Vec<TradingBook>,
    BitfinexError,
>)
    ensures
        (match *v {
            crate::json::JsonValue::Arr(items) => (match r {
                Ok(bs) => bs@.len() == items@.len() && forall|i: int|
                    0 <= i < items@.len() ==> trading_book_elem_ok(items@[i], bs@[i]),
                Err(e) => e matches BitfinexError::DecodeError(_) && exists|i: int|
                    0 <= i < items@.len() && trading_book_elem_fails(items@[i]),
            }),
            _ => r == Err::<Vec<TradingBook>, BitfinexError>(
                BitfinexError::DecodeError(crate::error::DecodeFailure::NotArray),
            ),
        }),
{
    match v {
        crate::json::JsonValue::Arr(items) => {
            let n = items.len();
            let mut out: Vec<TradingBook> = Vec::new();
            for i in 0..n
                invariant
                    n == items@.len(),
                    out@.len() == i,
                    forall|j: int| 0 <= j < i ==> trading_book_elem_ok(items@[j], out@[j]),
            {
                match trading_book_from_json(&items[i]) {
                    Ok(b) => {
                        out.push(b);
                    },
                    Err(e) => {
                        proof {
                            assert(trading_book_elem_fails(items@[i as int]));
                        }
                        return Err(e);
                    },
                }
            }
            Ok(out)
        },
        _ => Err(BitfinexError::DecodeError(crate::error::DecodeFailure::NotArray)),
    }
}

/// One trading order row; amounts and prices keep the wire's decimal text,
/// and the wire row intersperses ten reserved slots.
#[derive(Debug, PartialEq, Eq)]
pub struct TradingOrder {
    pub id: u64,
    pub group_id: Option<u64>,
    pub client_order_id: u64,
    pub symbol: String,
    pub created: i64,
    pub updated: i64,
    pub amount: String,
    pub amount_orig: String,
    pub order_type: TradingOrderType,
    pub type_prev: Option<TradingOrderType>,
    pub mts_time_in_force: Option<u64>,
    pub flags: Option<u64>,
    pub status: String,
    pub price: String,
    pub price_avg: String,
    pub price_trailing: String,
    pub price_aux_limit: String,
    pub notify: Option<u8>,
    pub hidden: Option<u8>,
    pub placed_id: Option<u64>,
    pub routing: String,
    pub meta: Option<String>,
}

/// The trading order row schema.
pub open spec fn trading_order_schema_spec() -> Seq<crate::codec::FieldSpec> {
    seq![
        crate::codec::s_req(crate::codec::FieldKind::UIntMax(0xffff_ffff_ffff_ffffu64)),
        crate::codec::s_opt(crate::codec::FieldKind::UIntMax(0xffff_ffff_ffff_ffffu64)),
        crate::codec::s_req(crate::codec::FieldKind::UIntMax(0xffff_ffff_ffff_ffffu64)),
        crate::codec::s_req(crate::codec::FieldKind::Str),
        crate::codec::s_req(crate::codec::FieldKind::TimeMs),
        crate::codec::s_req(crate::codec::FieldKind::TimeMs),
        crate::codec::s_req(crate::codec::FieldKind::NumText),
        crate::codec::s_req(crate::codec::FieldKind::NumText),
        crate::codec::s_req(crate::codec::FieldKind::OrderType),
        crate::codec::s_opt(crate::codec::FieldKind::OrderType),
        crate::codec::s_opt(crate::codec::FieldKind::UIntMax(0xffff_ffff_ffff_ffffu64)),
        crate::codec::s_res(),
        crate::codec::s_opt(crate::codec::FieldKind::UIntMax(0xffff_ffff_ffff_ffffu64)),
        crate::codec::s_req(crate::codec::FieldKind::Str),
        crate::codec::s_res(),
        crate::codec::s_res(),
        crate::codec::s_req(crate::codec::FieldKind::NumText),
        crate::codec::s_req(crate::codec::FieldKind::NumText),
        crate::codec::s_req(crate::codec::FieldKind::NumText),
        crate::codec::s_req(crate::codec::FieldKind::NumText),
        crate::codec::s_res(),
        crate::codec::s_res(),
        crate::codec::s_res(),
        crate::codec::s_opt(crate::codec::FieldKind::UIntMax(255)),
        crate::codec::s_opt(crate::codec::FieldKind::UIntMax(255)),
        crate::codec::s_opt(crate::codec::FieldKind::UIntMax(0xffff_ffff_ffff_ffffu64)),
        crate::codec::s_res(),
        crate::codec::s_res(),
        crate::codec::s_req(crate::codec::FieldKind::Str),
        crate::codec::s_res(),
        crate::codec::s_res(),
        crate::codec::s_opt(crate::codec::FieldKind::Str),
    ]
}

/// Builds the trading order row schema.
pub fn trading_order_schema() -> (s: Vec<crate::codec::FieldSpec>)
    ensures
        s@ == trading_order_schema_spec(),
{
    let mut s: Vec<crate::codec::FieldSpec> = Vec::new();
    s.push(crate::codec::req(crate::codec::FieldKind::UIntMax(0xffff_ffff_ffff_ffffu64)));
    s.push(crate::codec::opt(crate::codec::FieldKind::UIntMax(0xffff_ffff_ffff_ffffu64)));
    s.push(crate::codec::req(crate::codec::FieldKind::UIntMax(0xffff_ffff_ffff_ffffu64)));
    s.push(crate::codec::req(crate::codec::FieldKind::Str));
    s.push(crate::codec::req(crate::codec::FieldKind::TimeMs));
    s.push(crate::codec::req(crate::codec::FieldKind::TimeMs));
    s.push(crate::codec::req(crate::codec::FieldKind::NumText));
    s.push(crate::codec::req(crate::codec::FieldKind::NumText));
    s.push(crate::codec::req(crate::codec::FieldKind::OrderType));
    s.push(crate::codec::opt(crate::codec::FieldKind::OrderType));
    s.push(crate::codec::opt(crate::codec::FieldKind::UIntMax(0xffff_ffff_ffff_ffffu64)));
    s.push(crate::codec::res());
    s.push(crate::codec::opt(crate::codec::FieldKind::UIntMax(0xffff_ffff_ffff_ffffu64)));
    s.push(crate::codec::req(crate::codec::FieldKind::Str));
    s.push(crate::codec::res());
    s.push(crate::codec::res());
    s.push(crate::codec::req(crate::codec::FieldKind::NumText));
    s.push(crate::codec::req(crate::codec::FieldKind::NumText));
    s.push(crate::codec::req(crate::codec::FieldKind::NumText));
    s.push(crate::codec::req(crate::codec::FieldKind::NumText));
    s.push(crate::codec::res());
    s.push(crate::codec::res());
    s.push(crate::codec::res());
    s.push(crate::codec::opt(crate::codec::FieldKind::UIntMax(255)));
    s.push(crate::codec::opt(crate::codec::FieldKind::UIntMax(255)));
    s.push(crate::codec::opt(crate::codec::FieldKind::UIntMax(0xffff_ffff_ffff_ffffu64)));
    s.push(crate::codec::res());
    s.push(crate::codec::res());
    s.push(crate::codec::req(crate::codec::FieldKind::Str));
    s.push(crate::codec::res());
    s.push(crate::codec::res());
    s.push(crate::codec::opt(crate::codec::FieldKind::Str));
    proof {
        assert(s@ =~= trading_order_schema_spec());
    }
    s
}

/// The decoded form an optional small unsigned field must take.
pub open spec fn order_opt_u8_value(v: Option<u8>) -> crate::codec::FieldValue {
    match v {
        Some(n) => crate::codec::FieldValue::UInt(n as u64),
        None => crate::codec::FieldValue::Null,
    }
}

/// The decoded form an optional unsigned field must take.
pub open spec fn order_opt_u64_value(v: Option<u64>) -> crate::codec::FieldValue {
    match v {
        Some(n) => crate::codec::FieldValue::UInt(n),
        None => crate::codec::FieldValue::Null,
    }
}

/// The decoded form an optional text field must take.
pub open spec fn order_opt_text_value(v: Option<String>) -> crate::codec::FieldValue {
    match v {
        Some(s) => crate::codec::FieldValue::Text(s),
        None => crate::codec::FieldValue::Null,
    }
}

/// The decoded form an optional enumerated field must take.
pub open spec fn order_opt_type_value(v: Option<TradingOrderType>) -> crate::codec::FieldValue {
    match v {
        Some(t) => crate::codec::FieldValue::Order(t),
        None => crate::codec::FieldValue::Null,
    }
}

/// True when the decoded fields of a trading order row carry exactly this
/// record.
pub open spec fn trading_order_matches(
    fvs: Seq<crate::codec::FieldValue>,
    o: TradingOrder,
) -> bool {
    &&& fvs.len() == 22
    &&& fvs[0] == crate::codec::FieldValue::UInt(o.id)
    &&& fvs[1] == order_opt_u64_value(o.group_id)
    &&& fvs[2] == crate::codec::FieldValue::UInt(o.client_order_id)
    &&& fvs[3] == crate::codec::FieldValue::Text(o.symbol)
    &&& fvs[4] == crate::codec::FieldValue::Time(o.created)
    &&& fvs[5] == crate::codec::FieldValue::Time(o.updated)
    &&& fvs[6] == crate::codec::FieldValue::Num(o.amount)
    &&& fvs[7] == crate::codec::FieldValue::Num(o.amount_orig)
    &&& fvs[8] == crate::codec::FieldValue::Order(o.order_type)
    &&& fvs[9] == order_opt_type_value(o.type_prev)
    &&& fvs[10] == order_opt_u64_value(o.mts_time_in_force)
    &&& fvs[11] == order_opt_u64_value(o.flags)
    &&& fvs[12] == crate::codec::FieldValue::Text(o.status)
    &&& fvs[13] == crate::codec::FieldValue::Num(o.price)
    &&& fvs[14] == crate::codec::FieldValue::Num(o.price_avg)
    &&& fvs[15] == crate::codec::FieldValue::Num(o.price_trailing)
    &&& fvs[16] == crate::codec::FieldValue::Num(o.price_aux_limit)
    &&& fvs[17] == order_opt_u8_value(o.notify)
    &&& fvs[18] == order_opt_u8_value(o.hidden)
    &&& fvs[19] == order_opt_u64_value(o.placed_id)
    &&& fvs[20] == crate::codec::FieldValue::Text(o.routing)
    &&& fvs[21] == order_opt_text_value(o.meta)
}

/// Narrows a decoded optional small unsigned field to a byte.
fn order_take_opt_u8(fv: &crate::codec::FieldValue) -> (r: Option<u8>)
    requires
        fv is Null || (fv matches crate::codec::FieldValue::UInt(n) && n <= 255),
    ensures
        *fv == order_opt_u8_value(r),
{
    match fv {
        crate::codec::FieldValue::UInt(n) => Some(*n as u8),
        crate::codec::FieldValue::Null => None,
        _ => vstd::pervasive::unreached(),
    }
}

#[verifier::rlimit(100)]
proof fn lemma_trading_order_shape(items: Seq<crate::json::JsonValue>, fvs: Seq<crate::codec::FieldValue>)
    requires
        crate::codec::decode_fields_spec(items, trading_order_schema_spec()) == Ok::<
            Seq<crate::codec::FieldValue>,
            crate::error::DecodeFailure,
        >(fvs),
    ensures
        fvs.len() == 22,
        fvs[0] is UInt,
        fvs[1] is Null || fvs[1] is UInt,
        fvs[2] is UInt,
        fvs[3] is Text,
        fvs[4] is Time,
        fvs[5] is Time,
        fvs[6] is Num,
        fvs[7] is Num,
        fvs[8] is Order,
        fvs[9] is Null || fvs[9] is Order,
        fvs[10] is Null || fvs[10] is UInt,
        fvs[11] is Null || fvs[11] is UInt,
        fvs[12] is Text,
        fvs[13] is Num,
        fvs[14] is Num,
        fvs[15] is Num,
        fvs[16] is Num,
        fvs[17] is Null || (fvs[17] matches crate::codec::FieldValue::UInt(n) && n <= 255),
        fvs[18] is Null || (fvs[18] matches crate::codec::FieldValue::UInt(n) && n <= 255),
        fvs[19] is Null || fvs[19] is UInt,
        fvs[20] is Text,
        fvs[21] is Null || fvs[21] is Text,
{
    reveal_with_fuel(crate::codec::decode_fields_from, 34);
}

/// Decodes one trading order row from its wire array.
#[verifier::rlimit(100)]
pub fn trading_order_from_json(v: &crate::json::JsonValue) -> (r: Result<
    TradingOrder,
    BitfinexError,
>)
    ensures
        (match *v {
            crate::json::JsonValue::Arr(items) => match crate::codec::decode_fields_spec(
                items@,
                trading_order_schema_spec(),
            ) {
                Ok(fvs) => r matches Ok(o) && trading_order_matches(fvs, o),
                Err(e) => r == Err::<TradingOrder, BitfinexError>(BitfinexError::DecodeError(e)),
            },
            _ => r == Err::<TradingOrder, BitfinexError>(
                BitfinexError::DecodeError(crate::error::DecodeFailure::NotArray),
            ),
        }),
{
    match v {
        crate::json::JsonValue::Arr(items) => {
            let schema = trading_order_schema();
            match crate::codec::decode_fields(items, &schema) {
                Err(e) => Err(BitfinexError::DecodeError(e)),
                Ok(fvs) => {
                    proof {
                        lemma_trading_order_shape(items@, fvs@);
                    }
                    let o = TradingOrder {
                        id: crate::codec::take_u64(&fvs[0]),
                        group_id: crate::codec::take_opt_u64(&fvs[1]),
                        client_order_id: crate::codec::take_u64(&fvs[2]),
                        symbol: crate::codec::take_text(&fvs[3]),
                        created: crate::codec::take_time(&fvs[4]),
                        updated: crate::codec::take_time(&fvs[5]),
                        amount: crate::codec::take_num(&fvs[6]),
                        amount_orig: crate::codec::take_num(&fvs[7]),
                        order_type: crate::codec::take_order(&fvs[8]),
                        type_prev: crate::codec::take_opt_order(&fvs[9]),
                        mts_time_in_force: crate::codec::take_opt_u64(&fvs[10]),
                        flags: crate::codec::take_opt_u64(&fvs[11]),
                        status: crate::codec::take_text(&fvs[12]),
                        price: crate::codec::take_num(&fvs[13]),
                        price_avg: crate::codec::take_num(&fvs[14]),
                        price_trailing: crate::codec::take_num(&fvs[15]),
                        price_aux_limit: crate::codec::take_num(&fvs[16]),
                        notify: order_take_opt_u8(&fvs[17]),
                        hidden: order_take_opt_u8(&fvs[18]),
                        placed_id: crate::codec::take_opt_u64(&fvs[19]),
                        routing: crate::codec::take_text(&fvs[20]),
                        meta: crate::codec::take_opt_text(&fvs[21]),
                    };
                    Ok(o)
                },
            }
        },
        _ => Err(BitfinexError::DecodeError(crate::error::DecodeFailure::NotArray)),
    }
}

/// True when a wire element decodes to this trading order row.
pub open spec fn trading_order_elem_ok(jv: crate::json::JsonValue, o: TradingOrder) -> bool {
    match jv {
        crate::json::JsonValue::Arr(fields) => match crate::codec::decode_fields_spec(
            fields@,
            trading_order_schema_spec(),
        ) {
            Ok(fvs) => trading_order_matches(fvs, o),
            Err(_) => false,
        },
        _ => false,
    }
}

/// True when a wire element cannot decode as a trading order row.
pub open spec fn trading_order_elem_fails(jv: crate::json::JsonValue) -> bool {
    match jv {
        crate::json::JsonValue::Arr(fields) => crate::codec::decode_fields_spec(
            fields@,
            trading_order_schema_spec(),
        ) is Err,
        _ => true,
    }
}

/// Decodes a trading order list from its wire array of rows.
#[verifier::loop_isolation(false)]
pub fn trading_orders_from_json(v: &crate::json::JsonValue) -> (r: Result<
    Vec<TradingOrder>,
    BitfinexError,
>)
    ensures
        (match *v {
            crate::json::JsonValue::Arr(items) => (match r {
                Ok(os) => os@.len() == items@.len() && forall|i: int|
                    0 <= i < items@.len() ==> trading_order_elem_ok(items@[i], os@[i]),
                Err(e) => e matches BitfinexError::DecodeError(_) && exists|i: int|
                    0 <= i < items@.len() && trading_order_elem_fails(items@[i]),
            }),
            _ => r == Err::<Vec<TradingOrder>, BitfinexError>(
                BitfinexError::DecodeError(crate::error::DecodeFailure::NotArray),
            ),
        }),
{
    match v {
        crate::json::JsonValue::Arr(items) => {
            let n = items.len();
            let mut out: Vec<TradingOrder> = Vec::new();
            for i in 0..n
                invariant
                    n == items@.len(),
                    out@.len() == i,
                    forall|j: int| 0 <= j < i ==> trading_order_elem_ok(items@[j], out@[j]),
            {
                match trading_order_from_json(&items[i]) {
                    Ok(o) => {
                        out.push(o);
                    },
                    Err(e) => {
                        proof {
                            assert(trading_order_elem_fails(items@[i as int]));
                        }
                        return Err(e);
                    },
                }
            }
            Ok(out)
        },
        _ => Err(BitfinexError::DecodeError(crate::error::DecodeFailure::NotArray)),
    }
}

/// Decodes the trading order list a response body carries.
pub fn trading_orders_from_body(body: &str) -> (r: Result<Vec<TradingOrder>, BitfinexError>)
    ensures
        (match crate::json::json_of(body@) {
            None => r == Err::<Vec<TradingOrder>, BitfinexError>(
                BitfinexError::DecodeError(crate::error::DecodeFailure::BadJson),
            ),
            Some(v) => (match v {
                crate::json::JsonValue::Arr(items) => (match r {
                    Ok(os) => os@.len() == items@.len() && forall|i: int|
                        0 <= i < items@.len() ==> trading_order_elem_ok(items@[i], os@[i]),
                    Err(e) => e matches BitfinexError::DecodeError(_) && exists|i: int|
                        0 <= i < items@.len() && trading_order_elem_fails(items@[i]),
                }),
                _ => r == Err::<Vec<TradingOrder>, BitfinexError>(
                    BitfinexError::DecodeError(crate::error::DecodeFailure::NotArray),
                ),
            }),
        }),
{
    match crate::json::parse_json(body) {
        None => Err(BitfinexError::DecodeError(crate::error::DecodeFailure::BadJson)),
        Some(v) => trading_orders_from_json(&v),
    }
}

/// The notification envelope around one trading order or a list of them.
#[derive(Debug, PartialEq, Eq)]
pub struct TradingOrderResult {
    pub time: i64,
    pub noti_type: String,
    pub message_id: Option<u64>,
    pub order: TradingOrder,
    pub code: Option<u64>,
    pub status: String,
    pub message: Option<String>,
}

/// The envelope schema around an order slot; the slot itself is consumed
/// here and decoded with the order's own schema.
pub open spec fn order_result_schema_spec() -> Seq<crate::codec::FieldSpec> {
    seq![
        crate::codec::s_req(crate::codec::FieldKind::TimeMs),
        crate::codec::s_req(crate::codec::FieldKind::Str),
        crate::codec::s_opt(crate::codec::FieldKind::UIntMax(0xffff_ffff_ffff_ffffu64)),
        crate::codec::s_res(),
        crate::codec::s_res(),
        crate::codec::s_opt(crate::codec::FieldKind::UIntMax(65535)),
        crate::codec::s_req(crate::codec::FieldKind::Str),
        crate::codec::s_opt(crate::codec::FieldKind::Str),
    ]
}

fn order_result_schema() -> (s: Vec<crate::codec::FieldSpec>)
    ensures
        s@ == order_result_schema_spec(),
{
    let mut s: Vec<crate::codec::FieldSpec> = Vec::new();
    s.push(crate::codec::req(crate::codec::FieldKind::TimeMs));
    s.push(crate::codec::req(crate::codec::FieldKind::Str));
    s.push(crate::codec::opt(crate::codec::FieldKind::UIntMax(0xffff_ffff_ffff_ffffu64)));
    s.push(crate::codec::res());
    s.push(crate::codec::res());
    s.push(crate::codec::opt(crate::codec::FieldKind::UIntMax(65535)));
    s.push(crate::codec::req(crate::codec::FieldKind::Str));
    s.push(crate::codec::opt(crate::codec::FieldKind::Str));
    proof {
        assert(s@ =~= order_result_schema_spec());
    }
    s
}

/// True when the decoded envelope fields carry exactly this result record,
/// apart from its order slot.
pub open spec fn order_result_envelope_matches(
    fvs: Seq<crate::codec::FieldValue>,
    time: i64,
    noti_type: String,
    message_id: Option<u64>,
    code: Option<u64>,
    status: String,
    message: Option<String>,
) -> bool {
    &&& fvs.len() == 6
    &&& fvs[0] == crate::codec::FieldValue::Time(time)
    &&& fvs[1] == crate::codec::FieldValue::Text(noti_type)
    &&& fvs[2] == order_opt_u64_value(message_id)
    &&& fvs[3] == order_opt_u64_value(code)
    &&& fvs[4] == crate::codec::FieldValue::Text(status)
    &&& fvs[5] == order_opt_text_value(message)
}

/// Decodes a notification envelope holding one trading order.
pub fn trading_order_result_from_json(v: &crate::json::JsonValue) -> (r: Result<
    TradingOrderResult,
    BitfinexError,
>)
    ensures
        (match *v {
            crate::json::JsonValue::Arr(items) => match crate::codec::decode_fields_spec(
                items@,
                order_result_schema_spec(),
            ) {
                Ok(fvs) => items@.len() == 8 && (match items@[4] {
                    crate::json::JsonValue::Arr(ofields) => match crate::codec::decode_fields_spec(
                        ofields@,
                        trading_order_schema_spec(),
                    ) {
                        Ok(ofvs) => r matches Ok(res) && order_result_envelope_matches(
                            fvs,
                            res.time,
                            res.noti_type,
                            res.message_id,
                            res.code,
                            res.status,
                            res.message,
                        ) && trading_order_matches(ofvs, res.order),
                        Err(e2) => r == Err::<TradingOrderResult, BitfinexError>(
                            BitfinexError::DecodeError(e2),
                        ),
                    },
                    _ => r == Err::<TradingOrderResult, BitfinexError>(
                        BitfinexError::DecodeError(crate::error::DecodeFailure::NotArray),
                    ),
                }),
                Err(e) => r == Err::<TradingOrderResult, BitfinexError>(
                    BitfinexError::DecodeError(e),
                ),
            },
            _ => r == Err::<TradingOrderResult, BitfinexError>(
                BitfinexError::DecodeError(crate::error::DecodeFailure::NotArray),
            ),
        }),
{
    match v {
        crate::json::JsonValue::Arr(items) => {
            let schema = order_result_schema();
            match crate::codec::decode_fields(items, &schema) {
                Err(e) => Err(BitfinexError::DecodeError(e)),
                Ok(fvs) => {
                    proof {
                        reveal_with_fuel(crate::codec::decode_fields_from, 10);
                        assert(fvs@.len() == 6);
                        assert(fvs@[0] is Time);
                        assert(fvs@[1] is Text);
                        assert(fvs@[2] is Null || fvs@[2] is UInt);
                        assert(fvs@[3] is Null || fvs@[3] is UInt);
                        assert(fvs@[4] is Text);
                        assert(fvs@[5] is Null || fvs@[5] is Text);
                        assert(items@.len() == 8);
                    }
                    match trading_order_from_json(&items[4]) {
                        Err(e) => Err(e),
                        Ok(order) => {
                            Ok(
                                TradingOrderResult {
                                    time: crate::codec::take_time(&fvs[0]),
                                    noti_type: crate::codec::take_text(&fvs[1]),
                                    message_id: crate::codec::take_opt_u64(&fvs[2]),
                                    order,
                                    code: crate::codec::take_opt_u64(&fvs[3]),
                                    status: crate::codec::take_text(&fvs[4]),
                                    message: crate::codec::take_opt_text(&fvs[5]),
                                },
                            )
                        },
                    }
                },
            }
        },
        _ => Err(BitfinexError::DecodeError(crate::error::DecodeFailure::NotArray)),
    }
}

/// The notification envelope around a list of trading orders.
#[derive(Debug, PartialEq, Eq)]
pub struct TradingOrderMultiResult {
    pub time: i64,
    pub noti_type: String,
    pub message_id: Option<u64>,
    pub orders: Vec<TradingOrder>,
    pub code: Option<u64>,
    pub status: String,
    pub message: Option<String>,
}

/// Decodes a notification envelope holding a list of trading orders.
pub fn trading_order_multi_result_from_json(v: &crate::json::JsonValue) -> (r: Result<
    TradingOrderMultiResult,
    BitfinexError,
>)
    ensures
        (match *v {
            crate::json::JsonValue::Arr(items) => match crate::codec::decode_fields_spec(
                items@,
                order_result_schema_spec(),
            ) {
                Ok(fvs) => items@.len() == 8 && (match items@[4] {
                    crate::json::JsonValue::Arr(rows) => (match r {
                        Ok(res) => order_result_envelope_matches(
                            fvs,
                            res.time,
                            res.noti_type,
                            res.message_id,
                            res.code,
                            res.status,
                            res.message,
                        ) && res.orders@.len() == rows@.len() && forall|i: int|
                            0 <= i < rows@.len() ==> trading_order_elem_ok(
                                rows@[i],
                                res.orders@[i],
                            ),
                        Err(e) => e matches BitfinexError::DecodeError(_) && exists|i: int|
                            0 <= i < rows@.len() && trading_order_elem_fails(rows@[i]),
                    }),
                    _ => r == Err::<TradingOrderMultiResult, BitfinexError>(
                        BitfinexError::DecodeError(crate::error::DecodeFailure::NotArray),
                    ),
                }),
                Err(e) => r == Err::<TradingOrderMultiResult, BitfinexError>(
                    BitfinexError::DecodeError(e),
                ),
            },
            _ => r == Err::<TradingOrderMultiResult, BitfinexError>(
                BitfinexError::DecodeError(crate::error::DecodeFailure::NotArray),
            ),
        }),
{
    match v {
        crate::json::JsonValue::Arr(items) => {
            let schema = order_result_schema();
            match crate::codec::decode_fields(items, &schema) {
                Err(e) => Err(BitfinexError::DecodeError(e)),
                Ok(fvs) => {
                    proof {
                        reveal_with_fuel(crate::codec::decode_fields_from, 10);
                        assert(fvs@.len() == 6);
                        assert(fvs@[0] is Time);
                        assert(fvs@[1] is Text);
                        assert(fvs@[2] is Null || fvs@[2] is UInt);
                        assert(fvs@[3] is Null || fvs@[3] is UInt);
                        assert(fvs@[4] is Text);
                        assert(fvs@[5] is Null || fvs@[5] is Text);
                        assert(items@.len() == 8);
                    }
                    match trading_orders_from_json(&items[4]) {
                        Err(e) => Err(e),
                        Ok(orders) => {
                            Ok(
                                TradingOrderMultiResult {
                                    time: crate::codec::take_time(&fvs[0]),
                                    noti_type: crate::codec::take_text(&fvs[1]),
                                    message_id: crate::codec::take_opt_u64(&fvs[2]),
                                    orders,
                                    code: crate::codec::take_opt_u64(&fvs[3]),
                                    status: crate::codec::take_text(&fvs[4]),
                                    message: crate::codec::take_opt_text(&fvs[5]),
                                },
                            )
                        },
                    }
                },
            }
        },
        _ => Err(BitfinexError::DecodeError(crate::error::DecodeFailure::NotArray)),
    }
}

} // verus!
