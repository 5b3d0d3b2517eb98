//! The funding side of the endpoint query builder: book precision levels,
//! candle time frames and aggregation arithmetic, and the public funding
//! paths.

use vstd::prelude::*;
use vstd::string::StringExecFns;

use crate::error::{BitfinexError, PreconditionFailure};
use crate::query::{append_hist_params, hist_params};
use crate::text::{dec_of, first_char_is, str_eq, u64_to_dec, upper_chars, upper_seq, vec_char_eq};

verus! {

/// A book precision level; level one is the most precise, level four the
/// least.
#[derive(Debug, PartialEq, Eq, Structural, Clone, Copy)]
pub enum BookPrecision {
    One,
    Two,
    Three,
    Four,
}

/// The precision level a raw integer selects; anything outside one to four
/// falls back to level two.
pub open spec fn precision_of(value: u8) -> BookPrecision {
    if value == 1 {
        BookPrecision::One
    } else if value == 3 {
        BookPrecision::Three
    } else if value == 4 {
        BookPrecision::Four
    } else {
        BookPrecision::Two
    }
}

impl BookPrecision {
    /// The numeric level of this precision.
    pub open spec fn spec_level(&self) -> int {
        match self {
            BookPrecision::One => 1,
            BookPrecision::Two => 2,
            BookPrecision::Three => 3,
            BookPrecision::Four => 4,
        }
    }

    /// The precision level an integer selects, defaulting to level two.
    pub fn from(value: u8) -> (r: BookPrecision)
        ensures
            r == precision_of(value),
    {
        match value {
            1 => BookPrecision::One,
            2 => BookPrecision::Two,
            3 => BookPrecision::Three,
            4 => BookPrecision::Four,
            _ => BookPrecision::Two,
        }
    }

    /// The numeric level of this precision.
    pub fn as_u8(&self) -> (r: u8)
        ensures
            r as int == self.spec_level(),
    {
        match self {
            BookPrecision::One => 1,
            BookPrecision::Two => 2,
            BookPrecision::Three => 3,
            BookPrecision::Four => 4,
        }
    }
}

/// The order types a funding offer can carry.
#[derive(Debug, PartialEq, Eq, Structural, Clone, Copy)]
pub enum FundingOrderType {
    Limit,
    FrrDeltaVar,
    FrrDeltaFix,
}

/// The funding order type a token selects, compared without regard to
/// letter case; an unknown token falls back to the limit type.
pub open spec fn funding_order_type_of(s: Seq<char>) -> FundingOrderType {
    if upper_seq(s) == "LIMIT"@ {
        FundingOrderType::Limit
    } else if upper_seq(s) == "FRRDELTAVAR"@ {
        FundingOrderType::FrrDeltaVar
    } else if upper_seq(s) == "FRRDELTAFIX"@ {
        FundingOrderType::FrrDeltaFix
    } else {
        FundingOrderType::Limit
    }
}

impl FundingOrderType {
    /// The wire token of this order type.
    pub open spec fn spec_token(&self) -> Seq<char> {
        match self {
            FundingOrderType::Limit => "LIMIT"@,
            FundingOrderType::FrrDeltaVar => "FRRDELTAVAR"@,
            FundingOrderType::FrrDeltaFix => "FRRDELTAFIX"@,
        }
    }

    /// The funding order type a token selects, without regard to letter
    /// case; an unknown token falls back to the limit type.
    pub fn from(value: &str) -> (r: FundingOrderType)
        ensures
            r == funding_order_type_of(value@),
    {
        let up = upper_chars(value);
        if vec_char_eq(&up, &crate::text::chars_of("LIMIT")) {
            FundingOrderType::Limit
        } else if vec_char_eq(&up, &crate::text::chars_of("FRRDELTAVAR")) {
            FundingOrderType::FrrDeltaVar
        } else if vec_char_eq(&up, &crate::text::chars_of("FRRDELTAFIX")) {
            FundingOrderType::FrrDeltaFix
        } else {
            FundingOrderType::Limit
        }
    }

    /// The wire token of this order type.
    pub fn as_str(&self) -> (r: &'static str)
        ensures
            r@ == self.spec_token(),
    {
        match self {
            FundingOrderType::Limit => "LIMIT",
            FundingOrderType::FrrDeltaVar => "FRRDELTAVAR",
            FundingOrderType::FrrDeltaFix => "FRRDELTAFIX",
        }
    }

    /// The wire token of this order type, as an owned string.
    pub fn to_string(&self) -> (r: String)
        ensures
            r@ == self.spec_token(),
    {
        self.as_str().to_owned()
    }
}

/// A candle aggregation window: one of the three windows the exchange
/// accepts, or none for unaggregated candles.
#[derive(Debug, PartialEq, Eq, Structural, Clone, Copy)]
pub enum CandleAggPeriod {
    A10,
    A30,
    A120,
    Nil,
}

/// The aggregation window a raw integer selects; anything but the three
/// known windows means no aggregation.
pub open spec fn agg_period_of(value: u8) -> CandleAggPeriod {
    if value == 10 {
        CandleAggPeriod::A10
    } else if value == 30 {
        CandleAggPeriod::A30
    } else if value == 120 {
        CandleAggPeriod::A120
    } else {
        CandleAggPeriod::Nil
    }
}

impl CandleAggPeriod {
    /// The window width, zero for no aggregation.
    pub open spec fn spec_value(&self) -> int {
        match self {
            CandleAggPeriod::A10 => 10,
            CandleAggPeriod::A30 => 30,
            CandleAggPeriod::A120 => 120,
            CandleAggPeriod::Nil => 0,
        }
    }

    /// The aggregation window an integer selects; an unknown width means no
    /// aggregation.
    pub fn from(value: u8) -> (r: CandleAggPeriod)
        ensures
            r == agg_period_of(value),
    {
        match value {
            10 => CandleAggPeriod::A10,
            30 => CandleAggPeriod::A30,
            120 => CandleAggPeriod::A120,
            _ => CandleAggPeriod::Nil,
        }
    }

    /// The window width, zero for no aggregation.
    pub fn as_u8(&self) -> (r: u8)
        ensures
            r as int == self.spec_value(),
    {
        match self {
            CandleAggPeriod::A10 => 10,
            CandleAggPeriod::A30 => 30,
            CandleAggPeriod::A120 => 120,
            CandleAggPeriod::Nil => 0,
        }
    }
}

/// The candle time frames the exchange offers.
#[derive(Debug, PartialEq, Eq, Structural, Clone, Copy)]
pub enum CandleTimeFrame {
    Min1,
    Min5,
    Min15,
    Min30,
    Hour1,
    Hour3,
    Hour4,
    Hour6,
    Hour12,
    Day1,
    Week1,
    Week2,
    Month1,
}

/// The time frame a token selects; an unknown token falls back to four
/// hours.
pub open spec fn time_frame_of(s: Seq<char>) -> CandleTimeFrame {
    if s == "1m"@ {
        CandleTimeFrame::Min1
    } else if s == "5m"@ {
        CandleTimeFrame::Min5
    } else if s == "15m"@ {
        CandleTimeFrame::Min15
    } else if s == "30m"@ {
        CandleTimeFrame::Min30
    } else if s == "1h"@ {
        CandleTimeFrame::Hour1
    } else if s == "3h"@ {
        CandleTimeFrame::Hour3
    } else if s == "4h"@ {
        CandleTimeFrame::Hour4
    } else if s == "6h"@ {
        CandleTimeFrame::Hour6
    } else if s == "12h"@ {
        CandleTimeFrame::Hour12
    } else if s == "1d"@ {
        CandleTimeFrame::Day1
    } else if s == "1w"@ {
        CandleTimeFrame::Week1
    } else if s == "2w"@ {
        CandleTimeFrame::Week2
    } else if s == "1M"@ {
        CandleTimeFrame::Month1
    } else {
        CandleTimeFrame::Hour4
    }
}

impl CandleTimeFrame {
    /// The wire token of this time frame.
    pub open spec fn spec_token(&self) -> Seq<char> {
        match self {
            CandleTimeFrame::Min1 => "1m"@,
            CandleTimeFrame::Min5 => "5m"@,
            CandleTimeFrame::Min15 => "15m"@,
            CandleTimeFrame::Min30 => "30m"@,
            CandleTimeFrame::Hour1 => "1h"@,
            CandleTimeFrame::Hour3 => "3h"@,
            CandleTimeFrame::Hour4 => "4h"@,
            CandleTimeFrame::Hour6 => "6h"@,
            CandleTimeFrame::Hour12 => "12h"@,
            CandleTimeFrame::Day1 => "1d"@,
            CandleTimeFrame::Week1 => "1w"@,
            CandleTimeFrame::Week2 => "2w"@,
            CandleTimeFrame::Month1 => "1M"@,
        }
    }

    /// The time frame a token selects; an unknown token falls back to four
    /// hours.
    pub fn from(value: &str) -> (r: CandleTimeFrame)
        ensures
            r == time_frame_of(value@),
    {
        if str_eq(value, "1m") {
            CandleTimeFrame::Min1
        } else if str_eq(value, "5m") {
            CandleTimeFrame::Min5
        } else if str_eq(value, "15m") {
            CandleTimeFrame::Min15
        } else if str_eq(value, "30m") {
            CandleTimeFrame::Min30
        } else if str_eq(value, "1h") {
            CandleTimeFrame::Hour1
        } else if str_eq(value, "3h") {
            CandleTimeFrame::Hour3
        } else if str_eq(value, "4h") {
            CandleTimeFrame::Hour4
        } else if str_eq(value, "6h") {
            CandleTimeFrame::Hour6
        } else if str_eq(value, "12h") {
            CandleTimeFrame::Hour12
        } else if str_eq(value, "1d") {
            CandleTimeFrame::Day1
        } else if str_eq(value, "1w") {
            CandleTimeFrame::Week1
        } else if str_eq(value, "2w") {
            CandleTimeFrame::Week2
        } else if str_eq(value, "1M") {
            CandleTimeFrame::Month1
        } else {
            CandleTimeFrame::Hour4
        }
    }

    /// The wire token of this time frame.
    pub fn as_str(&self) -> (r: &'static str)
        ensures
            r@ == self.spec_token(),
    {
        match self {
            CandleTimeFrame::Min1 => "1m",
            CandleTimeFrame::Min5 => "5m",
            CandleTimeFrame::Min15 => "15m",
            CandleTimeFrame::Min30 => "30m",
            CandleTimeFrame::Hour1 => "1h",
            CandleTimeFrame::Hour3 => "3h",
            CandleTimeFrame::Hour4 => "4h",
            CandleTimeFrame::Hour6 => "6h",
            CandleTimeFrame::Hour12 => "12h",
            CandleTimeFrame::Day1 => "1d",
            CandleTimeFrame::Week1 => "1w",
            CandleTimeFrame::Week2 => "2w",
            CandleTimeFrame::Month1 => "1M",
        }
    }
}

/// The path of an aggregated order book: `book/<symbol>/P<level>?len=250`.
pub open spec fn book_path_spec(symbol: Seq<char>, level: int) -> Seq<char> {
    "book/"@ + symbol + "/P"@ + dec_of(level as nat) + "?len=250"@
}

/// The path of a raw order book: `book/<symbol>/R0?len=250`.
pub open spec fn raw_book_path_spec(symbol: Seq<char>) -> Seq<char> {
    "book/"@ + symbol + "/R0?len=250"@
}

pub(crate) fn build_book_path(symbol: &str, prec: &BookPrecision) -> (p: String)
    ensures
        p@ == book_path_spec(symbol@, prec.spec_level()),
{
    let mut p = String::from_str("book/");
    p.append(symbol);
    p.append("/P");
    let d = u64_to_dec(prec.as_u8() as u64);
    p.append(d.as_str());
    p.append("?len=250");
    proof {
        assert(p@ =~= book_path_spec(symbol@, prec.spec_level()));
    }
    p
}

/// The path of a funding order book at a precision level; the symbol must
/// carry the funding marker.
pub fn funding_book_path(symbol: &str, prec: BookPrecision) -> (r: Result<String, BitfinexError>)
    ensures
        r is Ok <==> symbol@.len() > 0 && symbol@[0] == 'f',
        r matches Ok(p) ==> p@ == book_path_spec(symbol@, prec.spec_level()),
        r matches Err(e) ==> e == BitfinexError::PreconditionViolation(
            PreconditionFailure::FundingSymbolRequired,
        ),
{
    if !first_char_is(symbol, 'f') {
        return Err(
            BitfinexError::PreconditionViolation(PreconditionFailure::FundingSymbolRequired),
        );
    }
    Ok(build_book_path(symbol, &prec))
}

/// The path of a raw funding order book; the symbol must carry the funding
/// marker.
pub fn funding_book_raw_path(symbol: &str) -> (r: Result<String, BitfinexError>)
    ensures
        r is Ok <==> symbol@.len() > 0 && symbol@[0] == 'f',
        r matches Ok(p) ==> p@ == raw_book_path_spec(symbol@),
        r matches Err(e) ==> e == BitfinexError::PreconditionViolation(
            PreconditionFailure::FundingSymbolRequired,
        ),
{
    if !first_char_is(symbol, 'f') {
        return Err(
            BitfinexError::PreconditionViolation(PreconditionFailure::FundingSymbolRequired),
        );
    }
    let mut p = String::from_str("book/");
    p.append(symbol);
    p.append("/R0?len=250");
    proof {
        assert(p@ =~= raw_book_path_spec(symbol@));
    }
    Ok(p)
}

/// The path of a market's trade history with its optional parameters.
pub open spec fn trades_path_spec(
    symbol: Seq<char>,
    limit: Option<u16>,
    start: Option<i64>,
    end: Option<i64>,
) -> Seq<char> {
    "trades/"@ + symbol + "/hist?sort=-1"@ + hist_params(limit, start, end)
}

fn build_trades_path(symbol: &str, limit: Option<u16>, start: Option<i64>, end: Option<i64>) -> (p:
    String)
    ensures
        p@ == trades_path_spec(symbol@, limit, start, end),
{
    let mut p = String::from_str("trades/");
    p.append(symbol);
    p.append("/hist?sort=-1");
    append_hist_params(&mut p, limit, start, end);
    proof {
        assert(p@ =~= trades_path_spec(symbol@, limit, start, end));
    }
    p
}

/// The path of a funding market's trade history; the symbol must carry the
/// funding marker.
pub fn funding_trades_path(
    symbol: &str,
    limit: Option<u16>,
    start: Option<i64>,
    end: Option<i64>,
) -> (r: Result<String, BitfinexError>)
    ensures
        r is Ok <==> symbol@.len() > 0 && symbol@[0] == 'f',
        r matches Ok(p) ==> p@ == trades_path_spec(symbol@, limit, start, end),
        r matches Err(e) ==> e == BitfinexError::PreconditionViolation(
            PreconditionFailure::FundingSymbolRequired,
        ),
{
    if !first_char_is(symbol, 'f') {
        return Err(
            BitfinexError::PreconditionViolation(PreconditionFailure::FundingSymbolRequired),
        );
    }
    Ok(build_trades_path(symbol, limit, start, end))
}

/// The path of a market's ticker: `ticker/<symbol>`.
pub open spec fn ticker_path_spec(symbol: Seq<char>) -> Seq<char> {
    "ticker/"@ + symbol
}

/// The path of a funding market's ticker; the symbol must carry the funding
/// marker.
pub fn funding_ticker_path(symbol: &str) -> (r: Result<String, BitfinexError>)
    ensures
        r is Ok <==> symbol@.len() > 0 && symbol@[0] == 'f',
        r matches Ok(p) ==> p@ == ticker_path_spec(symbol@),
        r matches Err(e) ==> e == BitfinexError::PreconditionViolation(
            PreconditionFailure::FundingSymbolRequired,
        ),
{
    if !first_char_is(symbol, 'f') {
        return Err(
            BitfinexError::PreconditionViolation(PreconditionFailure::FundingSymbolRequired),
        );
    }
    let mut p = String::from_str("ticker/");
    p.append(symbol);
    proof {
        assert(p@ =~= ticker_path_spec(symbol@));
    }
    Ok(p)
}

/// The first period of the window that aggregated candles cover: one more
/// than the distance from the aggregation width up to the period, and never
/// less than two.
pub open spec fn start_period_spec(period: int, agg: int) -> int {
    let longest = if period >= agg {
        period
    } else {
        agg
    };
    let d = longest - agg;
    (if d >= 1 {
        d
    } else {
        1
    }) + 1
}

/// The period piece of a candle path: `p<period>` alone when no aggregation
/// is asked for, else `a<agg>:p<start>:p<period>`.
pub open spec fn candle_period_segment_spec(period: u8, agg: CandleAggPeriod) -> Seq<char> {
    if agg is Nil {
        "p"@ + dec_of(period as nat)
    } else {
        "a"@ + dec_of(agg.spec_value() as nat) + ":p"@ + dec_of(
            start_period_spec(period as int, agg.spec_value()) as nat,
        ) + ":p"@ + dec_of(period as nat)
    }
}

/// Builds the period piece of a candle path, with the aggregation window and
/// computed start period when one is asked for.
pub fn candle_period_segment(period: u8, agg: &CandleAggPeriod) -> (s: String)
    ensures
        s@ == candle_period_segment_spec(period, *agg),
{
    match agg {
        CandleAggPeriod::Nil => {
            let mut s = String::from_str("p");
            let d = u64_to_dec(period as u64);
            s.append(d.as_str());
            proof {
                assert(s@ =~= candle_period_segment_spec(period, *agg));
            }
            s
        },
        _ => {
            let a = agg.as_u8();
            let longest = if period >= a {
                period
            } else {
                a
            };
            let diff = longest - a;
            let base = if diff >= 1 {
                diff
            } else {
                1
            };
            let start_period = base + 1;
            let mut s = String::from_str("a");
            let d1 = u64_to_dec(a as u64);
            s.append(d1.as_str());
            s.append(":p");
            let d2 = u64_to_dec(start_period as u64);
            s.append(d2.as_str());
            s.append(":p");
            let d3 = u64_to_dec(period as u64);
            s.append(d3.as_str());
            proof {
                assert(s@ =~= candle_period_segment_spec(period, *agg));
            }
            s
        },
    }
}

/// The path of a funding market's candles: the trade key, time frame,
/// symbol and period piece joined by colons, then the history suffix.
pub open spec fn funding_candles_path_spec(
    symbol: Seq<char>,
    period: u8,
    agg: CandleAggPeriod,
    tf: CandleTimeFrame,
    limit: Option<u16>,
    start: Option<i64>,
    end: Option<i64>,
) -> Seq<char> {
    "candles/trade:"@ + tf.spec_token() + ":"@ + symbol + ":"@ + candle_period_segment_spec(
        period,
        agg,
    ) + "/hist?sort=-1"@ + hist_params(limit, start, end)
}

/// Builds the path of a funding market's candles.  The exchange answers an
/// ill-matched period and aggregation pair with an empty result; no local
/// divisibility check is made here.
pub fn funding_candles_path(
    symbol: &str,
    period: u8,
    agg: CandleAggPeriod,
    tf: CandleTimeFrame,
    limit: Option<u16>,
    start: Option<i64>,
    end: Option<i64>,
) -> (p: String)
    ensures
        p@ == funding_candles_path_spec(symbol@, period, agg, tf, limit, start, end),
{
    let mut p = String::from_str("candles/trade:");
    p.append(tf.as_str());
    p.append(":");
    p.append(symbol);
    p.append(":");
    let seg = candle_period_segment(period, &agg);
    p.append(seg.as_str());
    p.append("/hist?sort=-1");
    append_hist_params(&mut p, limit, start, end);
    proof {
        assert(p@ =~= funding_candles_path_spec(symbol@, period, agg, tf, limit, start, end));
    }
    p
}

/// The path of the active funding credits of a symbol.
pub open spec fn funding_credits_path_spec(symbol: Seq<char>) -> Seq<char> {
    "auth/r/funding/credits/"@ + symbol
}

/// Builds the path of the active funding credits of a symbol.
pub fn funding_credits_path(symbol: &str) -> (p: String)
    ensures
        p@ == funding_credits_path_spec(symbol@),
{
    let mut p = String::from_str("auth/r/funding/credits/");
    p.append(symbol);
    proof {
        assert(p@ =~= funding_credits_path_spec(symbol@));
    }
    p
}

/// Builds the path of the funding credit history of a symbol.
pub fn funding_credits_hist_path(symbol: &str) -> (p: String)
    ensures
        p@ == funding_credits_path_spec(symbol@) + "/hist"@,
{
    let mut p = funding_credits_path(symbol);
    p.append("/hist");
    p
}

/// The path of the active funding offers of a symbol.
pub open spec fn funding_offers_path_spec(symbol: Seq<char>) -> Seq<char> {
    "auth/r/funding/offers/"@ + symbol
}

/// Builds the path of the active funding offers of a symbol.
pub fn funding_offers_path(symbol: &str) -> (p: String)
    ensures
        p@ == funding_offers_path_spec(symbol@),
{
    let mut p = String::from_str("auth/r/funding/offers/");
    p.append(symbol);
    proof {
        assert(p@ =~= funding_offers_path_spec(symbol@));
    }
    p
}

/// Builds the path of the funding offer history of a symbol.
pub fn funding_offers_hist_path(symbol: &str) -> (p: String)
    ensures
        p@ == funding_offers_path_spec(symbol@) + "/hist"@,
{
    let mut p = funding_offers_path(symbol);
    p.append("/hist");
    p
}

/// The body of a new funding offer.  Amount and rate travel as string
/// literals holding the caller's decimal text; the period must lie between
/// two and one hundred twenty days.
pub fn submit_funding_offer_payload(
    symbol: &str,
    amount: &str,
    rate: &str,
    period: u8,
    order_type: &FundingOrderType,
) -> (r: Result<String, BitfinexError>)
    ensures
        r is Ok <==> 2 <= period <= 120,
        r matches Ok(s) ==> s@ == crate::json::obj_text(
            seq![
                ("symbol"@, crate::json::json_quote(symbol@)),
                ("amount"@, crate::json::json_quote(amount@)),
                ("rate"@, crate::json::json_quote(rate@)),
                ("period"@, dec_of(period as nat)),
                ("type"@, crate::json::json_quote(order_type.spec_token())),
            ],
        ),
        r matches Err(e) ==> e == BitfinexError::PreconditionViolation(
            PreconditionFailure::PeriodOutOfRange,
        ),
{
    if period < 2 || period > 120 {
        return Err(BitfinexError::PreconditionViolation(PreconditionFailure::PeriodOutOfRange));
    }
    let mut fields: Vec<(String, crate::json::JsonScalar)> = Vec::new();
    crate::json::push_text_field(&mut fields, "symbol", symbol);
    crate::json::push_text_field(&mut fields, "amount", amount);
    crate::json::push_text_field(&mut fields, "rate", rate);
    crate::json::push_uint_field(&mut fields, "period", period as u64);
    crate::json::push_text_field(&mut fields, "type", order_type.as_str());
    let s = crate::json::obj_to_text(&fields);
    proof {
        assert(crate::json::fields_view(fields@) =~= seq![
            ("symbol"@, crate::json::json_quote(symbol@)),
            ("amount"@, crate::json::json_quote(amount@)),
            ("rate"@, crate::json::json_quote(rate@)),
            ("period"@, dec_of(period as nat)),
            ("type"@, crate::json::json_quote(order_type.spec_token())),
        ]);
    }
    Ok(s)
}

/// The body of a funding offer cancellation: the offer's identifier.
pub fn cancel_funding_offer_payload(offer_id: u64) -> (s: String)
    ensures
        s@ == crate::json::obj_text(seq![("id"@, dec_of(offer_id as nat))]),
{
    let mut fields: Vec<(String, crate::json::JsonScalar)> = Vec::new();
    crate::json::push_uint_field(&mut fields, "id", offer_id);
    let s = crate::json::obj_to_text(&fields);
    proof {
        assert(crate::json::fields_view(fields@) =~= seq![("id"@, dec_of(offer_id as nat))]);
    }
    s
}

/// The body that cancels every funding offer of the currency a symbol
/// names.  A colon-free trading symbol must carry at least four characters.
pub fn cancel_all_funding_offers_payload(symbol: &str) -> (s: String)
    requires
        (symbol@.len() > 0 && symbol@[0] == 't' && crate::text::find_from(symbol@, seq![':'], 0)
            is None) ==> symbol@.len() >= 4,
    ensures
        s@ == crate::json::obj_text(
            seq![("currency"@, crate::json::json_quote(crate::utils::ccy_of_symbol(symbol@)))],
        ),
{
    let ccy = crate::utils::parse_ccy_from_symbol(symbol);
    let mut fields: Vec<(String, crate::json::JsonScalar)> = Vec::new();
    crate::json::push_text_field(&mut fields, "currency", ccy);
    let s = crate::json::obj_to_text(&fields);
    proof {
        assert(crate::json::fields_view(fields@) =~= seq![
            ("currency"@, crate::json::json_quote(crate::utils::ccy_of_symbol(symbol@))),
        ]);
    }
    s
}

/// Builds the candle path of the default chart setup: a thirty-day period
/// aggregated in thirty-day windows over thirty-minute bars.
pub fn funding_candles_default_path(symbol: &str) -> (p: String)
    ensures
        p@ == funding_candles_path_spec(
            symbol@,
            30,
            CandleAggPeriod::A30,
            CandleTimeFrame::Min30,
            None,
            None,
            None,
        ),
{
    funding_candles_path(symbol, 30, CandleAggPeriod::A30, CandleTimeFrame::Min30, None, None, None)
}

/// One funding trade: its identifier, time, and the amount, rate and period
/// of the match.
#[derive(Debug, PartialEq, Eq)]
pub struct FundingTrade {
    pub id: u64,
    pub created: i64,
    pub amount: String,
    pub rate: String,
    pub period: u8,
}

/// The funding trade row schema.
pub open spec fn funding_trade_schema_spec() -> Seq<crate::codec::FieldSpec> {
    seq![
        crate::codec::s_req(crate::codec::FieldKind::UIntMax(0xffff_ffff_ffff_ffffu64)),
        crate::codec::s_req(crate::codec::FieldKind::TimeMs),
        crate::codec::s_req(crate::codec::FieldKind::NumText),
        crate::codec::s_req(crate::codec::FieldKind::NumText),
        crate::codec::s_req(crate::codec::FieldKind::UIntMax(255)),
    ]
}

/// True when the decoded fields of a funding trade row carry exactly this
/// record.
pub open spec fn funding_trade_matches(
    fvs: Seq<crate::codec::FieldValue>,
    t: FundingTrade,
) -> bool {
    &&& fvs.len() == 5
    &&& fvs[0] == crate::codec::FieldValue::UInt(t.id)
    &&& fvs[1] == crate::codec::FieldValue::Time(t.created)
    &&& fvs[2] == crate::codec::FieldValue::Num(t.amount)
    &&& fvs[3] == crate::codec::FieldValue::Num(t.rate)
    &&& fvs[4] == crate::codec::FieldValue::UInt(t.period as u64)
}

/// Decodes one funding trade row from its wire array.
pub fn funding_trade_from_json(v: &crate::json::JsonValue) -> (r: Result<
    FundingTrade,
    BitfinexError,
>)
    ensures
        (match *v {
            crate::json::JsonValue::Arr(items) => match crate::codec::decode_fields_spec(
                items@,
                funding_trade_schema_spec(),
            ) {
                Ok(fvs) => r matches Ok(t) && funding_trade_matches(fvs, t),
                Err(e) => r == Err::<FundingTrade, BitfinexError>(BitfinexError::DecodeError(e)),
            },
            _ => r == Err::<FundingTrade, BitfinexError>(
                BitfinexError::DecodeError(crate::error::DecodeFailure::NotArray),
            ),
        }),
{
    match v {
        crate::json::JsonValue::Arr(items) => {
            let mut schema: Vec<crate::codec::FieldSpec> = Vec::new();
            schema.push(crate::codec::req(crate::codec::FieldKind::UIntMax(0xffff_ffff_ffff_ffffu64)));
            schema.push(crate::codec::req(crate::codec::FieldKind::TimeMs));
            schema.push(crate::codec::req(crate::codec::FieldKind::NumText));
            schema.push(crate::codec::req(crate::codec::FieldKind::NumText));
            schema.push(crate::codec::req(crate::codec::FieldKind::UIntMax(255)));
            proof {
                assert(schema@ =~= funding_trade_schema_spec());
            }
            match crate::codec::decode_fields(items, &schema) {
                Err(e) => Err(BitfinexError::DecodeError(e)),
                Ok(fvs) => {
                    proof {
                        reveal_with_fuel(crate::codec::decode_fields_from, 7);
                        assert(fvs@.len() == 5);
                        assert(fvs@[0] is UInt);
                        assert(fvs@[1] is Time);
                        assert(fvs@[2] is Num);
                        assert(fvs@[3] is Num);
                        assert(fvs@[4] matches crate::codec::FieldValue::UInt(p) && p <= 255);
                    }
                    let period64 = crate::codec::take_u64(&fvs[4]);
                    Ok(
                        FundingTrade {
                            id: crate::codec::take_u64(&fvs[0]),
                            created: crate::codec::take_time(&fvs[1]),
                            amount: crate::codec::take_num(&fvs[2]),
                            rate: crate::codec::take_num(&fvs[3]),
                            period: period64 as u8,
                        },
                    )
                },
            }
        },
        _ => Err(BitfinexError::DecodeError(crate::error::DecodeFailure::NotArray)),
    }
}

/// One funding book level: the rate, period, order count and amount.
#[derive(Debug, PartialEq, Eq)]
pub struct FundingBook {
    pub rate: String,
    pub period: u8,
    pub count: u64,
    pub amount: String,
}

/// The funding book level schema.
pub open spec fn funding_book_schema_spec() -> Seq<crate::codec::FieldSpec> {
    seq![
        crate::codec::s_req(crate::codec::FieldKind::NumText),
        crate::codec::s_req(crate::codec::FieldKind::UIntMax(255)),
        crate::codec::s_req(crate::codec::FieldKind::UIntMax(65535)),
        crate::codec::s_req(crate::codec::FieldKind::NumText),
    ]
}

/// True when the decoded fields of a funding book level carry exactly this
/// record.
pub open spec fn funding_book_matches(fvs: Seq<crate::codec::FieldValue>, b: FundingBook) -> bool {
    &&& fvs.len() == 4
    &&& fvs[0] == crate::codec::FieldValue::Num(b.rate)
    &&& fvs[1] == crate::codec::FieldValue::UInt(b.period as u64)
    &&& fvs[2] == crate::codec::FieldValue::UInt(b.count)
    &&& fvs[3] == crate::codec::FieldValue::Num(b.amount)
}

/// Decodes one funding book level from its wire array.
pub fn funding_book_from_json(v: &crate::json::JsonValue) -> (r: Result<
    FundingBook,
    BitfinexError,
>)
    ensures
        (match *v {
            crate::json::JsonValue::Arr(items) => match crate::codec::decode_fields_spec(
                items@,
                funding_book_schema_spec(),
            ) {
                Ok(fvs) => r matches Ok(b) && funding_book_matches(fvs, b),
                Err(e) => r == Err::<FundingBook, BitfinexError>(BitfinexError::DecodeError(e)),
            },
            _ => r == Err::<FundingBook, BitfinexError>(
                BitfinexError::DecodeError(crate::error::DecodeFailure::NotArray),
            ),
        }),
{
    match v {
        crate::json::JsonValue::Arr(items) => {
            let mut schema: Vec<crate::codec::FieldSpec> = Vec::new();
            schema.push(crate::codec::req(crate::codec::FieldKind::NumText));
            schema.push(crate::codec::req(crate::codec::FieldKind::UIntMax(255)));
            schema.push(crate::codec::req(crate::codec::FieldKind::UIntMax(65535)));
            schema.push(crate::codec::req(crate::codec::FieldKind::NumText));
            proof {
                assert(schema@ =~= funding_book_schema_spec());
            }
            match crate::codec::decode_fields(items, &schema) {
                Err(e) => Err(BitfinexError::DecodeError(e)),
                Ok(fvs) => {
                    proof {
                        reveal_with_fuel(crate::codec::decode_fields_from, 6);
                        assert(fvs@.len() == 4);
                        assert(fvs@[0] is Num);
                        assert(fvs@[1] matches crate::codec::FieldValue::UInt(p) && p <= 255);
                        assert(fvs@[2] is UInt);
                        assert(fvs@[3] is Num);
                    }
                    let period64 = crate::codec::take_u64(&fvs[1]);
                    Ok(
                        FundingBook {
                            rate: crate::codec::take_num(&fvs[0]),
                            period: period64 as u8,
                            count: crate::codec::take_u64(&fvs[2]),
                            amount: crate::codec::take_num(&fvs[3]),
                        },
                    )
                },
            }
        },
        _ => Err(BitfinexError::DecodeError(crate::error::DecodeFailure::NotArray)),
    }
}

/// One raw funding book entry: the offer's identifier, period, rate and
/// amount.
#[derive(Debug, PartialEq, Eq)]
pub struct FundingBookRaw {
    pub id: u64,
    pub period: u8,
    pub rate: String,
    pub amount: String,
}

/// The raw funding book entry schema.
pub open spec fn funding_book_raw_schema_spec() -> Seq<crate::codec::FieldSpec> {
    seq![
        crate::codec::s_req(crate::codec::FieldKind::UIntMax(0xffff_ffff_ffff_ffffu64)),
        crate::codec::s_req(crate::codec::FieldKind::UIntMax(255)),
        crate::codec::s_req(crate::codec::FieldKind::NumText),
        crate::codec::s_req(crate::codec::FieldKind::NumText),
    ]
}

/// True when the decoded fields of a raw funding book entry carry exactly
/// this record.
pub open spec fn funding_book_raw_matches(
    fvs: Seq<crate::codec::FieldValue>,
    b: FundingBookRaw,
) -> bool {
    &&& fvs.len() == 4
    &&& fvs[0] == crate::codec::FieldValue::UInt(b.id)
    &&& fvs[1] == crate::codec::FieldValue::UInt(b.period as u64)
    &&& fvs[2] == crate::codec::FieldValue::Num(b.rate)
    &&& fvs[3] == crate::codec::FieldValue::Num(b.amount)
}

/// Decodes one raw funding book entry from its wire array.
pub fn funding_book_raw_from_json(v: &crate::json::JsonValue) -> (r: Result<
    FundingBookRaw,
    BitfinexError,
>)
    ensures
        (match *v {
            crate::json::JsonValue::Arr(items) => match crate::codec::decode_fields_spec(
                items@,
                funding_book_raw_schema_spec(),
            ) {
                Ok(fvs) => r matches Ok(b) && funding_book_raw_matches(fvs, b),
                Err(e) => r == Err::<FundingBookRaw, BitfinexError>(BitfinexError::DecodeError(e)),
            },
            _ => r == Err::<FundingBookRaw, BitfinexError>(
                BitfinexError::DecodeError(crate::error::DecodeFailure::NotArray),
            ),
        }),
{
    match v {
        crate::json::JsonValue::Arr(items) => {
            let mut schema: Vec<crate::codec::FieldSpec> = Vec::new();
            schema.push(crate::codec::req(crate::codec::FieldKind::UIntMax(0xffff_ffff_ffff_ffffu64)));
            schema.push(crate::codec::req(crate::codec::FieldKind::UIntMax(255)));
            schema.push(crate::codec::req(crate::codec::FieldKind::NumText));
            schema.push(crate::codec::req(crate::codec::FieldKind::NumText));
            proof {
                assert(schema@ =~= funding_book_raw_schema_spec());
            }
            match crate::codec::decode_fields(items, &schema) {
                Err(e) => Err(BitfinexError::DecodeError(e)),
                Ok(fvs) => {
                    proof {
                        reveal_with_fuel(crate::codec::decode_fields_from, 6);
                        assert(fvs@.len() == 4);
                        assert(fvs@[0] is UInt);
                        assert(fvs@[1] matches crate::codec::FieldValue::UInt(p) && p <= 255);
                        assert(fvs@[2] is Num);
                        assert(fvs@[3] is Num);
                    }
                    let period64 = crate::codec::take_u64(&fvs[1]);
                    Ok(
                        FundingBookRaw {
                            id: crate::codec::take_u64(&fvs[0]),
                            period: period64 as u8,
                            rate: crate::codec::take_num(&fvs[2]),
                            amount: crate::codec::take_num(&fvs[3]),
                        },
                    )
                },
            }
        },
        _ => Err(BitfinexError::DecodeError(crate::error::DecodeFailure::NotArray)),
    }
}

/// True when a wire element decodes to this raw funding book entry.
pub open spec fn funding_book_raw_elem_ok(jv: crate::json::JsonValue, b: FundingBookRaw) -> bool {
    match jv {
        crate::json::JsonValue::Arr(fields) => match crate::codec::decode_fields_spec(
            fields@,
            funding_book_raw_schema_spec(),
        ) {
            Ok(fvs) => funding_book_raw_matches(fvs, b),
            Err(_) => false,
        },
        _ => false,
    }
}

/// True when a wire element cannot decode as a raw funding book entry.
pub open spec fn funding_book_raw_elem_fails(jv: crate::json::JsonValue) -> bool {
    match jv {
        crate::json::JsonValue::Arr(fields) => crate::codec::decode_fields_spec(
            fields@,
            funding_book_raw_schema_spec(),
        ) is Err,
        _ => true,
    }
}

/// Decodes a raw funding book from its wire array of entries.
#[verifier::loop_isolation(false)]
pub fn funding_books_raw_from_json(v: &crate::json::JsonValue) -> (r: Result<
    Vec<FundingBookRaw>,
    BitfinexError,
>)
    ensures
        (match *v {
            crate::json::JsonValue::Arr(items) => (match r {
                Ok(bs) => bs@.len() == items@.len() && forall|i: int|
                    0 <= i < items@.len() ==> funding_book_raw_elem_ok(items@[i], bs@[i]),
                Err(e) => e matches BitfinexError::DecodeError(_) && exists|i: int|
                    0 <= i < items@.len() && funding_book_raw_elem_fails(items@[i]),
            }),
            _ => r == Err::<Vec<FundingBookRaw>, BitfinexError>(
                BitfinexError::DecodeError(crate::error::DecodeFailure::NotArray),
            ),
        }),
{
    match v {
        crate::json::JsonValue::Arr(items) => {
            let n = items.len();
            let mut out: Vec<FundingBookRaw> = Vec::new();
            for i in 0..n
                invariant
                    n == items@.len(),
                    out@.len() == i,
                    forall|j: int| 0 <= j < i ==> funding_book_raw_elem_ok(items@[j], out@[j]),
            {
                match funding_book_raw_from_json(&items[i]) {
                    Ok(b) => {
                        out.push(b);
                    },
                    Err(e) => {
                        proof {
                            assert(funding_book_raw_elem_fails(items@[i as int]));
                        }
                        return Err(e);
                    },
                }
            }
            Ok(out)
        },
        _ => Err(BitfinexError::DecodeError(crate::error::DecodeFailure::NotArray)),
    }
}

/// The funding ticker: the flash return rate, the best bid and ask with
/// their periods and sizes, and the daily numbers; all rates and amounts
/// keep the wire's decimal text.
#[derive(Debug, PartialEq, Eq)]
pub struct FundingTicker {
    pub frr: String,
    pub bid: String,
    pub bid_period: u8,
    pub bid_size: String,
    pub ask: String,
    pub ask_period: u8,
    pub ask_size: String,
    pub daily_change: String,
    pub daily_change_perc: String,
    pub last_price: String,
    pub volume: String,
    pub high: String,
    pub low: String,
    pub frr_amount_available: String,
}

/// The funding ticker schema: thirteen numbers with the two periods, two
/// reserved slots, then the available flash-return amount.
pub open spec fn funding_ticker_schema_spec() -> Seq<crate::codec::FieldSpec> {
    seq![
        crate::codec::s_req(crate::codec::FieldKind::NumText),
        crate::codec::s_req(crate::codec::FieldKind::NumText),
        crate::codec::s_req(crate::codec::FieldKind::UIntMax(255)),
        crate::codec::s_req(crate::codec::FieldKind::NumText),
        crate::codec::s_req(crate::codec::FieldKind::NumText),
        crate::codec::s_req(crate::codec::FieldKind::UIntMax(255)),
        crate::codec::s_req(crate::codec::FieldKind::NumText),
        crate::codec::s_req(crate::codec::FieldKind::NumText),
        crate::codec::s_req(crate::codec::FieldKind::NumText),
        crate::codec::s_req(crate::codec::FieldKind::NumText),
        crate::codec::s_req(crate::codec::FieldKind::NumText),
        crate::codec::s_req(crate::codec::FieldKind::NumText),
        crate::codec::s_req(crate::codec::FieldKind::NumText),
        crate::codec::s_res(),
        crate::codec::s_res(),
        crate::codec::s_req(crate::codec::FieldKind::NumText),
    ]
}

/// True when the decoded fields of the funding ticker carry exactly this
/// record.
pub open spec fn funding_ticker_matches(
    fvs: Seq<crate::codec::FieldValue>,
    t: FundingTicker,
) -> bool {
    &&& fvs.len() == 14
    &&& fvs[0] == crate::codec::FieldValue::Num(t.frr)
    &&& fvs[1] == crate::codec::FieldValue::Num(t.bid)
    &&& fvs[2] == crate::codec::FieldValue::UInt(t.bid_period as u64)
    &&& fvs[3] == crate::codec::FieldValue::Num(t.bid_size)
    &&& fvs[4] == crate::codec::FieldValue::Num(t.ask)
    &&& fvs[5] == crate::codec::FieldValue::UInt(t.ask_period as u64)
    &&& fvs[6] == crate::codec::FieldValue::Num(t.ask_size)
    &&& fvs[7] == crate::codec::FieldValue::Num(t.daily_change)
    &&& fvs[8] == crate::codec::FieldValue::Num(t.daily_change_perc)
    &&& fvs[9] == crate::codec::FieldValue::Num(t.last_price)
    &&& fvs[10] == crate::codec::FieldValue::Num(t.volume)
    &&& fvs[11] == crate::codec::FieldValue::Num(t.high)
    &&& fvs[12] == crate::codec::FieldValue::Num(t.low)
    &&& fvs[13] == crate::codec::FieldValue::Num(t.frr_amount_available)
}

/// Decodes the funding ticker from its wire array.
#[verifier::rlimit(100)]
pub fn funding_ticker_from_json(v: &crate::json::JsonValue) -> (r: Result<
    FundingTicker,
    BitfinexError,
>)
    ensures
        (match *v {
            crate::json::JsonValue::Arr(items) => match crate::codec::decode_fields_spec(
                items@,
                funding_ticker_schema_spec(),
            ) {
                Ok(fvs) => r matches Ok(t) && funding_ticker_matches(fvs, t),
                Err(e) => r == Err::<FundingTicker, BitfinexError>(BitfinexError::DecodeError(e)),
            },
            _ => r == Err::<FundingTicker, BitfinexError>(
                BitfinexError::DecodeError(crate::error::DecodeFailure::NotArray),
            ),
        }),
{
    match v {
        crate::json::JsonValue::Arr(items) => {
            let mut schema: Vec<crate::codec::FieldSpec> = Vec::new();
            schema.push(crate::codec::req(crate::codec::FieldKind::NumText));
            schema.push(crate::codec::req(crate::codec::FieldKind::NumText));
            schema.push(crate::codec::req(crate::codec::FieldKind::UIntMax(255)));
            schema.push(crate::codec::req(crate::codec::FieldKind::NumText));
            schema.push(crate::codec::req(crate::codec::FieldKind::NumText));
            schema.push(crate::codec::req(crate::codec::FieldKind::UIntMax(255)));
            schema.push(crate::codec::req(crate::codec::FieldKind::NumText));
            schema.push(crate::codec::req(crate::codec::FieldKind::NumText));
            schema.push(crate::codec::req(crate::codec::FieldKind::NumText));
            schema.push(crate::codec::req(crate::codec::FieldKind::NumText));
            schema.push(crate::codec::req(crate::codec::FieldKind::NumText));
            schema.push(crate::codec::req(crate::codec::FieldKind::NumText));
            schema.push(crate::codec::req(crate::codec::FieldKind::NumText));
            schema.push(crate::codec::res());
            schema.push(crate::codec::res());
            schema.push(crate::codec::req(crate::codec::FieldKind::NumText));
            proof {
                assert(schema@ =~= funding_ticker_schema_spec());
            }
            match crate::codec::decode_fields(items, &schema) {
                Err(e) => Err(BitfinexError::DecodeError(e)),
                Ok(fvs) => {
                    proof {
                        reveal_with_fuel(crate::codec::decode_fields_from, 18);
                        assert(fvs@.len() == 14);
                        assert(fvs@[0] is Num);
                        assert(fvs@[1] is Num);
                        assert(fvs@[2] matches crate::codec::FieldValue::UInt(p) && p <= 255);
                        assert(fvs@[3] is Num);
                        assert(fvs@[4] is Num);
                        assert(fvs@[5] matches crate::codec::FieldValue::UInt(p) && p <= 255);
                        assert(fvs@[6] is Num);
                        assert(fvs@[7] is Num);
                        assert(fvs@[8] is Num);
                        assert(fvs@[9] is Num);
                        assert(fvs@[10] is Num);
                        assert(fvs@[11] is Num);
                        assert(fvs@[12] is Num);
                        assert(fvs@[13] is Num);
                    }
                    let bid_period64 = crate::codec::take_u64(&fvs[2]);
                    let ask_period64 = crate::codec::take_u64(&fvs[5]);
                    Ok(
                        FundingTicker {
                            frr: crate::codec::take_num(&fvs[0]),
                            bid: crate::codec::take_num(&fvs[1]),
                            bid_period: bid_period64 as u8,
                            bid_size: crate::codec::take_num(&fvs[3]),
                            ask: crate::codec::take_num(&fvs[4]),
                            ask_period: ask_period64 as u8,
                            ask_size: crate::codec::take_num(&fvs[6]),
                            daily_change: crate::codec::take_num(&fvs[7]),
                            daily_change_perc: crate::codec::take_num(&fvs[8]),
                            last_price: crate::codec::take_num(&fvs[9]),
                            volume: crate::codec::take_num(&fvs[10]),
                            high: crate::codec::take_num(&fvs[11]),
                            low: crate::codec::take_num(&fvs[12]),
                            frr_amount_available: crate::codec::take_num(&fvs[13]),
                        },
                    )
                },
            }
        },
        _ => Err(BitfinexError::DecodeError(crate::error::DecodeFailure::NotArray)),
    }
}

/// One funding credit: funds in use in a position; the amount and rate keep
/// the wire's decimal text.
#[derive(Debug, PartialEq, Eq)]
pub struct FundingCredit {
    pub id: u64,
    pub symbol: String,
    /// One for the lender, zero for both sides, minus one for the borrower.
    pub side: i64,
    pub created: i64,
    pub updated: i64,
    pub amount: String,
    pub status: String,
    pub rate_type: String,
    pub rate: String,
    pub period: u8,
    pub opened: i64,
    pub last_payout: i64,
    pub notify: Option<bool>,
    pub hidden: bool,
    pub renew: bool,
    pub no_close: bool,
    pub pair: String,
}

/// The funding credit row schema.
pub open spec fn funding_credit_schema_spec() -> Seq<crate::codec::FieldSpec> {
    seq![
        crate::codec::s_req(crate::codec::FieldKind::UIntMax(0xffff_ffff_ffff_ffffu64)),
        crate::codec::s_req(crate::codec::FieldKind::Str),
        crate::codec::s_req(crate::codec::FieldKind::IntRange(-1i64, 1i64)),
        crate::codec::s_req(crate::codec::FieldKind::TimeMs),
        crate::codec::s_req(crate::codec::FieldKind::TimeMs),
        crate::codec::s_req(crate::codec::FieldKind::NumText),
        crate::codec::s_res(),
        crate::codec::s_req(crate::codec::FieldKind::Str),
        crate::codec::s_req(crate::codec::FieldKind::Str),
        crate::codec::s_res(),
        crate::codec::s_res(),
        crate::codec::s_req(crate::codec::FieldKind::NumText),
        crate::codec::s_req(crate::codec::FieldKind::UIntMax(255)),
        crate::codec::s_req(crate::codec::FieldKind::TimeMs),
        crate::codec::s_req(crate::codec::FieldKind::TimeMs),
        crate::codec::s_opt(crate::codec::FieldKind::Bool),
        crate::codec::s_req(crate::codec::FieldKind::Bool),
        crate::codec::s_res(),
        crate::codec::s_req(crate::codec::FieldKind::Bool),
        crate::codec::s_res(),
        crate::codec::s_req(crate::codec::FieldKind::Bool),
        crate::codec::s_req(crate::codec::FieldKind::Str),
    ]
}

/// The decoded form an optional boolean field must take.
pub open spec fn opt_bool_field_value(v: Option<bool>) -> crate::codec::FieldValue {
    match v {
        Some(b) => crate::codec::FieldValue::Bool(b),
        None => crate::codec::FieldValue::Null,
    }
}

/// True when the decoded fields of a funding credit row carry exactly this
/// record.
pub open spec fn funding_credit_matches(
    fvs: Seq<crate::codec::FieldValue>,
    c: FundingCredit,
) -> bool {
    &&& fvs.len() == 17
    &&& fvs[0] == crate::codec::FieldValue::UInt(c.id)
    &&& fvs[1] == crate::codec::FieldValue::Text(c.symbol)
    &&& fvs[2] == crate::codec::FieldValue::Int(c.side)
    &&& fvs[3] == crate::codec::FieldValue::Time(c.created)
    &&& fvs[4] == crate::codec::FieldValue::Time(c.updated)
    &&& fvs[5] == crate::codec::FieldValue::Num(c.amount)
    &&& fvs[6] == crate::codec::FieldValue::Text(c.status)
    &&& fvs[7] == crate::codec::FieldValue::Text(c.rate_type)
    &&& fvs[8] == crate::codec::FieldValue::Num(c.rate)
    &&& fvs[9] == crate::codec::FieldValue::UInt(c.period as u64)
    &&& fvs[10] == crate::codec::FieldValue::Time(c.opened)
    &&& fvs[11] == crate::codec::FieldValue::Time(c.last_payout)
    &&& fvs[12] == opt_bool_field_value(c.notify)
    &&& fvs[13] == crate::codec::FieldValue::Bool(c.hidden)
    &&& fvs[14] == crate::codec::FieldValue::Bool(c.renew)
    &&& fvs[15] == crate::codec::FieldValue::Bool(c.no_close)
    &&& fvs[16] == crate::codec::FieldValue::Text(c.pair)
}

/// The boolean a decoded optional boolean field holds, if present.
fn take_opt_bool(fv: &crate::codec::FieldValue) -> (r: Option<bool>)
    requires
        fv is Bool || fv is Null,
    ensures
        *fv == opt_bool_field_value(r),
{
    match fv {
        crate::codec::FieldValue::Bool(b) => Some(*b),
        crate::codec::FieldValue::Null => None,
        _ => vstd::pervasive::unreached(),
    }
}

/// Decodes one funding credit row from its wire array.
#[verifier::rlimit(100)]
pub fn funding_credit_from_json(v: &crate::json::JsonValue) -> (r: Result<
    FundingCredit,
    BitfinexError,
>)
    ensures
        (match *v {
            crate::json::JsonValue::Arr(items) => match crate::codec::decode_fields_spec(
                items@,
                funding_credit_schema_spec(),
            ) {
                Ok(fvs) => r matches Ok(c) && funding_credit_matches(fvs, c),
                Err(e) => r == Err::<FundingCredit, BitfinexError>(BitfinexError::DecodeError(e)),
            },
            _ => r == Err::<FundingCredit, BitfinexError>(
                BitfinexError::DecodeError(crate::error::DecodeFailure::NotArray),
            ),
        }),
{
    match v {
        crate::json::JsonValue::Arr(items) => {
            let mut schema: Vec<crate::codec::FieldSpec> = Vec::new();
            schema.push(crate::codec::req(crate::codec::FieldKind::UIntMax(0xffff_ffff_ffff_ffffu64)));
            schema.push(crate::codec::req(crate::codec::FieldKind::Str));
            schema.push(crate::codec::req(crate::codec::FieldKind::IntRange(-1i64, 1i64)));
            schema.push(crate::codec::req(crate::codec::FieldKind::TimeMs));
            schema.push(crate::codec::req(crate::codec::FieldKind::TimeMs));
            schema.push(crate::codec::req(crate::codec::FieldKind::NumText));
            schema.push(crate::codec::res());
            schema.push(crate::codec::req(crate::codec::FieldKind::Str));
            schema.push(crate::codec::req(crate::codec::FieldKind::Str));
            schema.push(crate::codec::res());
            schema.push(crate::codec::res());
            schema.push(crate::codec::req(crate::codec::FieldKind::NumText));
            schema.push(crate::codec::req(crate::codec::FieldKind::UIntMax(255)));
            schema.push(crate::codec::req(crate::codec::FieldKind::TimeMs));
            schema.push(crate::codec::req(crate::codec::FieldKind::TimeMs));
            schema.push(crate::codec::opt(crate::codec::FieldKind::Bool));
            schema.push(crate::codec::req(crate::codec::FieldKind::Bool));
            schema.push(crate::codec::res());
            schema.push(crate::codec::req(crate::codec::FieldKind::Bool));
            schema.push(crate::codec::res());
            schema.push(crate::codec::req(crate::codec::FieldKind::Bool));
            schema.push(crate::codec::req(crate::codec::FieldKind::Str));
            proof {
                assert(schema@ =~= funding_credit_schema_spec());
            }
            match crate::codec::decode_fields(items, &schema) {
                Err(e) => Err(BitfinexError::DecodeError(e)),
                Ok(fvs) => {
                    proof {
                        reveal_with_fuel(crate::codec::decode_fields_from, 24);
                        assert(fvs@.len() == 17);
                        assert(fvs@[0] is UInt);
                        assert(fvs@[1] is Text);
                        assert(fvs@[2] is Int);
                        assert(fvs@[3] is Time);
                        assert(fvs@[4] is Time);
                        assert(fvs@[5] is Num);
                        assert(fvs@[6] is Text);
                        assert(fvs@[7] is Text);
                        assert(fvs@[8] is Num);
                        assert(fvs@[9] matches crate::codec::FieldValue::UInt(p) && p <= 255);
                        assert(fvs@[10] is Time);
                        assert(fvs@[11] is Time);
                        assert(fvs@[12] is Bool || fvs@[12] is Null);
                        assert(fvs@[13] is Bool);
                        assert(fvs@[14] is Bool);
                        assert(fvs@[15] is Bool);
                        assert(fvs@[16] is Text);
                    }
                    let period64 = crate::codec::take_u64(&fvs[9]);
                    let c = FundingCredit {
                        id: crate::codec::take_u64(&fvs[0]),
                        symbol: crate::codec::take_text(&fvs[1]),
                        side: crate::codec::take_int(&fvs[2]),
                        created: crate::codec::take_time(&fvs[3]),
                        updated: crate::codec::take_time(&fvs[4]),
                        amount: crate::codec::take_num(&fvs[5]),
                        status: crate::codec::take_text(&fvs[6]),
                        rate_type: crate::codec::take_text(&fvs[7]),
                        rate: crate::codec::take_num(&fvs[8]),
                        period: period64 as u8,
                        opened: crate::codec::take_time(&fvs[10]),
                        last_payout: crate::codec::take_time(&fvs[11]),
                        notify: take_opt_bool(&fvs[12]),
                        hidden: crate::codec::take_bool(&fvs[13]),
                        renew: crate::codec::take_bool(&fvs[14]),
                        no_close: crate::codec::take_bool(&fvs[15]),
                        pair: crate::codec::take_text(&fvs[16]),
                    };
                    Ok(c)
                },
            }
        },
        _ => Err(BitfinexError::DecodeError(crate::error::DecodeFailure::NotArray)),
    }
}

/// One candle: its time and the five numbers of the bar, carried as the
/// wire's decimal text.
#[derive(Debug, PartialEq, Eq)]
pub struct Candle {
    pub time: i64,
    pub open: String,
    pub close: String,
    pub high: String,
    pub low: String,
    pub volume: String,
}

/// The candle row schema: the time and five numbers.
pub open spec fn candle_schema_spec() -> Seq<crate::codec::FieldSpec> {
    seq![
        crate::codec::s_req(crate::codec::FieldKind::TimeMs),
        crate::codec::s_req(crate::codec::FieldKind::NumText),
        crate::codec::s_req(crate::codec::FieldKind::NumText),
        crate::codec::s_req(crate::codec::FieldKind::NumText),
        crate::codec::s_req(crate::codec::FieldKind::NumText),
        crate::codec::s_req(crate::codec::FieldKind::NumText),
    ]
}

/// True when the decoded fields of a candle row carry exactly this record.
pub open spec fn candle_matches(fvs: Seq<crate::codec::FieldValue>, c: Candle) -> bool {
    &&& fvs.len() == 6
    &&& fvs[0] == crate::codec::FieldValue::Time(c.time)
    &&& fvs[1] == crate::codec::FieldValue::Num(c.open)
    &&& fvs[2] == crate::codec::FieldValue::Num(c.close)
    &&& fvs[3] == crate::codec::FieldValue::Num(c.high)
    &&& fvs[4] == crate::codec::FieldValue::Num(c.low)
    &&& fvs[5] == crate::codec::FieldValue::Num(c.volume)
}

/// Decodes one candle row from its wire array.
pub fn candle_from_json(v: &crate::json::JsonValue) -> (r: Result<Candle, BitfinexError>)
    ensures
        (match *v {
            crate::json::JsonValue::Arr(items) => match crate::codec::decode_fields_spec(
                items@,
                candle_schema_spec(),
            ) {
                Ok(fvs) => r matches Ok(c) && candle_matches(fvs, c),
                Err(e) => r == Err::<Candle, BitfinexError>(BitfinexError::DecodeError(e)),
            },
            _ => r == Err::<Candle, BitfinexError>(
                BitfinexError::DecodeError(crate::error::DecodeFailure::NotArray),
            ),
        }),
{
    match v {
        crate::json::JsonValue::Arr(items) => {
            let mut schema: Vec<crate::codec::FieldSpec> = Vec::new();
            schema.push(crate::codec::req(crate::codec::FieldKind::TimeMs));
            schema.push(crate::codec::req(crate::codec::FieldKind::NumText));
            schema.push(crate::codec::req(crate::codec::FieldKind::NumText));
            schema.push(crate::codec::req(crate::codec::FieldKind::NumText));
            schema.push(crate::codec::req(crate::codec::FieldKind::NumText));
            schema.push(crate::codec::req(crate::codec::FieldKind::NumText));
            proof {
                assert(schema@ =~= candle_schema_spec());
            }
            match crate::codec::decode_fields(items, &schema) {
                Err(e) => Err(BitfinexError::DecodeError(e)),
                Ok(fvs) => {
                    proof {
                        reveal_with_fuel(crate::codec::decode_fields_from, 8);
                        assert(fvs@.len() == 6);
                        assert(fvs@[0] is Time);
                        assert(fvs@[1] is Num);
                        assert(fvs@[2] is Num);
                        assert(fvs@[3] is Num);
                        assert(fvs@[4] is Num);
                        assert(fvs@[5] is Num);
                    }
                    Ok(
                        Candle {
                            time: crate::codec::take_time(&fvs[0]),
                            open: crate::codec::take_num(&fvs[1]),
                            close: crate::codec::take_num(&fvs[2]),
                            high: crate::codec::take_num(&fvs[3]),
                            low: crate::codec::take_num(&fvs[4]),
                            volume: crate::codec::take_num(&fvs[5]),
                        },
                    )
                },
            }
        },
        _ => Err(BitfinexError::DecodeError(crate::error::DecodeFailure::NotArray)),
    }
}

/// True when a wire element decodes to this candle row.
pub open spec fn candle_elem_ok(jv: crate::json::JsonValue, c: Candle) -> bool {
    match jv {
        crate::json::JsonValue::Arr(fields) => match crate::codec::decode_fields_spec(
            fields@,
            candle_schema_spec(),
        ) {
            Ok(fvs) => candle_matches(fvs, c),
            Err(_) => false,
        },
        _ => false,
    }
}

/// True when a wire element cannot decode as a candle row.
pub open spec fn candle_elem_fails(jv: crate::json::JsonValue) -> bool {
    match jv {
        crate::json::JsonValue::Arr(fields) => crate::codec::decode_fields_spec(
            fields@,
            candle_schema_spec(),
        ) is Err,
        _ => true,
    }
}

/// Decodes a candle list from its wire array of rows.
#[verifier::loop_isolation(false)]
pub fn candles_from_json(v: &crate::json::JsonValue) -> (r: Result<Vec<Candle>, BitfinexError>)
    ensures
        (match *v {
            crate::json::JsonValue::Arr(items) => (match r {
                Ok(cs) => cs@.len() == items@.len() && forall|i: int|
                    0 <= i < items@.len() ==> candle_elem_ok(items@[i], cs@[i]),
                Err(e) => e matches BitfinexError::DecodeError(_) && exists|i: int|
                    0 <= i < items@.len() && candle_elem_fails(items@[i]),
            }),
            _ => r == Err::<Vec<Candle>, BitfinexError>(
                BitfinexError::DecodeError(crate::error::DecodeFailure::NotArray),
            ),
        }),
{
    match v {
        crate::json::JsonValue::Arr(items) => {
            let n = items.len();
            let mut out: Vec<Candle> = Vec::new();
            for i in 0..n
                invariant
                    n == items@.len(),
                    out@.len() == i,
                    forall|j: int| 0 <= j < i ==> candle_elem_ok(items@[j], out@[j]),
            {
                match candle_from_json(&items[i]) {
                    Ok(c) => {
                        out.push(c);
                    },
                    Err(e) => {
                        proof {
                            assert(candle_elem_fails(items@[i as int]));
                        }
                        return Err(e);
                    },
                }
            }
            Ok(out)
        },
        _ => Err(BitfinexError::DecodeError(crate::error::DecodeFailure::NotArray)),
    }
}

/// Decodes the candle list a response body carries.
pub fn candles_from_body(body: &str) -> (r: Result<Vec<Candle>, BitfinexError>)
    ensures
        (match crate::json::json_of(body@) {
            None => r == Err::<Vec<Candle>, BitfinexError>(
                BitfinexError::DecodeError(crate::error::DecodeFailure::BadJson),
            ),
            Some(v) => (match v {
                crate::json::JsonValue::Arr(items) => (match r {
                    Ok(cs) => cs@.len() == items@.len() && forall|i: int|
                        0 <= i < items@.len() ==> candle_elem_ok(items@[i], cs@[i]),
                    Err(e) => e matches BitfinexError::DecodeError(_) && exists|i: int|
                        0 <= i < items@.len() && candle_elem_fails(items@[i]),
                }),
                _ => r == Err::<Vec<Candle>, BitfinexError>(
                    BitfinexError::DecodeError(crate::error::DecodeFailure::NotArray),
                ),
            }),
        }),
{
    match crate::json::parse_json(body) {
        None => Err(BitfinexError::DecodeError(crate::error::DecodeFailure::BadJson)),
        Some(v) => candles_from_json(&v),
    }
}

/// One funding offer row; amounts and the rate keep the wire's decimal
/// text, and the wire row intersperses eight reserved slots.
#[derive(Debug, PartialEq, Eq)]
pub struct FundingOffer {
    pub id: u64,
    pub symbol: String,
    pub created: i64,
    pub updated: i64,
    pub amount: String,
    pub amount_ori: String,
    pub rate_type: String,
    pub status: String,
    pub rate: String,
    pub period: u8,
    pub notify: Option<u8>,
    pub hidden: Option<u8>,
    pub renew: Option<u8>,
}

/// The funding offer row schema.
pub open spec fn funding_offer_schema_spec() -> Seq<crate::codec::FieldSpec> {
    seq![
        crate::codec::s_req(crate::codec::FieldKind::UIntMax(0xffff_ffff_ffff_ffffu64)),
        crate::codec::s_req(crate::codec::FieldKind::Str),
        crate::codec::s_req(crate::codec::FieldKind::TimeMs),
        crate::codec::s_req(crate::codec::FieldKind::TimeMs),
        crate::codec::s_req(crate::codec::FieldKind::NumText),
        crate::codec::s_req(crate::codec::FieldKind::NumText),
        crate::codec::s_req(crate::codec::FieldKind::Str),
        crate::codec::s_res(),
        crate::codec::s_res(),
        crate::codec::s_res(),
        crate::codec::s_req(crate::codec::FieldKind::Str),
        crate::codec::s_res(),
        crate::codec::s_res(),
        crate::codec::s_res(),
        crate::codec::s_req(crate::codec::FieldKind::NumText),
        crate::codec::s_req(crate::codec::FieldKind::UIntMax(255)),
        crate::codec::s_opt(crate::codec::FieldKind::UIntMax(255)),
        crate::codec::s_opt(crate::codec::FieldKind::UIntMax(255)),
        crate::codec::s_res(),
        crate::codec::s_opt(crate::codec::FieldKind::UIntMax(255)),
        crate::codec::s_res(),
    ]
}

/// Builds the funding offer row schema.
pub fn funding_offer_schema() -> (s: Vec<crate::codec::FieldSpec>)
    ensures
        s@ == funding_offer_schema_spec(),
{
    let mut s: Vec<crate::codec::FieldSpec> = Vec::new();
    s.push(crate::codec::req(crate::codec::FieldKind::UIntMax(0xffff_ffff_ffff_ffffu64)));
    s.push(crate::codec::req(crate::codec::FieldKind::Str));
    s.push(crate::codec::req(crate::codec::FieldKind::TimeMs));
    s.push(crate::codec::req(crate::codec::FieldKind::TimeMs));
    s.push(crate::codec::req(crate::codec::FieldKind::NumText));
    s.push(crate::codec::req(crate::codec::FieldKind::NumText));
    s.push(crate::codec::req(crate::codec::FieldKind::Str));
    s.push(crate::codec::res());
    s.push(crate::codec::res());
    s.push(crate::codec::res());
    s.push(crate::codec::req(crate::codec::FieldKind::Str));
    s.push(crate::codec::res());
    s.push(crate::codec::res());
    s.push(crate::codec::res());
    s.push(crate::codec::req(crate::codec::FieldKind::NumText));
    s.push(crate::codec::req(crate::codec::FieldKind::UIntMax(255)));
    s.push(crate::codec::opt(crate::codec::FieldKind::UIntMax(255)));
    s.push(crate::codec::opt(crate::codec::FieldKind::UIntMax(255)));
    s.push(crate::codec::res());
    s.push(crate::codec::opt(crate::codec::FieldKind::UIntMax(255)));
    s.push(crate::codec::res());
    proof {
        assert(s@ =~= funding_offer_schema_spec());
    }
    s
}

/// The decoded form an optional small unsigned field must take.
pub open spec fn opt_u8_field_value(v: Option<u8>) -> crate::codec::FieldValue {
    match v {
        Some(n) => crate::codec::FieldValue::UInt(n as u64),
        None => crate::codec::FieldValue::Null,
    }
}

/// True when the decoded fields of a funding offer row carry exactly this
/// record.
pub open spec fn funding_offer_matches(
    fvs: Seq<crate::codec::FieldValue>,
    o: FundingOffer,
) -> bool {
    &&& fvs.len() == 13
    &&& fvs[0] == crate::codec::FieldValue::UInt(o.id)
    &&& fvs[1] == crate::codec::FieldValue::Text(o.symbol)
    &&& fvs[2] == crate::codec::FieldValue::Time(o.created)
    &&& fvs[3] == crate::codec::FieldValue::Time(o.updated)
    &&& fvs[4] == crate::codec::FieldValue::Num(o.amount)
    &&& fvs[5] == crate::codec::FieldValue::Num(o.amount_ori)
    &&& fvs[6] == crate::codec::FieldValue::Text(o.rate_type)
    &&& fvs[7] == crate::codec::FieldValue::Text(o.status)
    &&& fvs[8] == crate::codec::FieldValue::Num(o.rate)
    &&& fvs[9] == crate::codec::FieldValue::UInt(o.period as u64)
    &&& fvs[10] == opt_u8_field_value(o.notify)
    &&& fvs[11] == opt_u8_field_value(o.hidden)
    &&& fvs[12] == opt_u8_field_value(o.renew)
}

/// Narrows a decoded optional small unsigned field to a byte.
fn take_opt_u8(fv: &crate::codec::FieldValue) -> (r: Option<u8>)
    requires
        fv is Null || (fv matches crate::codec::FieldValue::UInt(n) && n <= 255),
    ensures
        *fv == opt_u8_field_value(r),
{
    match fv {
        crate::codec::FieldValue::UInt(n) => Some(*n as u8),
        crate::codec::FieldValue::Null => None,
        _ => vstd::pervasive::unreached(),
    }
}

/// Decodes one funding offer row from its wire array.
#[verifier::rlimit(100)]
pub fn funding_offer_from_json(v: &crate::json::JsonValue) -> (r: Result<
    FundingOffer,
    BitfinexError,
>)
    ensures
        (match *v {
            crate::json::JsonValue::Arr(items) => match crate::codec::decode_fields_spec(
                items@,
                funding_offer_schema_spec(),
            ) {
                Ok(fvs) => r matches Ok(o) && funding_offer_matches(fvs, o),
                Err(e) => r == Err::<FundingOffer, BitfinexError>(BitfinexError::DecodeError(e)),
            },
            _ => r == Err::<FundingOffer, BitfinexError>(
                BitfinexError::DecodeError(crate::error::DecodeFailure::NotArray),
            ),
        }),
{
    match v {
        crate::json::JsonValue::Arr(items) => {
            let schema = funding_offer_schema();
            match crate::codec::decode_fields(items, &schema) {
                Err(e) => Err(BitfinexError::DecodeError(e)),
                Ok(fvs) => {
                    proof {
                        reveal_with_fuel(crate::codec::decode_fields_from, 23);
                        assert(fvs@.len() == 13);
                        assert(fvs@[0] is UInt);
                        assert(fvs@[1] is Text);
                        assert(fvs@[2] is Time);
                        assert(fvs@[3] is Time);
                        assert(fvs@[4] is Num);
                        assert(fvs@[5] is Num);
                        assert(fvs@[6] is Text);
                        assert(fvs@[7] is Text);
                        assert(fvs@[8] is Num);
                        assert(fvs@[9] matches crate::codec::FieldValue::UInt(p) && p <= 255);
                        assert(fvs@[10] is Null || (fvs@[10]
                            matches crate::codec::FieldValue::UInt(n) && n <= 255));
                        assert(fvs@[11] is Null || (fvs@[11]
                            matches crate::codec::FieldValue::UInt(n) && n <= 255));
                        assert(fvs@[12] is Null || (fvs@[12]
                            matches crate::codec::FieldValue::UInt(n) && n <= 255));
                    }
                    let period64 = crate::codec::take_u64(&fvs[9]);
                    let o = FundingOffer {
                        id: crate::codec::take_u64(&fvs[0]),
                        symbol: crate::codec::take_text(&fvs[1]),
                        created: crate::codec::take_time(&fvs[2]),
                        updated: crate::codec::take_time(&fvs[3]),
                        amount: crate::codec::take_num(&fvs[4]),
                        amount_ori: crate::codec::take_num(&fvs[5]),
                        rate_type: crate::codec::take_text(&fvs[6]),
                        status: crate::codec::take_text(&fvs[7]),
                        rate: crate::codec::take_num(&fvs[8]),
                        period: period64 as u8,
                        notify: take_opt_u8(&fvs[10]),
                        hidden: take_opt_u8(&fvs[11]),
                        renew: take_opt_u8(&fvs[12]),
                    };
                    Ok(o)
                },
            }
        },
        _ => Err(BitfinexError::DecodeError(crate::error::DecodeFailure::NotArray)),
    }
}

/// True when a wire element decodes to this funding offer row.
pub open spec fn funding_offer_elem_ok(jv: crate::json::JsonValue, o: FundingOffer) -> bool {
    match jv {
        crate::json::JsonValue::Arr(fields) => match crate::codec::decode_fields_spec(
            fields@,
            funding_offer_schema_spec(),
        ) {
            Ok(fvs) => funding_offer_matches(fvs, o),
            Err(_) => false,
        },
        _ => false,
    }
}

/// True when a wire element cannot decode as a funding offer row.
pub open spec fn funding_offer_elem_fails(jv: crate::json::JsonValue) -> bool {
    match jv {
        crate::json::JsonValue::Arr(fields) => crate::codec::decode_fields_spec(
            fields@,
            funding_offer_schema_spec(),
        ) is Err,
        _ => true,
    }
}

/// Decodes a funding offer list from its wire array of rows.
#[verifier::loop_isolation(false)]
pub fn funding_offers_from_json(v: &crate::json::JsonValue) -> (r: Result<
    Vec<FundingOffer>,
    BitfinexError,
>)
    ensures
        (match *v {
            crate::json::JsonValue::Arr(items) => (match r {
                Ok(os) => os@.len() == items@.len() && forall|i: int|
                    0 <= i < items@.len() ==> funding_offer_elem_ok(items@[i], os@[i]),
                Err(e) => e matches BitfinexError::DecodeError(_) && exists|i: int|
                    0 <= i < items@.len() && funding_offer_elem_fails(items@[i]),
            }),
            _ => r == Err::<Vec<FundingOffer>, BitfinexError>(
                BitfinexError::DecodeError(crate::error::DecodeFailure::NotArray),
            ),
        }),
{
    match v {
        crate::json::JsonValue::Arr(items) => {
            let n = items.len();
            let mut out: Vec<FundingOffer> = Vec::new();
            for i in 0..n
                invariant
                    n == items@.len(),
                    out@.len() == i,
                    forall|j: int| 0 <= j < i ==> funding_offer_elem_ok(items@[j], out@[j]),
            {
                match funding_offer_from_json(&items[i]) {
                    Ok(o) => {
                        out.push(o);
                    },
                    Err(e) => {
                        proof {
                            assert(funding_offer_elem_fails(items@[i as int]));
                        }
                        return Err(e);
                    },
                }
            }
            Ok(out)
        },
        _ => Err(BitfinexError::DecodeError(crate::error::DecodeFailure::NotArray)),
    }
}

/// True when a wire element decodes to this funding credit row.
pub open spec fn funding_credit_elem_ok(jv: crate::json::JsonValue, c: FundingCredit) -> bool {
    match jv {
        crate::json::JsonValue::Arr(fields) => match crate::codec::decode_fields_spec(
            fields@,
            funding_credit_schema_spec(),
        ) {
            Ok(fvs) => funding_credit_matches(fvs, c),
            Err(_) => false,
        },
        _ => false,
    }
}

/// True when a wire element cannot decode as a funding credit row.
pub open spec fn funding_credit_elem_fails(jv: crate::json::JsonValue) -> bool {
    match jv {
        crate::json::JsonValue::Arr(fields) => crate::codec::decode_fields_spec(
            fields@,
            funding_credit_schema_spec(),
        ) is Err,
        _ => true,
    }
}

/// Decodes a funding credit list from its wire array of rows.
#[verifier::loop_isolation(false)]
pub fn funding_credits_from_json(v: &crate::json::JsonValue) -> (r: Result<
    Vec<FundingCredit>,
    BitfinexError,
>)
    ensures
        (match *v {
            crate::json::JsonValue::Arr(items) => (match r {
                Ok(cs) => cs@.len() == items@.len() && forall|i: int|
                    0 <= i < items@.len() ==> funding_credit_elem_ok(items@[i], cs@[i]),
                Err(e) => e matches BitfinexError::DecodeError(_) && exists|i: int|
                    0 <= i < items@.len() && funding_credit_elem_fails(items@[i]),
            }),
            _ => r == Err::<Vec<FundingCredit>, BitfinexError>(
                BitfinexError::DecodeError(crate::error::DecodeFailure::NotArray),
            ),
        }),
{
    match v {
        crate::json::JsonValue::Arr(items) => {
            let n = items.len();
            let mut out: Vec<FundingCredit> = Vec::new();
            for i in 0..n
                invariant
                    n == items@.len(),
                    out@.len() == i,
                    forall|j: int| 0 <= j < i ==> funding_credit_elem_ok(items@[j], out@[j]),
            {
                match funding_credit_from_json(&items[i]) {
                    Ok(c) => {
                        out.push(c);
                    },
                    Err(e) => {
                        proof {
                            assert(funding_credit_elem_fails(items@[i as int]));
                        }
                        return Err(e);
                    },
                }
            }
            Ok(out)
        },
        _ => Err(BitfinexError::DecodeError(crate::error::DecodeFailure::NotArray)),
    }
}

/// True when a wire element decodes to this funding book level.
pub open spec fn funding_book_elem_ok(jv: crate::json::JsonValue, b: FundingBook) -> bool {
    match jv {
        crate::json::JsonValue::Arr(fields) => match crate::codec::decode_fields_spec(
            fields@,
            funding_book_schema_spec(),
        ) {
            Ok(fvs) => funding_book_matches(fvs, b),
            Err(_) => false,
        },
        _ => false,
    }
}

/// True when a wire element cannot decode as a funding book level.
pub open spec fn funding_book_elem_fails(jv: crate::json::JsonValue) -> bool {
    match jv {
        crate::json::JsonValue::Arr(fields) => crate::codec::decode_fields_spec(
            fields@,
            funding_book_schema_spec(),
        ) is Err,
        _ => true,
    }
}

/// Decodes a funding book from its wire array of levels.
#[verifier::loop_isolation(false)]
pub fn funding_books_from_json(v: &crate::json::JsonValue) -> (r: Result<
    Vec<FundingBook>,
    BitfinexError,
>)
    ensures
        (match *v {
            crate::json::JsonValue::Arr(items) => (match r {
                Ok(bs) => bs@.len() == items@.len() && forall|i: int|
                    0 <= i < items@.len() ==> funding_book_elem_ok(items@[i], bs@[i]),
                Err(e) => e matches BitfinexError::DecodeError(_) && exists|i: int|
                    0 <= i < items@.len() && funding_book_elem_fails(items@[i]),
            }),
            _ => r == Err::<Vec<FundingBook>, BitfinexError>(
                BitfinexError::DecodeError(crate::error::DecodeFailure::NotArray),
            ),
        }),
{
    match v {
        crate::json::JsonValue::Arr(items) => {
            let n = items.len();
            let mut out: Vec<FundingBook> = Vec::new();
            for i in 0..n
                invariant
                    n == items@.len(),
                    out@.len() == i,
                    forall|j: int| 0 <= j < i ==> funding_book_elem_ok(items@[j], out@[j]),
            {
                match funding_book_from_json(&items[i]) {
                    Ok(b) => {
                        out.push(b);
                    },
                    Err(e) => {
                        proof {
                            assert(funding_book_elem_fails(items@[i as int]));
                        }
                        return Err(e);
                    },
                }
            }
            Ok(out)
        },
        _ => Err(BitfinexError::DecodeError(crate::error::DecodeFailure::NotArray)),
    }
}

/// True when a wire element decodes to this funding trade row.
pub open spec fn funding_trade_elem_ok(jv: crate::json::JsonValue, t: FundingTrade) -> bool {
    match jv {
        crate::json::JsonValue::Arr(fields) => match crate::codec::decode_fields_spec(
            fields@,
            funding_trade_schema_spec(),
        ) {
            Ok(fvs) => funding_trade_matches(fvs, t),
            Err(_) => false,
        },
        _ => false,
    }
}

/// True when a wire element cannot decode as a funding trade row.
pub open spec fn funding_trade_elem_fails(jv: crate::json::JsonValue) -> bool {
    match jv {
        crate::json::JsonValue::Arr(fields) => crate::codec::decode_fields_spec(
            fields@,
            funding_trade_schema_spec(),
        ) is Err,
        _ => true,
    }
}

/// Decodes a funding trade list from its wire array of rows.
#[verifier::loop_isolation(false)]
pub fn funding_trades_from_json(v: &crate::json::JsonValue) -> (r: Result<
    Vec<FundingTrade>,
    BitfinexError,
>)
    ensures
        (match *v {
            crate::json::JsonValue::Arr(items) => (match r {
                Ok(ts) => ts@.len() == items@.len() && forall|i: int|
                    0 <= i < items@.len() ==> funding_trade_elem_ok(items@[i], ts@[i]),
                Err(e) => e matches BitfinexError::DecodeError(_) && exists|i: int|
                    0 <= i < items@.len() && funding_trade_elem_fails(items@[i]),
            }),
            _ => r == Err::<Vec<FundingTrade>, BitfinexError>(
                BitfinexError::DecodeError(crate::error::DecodeFailure::NotArray),
            ),
        }),
{
    match v {
        crate::json::JsonValue::Arr(items) => {
            let n = items.len();
            let mut out: Vec<FundingTrade> = Vec::new();
            for i in 0..n
                invariant
                    n == items@.len(),
                    out@.len() == i,
                    forall|j: int| 0 <= j < i ==> funding_trade_elem_ok(items@[j], out@[j]),
            {
                match funding_trade_from_json(&items[i]) {
                    Ok(t) => {
                        out.push(t);
                    },
                    Err(e) => {
                        proof {
                            assert(funding_trade_elem_fails(items@[i as int]));
                        }
                        return Err(e);
                    },
                }
            }
            Ok(out)
        },
        _ => Err(BitfinexError::DecodeError(crate::error::DecodeFailure::NotArray)),
    }
}

/// The notification envelope around one funding offer.
#[derive(Debug, PartialEq, Eq)]
pub struct FundingOfferResult {
    pub created: i64,
    pub event_type: String,
    pub message_id: Option<u64>,
    pub offer: FundingOffer,
    pub code: Option<u64>,
    pub status: String,
    pub message: Option<String>,
}

/// The envelope schema around one funding offer; the slot holding the offer
/// itself is consumed here and decoded with the offer's own schema.
pub open spec fn funding_offer_result_schema_spec() -> Seq<crate::codec::FieldSpec> {
    seq![
        crate::codec::s_req(crate::codec::FieldKind::TimeMs),
        crate::codec::s_req(crate::codec::FieldKind::Str),
        crate::codec::s_opt(crate::codec::FieldKind::UIntMax(0xffff_ffff_ffff_ffffu64)),
        crate::codec::s_res(),
        crate::codec::s_res(),
        crate::codec::s_opt(crate::codec::FieldKind::UIntMax(65535)),
        crate::codec::s_req(crate::codec::FieldKind::Str),
        crate::codec::s_opt(crate::codec::FieldKind::Str),
    ]
}

/// The decoded form an optional unsigned field must take.
pub open spec fn opt_u64_field_value(v: Option<u64>) -> crate::codec::FieldValue {
    match v {
        Some(n) => crate::codec::FieldValue::UInt(n),
        None => crate::codec::FieldValue::Null,
    }
}

/// The decoded form an optional text field must take.
pub open spec fn opt_text_field_value(v: Option<String>) -> crate::codec::FieldValue {
    match v {
        Some(s) => crate::codec::FieldValue::Text(s),
        None => crate::codec::FieldValue::Null,
    }
}

/// True when the decoded envelope fields and the offer carry exactly this
/// result record.
pub open spec fn funding_offer_result_matches(
    fvs: Seq<crate::codec::FieldValue>,
    r: FundingOfferResult,
) -> bool {
    &&& fvs.len() == 6
    &&& fvs[0] == crate::codec::FieldValue::Time(r.created)
    &&& fvs[1] == crate::codec::FieldValue::Text(r.event_type)
    &&& fvs[2] == opt_u64_field_value(r.message_id)
    &&& fvs[3] == opt_u64_field_value(r.code)
    &&& fvs[4] == crate::codec::FieldValue::Text(r.status)
    &&& fvs[5] == opt_text_field_value(r.message)
}

/// Decodes a funding offer notification envelope: the envelope's own fields
/// under its schema, and the offer slot under the offer's schema.
#[verifier::rlimit(100)]
pub fn funding_offer_result_from_json(v: &crate::json::JsonValue) -> (r: Result<
    FundingOfferResult,
    BitfinexError,
>)
    ensures
        (match *v {
            crate::json::JsonValue::Arr(items) => match crate::codec::decode_fields_spec(
                items@,
                funding_offer_result_schema_spec(),
            ) {
                Ok(fvs) => items@.len() == 8 && (match items@[4] {
                    crate::json::JsonValue::Arr(ofields) => match crate::codec::decode_fields_spec(
                        ofields@,
                        funding_offer_schema_spec(),
                    ) {
                        Ok(ofvs) => r matches Ok(res) && funding_offer_result_matches(fvs, res)
                            && funding_offer_matches(ofvs, res.offer),
                        Err(e) => r == Err::<FundingOfferResult, BitfinexError>(
                            BitfinexError::DecodeError(e),
                        ),
                    },
                    _ => r == Err::<FundingOfferResult, BitfinexError>(
                        BitfinexError::DecodeError(crate::error::DecodeFailure::NotArray),
                    ),
                }),
                Err(e) => r == Err::<FundingOfferResult, BitfinexError>(
                    BitfinexError::DecodeError(e),
                ),
            },
            _ => r == Err::<FundingOfferResult, BitfinexError>(
                BitfinexError::DecodeError(crate::error::DecodeFailure::NotArray),
            ),
        }),
{
    match v {
        crate::json::JsonValue::Arr(items) => {
            let mut schema: Vec<crate::codec::FieldSpec> = Vec::new();
            schema.push(crate::codec::req(crate::codec::FieldKind::TimeMs));
            schema.push(crate::codec::req(crate::codec::FieldKind::Str));
            schema.push(crate::codec::opt(crate::codec::FieldKind::UIntMax(0xffff_ffff_ffff_ffffu64)));
            schema.push(crate::codec::res());
            schema.push(crate::codec::res());
            schema.push(crate::codec::opt(crate::codec::FieldKind::UIntMax(65535)));
            schema.push(crate::codec::req(crate::codec::FieldKind::Str));
            schema.push(crate::codec::opt(crate::codec::FieldKind::Str));
            proof {
                assert(schema@ =~= funding_offer_result_schema_spec());
            }
            match crate::codec::decode_fields(items, &schema) {
                Err(e) => Err(BitfinexError::DecodeError(e)),
                Ok(fvs) => {
                    proof {
                        reveal_with_fuel(crate::codec::decode_fields_from, 10);
                        assert(fvs@.len() == 6);
                        assert(fvs@[0] is Time);
                        assert(fvs@[1] is Text);
                        assert(fvs@[2] is Null || fvs@[2] is UInt);
                        assert(fvs@[3] is Null || fvs@[3] is UInt);
                        assert(fvs@[4] is Text);
                        assert(fvs@[5] is Null || fvs@[5] is Text);
                    }
                    proof {
                        assert(items@.len() == 8);
                    }
                    match funding_offer_from_json(&items[4]) {
                        Err(e) => Err(e),
                        Ok(offer) => {
                            let res = FundingOfferResult {
                                created: crate::codec::take_time(&fvs[0]),
                                event_type: crate::codec::take_text(&fvs[1]),
                                message_id: crate::codec::take_opt_u64(&fvs[2]),
                                offer,
                                code: crate::codec::take_opt_u64(&fvs[3]),
                                status: crate::codec::take_text(&fvs[4]),
                                message: crate::codec::take_opt_text(&fvs[5]),
                            };
                            Ok(res)
                        },
                    }
                },
            }
        },
        _ => Err(BitfinexError::DecodeError(crate::error::DecodeFailure::NotArray)),
    }
}

} // verus!
