//! The signed-request engine: credentials, nonce generation, request
//! signing, the authentication header set, and the scan that locates and
//! classifies the error envelope inside a response body.

use vstd::prelude::*;
use vstd::string::StrSliceExecFns;
use vstd::string::StringExecFns;
use vstd::utf8::encode_utf8;

use crate::error::{classify_error, error_matches, BitfinexError, PreconditionFailure};
use crate::json::{json_quote, obj_text, JsonValue};
use crate::error::DecodeFailure;
use crate::text::{
    chars_of, dec_of, find_from, find_sub_from, hex_lower, hex_of, trim_range, trim_set,
    u64_to_dec,
};

verus! {

/// What an HMAC-SHA-384 tag is, as a function of the key and message bytes.
pub uninterp spec fn hmac_sha384_of(key: Seq<u8>, msg: Seq<u8>) -> Seq<u8>;

/// Relies on ring::hmac with HMAC_SHA384: `Key::new` prepares the key and
/// `sign` computes the tag, a pure function of the key and message bytes,
/// 48 bytes long (the SHA-384 digest length).  Neither call fails for any
/// slice this machine can hold.
#[verifier::external_body]
fn hmac_sha384(key: &[u8], msg: &[u8]) -> (r: Vec<u8>)
    ensures
        r@ == hmac_sha384_of(key@, msg@),
        r@.len() == 48,
{
    let k = ring::hmac::Key::new(ring::hmac::HMAC_SHA384, key);
    ring::hmac::sign(&k, msg).as_ref().to_vec()
}

/// Relies on std::time::SystemTime::now: the clock reading as whole seconds
/// since the Unix epoch, or 0 should the clock read before the epoch.
/// Nothing is promised of the value: it is a clock.
#[verifier::external_body]
fn unix_seconds() -> u64 {
    match std::time::SystemTime::now().duration_since(std::time::UNIX_EPOCH) {
        Ok(d) => d.as_secs(),
        Err(_) => 0,
    }
}

/// The nonce value derived from a clock reading in whole seconds: that many
/// microseconds, saturating at the largest representable value.
pub open spec fn nonce_micros(secs: u64) -> u64 {
    if secs * 1_000_000 <= u64::MAX {
        (secs * 1_000_000) as u64
    } else {
        u64::MAX
    }
}

/// Renders the nonce for a clock reading in whole seconds: the reading in
/// microseconds, as a decimal numeral.
pub fn nonce_of_seconds(secs: u64) -> (r: String)
    ensures
        r@ == dec_of(nonce_micros(secs) as nat),
{
    let micros: u64 = if secs <= u64::MAX / 1_000_000 {
        secs * 1_000_000
    } else {
        u64::MAX
    };
    u64_to_dec(micros)
}

/// The canonical string over which a private call's signature is computed.
pub open spec fn signature_input(path: Seq<char>, nonce: Seq<char>, payload: Seq<char>) -> Seq<
    char,
> {
    "/api/v2/"@ + path + nonce + payload
}

/// The signature attached to a private call: the lower-case hex rendering of
/// the HMAC-SHA-384 tag of the canonical string under the secret.
pub open spec fn signature_of(
    secret: Seq<char>,
    path: Seq<char>,
    nonce: Seq<char>,
    payload: Seq<char>,
) -> Seq<char> {
    hex_of(hmac_sha384_of(encode_utf8(secret), encode_utf8(signature_input(path, nonce, payload))))
}

/// Signature determinism: for a fixed secret, path, nonce and body, any two
/// values that each equal the signature of those inputs are the same; the
/// signature is a pure function of its inputs.
pub proof fn lemma_signature_deterministic(
    secret: Seq<char>,
    path: Seq<char>,
    nonce: Seq<char>,
    payload: Seq<char>,
    s1: Seq<char>,
    s2: Seq<char>,
)
    requires
        s1 == signature_of(secret, path, nonce, payload),
        s2 == signature_of(secret, path, nonce, payload),
    ensures
        s1 == s2,
{
}

/// The text that marks an error envelope inside a response body.
pub open spec fn envelope_prefix() -> Seq<char> {
    "\"error\","@
}

/// Where the scan finds an envelope's code and message texts inside a
/// response body: after the first occurrence of `"error",`, the code runs to
/// the next comma and the message to the comma after that (or to the end),
/// each stripped of surrounding quotes and spaces.  No envelope, or no comma
/// after the code, means no error.
pub open spec fn parse_error_spec(body: Seq<char>) -> Option<(Seq<char>, Seq<char>)> {
    match find_from(body, envelope_prefix(), 0) {
        None => None,
        Some(start) => {
            let rest = body.skip(start + envelope_prefix().len());
            match find_from(rest, seq![','], 0) {
                None => None,
                Some(c1) => {
                    let code = trim_set(rest.take(c1));
                    let after = rest.skip(c1 + 1);
                    let msg_raw = match find_from(after, seq![','], 0) {
                        None => after,
                        Some(c2) => after.take(c2),
                    };
                    Some((code, trim_set(msg_raw)))
                },
            }
        },
    }
}

/// Locates the error envelope `"error",<code>,"<message>"` inside a response
/// body and hands back the code and message texts, or `None` when the body
/// carries no envelope.
pub fn parse_error(body: &str) -> (r: Option<(String, String)>)
    ensures
        (match r {
            Some(cm) => parse_error_spec(body@) == Some((cm.0@, cm.1@)),
            None => parse_error_spec(body@) is None,
        }),
{
    let cs = chars_of(body);
    let n = cs.len();
    let prefix = chars_of("\"error\",");
    proof {
        reveal_strlit("\"error\",");
        assert(prefix@ =~= envelope_prefix());
    }
    proof {
        assert(envelope_prefix().len() == 8);
    }
    let start = match find_sub_from(&cs, &prefix, 0) {
        None => {
            return None;
        },
        Some(s) => s,
    };
    proof {
        crate::text::lemma_find_from_exists(body@, envelope_prefix(), 0);
        assert(start + 8 <= n);
    }
    let rest_lo = start + 8;
    let ghost rest = body@.skip(rest_lo as int);
    let comma = chars_of(",");
    proof {
        reveal_strlit(",");
        assert(comma@ =~= seq![',']);
    }
    let c1_abs = match find_sub_from(&cs, &comma, rest_lo) {
        None => {
            proof {
                crate::text::lemma_find_from_shift(body@, seq![','], rest_lo as int, rest_lo as int);
            }
            return None;
        },
        Some(i) => i,
    };
    proof {
        crate::text::lemma_find_from_shift(body@, seq![','], rest_lo as int, rest_lo as int);
        crate::text::lemma_find_from_exists(body@, seq![','], rest_lo as int);
        assert(find_from(rest, seq![','], 0) == Some(c1_abs - rest_lo));
        assert(rest_lo <= c1_abs && c1_abs + 1 <= n);
    }
    let (a, b) = trim_range(&cs, rest_lo, c1_abs);
    proof {
        assert(rest.take(c1_abs - rest_lo) =~= body@.subrange(rest_lo as int, c1_abs as int));
    }
    let code = body.substring_char(a, b).to_owned();
    let m_start = c1_abs + 1;
    let ghost after = body@.skip(m_start as int);
    proof {
        assert(after =~= rest.skip((c1_abs - rest_lo) + 1));
    }
    let m_end = match find_sub_from(&cs, &comma, m_start) {
        None => {
            proof {
                crate::text::lemma_find_from_shift(body@, seq![','], m_start as int, m_start as int);
            }
            n
        },
        Some(j) => {
            proof {
                crate::text::lemma_find_from_shift(body@, seq![','], m_start as int, m_start as int);
                crate::text::lemma_find_from_exists(body@, seq![','], m_start as int);
            }
            j
        },
    };
    let ghost msg_raw = match find_from(after, seq![','], 0) {
        None => after,
        Some(c2) => after.take(c2),
    };
    proof {
        assert(msg_raw =~= body@.subrange(m_start as int, m_end as int));
    }
    let (ma, mb) = trim_range(&cs, m_start, m_end);
    let message = body.substring_char(ma, mb).to_owned();
    Some((code, message))
}

/// The headers attached to a private call, as plain values; the two static
/// headers (user agent and content type) are fixed by `user_agent` and
/// `content_type`.
pub struct AuthHeaders {
    pub nonce: String,
    pub api_key: String,
    pub signature: String,
}

/// The static user-agent header value.
pub fn user_agent() -> (r: &'static str)
    ensures
        r@ == "bitfinex-api-rs"@,
{
    "bitfinex-api-rs"
}

/// The static content-type header value.
pub fn content_type() -> (r: &'static str)
    ensures
        r@ == "application/json"@,
{
    "application/json"
}

/// The payload text that enters the signature: the body when one is given,
/// empty otherwise.
pub open spec fn spec_payload(payload: Option<&String>) -> Seq<char> {
    match payload {
        Some(p) => p@,
        None => Seq::<char>::empty(),
    }
}

/// A Bitfinex API client: the credential pair, immutable once constructed.
/// Both strings are empty for public-only usage.
pub struct Client {
    api_key: String,
    api_secret: String,
}

impl Client {
    /// Builds a client owning the given credential.
    pub fn new(api_key: String, api_secret: String) -> (c: Client)
        ensures
            c.api_key() == api_key,
            c.api_secret() == api_secret,
    {
        Client { api_key, api_secret }
    }

    /// The credential's public key.
    pub closed spec fn api_key(&self) -> String {
        self.api_key
    }

    /// The credential's secret.
    pub closed spec fn api_secret(&self) -> String {
        self.api_secret
    }

    /// Signs a payload with the given secret: the lower-case hex rendering
    /// of the HMAC-SHA-384 tag.
    pub fn sign_payload(&self, secret: &[u8], payload: &[u8]) -> (r: String)
        ensures
            r@ == hex_of(hmac_sha384_of(secret@, payload@)),
            r@.len() == 96,
    {
        let tag = hmac_sha384(secret, payload);
        hex_lower(tag.as_slice())
    }

    /// A fresh nonce: the wall clock in microseconds as a decimal numeral.
    /// No counter is kept and no floor is applied; see the concurrency notes
    /// on the retry loop for why a stale reading is recoverable.
    pub fn generate_nonce(&self) -> (r: String)
        ensures
            exists|secs: u64| r@ == dec_of(nonce_micros(secs) as nat),
    {
        let secs = unix_seconds();
        let r = nonce_of_seconds(secs);
        proof {
            assert(r@ == dec_of(nonce_micros(secs) as nat));
        }
        r
    }

    /// Builds the authentication headers for a private call under a caller-
    /// supplied nonce: the signature covers `/api/v2/` + path + nonce +
    /// payload.
    pub fn build_headers_with_nonce(&self, url: &String, payload: Option<&String>, nonce: String) -> (h:
        AuthHeaders)
        ensures
            h.nonce == nonce,
            h.api_key == self.api_key(),
            h.signature@ == signature_of(self.api_secret()@, url@, nonce@, spec_payload(payload)),
    {
        let mut msg = String::from_str("/api/v2/");
        msg.append(url.as_str());
        msg.append(nonce.as_str());
        if let Some(p) = payload {
            msg.append(p.as_str());
        }
        proof {
            assert(msg@ =~= signature_input(url@, nonce@, spec_payload(payload)));
        }
        let signature = self.sign_payload(self.api_secret.as_str().as_bytes(), msg.as_str().as_bytes());
        AuthHeaders { nonce, api_key: self.api_key.clone(), signature }
    }

    /// Scans a response body for the embedded error envelope; `Ok` when the
    /// body carries none, else the classified reason for the envelope found.
    pub fn handle_error(&self, body: &String) -> (r: Result<(), BitfinexError>)
        ensures
            (match parse_error_spec(body@) {
                None => r is Ok,
                Some(cm) => r matches Err(e) && error_matches(e, cm.0, cm.1),
            }),
    {
        match parse_error(body.as_str()) {
            None => Ok(()),
            Some((code, message)) => Err(classify_error(code.as_str(), message)),
        }
    }

    /// Builds the authentication headers for a private call, generating the
    /// nonce from the wall clock as `generate_nonce` does.
    pub fn build_headers(&self, url: &String, payload: Option<&String>) -> (h: AuthHeaders)
        ensures
            h.api_key == self.api_key(),
            exists|secs: u64|
                h.nonce@ == dec_of(nonce_micros(secs) as nat) && h.signature@ == signature_of(
                    self.api_secret()@,
                    url@,
                    h.nonce@,
                    spec_payload(payload),
                ),
    {
        let nonce = self.generate_nonce();
        let ghost n = nonce@;
        let h = self.build_headers_with_nonce(url, payload, nonce);
        proof {
            let secs = choose|secs: u64| n == dec_of(nonce_micros(secs) as nat);
            assert(h.nonce@ == dec_of(nonce_micros(secs) as nat) && h.signature@ == signature_of(
                self.api_secret()@,
                url@,
                h.nonce@,
                spec_payload(payload),
            ));
        }
        h
    }
}

/// The statistic keys the stats endpoint serves.
#[derive(Debug, PartialEq, Eq, Structural, Clone, Copy)]
pub enum StatKey {
    PosSize,
    FundingSize,
    CreditsSize,
    CreditsSizeSym,
    Vol1d,
    Vol7d,
    Vol30d,
    Vwap,
}

/// The statistic key a token selects; an unknown token falls back to the
/// position-size key.
pub open spec fn stat_key_of(s: Seq<char>) -> StatKey {
    if s == "pos.size"@ {
        StatKey::PosSize
    } else if s == "funding.size"@ {
        StatKey::FundingSize
    } else if s == "credits.size"@ {
        StatKey::CreditsSize
    } else if s == "credits.size.sym"@ {
        StatKey::CreditsSizeSym
    } else if s == "vol.1d"@ {
        StatKey::Vol1d
    } else if s == "vol.7d"@ {
        StatKey::Vol7d
    } else if s == "vol.30d"@ {
        StatKey::Vol30d
    } else if s == "vwap"@ {
        StatKey::Vwap
    } else {
        StatKey::PosSize
    }
}

impl StatKey {
    /// The wire token of this key.
    pub open spec fn spec_token(&self) -> Seq<char> {
        match self {
            StatKey::PosSize => "pos.size"@,
            StatKey::FundingSize => "funding.size"@,
            StatKey::CreditsSize => "credits.size"@,
            StatKey::CreditsSizeSym => "credits.size.sym"@,
            StatKey::Vol1d => "vol.1d"@,
            StatKey::Vol7d => "vol.7d"@,
            StatKey::Vol30d => "vol.30d"@,
            StatKey::Vwap => "vwap"@,
        }
    }

    /// The statistic key a token selects; an unknown token falls back to the
    /// position-size key.
    pub fn from(value: &str) -> (r: StatKey)
        ensures
            r == stat_key_of(value@),
    {
        if crate::text::str_eq(value, "pos.size") {
            StatKey::PosSize
        } else if crate::text::str_eq(value, "funding.size") {
            StatKey::FundingSize
        } else if crate::text::str_eq(value, "credits.size") {
            StatKey::CreditsSize
        } else if crate::text::str_eq(value, "credits.size.sym") {
            StatKey::CreditsSizeSym
        } else if crate::text::str_eq(value, "vol.1d") {
            StatKey::Vol1d
        } else if crate::text::str_eq(value, "vol.7d") {
            StatKey::Vol7d
        } else if crate::text::str_eq(value, "vol.30d") {
            StatKey::Vol30d
        } else if crate::text::str_eq(value, "vwap") {
            StatKey::Vwap
        } else {
            StatKey::PosSize
        }
    }

    /// The wire token of this key.
    pub fn as_str(&self) -> (r: &'static str)
        ensures
            r@ == self.spec_token(),
    {
        match self {
            StatKey::PosSize => "pos.size",
            StatKey::FundingSize => "funding.size",
            StatKey::CreditsSize => "credits.size",
            StatKey::CreditsSizeSym => "credits.size.sym",
            StatKey::Vol1d => "vol.1d",
            StatKey::Vol7d => "vol.7d",
            StatKey::Vol30d => "vol.30d",
            StatKey::Vwap => "vwap",
        }
    }
}

/// The wallet kinds the exchange distinguishes.
#[derive(Debug, PartialEq, Eq, Structural, Clone, Copy)]
pub enum WalletType {
    Exchange,
    Margin,
    Funding,
}

/// The wallet kind a token selects; an unknown token falls back to the
/// funding wallet.
pub open spec fn wallet_type_of(s: Seq<char>) -> WalletType {
    if s == "exchange"@ {
        WalletType::Exchange
    } else if s == "margin"@ {
        WalletType::Margin
    } else {
        WalletType::Funding
    }
}

impl WalletType {
    /// The wire token of this wallet kind.
    pub open spec fn spec_token(&self) -> Seq<char> {
        match self {
            WalletType::Exchange => "exchange"@,
            WalletType::Margin => "margin"@,
            WalletType::Funding => "funding"@,
        }
    }

    /// The wallet kind a token selects; an unknown token falls back to the
    /// funding wallet.
    pub fn from(value: &str) -> (r: WalletType)
        ensures
            r == wallet_type_of(value@),
    {
        if crate::text::str_eq(value, "exchange") {
            WalletType::Exchange
        } else if crate::text::str_eq(value, "margin") {
            WalletType::Margin
        } else {
            WalletType::Funding
        }
    }

    /// The wire token of this wallet kind.
    pub fn as_str(&self) -> (r: &'static str)
        ensures
            r@ == self.spec_token(),
    {
        match self {
            WalletType::Exchange => "exchange",
            WalletType::Margin => "margin",
            WalletType::Funding => "funding",
        }
    }
}

/// The ledger entry categories the ledger endpoint can filter by.
#[derive(Debug, PartialEq, Eq, Structural, Clone, Copy)]
pub enum LedgerType {
    Exchange,
    Interest,
    Transfer,
    TradingFee,
}

/// The ledger category a token selects; an unknown token falls back to
/// interest.
pub open spec fn ledger_type_of(s: Seq<char>) -> LedgerType {
    if s == "Exchange"@ {
        LedgerType::Exchange
    } else if s == "Interest"@ {
        LedgerType::Interest
    } else if s == "Transfer"@ {
        LedgerType::Transfer
    } else if s == "TradingFee"@ {
        LedgerType::TradingFee
    } else {
        LedgerType::Interest
    }
}

impl LedgerType {
    /// The numeric category code this ledger type selects on the wire.
    pub open spec fn spec_code(&self) -> int {
        match self {
            LedgerType::Exchange => 5,
            LedgerType::Interest => 28,
            LedgerType::Transfer => 51,
            LedgerType::TradingFee => 201,
        }
    }

    /// The ledger category a token selects; an unknown token falls back to
    /// interest.
    pub fn from(value: &str) -> (r: LedgerType)
        ensures
            r == ledger_type_of(value@),
    {
        if crate::text::str_eq(value, "Exchange") {
            LedgerType::Exchange
        } else if crate::text::str_eq(value, "Interest") {
            LedgerType::Interest
        } else if crate::text::str_eq(value, "Transfer") {
            LedgerType::Transfer
        } else if crate::text::str_eq(value, "TradingFee") {
            LedgerType::TradingFee
        } else {
            LedgerType::Interest
        }
    }

    /// The numeric category code this ledger type selects on the wire.
    pub fn as_u8(&self) -> (r: u8)
        ensures
            r as int == self.spec_code(),
    {
        match self {
            LedgerType::Exchange => 5,
            LedgerType::Interest => 28,
            LedgerType::Transfer => 51,
            LedgerType::TradingFee => 201,
        }
    }
}

/// The deposit methods the deposit-address endpoint accepts.
#[derive(Debug, PartialEq, Eq, Structural, Clone, Copy)]
pub enum DepositMethod {
    Bitcoin,
    Litecoin,
    Ethereum,
    Tetheruso,
    Tetherusl,
    Tetherusx,
    Tetheruss,
    Ethereumc,
    Zcash,
    Monero,
    Iota,
}

/// True for the tokens that name a deposit method.
pub open spec fn is_deposit_method_token(s: Seq<char>) -> bool {
    s == "bitcoin"@ || s == "litecoin"@ || s == "ethereum"@ || s == "tetheruso"@ || s
        == "tetherusl"@ || s == "tetherusx"@ || s == "tetheruss"@ || s == "ethereumc"@ || s
        == "zcash"@ || s == "monero"@ || s == "iota"@
}

impl DepositMethod {
    /// The wire token of this deposit method.
    pub open spec fn spec_token(&self) -> Seq<char> {
        match self {
            DepositMethod::Bitcoin => "bitcoin"@,
            DepositMethod::Litecoin => "litecoin"@,
            DepositMethod::Ethereum => "ethereum"@,
            DepositMethod::Tetheruso => "tetheruso"@,
            DepositMethod::Tetherusl => "tetherusl"@,
            DepositMethod::Tetherusx => "tetherusx"@,
            DepositMethod::Tetheruss => "tetheruss"@,
            DepositMethod::Ethereumc => "ethereumc"@,
            DepositMethod::Zcash => "zcash"@,
            DepositMethod::Monero => "monero"@,
            DepositMethod::Iota => "iota"@,
        }
    }

    /// The deposit method a token names.  Only known tokens are accepted:
    /// callers screen their input against the closed list first.
    pub fn from(value: &str) -> (r: DepositMethod)
        requires
            is_deposit_method_token(value@),
        ensures
            r.spec_token() == value@,
    {
        if crate::text::str_eq(value, "bitcoin") {
            DepositMethod::Bitcoin
        } else if crate::text::str_eq(value, "litecoin") {
            DepositMethod::Litecoin
        } else if crate::text::str_eq(value, "ethereum") {
            DepositMethod::Ethereum
        } else if crate::text::str_eq(value, "tetheruso") {
            DepositMethod::Tetheruso
        } else if crate::text::str_eq(value, "tetherusl") {
            DepositMethod::Tetherusl
        } else if crate::text::str_eq(value, "tetherusx") {
            DepositMethod::Tetherusx
        } else if crate::text::str_eq(value, "tetheruss") {
            DepositMethod::Tetheruss
        } else if crate::text::str_eq(value, "ethereumc") {
            DepositMethod::Ethereumc
        } else if crate::text::str_eq(value, "zcash") {
            DepositMethod::Zcash
        } else if crate::text::str_eq(value, "monero") {
            DepositMethod::Monero
        } else {
            DepositMethod::Iota
        }
    }

    /// The deposit method a token names, as a recoverable result: an
    /// unknown token is a precondition violation, not an abort.
    pub fn try_from_token(value: &str) -> (r: Result<DepositMethod, BitfinexError>)
        ensures
            r is Ok <==> is_deposit_method_token(value@),
            r matches Ok(m) ==> m.spec_token() == value@,
            r matches Err(e) ==> e == BitfinexError::PreconditionViolation(
                PreconditionFailure::UnknownDepositMethod,
            ),
    {
        if crate::text::str_eq(value, "bitcoin") {
            Ok(DepositMethod::Bitcoin)
        } else if crate::text::str_eq(value, "litecoin") {
            Ok(DepositMethod::Litecoin)
        } else if crate::text::str_eq(value, "ethereum") {
            Ok(DepositMethod::Ethereum)
        } else if crate::text::str_eq(value, "tetheruso") {
            Ok(DepositMethod::Tetheruso)
        } else if crate::text::str_eq(value, "tetherusl") {
            Ok(DepositMethod::Tetherusl)
        } else if crate::text::str_eq(value, "tetherusx") {
            Ok(DepositMethod::Tetherusx)
        } else if crate::text::str_eq(value, "tetheruss") {
            Ok(DepositMethod::Tetheruss)
        } else if crate::text::str_eq(value, "ethereumc") {
            Ok(DepositMethod::Ethereumc)
        } else if crate::text::str_eq(value, "zcash") {
            Ok(DepositMethod::Zcash)
        } else if crate::text::str_eq(value, "monero") {
            Ok(DepositMethod::Monero)
        } else if crate::text::str_eq(value, "iota") {
            Ok(DepositMethod::Iota)
        } else {
            Err(BitfinexError::PreconditionViolation(PreconditionFailure::UnknownDepositMethod))
        }
    }

    /// The wire token of this deposit method.
    pub fn as_str(&self) -> (r: &'static str)
        ensures
            r@ == self.spec_token(),
    {
        match self {
            DepositMethod::Bitcoin => "bitcoin",
            DepositMethod::Litecoin => "litecoin",
            DepositMethod::Ethereum => "ethereum",
            DepositMethod::Tetheruso => "tetheruso",
            DepositMethod::Tetherusl => "tetherusl",
            DepositMethod::Tetherusx => "tetherusx",
            DepositMethod::Tetheruss => "tetheruss",
            DepositMethod::Ethereumc => "ethereumc",
            DepositMethod::Zcash => "zcash",
            DepositMethod::Monero => "monero",
            DepositMethod::Iota => "iota",
        }
    }

    /// The wire token of this deposit method, as an owned string.
    pub fn to_string(&self) -> (r: String)
        ensures
            r@ == self.spec_token(),
    {
        self.as_str().to_owned()
    }
}

/// True when the statistic key's instrument-category constraint accepts the
/// symbol: the funding-side keys need the funding marker, the position-size
/// key the trading marker, and the rest accept anything.
pub open spec fn stat_symbol_ok(key: StatKey, symbol: Seq<char>) -> bool {
    match key {
        StatKey::FundingSize | StatKey::CreditsSize | StatKey::CreditsSizeSym => symbol.len() > 0
            && symbol[0] == 'f',
        StatKey::PosSize => symbol.len() > 0 && symbol[0] == 't',
        _ => true,
    }
}

/// The middle piece of a stats path: the aggregation window and symbol (and
/// qualifier) that the key's routing rule dictates.
pub open spec fn stat_middle_spec(
    key: StatKey,
    symbol: Seq<char>,
    side_pair: Option<String>,
    use_short: Option<bool>,
) -> Seq<char> {
    match key {
        StatKey::FundingSize | StatKey::CreditsSize => ":1m:"@ + symbol,
        StatKey::CreditsSizeSym => ":1m:"@ + symbol + ":"@ + (match side_pair {
            Some(p) => p@,
            None => "tBTCUSD"@,
        }),
        StatKey::PosSize => ":1m:"@ + symbol + ":"@ + (match use_short {
            Some(true) => "short"@,
            _ => "long"@,
        }),
        StatKey::Vwap => ":1d:"@ + symbol,
        _ => ":30m:BFX"@,
    }
}

/// The full path of a stats query for a key and symbol.
pub open spec fn stat_path_spec(
    key: StatKey,
    symbol: Seq<char>,
    side_pair: Option<String>,
    use_short: Option<bool>,
    limit: Option<u16>,
    start: Option<i64>,
    end: Option<i64>,
) -> Seq<char> {
    "stats1/"@ + key.spec_token() + stat_middle_spec(key, symbol, side_pair, use_short)
        + "/hist?sort=-1"@ + crate::query::hist_params(limit, start, end)
}

/// Builds the path of a stats query, routing by key: funding-size keys take
/// the one-minute window and the funding symbol; the by-pair credits key
/// adds a trading-pair qualifier, defaulting it and raising the notice flag
/// when the caller gave none; the position-size key adds the long or short
/// side, long when unspecified; the volume-weighted key takes the one-day
/// window; the volume keys take the thirty-minute window over the whole
/// exchange.  The notice flag in the result says the default qualifier was
/// applied.
pub fn stat_path(
    symbol: &str,
    key: StatKey,
    side_pair: Option<String>,
    use_short: Option<bool>,
    limit: Option<u16>,
    start: Option<i64>,
    end: Option<i64>,
) -> (r: Result<(String, bool), BitfinexError>)
    ensures
        r is Ok <==> stat_symbol_ok(key, symbol@),
        (match r {
            Ok(pn) => pn.0@ == stat_path_spec(key, symbol@, side_pair, use_short, limit, start, end)
                && pn.1 == (key is CreditsSizeSym && side_pair is None),
            Err(e) => e == BitfinexError::PreconditionViolation(
                if key is PosSize {
                    PreconditionFailure::TradingSymbolRequired
                } else {
                    PreconditionFailure::FundingSymbolRequired
                },
            ),
        }),
{
    let mut url = String::from_str("stats1/");
    url.append(key.as_str());
    let mut notice = false;
    match key {
        StatKey::FundingSize | StatKey::CreditsSize => {
            if !crate::text::first_char_is(symbol, 'f') {
                return Err(
                    BitfinexError::PreconditionViolation(
                        PreconditionFailure::FundingSymbolRequired,
                    ),
                );
            }
            url.append(":1m:");
            url.append(symbol);
        },
        StatKey::CreditsSizeSym => {
            if !crate::text::first_char_is(symbol, 'f') {
                return Err(
                    BitfinexError::PreconditionViolation(
                        PreconditionFailure::FundingSymbolRequired,
                    ),
                );
            }
            url.append(":1m:");
            url.append(symbol);
            url.append(":");
            match &side_pair {
                Some(p) => {
                    url.append(p.as_str());
                },
                None => {
                    notice = true;
                    url.append("tBTCUSD");
                },
            }
        },
        StatKey::PosSize => {
            if !crate::text::first_char_is(symbol, 't') {
                return Err(
                    BitfinexError::PreconditionViolation(
                        PreconditionFailure::TradingSymbolRequired,
                    ),
                );
            }
            url.append(":1m:");
            url.append(symbol);
            url.append(":");
            match use_short {
                Some(true) => {
                    url.append("short");
                },
                _ => {
                    url.append("long");
                },
            }
        },
        StatKey::Vwap => {
            url.append(":1d:");
            url.append(symbol);
        },
        _ => {
            url.append(":30m:BFX");
        },
    }
    url.append("/hist?sort=-1");
    crate::query::append_hist_params(&mut url, limit, start, end);
    proof {
        assert(url@ =~= stat_path_spec(key, symbol@, side_pair, use_short, limit, start, end));
    }
    Ok((url, notice))
}

/// The path of a currency's ledger history: `auth/r/ledgers/<ccy>/hist`.
pub open spec fn ledgers_path_spec(ccy: Seq<char>) -> Seq<char> {
    "auth/r/ledgers/"@ + ccy + "/hist"@
}

/// Builds the path of a currency's ledger history.
pub fn ledgers_path(ccy: &str) -> (p: String)
    ensures
        p@ == ledgers_path_spec(ccy@),
{
    let mut p = String::from_str("auth/r/ledgers/");
    p.append(ccy);
    p.append("/hist");
    proof {
        assert(p@ =~= ledgers_path_spec(ccy@));
    }
    p
}

/// The body of a ledger query: the numeric category to filter by, the
/// interest category when the caller names none.
pub fn ledger_payload(category: Option<LedgerType>) -> (s: String)
    ensures
        s@ == obj_text(
            seq![
                ("category"@, dec_of(
                    (match category {
                        Some(c) => c.spec_code(),
                        None => 28,
                    }) as nat,
                )),
            ],
        ),
{
    let cat: u8 = match category {
        Some(c) => c.as_u8(),
        None => 28,
    };
    let mut fields: Vec<(String, crate::json::JsonScalar)> = Vec::new();
    crate::json::push_uint_field(&mut fields, "category", cat as u64);
    let s = crate::json::obj_to_text(&fields);
    proof {
        assert(crate::json::fields_view(fields@) =~= seq![
            ("category"@, dec_of(
                (match category {
                    Some(c) => c.spec_code(),
                    None => 28,
                }) as nat,
            )),
        ]);
    }
    s
}

/// The body of an exchange-rate query over a currency pair.
pub fn exchange_rate_payload(ccy: &str, to_ccy: &str) -> (s: String)
    ensures
        s@ == obj_text(
            seq![("ccy1"@, json_quote(ccy@)), ("ccy2"@, json_quote(to_ccy@))],
        ),
{
    let mut fields: Vec<(String, crate::json::JsonScalar)> = Vec::new();
    crate::json::push_text_field(&mut fields, "ccy1", ccy);
    crate::json::push_text_field(&mut fields, "ccy2", to_ccy);
    let s = crate::json::obj_to_text(&fields);
    proof {
        assert(crate::json::fields_view(fields@) =~= seq![
            ("ccy1"@, json_quote(ccy@)),
            ("ccy2"@, json_quote(to_ccy@)),
        ]);
    }
    s
}

/// The body of a deposit-address request: the wallet, the method, and no
/// renewal.
pub fn deposit_address_payload(wallet: &WalletType, method: &DepositMethod) -> (s: String)
    ensures
        s@ == obj_text(
            seq![
                ("wallet"@, json_quote(wallet.spec_token())),
                ("method"@, json_quote(method.spec_token())),
                ("op_renew"@, dec_of(0)),
            ],
        ),
{
    let mut fields: Vec<(String, crate::json::JsonScalar)> = Vec::new();
    crate::json::push_text_field(&mut fields, "wallet", wallet.as_str());
    crate::json::push_text_field(&mut fields, "method", method.as_str());
    crate::json::push_uint_field(&mut fields, "op_renew", 0);
    let s = crate::json::obj_to_text(&fields);
    proof {
        assert(crate::json::fields_view(fields@) =~= seq![
            ("wallet"@, json_quote(wallet.spec_token())),
            ("method"@, json_quote(method.spec_token())),
            ("op_renew"@, dec_of(0)),
        ]);
    }
    s
}

/// The path of the public funding statistics of a symbol.  The query starts
/// with a bare question mark; the optional parameters each bring their own
/// ampersand.
pub open spec fn funding_stats_path_spec(
    symbol: Seq<char>,
    limit: Option<u16>,
    start: Option<i64>,
    end: Option<i64>,
) -> Seq<char> {
    "funding/stats/"@ + symbol + "/hist?"@ + crate::query::hist_params(limit, start, end)
}

/// Builds the path of the public funding statistics of a symbol.
pub fn funding_stats_path(
    symbol: &str,
    limit: Option<u16>,
    start: Option<i64>,
    end: Option<i64>,
) -> (p: String)
    ensures
        p@ == funding_stats_path_spec(symbol@, limit, start, end),
{
    let mut p = String::from_str("funding/stats/");
    p.append(symbol);
    p.append("/hist?");
    crate::query::append_hist_params(&mut p, limit, start, end);
    proof {
        assert(p@ =~= funding_stats_path_spec(symbol@, limit, start, end));
    }
    p
}

/// The path of the derivatives status of a comma-separated list of keys.
pub open spec fn deriv_status_path_spec(keys: Seq<char>) -> Seq<char> {
    "status/deriv?keys="@ + keys
}

/// Builds the path of the derivatives status of a comma-separated key list.
pub fn deriv_status_path(keys: &str) -> (p: String)
    ensures
        p@ == deriv_status_path_spec(keys@),
{
    let mut p = String::from_str("status/deriv?keys=");
    p.append(keys);
    proof {
        assert(p@ =~= deriv_status_path_spec(keys@));
    }
    p
}

/// A wallet row: its kind, currency, and three balances carried as the
/// wire's decimal text.  The wire row ends with two reserved slots.
#[derive(Debug, PartialEq, Eq)]
pub struct Wallet {
    pub typ: String,
    pub ccy: String,
    pub balance: String,
    pub unsettled_amount: String,
    pub free: String,
}

/// The wallet row schema: kind, currency, three numbers, two reserved
/// slots.
pub open spec fn wallet_schema_spec() -> Seq<crate::codec::FieldSpec> {
    seq![
        crate::codec::s_req(crate::codec::FieldKind::Str),
        crate::codec::s_req(crate::codec::FieldKind::Str),
        crate::codec::s_req(crate::codec::FieldKind::NumText),
        crate::codec::s_req(crate::codec::FieldKind::NumText),
        crate::codec::s_req(crate::codec::FieldKind::NumText),
        crate::codec::s_res(),
        crate::codec::s_res(),
    ]
}

/// Builds the wallet row schema.
pub fn wallet_schema() -> (s: Vec<crate::codec::FieldSpec>)
    ensures
        s@ == wallet_schema_spec(),
{
    let mut s: Vec<crate::codec::FieldSpec> = Vec::new();
    s.push(crate::codec::req(crate::codec::FieldKind::Str));
    s.push(crate::codec::req(crate::codec::FieldKind::Str));
    s.push(crate::codec::req(crate::codec::FieldKind::NumText));
    s.push(crate::codec::req(crate::codec::FieldKind::NumText));
    s.push(crate::codec::req(crate::codec::FieldKind::NumText));
    s.push(crate::codec::res());
    s.push(crate::codec::res());
    proof {
        assert(s@ =~= wallet_schema_spec());
    }
    s
}

/// True when the decoded fields of a wallet row carry exactly this record.
pub open spec fn wallet_matches(fvs: Seq<crate::codec::FieldValue>, w: Wallet) -> bool {
    &&& fvs.len() == 5
    &&& fvs[0] == crate::codec::FieldValue::Text(w.typ)
    &&& fvs[1] == crate::codec::FieldValue::Text(w.ccy)
    &&& fvs[2] == crate::codec::FieldValue::Num(w.balance)
    &&& fvs[3] == crate::codec::FieldValue::Num(w.unsettled_amount)
    &&& fvs[4] == crate::codec::FieldValue::Num(w.free)
}

/// Decodes one wallet row from its wire array.
pub fn wallet_from_json(v: &JsonValue) -> (r: Result<Wallet, BitfinexError>)
    ensures
        (match *v {
            JsonValue::Arr(items) => match crate::codec::decode_fields_spec(
                items@,
                wallet_schema_spec(),
            ) {
                Ok(fvs) => r matches Ok(w) && wallet_matches(fvs, w),
                Err(e) => r == Err::<Wallet, BitfinexError>(BitfinexError::DecodeError(e)),
            },
            _ => r == Err::<Wallet, BitfinexError>(
                BitfinexError::DecodeError(DecodeFailure::NotArray),
            ),
        }),
{
    match v {
        JsonValue::Arr(items) => {
            let schema = wallet_schema();
            match crate::codec::decode_fields(items, &schema) {
                Err(e) => Err(BitfinexError::DecodeError(e)),
                Ok(fvs) => {
                    proof {
                        reveal_with_fuel(crate::codec::decode_fields_from, 9);
                        assert(fvs@.len() == 5);
                        assert(fvs@[0] is Text);
                        assert(fvs@[1] is Text);
                        assert(fvs@[2] is Num);
                        assert(fvs@[3] is Num);
                        assert(fvs@[4] is Num);
                    }
                    let w = Wallet {
                        typ: crate::codec::take_text(&fvs[0]),
                        ccy: crate::codec::take_text(&fvs[1]),
                        balance: crate::codec::take_num(&fvs[2]),
                        unsettled_amount: crate::codec::take_num(&fvs[3]),
                        free: crate::codec::take_num(&fvs[4]),
                    };
                    Ok(w)
                },
            }
        },
        _ => Err(BitfinexError::DecodeError(DecodeFailure::NotArray)),
    }
}

/// True when the decoded fields of a wallet row carry this record, for a
/// whole wire element.
pub open spec fn wallet_elem_ok(jv: JsonValue, w: Wallet) -> bool {
    match jv {
        JsonValue::Arr(fields) => match crate::codec::decode_fields_spec(
            fields@,
            wallet_schema_spec(),
        ) {
            Ok(fvs) => wallet_matches(fvs, w),
            Err(_) => false,
        },
        _ => false,
    }
}

/// True when a wire element cannot decode as a wallet row.
pub open spec fn wallet_elem_fails(jv: JsonValue) -> bool {
    match jv {
        JsonValue::Arr(fields) => crate::codec::decode_fields_spec(fields@, wallet_schema_spec())
            is Err,
        _ => true,
    }
}

/// Decodes a wallet list from its wire array of rows.
#[verifier::loop_isolation(false)]
pub fn wallets_from_json(v: &JsonValue) -> (r: Result<Vec<Wallet>, BitfinexError>)
    ensures
        (match *v {
            JsonValue::Arr(items) => (match r {
                Ok(ws) => ws@.len() == items@.len() && forall|i: int|
                    0 <= i < items@.len() ==> wallet_elem_ok(items@[i], ws@[i]),
                Err(e) => e matches BitfinexError::DecodeError(_) && exists|i: int|
                    0 <= i < items@.len() && wallet_elem_fails(items@[i]),
            }),
            _ => r == Err::<Vec<Wallet>, BitfinexError>(
                BitfinexError::DecodeError(DecodeFailure::NotArray),
            ),
        }),
{
    match v {
        JsonValue::Arr(items) => {
            let n = items.len();
            let mut out: Vec<Wallet> = Vec::new();
            for i in 0..n
                invariant
                    n == items@.len(),
                    out@.len() == i,
                    forall|j: int| 0 <= j < i ==> wallet_elem_ok(items@[j], out@[j]),
            {
                match wallet_from_json(&items[i]) {
                    Ok(w) => {
                        out.push(w);
                    },
                    Err(e) => {
                        proof {
                            assert(wallet_elem_fails(items@[i as int]));
                        }
                        return Err(e);
                    },
                }
            }
            Ok(out)
        },
        _ => Err(BitfinexError::DecodeError(DecodeFailure::NotArray)),
    }
}

/// Decodes the wallet list a response body carries.
pub fn wallets_from_body(body: &str) -> (r: Result<Vec<Wallet>, BitfinexError>)
    ensures
        (match crate::json::json_of(body@) {
            None => r == Err::<Vec<Wallet>, BitfinexError>(
                BitfinexError::DecodeError(DecodeFailure::BadJson),
            ),
            Some(v) => (match v {
                JsonValue::Arr(items) => (match r {
                    Ok(ws) => ws@.len() == items@.len() && forall|i: int|
                        0 <= i < items@.len() ==> wallet_elem_ok(items@[i], ws@[i]),
                    Err(e) => e matches BitfinexError::DecodeError(_) && exists|i: int|
                        0 <= i < items@.len() && wallet_elem_fails(items@[i]),
                }),
                _ => r == Err::<Vec<Wallet>, BitfinexError>(
                    BitfinexError::DecodeError(DecodeFailure::NotArray),
                ),
            }),
        }),
{
    match crate::json::parse_json(body) {
        None => Err(BitfinexError::DecodeError(DecodeFailure::BadJson)),
        Some(v) => wallets_from_json(&v),
    }
}

/// One named permission row: the scope's name and its read and write bits.
#[derive(Debug, PartialEq, Eq)]
pub struct Permission {
    pub name: String,
    pub read: bool,
    pub write: bool,
}

/// The permission row schema: the name, then the two bits under the boolean
/// coercion rule.
pub open spec fn permission_schema_spec() -> Seq<crate::codec::FieldSpec> {
    seq![
        crate::codec::s_req(crate::codec::FieldKind::Str),
        crate::codec::s_req(crate::codec::FieldKind::Bool),
        crate::codec::s_req(crate::codec::FieldKind::Bool),
    ]
}

/// Builds the permission row schema.
pub fn permission_schema() -> (s: Vec<crate::codec::FieldSpec>)
    ensures
        s@ == permission_schema_spec(),
{
    let mut s: Vec<crate::codec::FieldSpec> = Vec::new();
    s.push(crate::codec::req(crate::codec::FieldKind::Str));
    s.push(crate::codec::req(crate::codec::FieldKind::Bool));
    s.push(crate::codec::req(crate::codec::FieldKind::Bool));
    proof {
        assert(s@ =~= permission_schema_spec());
    }
    s
}

/// True when the decoded fields of a permission row carry exactly this
/// record.
pub open spec fn permission_matches(fvs: Seq<crate::codec::FieldValue>, p: Permission) -> bool {
    &&& fvs.len() == 3
    &&& fvs[0] == crate::codec::FieldValue::Text(p.name)
    &&& fvs[1] == crate::codec::FieldValue::Bool(p.read)
    &&& fvs[2] == crate::codec::FieldValue::Bool(p.write)
}

/// Decodes one permission row from its wire array.
pub fn permission_from_json(v: &JsonValue) -> (r: Result<Permission, BitfinexError>)
    ensures
        (match *v {
            JsonValue::Arr(items) => match crate::codec::decode_fields_spec(
                items@,
                permission_schema_spec(),
            ) {
                Ok(fvs) => r matches Ok(p) && permission_matches(fvs, p),
                Err(e) => r == Err::<Permission, BitfinexError>(BitfinexError::DecodeError(e)),
            },
            _ => r == Err::<Permission, BitfinexError>(
                BitfinexError::DecodeError(DecodeFailure::NotArray),
            ),
        }),
{
    match v {
        JsonValue::Arr(items) => {
            let schema = permission_schema();
            match crate::codec::decode_fields(items, &schema) {
                Err(e) => Err(BitfinexError::DecodeError(e)),
                Ok(fvs) => {
                    proof {
                        reveal_with_fuel(crate::codec::decode_fields_from, 5);
                        assert(fvs@.len() == 3);
                        assert(fvs@[0] is Text);
                        assert(fvs@[1] is Bool);
                        assert(fvs@[2] is Bool);
                    }
                    Ok(
                        Permission {
                            name: crate::codec::take_text(&fvs[0]),
                            read: crate::codec::take_bool(&fvs[1]),
                            write: crate::codec::take_bool(&fvs[2]),
                        },
                    )
                },
            }
        },
        _ => Err(BitfinexError::DecodeError(DecodeFailure::NotArray)),
    }
}

/// True when the decoded fields of a permission row carry this record, for
/// a whole wire element.
pub open spec fn permission_elem_ok(jv: JsonValue, p: Permission) -> bool {
    match jv {
        JsonValue::Arr(fields) => match crate::codec::decode_fields_spec(
            fields@,
            permission_schema_spec(),
        ) {
            Ok(fvs) => permission_matches(fvs, p),
            Err(_) => false,
        },
        _ => false,
    }
}

/// True when a wire element cannot decode as a permission row.
pub open spec fn permission_elem_fails(jv: JsonValue) -> bool {
    match jv {
        JsonValue::Arr(fields) => crate::codec::decode_fields_spec(
            fields@,
            permission_schema_spec(),
        ) is Err,
        _ => true,
    }
}

/// Decodes a permission list from its wire array of rows.
#[verifier::loop_isolation(false)]
pub fn permissions_from_json(v: &JsonValue) -> (r: Result<Vec<Permission>, BitfinexError>)
    ensures
        (match *v {
            JsonValue::Arr(items) => (match r {
                Ok(ps) => ps@.len() == items@.len() && forall|i: int|
                    0 <= i < items@.len() ==> permission_elem_ok(items@[i], ps@[i]),
                Err(e) => e matches BitfinexError::DecodeError(_) && exists|i: int|
                    0 <= i < items@.len() && permission_elem_fails(items@[i]),
            }),
            _ => r == Err::<Vec<Permission>, BitfinexError>(
                BitfinexError::DecodeError(DecodeFailure::NotArray),
            ),
        }),
{
    match v {
        JsonValue::Arr(items) => {
            let n = items.len();
            let mut out: Vec<Permission> = Vec::new();
            for i in 0..n
                invariant
                    n == items@.len(),
                    out@.len() == i,
                    forall|j: int| 0 <= j < i ==> permission_elem_ok(items@[j], out@[j]),
            {
                match permission_from_json(&items[i]) {
                    Ok(p) => {
                        out.push(p);
                    },
                    Err(e) => {
                        proof {
                            assert(permission_elem_fails(items@[i as int]));
                        }
                        return Err(e);
                    },
                }
            }
            Ok(out)
        },
        _ => Err(BitfinexError::DecodeError(DecodeFailure::NotArray)),
    }
}

/// The full permission set of an API key, one row per scope.
#[derive(Debug, PartialEq, Eq)]
pub struct KeyPermission {
    pub account: Permission,
    pub orders: Permission,
    pub funding: Permission,
    pub settings: Permission,
    pub wallets: Permission,
    pub withdraw: Permission,
    pub history: Permission,
    pub positions: Permission,
    pub ui_withdraw: Permission,
    pub bfxpay: Permission,
    pub eaas_agreement: Permission,
    pub eaas_withdraw: Permission,
    pub eaas_deposit: Permission,
    pub eaas_brokerage: Permission,
}

/// The last permission row carrying the given scope name, if any; later
/// rows shadow earlier ones.
pub open spec fn find_perm(ps: Seq<Permission>, name: Seq<char>) -> Option<Permission>
    decreases ps.len(),
{
    if ps.len() == 0 {
        None
    } else if ps.last().name@ == name {
        Some(ps.last())
    } else {
        find_perm(ps.drop_last(), name)
    }
}

/// Finds the last permission row carrying the given scope name.
fn lookup_perm(perms: &Vec<Permission>, name: &str) -> (r: Option<Permission>)
    ensures
        r == find_perm(perms@, name@),
    decreases perms@.len(),
{
    let mut i = perms.len();
    proof {
        assert(perms@.take(perms@.len() as int) =~= perms@);
    }
    while i > 0
        invariant
            i <= perms@.len(),
            find_perm(perms@, name@) == find_perm(perms@.take(i as int), name@),
        decreases i,
    {
        i = i - 1;
        proof {
            assert(perms@.take(i + 1).drop_last() =~= perms@.take(i as int));
            assert(perms@.take(i + 1).last() == perms@[i as int]);
        }
        if crate::text::str_eq(perms[i].name.as_str(), name) {
            let p = Permission {
                name: perms[i].name.clone(),
                read: perms[i].read,
                write: perms[i].write,
            };
            proof {
                assert(p == perms@[i as int]);
            }
            return Some(p);
        }
    }
    proof {
        assert(perms@.take(0) =~= Seq::<Permission>::empty());
    }
    None
}

/// True when every one of the fourteen capability scopes appears among the
/// decoded rows.
pub open spec fn all_scopes_present(ps: Seq<Permission>) -> bool {
    &&& find_perm(ps, "account"@) is Some
    &&& find_perm(ps, "orders"@) is Some
    &&& find_perm(ps, "funding"@) is Some
    &&& find_perm(ps, "settings"@) is Some
    &&& find_perm(ps, "wallets"@) is Some
    &&& find_perm(ps, "withdraw"@) is Some
    &&& find_perm(ps, "history"@) is Some
    &&& find_perm(ps, "positions"@) is Some
    &&& find_perm(ps, "ui_withdraw"@) is Some
    &&& find_perm(ps, "bfxpay"@) is Some
    &&& find_perm(ps, "eaas_agreement"@) is Some
    &&& find_perm(ps, "eaas_withdraw"@) is Some
    &&& find_perm(ps, "eaas_deposit"@) is Some
    &&& find_perm(ps, "eaas_brokerage"@) is Some
}

/// True when the named permission set carries, for each scope, the last
/// decoded row of that scope's name.
pub open spec fn key_permission_matches(ps: Seq<Permission>, kp: KeyPermission) -> bool {
    &&& Some(kp.account) == find_perm(ps, "account"@)
    &&& Some(kp.orders) == find_perm(ps, "orders"@)
    &&& Some(kp.funding) == find_perm(ps, "funding"@)
    &&& Some(kp.settings) == find_perm(ps, "settings"@)
    &&& Some(kp.wallets) == find_perm(ps, "wallets"@)
    &&& Some(kp.withdraw) == find_perm(ps, "withdraw"@)
    &&& Some(kp.history) == find_perm(ps, "history"@)
    &&& Some(kp.positions) == find_perm(ps, "positions"@)
    &&& Some(kp.ui_withdraw) == find_perm(ps, "ui_withdraw"@)
    &&& Some(kp.bfxpay) == find_perm(ps, "bfxpay"@)
    &&& Some(kp.eaas_agreement) == find_perm(ps, "eaas_agreement"@)
    &&& Some(kp.eaas_withdraw) == find_perm(ps, "eaas_withdraw"@)
    &&& Some(kp.eaas_deposit) == find_perm(ps, "eaas_deposit"@)
    &&& Some(kp.eaas_brokerage) == find_perm(ps, "eaas_brokerage"@)
}

/// True when a wire array decodes, row by row, to exactly these permission
/// rows.
pub open spec fn permission_list_ok(items: Seq<JsonValue>, ps: Seq<Permission>) -> bool {
    ps.len() == items.len() && forall|i: int|
        0 <= i < items.len() ==> permission_elem_ok(items[i], ps[i])
}

/// Assembles the named permission set from the decoded rows; each of the
/// fourteen scopes must be present, and the last row of a name wins.
pub fn key_permission_from_permissions(perms: &Vec<Permission>) -> (r: Result<
    KeyPermission,
    BitfinexError,
>)
    ensures
        r is Ok <==> all_scopes_present(perms@),
        r matches Ok(kp) ==> key_permission_matches(perms@, kp),
        r matches Err(e) ==> e == BitfinexError::DecodeError(DecodeFailure::MissingEntry),
{
    let account = lookup_perm(perms, "account");
    let orders = lookup_perm(perms, "orders");
    let funding = lookup_perm(perms, "funding");
    let settings = lookup_perm(perms, "settings");
    let wallets = lookup_perm(perms, "wallets");
    let withdraw = lookup_perm(perms, "withdraw");
    let history = lookup_perm(perms, "history");
    let positions = lookup_perm(perms, "positions");
    let ui_withdraw = lookup_perm(perms, "ui_withdraw");
    let bfxpay = lookup_perm(perms, "bfxpay");
    let eaas_agreement = lookup_perm(perms, "eaas_agreement");
    let eaas_withdraw = lookup_perm(perms, "eaas_withdraw");
    let eaas_deposit = lookup_perm(perms, "eaas_deposit");
    let eaas_brokerage = lookup_perm(perms, "eaas_brokerage");
    match (account, orders, funding, settings, wallets, withdraw, history, positions, ui_withdraw,
        bfxpay, eaas_agreement, eaas_withdraw, eaas_deposit, eaas_brokerage) {
        (
            Some(account),
            Some(orders),
            Some(funding),
            Some(settings),
            Some(wallets),
            Some(withdraw),
            Some(history),
            Some(positions),
            Some(ui_withdraw),
            Some(bfxpay),
            Some(eaas_agreement),
            Some(eaas_withdraw),
            Some(eaas_deposit),
            Some(eaas_brokerage),
        ) => Ok(
            KeyPermission {
                account,
                orders,
                funding,
                settings,
                wallets,
                withdraw,
                history,
                positions,
                ui_withdraw,
                bfxpay,
                eaas_agreement,
                eaas_withdraw,
                eaas_deposit,
                eaas_brokerage,
            },
        ),
        _ => Err(BitfinexError::DecodeError(DecodeFailure::MissingEntry)),
    }
}

/// The platform status record: one bit under the boolean coercion rule.
#[derive(Debug, PartialEq, Eq)]
pub struct PlatformStatus {
    pub status: bool,
}

/// Decodes the platform status from its one-element wire array.
pub fn platform_status_from_json(v: &JsonValue) -> (r: Result<PlatformStatus, BitfinexError>)
    ensures
        (match *v {
            JsonValue::Arr(items) => match crate::codec::decode_fields_spec(
                items@,
                seq![crate::codec::s_req(crate::codec::FieldKind::Bool)],
            ) {
                Ok(fvs) => r matches Ok(p) && fvs.len() == 1 && fvs[0]
                    == crate::codec::FieldValue::Bool(p.status),
                Err(e) => r == Err::<PlatformStatus, BitfinexError>(BitfinexError::DecodeError(e)),
            },
            _ => r == Err::<PlatformStatus, BitfinexError>(
                BitfinexError::DecodeError(DecodeFailure::NotArray),
            ),
        }),
{
    match v {
        JsonValue::Arr(items) => {
            let mut schema: Vec<crate::codec::FieldSpec> = Vec::new();
            schema.push(crate::codec::req(crate::codec::FieldKind::Bool));
            proof {
                assert(schema@ =~= seq![crate::codec::s_req(crate::codec::FieldKind::Bool)]);
            }
            match crate::codec::decode_fields(items, &schema) {
                Err(e) => Err(BitfinexError::DecodeError(e)),
                Ok(fvs) => {
                    proof {
                        reveal_with_fuel(crate::codec::decode_fields_from, 3);
                        assert(fvs@.len() == 1);
                        assert(fvs@[0] is Bool);
                    }
                    Ok(PlatformStatus { status: crate::codec::take_bool(&fvs[0]) })
                },
            }
        },
        _ => Err(BitfinexError::DecodeError(DecodeFailure::NotArray)),
    }
}

/// One statistics row: the sample time and its value as decimal text.
#[derive(Debug, PartialEq, Eq)]
pub struct Stat {
    pub time: i64,
    pub value: String,
}

/// The statistics row schema: the sample's epoch milliseconds and value.
pub open spec fn stat_schema_spec() -> Seq<crate::codec::FieldSpec> {
    seq![
        crate::codec::s_req(crate::codec::FieldKind::TimeMs),
        crate::codec::s_req(crate::codec::FieldKind::NumText),
    ]
}

/// True when the decoded fields of a statistics row carry exactly this
/// record.
pub open spec fn stat_matches(fvs: Seq<crate::codec::FieldValue>, s: Stat) -> bool {
    &&& fvs.len() == 2
    &&& fvs[0] == crate::codec::FieldValue::Time(s.time)
    &&& fvs[1] == crate::codec::FieldValue::Num(s.value)
}

/// Decodes one statistics row from its wire array.
pub fn stat_from_json(v: &JsonValue) -> (r: Result<Stat, BitfinexError>)
    ensures
        (match *v {
            JsonValue::Arr(items) => match crate::codec::decode_fields_spec(
                items@,
                stat_schema_spec(),
            ) {
                Ok(fvs) => r matches Ok(s) && stat_matches(fvs, s),
                Err(e) => r == Err::<Stat, BitfinexError>(BitfinexError::DecodeError(e)),
            },
            _ => r == Err::<Stat, BitfinexError>(
                BitfinexError::DecodeError(DecodeFailure::NotArray),
            ),
        }),
{
    match v {
        JsonValue::Arr(items) => {
            let mut schema: Vec<crate::codec::FieldSpec> = Vec::new();
            schema.push(crate::codec::req(crate::codec::FieldKind::TimeMs));
            schema.push(crate::codec::req(crate::codec::FieldKind::NumText));
            proof {
                assert(schema@ =~= stat_schema_spec());
            }
            match crate::codec::decode_fields(items, &schema) {
                Err(e) => Err(BitfinexError::DecodeError(e)),
                Ok(fvs) => {
                    proof {
                        reveal_with_fuel(crate::codec::decode_fields_from, 4);
                        assert(fvs@.len() == 2);
                        assert(fvs@[0] is Time);
                        assert(fvs@[1] is Num);
                    }
                    Ok(
                        Stat {
                            time: crate::codec::take_time(&fvs[0]),
                            value: crate::codec::take_num(&fvs[1]),
                        },
                    )
                },
            }
        },
        _ => Err(BitfinexError::DecodeError(DecodeFailure::NotArray)),
    }
}

/// True when a wire element decodes to this statistics row.
pub open spec fn stat_elem_ok(jv: JsonValue, s: Stat) -> bool {
    match jv {
        JsonValue::Arr(fields) => match crate::codec::decode_fields_spec(
            fields@,
            stat_schema_spec(),
        ) {
            Ok(fvs) => stat_matches(fvs, s),
            Err(_) => false,
        },
        _ => false,
    }
}

/// True when a wire element cannot decode as a statistics row.
pub open spec fn stat_elem_fails(jv: JsonValue) -> bool {
    match jv {
        JsonValue::Arr(fields) => crate::codec::decode_fields_spec(fields@, stat_schema_spec())
            is Err,
        _ => true,
    }
}

/// Decodes a statistics list from its wire array of rows.
#[verifier::loop_isolation(false)]
pub fn stats_from_json(v: &JsonValue) -> (r: Result<Vec<Stat>, BitfinexError>)
    ensures
        (match *v {
            JsonValue::Arr(items) => (match r {
                Ok(ss) => ss@.len() == items@.len() && forall|i: int|
                    0 <= i < items@.len() ==> stat_elem_ok(items@[i], ss@[i]),
                Err(e) => e matches BitfinexError::DecodeError(_) && exists|i: int|
                    0 <= i < items@.len() && stat_elem_fails(items@[i]),
            }),
            _ => r == Err::<Vec<Stat>, BitfinexError>(
                BitfinexError::DecodeError(DecodeFailure::NotArray),
            ),
        }),
{
    match v {
        JsonValue::Arr(items) => {
            let n = items.len();
            let mut out: Vec<Stat> = Vec::new();
            for i in 0..n
                invariant
                    n == items@.len(),
                    out@.len() == i,
                    forall|j: int| 0 <= j < i ==> stat_elem_ok(items@[j], out@[j]),
            {
                match stat_from_json(&items[i]) {
                    Ok(s) => {
                        out.push(s);
                    },
                    Err(e) => {
                        proof {
                            assert(stat_elem_fails(items@[i as int]));
                        }
                        return Err(e);
                    },
                }
            }
            Ok(out)
        },
        _ => Err(BitfinexError::DecodeError(DecodeFailure::NotArray)),
    }
}

/// Decodes the statistics list a response body carries.
pub fn stats_from_body(body: &str) -> (r: Result<Vec<Stat>, BitfinexError>)
    ensures
        (match crate::json::json_of(body@) {
            None => r == Err::<Vec<Stat>, BitfinexError>(
                BitfinexError::DecodeError(DecodeFailure::BadJson),
            ),
            Some(v) => (match v {
                JsonValue::Arr(items) => (match r {
                    Ok(ss) => ss@.len() == items@.len() && forall|i: int|
                        0 <= i < items@.len() ==> stat_elem_ok(items@[i], ss@[i]),
                    Err(e) => e matches BitfinexError::DecodeError(_) && exists|i: int|
                        0 <= i < items@.len() && stat_elem_fails(items@[i]),
                }),
                _ => r == Err::<Vec<Stat>, BitfinexError>(
                    BitfinexError::DecodeError(DecodeFailure::NotArray),
                ),
            }),
        }),
{
    match crate::json::parse_json(body) {
        None => Err(BitfinexError::DecodeError(DecodeFailure::BadJson)),
        Some(v) => stats_from_json(&v),
    }
}

/// One ledger row; the amounts keep the wire's decimal text, and the wire
/// row intersperses two reserved slots.
#[derive(Debug, PartialEq, Eq)]
pub struct Ledger {
    pub id: u64,
    pub ccy: String,
    pub wallet: String,
    pub time: i64,
    pub amount: String,
    pub balance: String,
    pub description: Option<String>,
}

/// The ledger row schema.
pub open spec fn ledger_schema_spec() -> Seq<crate::codec::FieldSpec> {
    seq![
        crate::codec::s_req(crate::codec::FieldKind::UIntMax(0xffff_ffff_ffff_ffffu64)),
        crate::codec::s_req(crate::codec::FieldKind::Str),
        crate::codec::s_req(crate::codec::FieldKind::Str),
        crate::codec::s_req(crate::codec::FieldKind::TimeMs),
        crate::codec::s_res(),
        crate::codec::s_req(crate::codec::FieldKind::NumText),
        crate::codec::s_req(crate::codec::FieldKind::NumText),
        crate::codec::s_res(),
        crate::codec::s_opt(crate::codec::FieldKind::Str),
    ]
}

/// The decoded form an optional text field must take.
pub open spec fn opt_text_value(v: Option<String>) -> crate::codec::FieldValue {
    match v {
        Some(s) => crate::codec::FieldValue::Text(s),
        None => crate::codec::FieldValue::Null,
    }
}

/// True when the decoded fields of a ledger row carry exactly this record.
pub open spec fn ledger_matches(fvs: Seq<crate::codec::FieldValue>, l: Ledger) -> bool {
    &&& fvs.len() == 7
    &&& fvs[0] == crate::codec::FieldValue::UInt(l.id)
    &&& fvs[1] == crate::codec::FieldValue::Text(l.ccy)
    &&& fvs[2] == crate::codec::FieldValue::Text(l.wallet)
    &&& fvs[3] == crate::codec::FieldValue::Time(l.time)
    &&& fvs[4] == crate::codec::FieldValue::Num(l.amount)
    &&& fvs[5] == crate::codec::FieldValue::Num(l.balance)
    &&& fvs[6] == opt_text_value(l.description)
}

/// Decodes one ledger row from its wire array.
pub fn ledger_from_json(v: &JsonValue) -> (r: Result<Ledger, BitfinexError>)
    ensures
        (match *v {
            JsonValue::Arr(items) => match crate::codec::decode_fields_spec(
                items@,
                ledger_schema_spec(),
            ) {
                Ok(fvs) => r matches Ok(l) && ledger_matches(fvs, l),
                Err(e) => r == Err::<Ledger, BitfinexError>(BitfinexError::DecodeError(e)),
            },
            _ => r == Err::<Ledger, BitfinexError>(
                BitfinexError::DecodeError(DecodeFailure::NotArray),
            ),
        }),
{
    match v {
        JsonValue::Arr(items) => {
            let mut schema: Vec<crate::codec::FieldSpec> = Vec::new();
            schema.push(crate::codec::req(crate::codec::FieldKind::UIntMax(0xffff_ffff_ffff_ffffu64)));
            schema.push(crate::codec::req(crate::codec::FieldKind::Str));
            schema.push(crate::codec::req(crate::codec::FieldKind::Str));
            schema.push(crate::codec::req(crate::codec::FieldKind::TimeMs));
            schema.push(crate::codec::res());
            schema.push(crate::codec::req(crate::codec::FieldKind::NumText));
            schema.push(crate::codec::req(crate::codec::FieldKind::NumText));
            schema.push(crate::codec::res());
            schema.push(crate::codec::opt(crate::codec::FieldKind::Str));
            proof {
                assert(schema@ =~= ledger_schema_spec());
            }
            match crate::codec::decode_fields(items, &schema) {
                Err(e) => Err(BitfinexError::DecodeError(e)),
                Ok(fvs) => {
                    proof {
                        reveal_with_fuel(crate::codec::decode_fields_from, 11);
                        assert(fvs@.len() == 7);
                        assert(fvs@[0] is UInt);
                        assert(fvs@[1] is Text);
                        assert(fvs@[2] is Text);
                        assert(fvs@[3] is Time);
                        assert(fvs@[4] is Num);
                        assert(fvs@[5] is Num);
                        assert(fvs@[6] is Text || fvs@[6] is Null);
                    }
                    Ok(
                        Ledger {
                            id: crate::codec::take_u64(&fvs[0]),
                            ccy: crate::codec::take_text(&fvs[1]),
                            wallet: crate::codec::take_text(&fvs[2]),
                            time: crate::codec::take_time(&fvs[3]),
                            amount: crate::codec::take_num(&fvs[4]),
                            balance: crate::codec::take_num(&fvs[5]),
                            description: crate::codec::take_opt_text(&fvs[6]),
                        },
                    )
                },
            }
        },
        _ => Err(BitfinexError::DecodeError(DecodeFailure::NotArray)),
    }
}

/// True when a wire element decodes to this ledger row.
pub open spec fn ledger_elem_ok(jv: JsonValue, l: Ledger) -> bool {
    match jv {
        JsonValue::Arr(fields) => match crate::codec::decode_fields_spec(
            fields@,
            ledger_schema_spec(),
        ) {
            Ok(fvs) => ledger_matches(fvs, l),
            Err(_) => false,
        },
        _ => false,
    }
}

/// True when a wire element cannot decode as a ledger row.
pub open spec fn ledger_elem_fails(jv: JsonValue) -> bool {
    match jv {
        JsonValue::Arr(fields) => crate::codec::decode_fields_spec(fields@, ledger_schema_spec())
            is Err,
        _ => true,
    }
}

/// Decodes a ledger list from its wire array of rows.
#[verifier::loop_isolation(false)]
pub fn ledgers_from_json(v: &JsonValue) -> (r: Result<Vec<Ledger>, BitfinexError>)
    ensures
        (match *v {
            JsonValue::Arr(items) => (match r {
                Ok(ls) => ls@.len() == items@.len() && forall|i: int|
                    0 <= i < items@.len() ==> ledger_elem_ok(items@[i], ls@[i]),
                Err(e) => e matches BitfinexError::DecodeError(_) && exists|i: int|
                    0 <= i < items@.len() && ledger_elem_fails(items@[i]),
            }),
            _ => r == Err::<Vec<Ledger>, BitfinexError>(
                BitfinexError::DecodeError(DecodeFailure::NotArray),
            ),
        }),
{
    match v {
        JsonValue::Arr(items) => {
            let n = items.len();
            let mut out: Vec<Ledger> = Vec::new();
            for i in 0..n
                invariant
                    n == items@.len(),
                    out@.len() == i,
                    forall|j: int| 0 <= j < i ==> ledger_elem_ok(items@[j], out@[j]),
            {
                match ledger_from_json(&items[i]) {
                    Ok(l) => {
                        out.push(l);
                    },
                    Err(e) => {
                        proof {
                            assert(ledger_elem_fails(items@[i as int]));
                        }
                        return Err(e);
                    },
                }
            }
            Ok(out)
        },
        _ => Err(BitfinexError::DecodeError(DecodeFailure::NotArray)),
    }
}

/// Decodes the ledger list a response body carries.
pub fn ledgers_from_body(body: &str) -> (r: Result<Vec<Ledger>, BitfinexError>)
    ensures
        (match crate::json::json_of(body@) {
            None => r == Err::<Vec<Ledger>, BitfinexError>(
                BitfinexError::DecodeError(DecodeFailure::BadJson),
            ),
            Some(v) => (match v {
                JsonValue::Arr(items) => (match r {
                    Ok(ls) => ls@.len() == items@.len() && forall|i: int|
                        0 <= i < items@.len() ==> ledger_elem_ok(items@[i], ls@[i]),
                    Err(e) => e matches BitfinexError::DecodeError(_) && exists|i: int|
                        0 <= i < items@.len() && ledger_elem_fails(items@[i]),
                }),
                _ => r == Err::<Vec<Ledger>, BitfinexError>(
                    BitfinexError::DecodeError(DecodeFailure::NotArray),
                ),
            }),
        }),
{
    match crate::json::parse_json(body) {
        None => Err(BitfinexError::DecodeError(DecodeFailure::BadJson)),
        Some(v) => ledgers_from_json(&v),
    }
}

/// One deposit address row: the method, currency and address; the wire row
/// holds two reserved slots and an optional pool address.
#[derive(Debug, PartialEq, Eq)]
pub struct DepositAddress {
    pub method: String,
    pub ccy: String,
    pub address: String,
    pub pool_address: Option<String>,
}

/// The deposit address row schema.
pub open spec fn deposit_address_schema_spec() -> Seq<crate::codec::FieldSpec> {
    seq![
        crate::codec::s_res(),
        crate::codec::s_req(crate::codec::FieldKind::Str),
        crate::codec::s_req(crate::codec::FieldKind::Str),
        crate::codec::s_res(),
        crate::codec::s_req(crate::codec::FieldKind::Str),
        crate::codec::s_opt(crate::codec::FieldKind::Str),
    ]
}

/// True when the decoded fields of a deposit address row carry exactly this
/// record.
pub open spec fn deposit_address_matches(
    fvs: Seq<crate::codec::FieldValue>,
    d: DepositAddress,
) -> bool {
    &&& fvs.len() == 4
    &&& fvs[0] == crate::codec::FieldValue::Text(d.method)
    &&& fvs[1] == crate::codec::FieldValue::Text(d.ccy)
    &&& fvs[2] == crate::codec::FieldValue::Text(d.address)
    &&& fvs[3] == opt_text_value(d.pool_address)
}

/// Decodes one deposit address row from its wire array.
pub fn deposit_address_from_json(v: &JsonValue) -> (r: Result<DepositAddress, BitfinexError>)
    ensures
        (match *v {
            JsonValue::Arr(items) => match crate::codec::decode_fields_spec(
                items@,
                deposit_address_schema_spec(),
            ) {
                Ok(fvs) => r matches Ok(d) && deposit_address_matches(fvs, d),
                Err(e) => r == Err::<DepositAddress, BitfinexError>(BitfinexError::DecodeError(e)),
            },
            _ => r == Err::<DepositAddress, BitfinexError>(
                BitfinexError::DecodeError(DecodeFailure::NotArray),
            ),
        }),
{
    match v {
        JsonValue::Arr(items) => {
            let mut schema: Vec<crate::codec::FieldSpec> = Vec::new();
            schema.push(crate::codec::res());
            schema.push(crate::codec::req(crate::codec::FieldKind::Str));
            schema.push(crate::codec::req(crate::codec::FieldKind::Str));
            schema.push(crate::codec::res());
            schema.push(crate::codec::req(crate::codec::FieldKind::Str));
            schema.push(crate::codec::opt(crate::codec::FieldKind::Str));
            proof {
                assert(schema@ =~= deposit_address_schema_spec());
            }
            match crate::codec::decode_fields(items, &schema) {
                Err(e) => Err(BitfinexError::DecodeError(e)),
                Ok(fvs) => {
                    proof {
                        reveal_with_fuel(crate::codec::decode_fields_from, 8);
                        assert(fvs@.len() == 4);
                        assert(fvs@[0] is Text);
                        assert(fvs@[1] is Text);
                        assert(fvs@[2] is Text);
                        assert(fvs@[3] is Text || fvs@[3] is Null);
                    }
                    Ok(
                        DepositAddress {
                            method: crate::codec::take_text(&fvs[0]),
                            ccy: crate::codec::take_text(&fvs[1]),
                            address: crate::codec::take_text(&fvs[2]),
                            pool_address: crate::codec::take_opt_text(&fvs[3]),
                        },
                    )
                },
            }
        },
        _ => Err(BitfinexError::DecodeError(DecodeFailure::NotArray)),
    }
}

/// True when a wire element decodes to this deposit address row.
pub open spec fn deposit_address_elem_ok(jv: JsonValue, d: DepositAddress) -> bool {
    match jv {
        JsonValue::Arr(fields) => match crate::codec::decode_fields_spec(
            fields@,
            deposit_address_schema_spec(),
        ) {
            Ok(fvs) => deposit_address_matches(fvs, d),
            Err(_) => false,
        },
        _ => false,
    }
}

/// True when a wire element cannot decode as a deposit address row.
pub open spec fn deposit_address_elem_fails(jv: JsonValue) -> bool {
    match jv {
        JsonValue::Arr(fields) => crate::codec::decode_fields_spec(
            fields@,
            deposit_address_schema_spec(),
        ) is Err,
        _ => true,
    }
}

/// Decodes a deposit address list from its wire array of rows.
#[verifier::loop_isolation(false)]
pub fn deposit_addresses_from_json(v: &JsonValue) -> (r: Result<Vec<DepositAddress>, BitfinexError>)
    ensures
        (match *v {
            JsonValue::Arr(items) => (match r {
                Ok(ds) => ds@.len() == items@.len() && forall|i: int|
                    0 <= i < items@.len() ==> deposit_address_elem_ok(items@[i], ds@[i]),
                Err(e) => e matches BitfinexError::DecodeError(_) && exists|i: int|
                    0 <= i < items@.len() && deposit_address_elem_fails(items@[i]),
            }),
            _ => r == Err::<Vec<DepositAddress>, BitfinexError>(
                BitfinexError::DecodeError(DecodeFailure::NotArray),
            ),
        }),
{
    match v {
        JsonValue::Arr(items) => {
            let n = items.len();
            let mut out: Vec<DepositAddress> = Vec::new();
            for i in 0..n
                invariant
                    n == items@.len(),
                    out@.len() == i,
                    forall|j: int| 0 <= j < i ==> deposit_address_elem_ok(items@[j], out@[j]),
            {
                match deposit_address_from_json(&items[i]) {
                    Ok(d) => {
                        out.push(d);
                    },
                    Err(e) => {
                        proof {
                            assert(deposit_address_elem_fails(items@[i as int]));
                        }
                        return Err(e);
                    },
                }
            }
            Ok(out)
        },
        _ => Err(BitfinexError::DecodeError(DecodeFailure::NotArray)),
    }
}

/// The notification envelope around a list of deposit addresses.
#[derive(Debug, PartialEq, Eq)]
pub struct DepositAddressResult {
    pub created: i64,
    pub noti_type: String,
    pub message_id: Option<String>,
    pub addresses: Vec<DepositAddress>,
    pub code: Option<u64>,
    pub status: String,
    pub message: Option<String>,
}

/// The envelope schema around a deposit address list; the slot holding the
/// list itself is consumed here and decoded row by row.
pub open spec fn deposit_address_result_schema_spec() -> Seq<crate::codec::FieldSpec> {
    seq![
        crate::codec::s_req(crate::codec::FieldKind::TimeMs),
        crate::codec::s_req(crate::codec::FieldKind::Str),
        crate::codec::s_opt(crate::codec::FieldKind::Str),
        crate::codec::s_res(),
        crate::codec::s_res(),
        crate::codec::s_opt(crate::codec::FieldKind::UIntMax(255)),
        crate::codec::s_req(crate::codec::FieldKind::Str),
        crate::codec::s_opt(crate::codec::FieldKind::Str),
    ]
}

/// The decoded form an optional unsigned field must take.
pub open spec fn opt_u64_value(v: Option<u64>) -> crate::codec::FieldValue {
    match v {
        Some(n) => crate::codec::FieldValue::UInt(n),
        None => crate::codec::FieldValue::Null,
    }
}

/// True when the decoded envelope fields carry exactly this result record,
/// apart from its address list.
pub open spec fn deposit_address_result_matches(
    fvs: Seq<crate::codec::FieldValue>,
    r: DepositAddressResult,
) -> bool {
    &&& fvs.len() == 6
    &&& fvs[0] == crate::codec::FieldValue::Time(r.created)
    &&& fvs[1] == crate::codec::FieldValue::Text(r.noti_type)
    &&& fvs[2] == opt_text_value(r.message_id)
    &&& fvs[3] == opt_u64_value(r.code)
    &&& fvs[4] == crate::codec::FieldValue::Text(r.status)
    &&& fvs[5] == opt_text_value(r.message)
}

/// Decodes a deposit address notification envelope: the envelope's own
/// fields under its schema, and the address slot as a list of rows.
pub fn deposit_address_result_from_json(v: &JsonValue) -> (r: Result<
    DepositAddressResult,
    BitfinexError,
>)
    ensures
        (match *v {
            JsonValue::Arr(items) => match crate::codec::decode_fields_spec(
                items@,
                deposit_address_result_schema_spec(),
            ) {
                Ok(fvs) => items@.len() == 8 && (match items@[4] {
                    JsonValue::Arr(rows) => (match r {
                        Ok(res) => deposit_address_result_matches(fvs, res)
                            && res.addresses@.len() == rows@.len() && forall|i: int|
                            0 <= i < rows@.len() ==> deposit_address_elem_ok(
                                rows@[i],
                                res.addresses@[i],
                            ),
                        Err(e) => e matches BitfinexError::DecodeError(_) && exists|i: int|
                            0 <= i < rows@.len() && deposit_address_elem_fails(rows@[i]),
                    }),
                    _ => r == Err::<DepositAddressResult, BitfinexError>(
                        BitfinexError::DecodeError(DecodeFailure::NotArray),
                    ),
                }),
                Err(e) => r == Err::<DepositAddressResult, BitfinexError>(
                    BitfinexError::DecodeError(e),
                ),
            },
            _ => r == Err::<DepositAddressResult, BitfinexError>(
                BitfinexError::DecodeError(DecodeFailure::NotArray),
            ),
        }),
{
    match v {
        JsonValue::Arr(items) => {
            let mut schema: Vec<crate::codec::FieldSpec> = Vec::new();
            schema.push(crate::codec::req(crate::codec::FieldKind::TimeMs));
            schema.push(crate::codec::req(crate::codec::FieldKind::Str));
            schema.push(crate::codec::opt(crate::codec::FieldKind::Str));
            schema.push(crate::codec::res());
            schema.push(crate::codec::res());
            schema.push(crate::codec::opt(crate::codec::FieldKind::UIntMax(255)));
            schema.push(crate::codec::req(crate::codec::FieldKind::Str));
            schema.push(crate::codec::opt(crate::codec::FieldKind::Str));
            proof {
                assert(schema@ =~= deposit_address_result_schema_spec());
            }
            match crate::codec::decode_fields(items, &schema) {
                Err(e) => Err(BitfinexError::DecodeError(e)),
                Ok(fvs) => {
                    proof {
                        reveal_with_fuel(crate::codec::decode_fields_from, 10);
                        assert(fvs@.len() == 6);
                        assert(fvs@[0] is Time);
                        assert(fvs@[1] is Text);
                        assert(fvs@[2] is Text || fvs@[2] is Null);
                        assert(fvs@[3] is Null || fvs@[3] is UInt);
                        assert(fvs@[4] is Text);
                        assert(fvs@[5] is Text || fvs@[5] is Null);
                        assert(items@.len() == 8);
                    }
                    match deposit_addresses_from_json(&items[4]) {
                        Err(e) => Err(e),
                        Ok(addresses) => {
                            let res = DepositAddressResult {
                                created: crate::codec::take_time(&fvs[0]),
                                noti_type: crate::codec::take_text(&fvs[1]),
                                message_id: crate::codec::take_opt_text(&fvs[2]),
                                addresses,
                                code: crate::codec::take_opt_u64(&fvs[3]),
                                status: crate::codec::take_text(&fvs[4]),
                                message: crate::codec::take_opt_text(&fvs[5]),
                            };
                            Ok(res)
                        },
                    }
                },
            }
        },
        _ => Err(BitfinexError::DecodeError(DecodeFailure::NotArray)),
    }
}

/// Decodes the permission list a response body carries and assembles the
/// named permission set from it.  Success is owed exactly when the body is
/// a JSON array whose every row decodes and whose rows cover all fourteen
/// scopes.
pub fn key_permission_from_body(body: &str) -> (r: Result<KeyPermission, BitfinexError>)
    ensures
        (match crate::json::json_of(body@) {
            None => r == Err::<KeyPermission, BitfinexError>(
                BitfinexError::DecodeError(DecodeFailure::BadJson),
            ),
            Some(v) => (match v {
                JsonValue::Arr(items) => (match r {
                    Ok(kp) => exists|ps: Seq<Permission>|
                        permission_list_ok(items@, ps) && all_scopes_present(ps)
                            && key_permission_matches(ps, kp),
                    Err(e) => (e == BitfinexError::DecodeError(DecodeFailure::MissingEntry)
                        && exists|ps: Seq<Permission>|
                        permission_list_ok(items@, ps) && !all_scopes_present(ps)) || ((
                    e matches BitfinexError::DecodeError(_)) && exists|i: int|
                        0 <= i < items@.len() && permission_elem_fails(items@[i])),
                }),
                _ => r == Err::<KeyPermission, BitfinexError>(
                    BitfinexError::DecodeError(DecodeFailure::NotArray),
                ),
            }),
        }),
{
    match crate::json::parse_json(body) {
        None => Err(BitfinexError::DecodeError(DecodeFailure::BadJson)),
        Some(v) => match permissions_from_json(&v) {
            Err(e) => Err(e),
            Ok(perms) => {
                let r = key_permission_from_permissions(&perms);
                proof {
                    if v is Arr {
                        let items = v->Arr_0;
                        assert(permission_list_ok(items@, perms@));
                    }
                }
                r
            },
        },
    }
}

} // verus!
