//! The swap-routing service as the engine sees it: the requests it takes, the
//! answers it gives, where it is reached, and the bound on slippage.

use vstd::prelude::*;
use vstd::string::StringExecFns;
use crate::text::{decimal, push_decimal};

verus! {

/// An HTTP client of `reqwest`.
#[verifier::external_type_specification]
#[verifier::external_body]
pub struct ExClient(reqwest::Client);

/// A JSON value of `serde_json`, carried through unread.
#[verifier::external_type_specification]
#[verifier::external_body]
pub struct ExValue(serde_json::Value);

/// `reqwest::Client::new`: a client with the crate's default settings.
/// Nothing is claimed of it. With the features that this crate asks of
/// `reqwest`, none of them a TLS backend, building the client has no failing
/// branch, so the call does not give up.
#[verifier::external_body]
pub(crate) fn new_http_client() -> (client: reqwest::Client) {
    reqwest::Client::new()
}

/// `s` without the run of `c` at its end.
pub open spec fn without_trailing(s: Seq<char>, c: char) -> Seq<char>
    decreases s.len(),
{
    if s.len() > 0 && s.last() == c {
        without_trailing(s.drop_last(), c)
    } else {
        s
    }
}

/// Dropping trailing characters twice is dropping them once, and what is
/// left does not end in the character.
pub proof fn lemma_without_trailing(s: Seq<char>, c: char)
    ensures
        without_trailing(s, c).len() <= s.len(),
        without_trailing(s, c) == s.take(without_trailing(s, c).len() as int),
        without_trailing(s, c).len() > 0 ==> without_trailing(s, c).last() != c,
        without_trailing(without_trailing(s, c), c) == without_trailing(s, c),
    decreases s.len(),
{
    if s.len() > 0 && s.last() == c {
        lemma_without_trailing(s.drop_last(), c);
        let kept = without_trailing(s.drop_last(), c);
        assert(s.drop_last().take(kept.len() as int) =~= s.take(kept.len() as int));
    } else {
        assert(s.take(s.len() as int) =~= s);
    }
}

/// The text without the slashes at its end.
fn trim_trailing_slashes(s: &str) -> (trimmed: &str)
    ensures
        trimmed@ == without_trailing(s@, '/'),
{
    let mut end = s.unicode_len();
    assert(s@.take(end as int) =~= s@);
    while end > 0 && s.get_char(end - 1) == '/'
        invariant
            end <= s@.len(),
            without_trailing(s@, '/') == without_trailing(s@.take(end as int), '/'),
        decreases end,
    {
        assert(s@.take(end as int).drop_last() =~= s@.take(end - 1));
        end -= 1;
    }
    s.substring_char(0, end)
}

pub struct JupiterClient {
    base_url: String,
    http: reqwest::Client,
}

impl JupiterClient {
    /// The address of the service, with no `/` at its end.
    pub closed spec fn spec_base_url(&self) -> Seq<char> {
        self.base_url@
    }

    /// A client of the service at `base_url`; any `/` at the end of the
    /// address is dropped.
    pub fn new(base_url: String) -> (client: Self)
        ensures
            client.spec_base_url() == without_trailing(base_url@, '/'),
            client.spec_base_url().len() > 0 ==> client.spec_base_url().last() != '/',
    {
        proof {
            lemma_without_trailing(base_url@, '/');
        }
        JupiterClient {
            base_url: trim_trailing_slashes(base_url.as_str()).to_owned(),
            http: new_http_client(),
        }
    }

    pub fn base_url(&self) -> (url: &String)
        ensures
            url@ == self.spec_base_url(),
    {
        &self.base_url
    }

    /// The HTTP client that requests go out through.
    pub fn http(&self) -> (client: &reqwest::Client)
        ensures
            *client == self.spec_http(),
    {
        &self.http
    }

    /// The HTTP client that this client of the service holds: the one that
    /// it was made with, for as long as it lives.
    pub closed spec fn spec_http(&self) -> reqwest::Client {
        self.http
    }

    /// Where a quote is asked for: the address followed by `/quote`.
    pub fn quote_url(&self) -> (url: String)
        ensures
            url@ == self.spec_base_url() + "/quote"@,
    {
        let mut url = self.base_url.clone();
        url.append("/quote");
        url
    }

    /// Where a swap is asked for: the address followed by `/swap`.
    pub fn swap_url(&self) -> (url: String)
        ensures
            url@ == self.spec_base_url() + "/swap"@,
    {
        let mut url = self.base_url.clone();
        url.append("/swap");
        url
    }
}

#[derive(Debug, Clone)]
pub struct QuoteRequest {
    pub input_mint: String,
    pub output_mint: String,
    /// Amount in the input mint's base units, in decimal.
    pub amount: String,
    pub slippage_bps: u64,
    pub only_direct_routes: Option<bool>,
}

#[derive(Debug)]
pub struct QuoteResponse {
    pub out_amount: String,
    /// The route plan, kept as the service gave it.
    pub rest: serde_json::Value,
}

#[derive(Debug)]
pub struct SwapRequest {
    pub quote_response: serde_json::Value,
    pub user_public_key: String,
    pub wrap_and_unwrap_sol: Option<bool>,
    pub compute_unit_price_micro_lamports: Option<u64>,
}

#[derive(Debug)]
pub struct SwapResponse {
    /// The transaction to sign, in base64.
    pub swap_transaction: String,
    pub rest: serde_json::Value,
}

/// Why a slippage tolerance is refused.
#[derive(Debug, Clone, Copy, PartialEq, Eq, Structural)]
pub enum SlippageError {
    /// A tolerance of zero basis points.
    Zero,
    /// A tolerance above the configured maximum.
    ExceedsMax { slippage_bps: u64, max_slippage_bps: u64 },
}

/// What `ensure_slippage_bounds` answers.
pub open spec fn slippage_verdict(slippage_bps: u64, max_slippage_bps: u64) -> Result<
    (),
    SlippageError,
> {
    if slippage_bps == 0 {
        Err(SlippageError::Zero)
    } else if slippage_bps > max_slippage_bps {
        Err(SlippageError::ExceedsMax { slippage_bps, max_slippage_bps })
    } else {
        Ok(())
    }
}

/// Accepts a slippage tolerance that is positive and at most the maximum.
pub fn ensure_slippage_bounds(slippage_bps: u64, max_slippage_bps: u64) -> (verdict: Result<
    (),
    SlippageError,
>)
    ensures
        verdict == slippage_verdict(slippage_bps, max_slippage_bps),
        verdict is Ok <==> 0 < slippage_bps <= max_slippage_bps,
{
    if slippage_bps == 0 {
        return Err(SlippageError::Zero);
    }
    if slippage_bps > max_slippage_bps {
        return Err(SlippageError::ExceedsMax { slippage_bps, max_slippage_bps });
    }
    Ok(())
}

impl SlippageError {
    /// The refusal in words.
    pub open spec fn spec_message(self) -> Seq<char> {
        match self {
            SlippageError::Zero => "slippage_bps cannot be 0"@,
            SlippageError::ExceedsMax { slippage_bps, max_slippage_bps } => "slippage_bps ("@
                + decimal(slippage_bps as nat) + ") exceeds max_slippage_bps ("@ + decimal(
                max_slippage_bps as nat,
            ) + ")"@,
        }
    }

    /// The refusal in words.
    pub fn message(&self) -> (text: String)
        ensures
            text@ == self.spec_message(),
    {
        match *self {
            SlippageError::Zero => "slippage_bps cannot be 0".to_owned(),
            SlippageError::ExceedsMax { slippage_bps, max_slippage_bps } => {
                let mut text = "slippage_bps (".to_owned();
                push_decimal(&mut text, slippage_bps);
                text.append(") exceeds max_slippage_bps (");
                push_decimal(&mut text, max_slippage_bps);
                text.append(")");
                assert(text@ =~= self.spec_message());
                text
            },
        }
    }
}

} // verus!
