//! How raw settings are read: flags, numbers, the quote asset, and which of
//! two names of a setting wins.

use vstd::prelude::*;
use vstd::string::StringExecFns;

verus! {

#[derive(Debug, Clone, Copy, PartialEq, Eq, Structural)]
pub enum QuoteAsset {
    SOL,
    USDC,
}

/// Why the settings cannot be used.
#[derive(Debug, Clone)]
pub enum ConfigError {
    /// The quote asset is neither `SOL` nor `USDC`; `value` is what was
    /// given, in upper case.
    InvalidQuoteAsset { value: String },
}

/// Whether a character is white space: one of the 25 characters that Unicode
/// gives the property `White_Space`.
pub open spec fn is_white_space(c: char) -> bool {
    ||| '\u{9}' <= c <= '\u{d}'
    ||| c == ' '
    ||| c == '\u{85}'
    ||| c == '\u{a0}'
    ||| c == '\u{1680}'
    ||| '\u{2000}' <= c <= '\u{200a}'
    ||| c == '\u{2028}'
    ||| c == '\u{2029}'
    ||| c == '\u{202f}'
    ||| c == '\u{205f}'
    ||| c == '\u{3000}'
}

/// `text` without the white space at its end.
pub open spec fn without_trailing_space(text: Seq<char>) -> Seq<char>
    decreases text.len(),
{
    if text.len() > 0 && is_white_space(text.last()) {
        without_trailing_space(text.drop_last())
    } else {
        text
    }
}

/// `text` without the white space at its start.
pub open spec fn without_leading_space(text: Seq<char>) -> Seq<char>
    decreases text.len(),
{
    if text.len() > 0 && is_white_space(text.first()) {
        without_leading_space(text.drop_first())
    } else {
        text
    }
}

/// `text` without the white space at its ends.
pub open spec fn trimmed(text: Seq<char>) -> Seq<char> {
    without_leading_space(without_trailing_space(text))
}

/// `text` in lower case, as `str::to_lowercase` defines it.
pub uninterp spec fn lowercased(text: Seq<char>) -> Seq<char>;

/// `text` in upper case, as `str::to_uppercase` defines it.
pub uninterp spec fn uppercased(text: Seq<char>) -> Seq<char>;

/// The digit that a character stands for, if it is one of `0` to `9`.
pub open spec fn digit_of(c: char) -> Option<nat> {
    if '0' <= c <= '9' {
        Some((c as nat - '0' as nat) as nat)
    } else {
        None
    }
}

/// The number that a run of digits stands for in decimal, or none where a
/// character of the run is no digit. An empty run stands for zero.
pub open spec fn digits_value(digits: Seq<char>) -> Option<nat>
    decreases digits.len(),
{
    if digits.len() == 0 {
        Some(0)
    } else {
        match (digits_value(digits.drop_last()), digit_of(digits.last())) {
            (Some(value), Some(digit)) => Some(value * 10 + digit),
            _ => None,
        }
    }
}

/// The number that a run of at least one digit stands for, where it is
/// within `u64`.
pub open spec fn number_of(digits: Seq<char>) -> Option<u64> {
    if digits.len() == 0 {
        None
    } else {
        match digits_value(digits) {
            Some(value) => if value <= u64::MAX {
                Some(value as u64)
            } else {
                None
            },
            None => None,
        }
    }
}

/// The number that `text` is the decimal notation of: at least one digit,
/// after at most one `+`, and nothing else; none where the text is not of
/// that form or the number is beyond `u64`.
pub open spec fn parsed_u64(text: Seq<char>) -> Option<u64> {
    if text.len() > 0 && text[0] == '+' {
        number_of(text.drop_first())
    } else {
        number_of(text)
    }
}

/// A run that stands for a number beyond `u64`, or for none, does so however
/// it goes on.
pub proof fn lemma_digits_value_grows(digits: Seq<char>, n: int)
    requires
        0 <= n <= digits.len(),
    ensures
        digits_value(digits.take(n)) is None ==> digits_value(digits) is None,
        digits_value(digits) matches Some(value) ==> digits_value(digits.take(n)) matches Some(
            part,
        ) && part <= value,
    decreases digits.len(),
{
    if n == digits.len() {
        assert(digits.take(n) =~= digits);
    } else {
        assert(digits.drop_last().take(n) =~= digits.take(n));
        lemma_digits_value_grows(digits.drop_last(), n);
    }
}

/// Reads a number in decimal.
pub fn parse_u64(text: &str) -> (result: Option<u64>)
    ensures
        result == parsed_u64(text@),
{
    let len = text.unicode_len();
    let start: usize = if len > 0 && text.get_char(0) == '+' {
        1
    } else {
        0
    };
    if start == len {
        return None;
    }
    let ghost digits = text@.subrange(start as int, len as int);
    assert(digits =~= if start == 1 {
        text@.drop_first()
    } else {
        text@
    });
    let mut value: u64 = 0;
    let mut i: usize = start;
    assert(digits.take(0) =~= Seq::<char>::empty());
    while i < len
        invariant
            start <= i <= len,
            len == text@.len(),
            digits == text@.subrange(start as int, len as int),
            parsed_u64(text@) == number_of(digits),
            digits_value(digits.take(i - start)) == Some(value as nat),
        decreases len - i,
    {
        let c = text.get_char(i);
        assert(digits.take(i - start + 1).drop_last() =~= digits.take(i - start));
        assert(digits.take(i - start + 1).last() == c);
        proof {
            lemma_digits_value_grows(digits, i - start + 1);
        }
        if !('0' <= c && c <= '9') {
            return None;
        }
        let digit: u64 = (c as u32 - '0' as u32) as u64;
        let next = match value.checked_mul(10) {
            Some(tens) => tens.checked_add(digit),
            None => None,
        };
        match next {
            Some(sum) => {
                value = sum;
            },
            None => {
                return None;
            },
        }
        i += 1;
    }
    assert(digits.take(len - start) =~= digits);
    Some(value)
}

/// Decides `is_white_space`.
fn is_space(c: char) -> (space: bool)
    ensures
        space == is_white_space(c),
{
    ('\u{9}' <= c && c <= '\u{d}') || c == ' ' || c == '\u{85}' || c == '\u{a0}' || c == '\u{1680}'
        || ('\u{2000}' <= c && c <= '\u{200a}') || c == '\u{2028}' || c == '\u{2029}' || c
        == '\u{202f}' || c == '\u{205f}' || c == '\u{3000}'
}

/// The text without the white space at its ends.
pub fn trim(text: &str) -> (result: &str)
    ensures
        result@ == trimmed(text@),
{
    let mut end = text.unicode_len();
    assert(text@.take(end as int) =~= text@);
    while end > 0 && is_space(text.get_char(end - 1))
        invariant
            end <= text@.len(),
            without_trailing_space(text@) == without_trailing_space(text@.take(end as int)),
        decreases end,
    {
        assert(text@.take(end as int).drop_last() =~= text@.take(end - 1));
        end -= 1;
    }
    let ghost kept = text@.take(end as int);
    assert(without_trailing_space(text@) == kept);
    let mut start: usize = 0;
    assert(text@.subrange(0, end as int) =~= kept);
    while start < end && is_space(text.get_char(start))
        invariant
            start <= end <= text@.len(),
            without_leading_space(kept) == without_leading_space(
                text@.subrange(start as int, end as int),
            ),
        decreases end - start,
    {
        assert(text@.subrange(start as int, end as int).drop_first() =~= text@.subrange(
            start + 1,
            end as int,
        ));
        start += 1;
    }
    text.substring_char(start, end)
}

/// `str::to_lowercase`. The contract names the result and claims only that it
/// depends on the text alone.
#[verifier::external_body]
fn to_lowercase(text: &str) -> (result: String)
    ensures
        result@ == lowercased(text@),
{
    text.to_lowercase()
}

/// `str::to_uppercase`. The contract names the result and claims only that it
/// depends on the text alone.
#[verifier::external_body]
fn to_uppercase(text: &str) -> (result: String)
    ensures
        result@ == uppercased(text@),
{
    text.to_uppercase()
}

/// Whether `text` reads exactly `word`.
fn reads(text: &String, word: &str) -> (same: bool)
    ensures
        same == (text@ == word@),
{
    *text == word.to_owned()
}

/// The meaning of a flag's text once trimmed and put in lower case: one of
/// five ways to say yes, one of five ways to say no, or else the default.
pub open spec fn flag_of(value: Seq<char>, default: bool) -> bool {
    if value == "1"@ || value == "true"@ || value == "yes"@ || value == "y"@ || value == "on"@ {
        true
    } else if value == "0"@ || value == "false"@ || value == "no"@ || value == "n"@ || value
        == "off"@ {
        false
    } else {
        default
    }
}

/// The meaning of a flag as it was set, if it was set.
pub open spec fn flag_value(raw: Option<Seq<char>>, default: bool) -> bool {
    match raw {
        None => default,
        Some(text) => flag_of(lowercased(trimmed(text)), default),
    }
}

/// Reads a flag's text that is already trimmed and in lower case.
pub fn flag_from_normalized(value: &String, default: bool) -> (flag: bool)
    ensures
        flag == flag_of(value@, default),
{
    if reads(value, "1") || reads(value, "true") || reads(value, "yes") || reads(value, "y")
        || reads(value, "on") {
        true
    } else if reads(value, "0") || reads(value, "false") || reads(value, "no") || reads(
        value,
        "n",
    ) || reads(value, "off") {
        false
    } else {
        default
    }
}

/// Reads a flag: white space around it and the case of its letters do not
/// count, and a flag that is unset, empty or unintelligible has its default.
pub fn env_flag(raw: Option<&str>, default: bool) -> (flag: bool)
    ensures
        flag == flag_value(
            match raw {
                Some(text) => Some(text@),
                None => None,
            },
            default,
        ),
{
    match raw {
        None => default,
        Some(text) => {
            let value = to_lowercase(trim(text));
            flag_from_normalized(&value, default)
        },
    }
}

/// The value of a numeric setting once read: what was read, or the default
/// where nothing was.
pub fn number_or(read: Option<u64>, default: u64) -> (value: u64)
    ensures
        value == match read {
            Some(number) => number,
            None => default,
        },
{
    match read {
        Some(number) => number,
        None => default,
    }
}

/// The value of a count once read: what was read where it is a `usize`, or
/// else the default.
pub fn count_or(read: Option<u64>, default: usize) -> (value: usize)
    ensures
        value == match read {
            Some(number) => if number <= usize::MAX {
                number as usize
            } else {
                default
            },
            None => default,
        },
{
    match read {
        Some(number) => if number <= usize::MAX as u64 {
            number as usize
        } else {
            default
        },
        None => default,
    }
}

/// What a numeric setting's text reads as, if it was set.
pub open spec fn number_read(raw: Option<Seq<char>>) -> Option<u64> {
    match raw {
        Some(text) => parsed_u64(text),
        None => None,
    }
}

/// Reads a numeric setting: a setting that is unset or is not a number has
/// its default.
pub fn env_number(raw: Option<&str>, default: u64) -> (value: u64)
    ensures
        value == match number_read(
            match raw {
                Some(text) => Some(text@),
                None => None,
            },
        ) {
            Some(number) => number,
            None => default,
        },
{
    match raw {
        Some(text) => number_or(parse_u64(text), default),
        None => default,
    }
}

/// Reads a count: a setting that is unset, is not a number or is too large
/// has its default.
pub fn env_count(raw: Option<&str>, default: usize) -> (value: usize)
    ensures
        value == match number_read(
            match raw {
                Some(text) => Some(text@),
                None => None,
            },
        ) {
            Some(number) => if number <= usize::MAX {
                number as usize
            } else {
                default
            },
            None => default,
        },
{
    match raw {
        Some(text) => count_or(parse_u64(text), default),
        None => default,
    }
}

/// Whether swaps are only simulated where nothing says otherwise: they are.
pub const DEFAULT_DRY_RUN: bool = true;

/// The most positions held at once where nothing says otherwise.
pub const DEFAULT_MAX_OPEN_POSITIONS: usize = 3;

/// The slippage tolerance of a swap, in basis points, where nothing says
/// otherwise.
pub const DEFAULT_SLIPPAGE_BPS: u64 = 50;

/// The highest slippage tolerance that is accepted, in basis points, where
/// nothing says otherwise.
pub const DEFAULT_MAX_SLIPPAGE_BPS: u64 = 100;

/// The latency, in milliseconds, beyond which the failover RPC is used, where
/// nothing says otherwise.
pub const DEFAULT_RPC_FAILOVER_P95_MS: u64 = 150;

/// The tip of a bundle, in lamports, where nothing says otherwise.
pub const DEFAULT_JITO_TIP_LAMPORTS: u64 = 5_000;

/// Reads the dry-run flag. Swaps are sent only where the flag is set and
/// says no: unset, empty or unintelligible means dry run.
pub fn dry_run_setting(raw: Option<&str>) -> (dry_run: bool)
    ensures
        dry_run == flag_value(
            match raw {
                Some(text) => Some(text@),
                None => None,
            },
            true,
        ),
        raw is None ==> dry_run,
{
    env_flag(raw, DEFAULT_DRY_RUN)
}

/// Reads the most positions held at once.
pub fn max_open_positions_setting(raw: Option<&str>) -> (count: usize)
    ensures
        count == match number_read(
            match raw {
                Some(text) => Some(text@),
                None => None,
            },
        ) {
            Some(number) => if number <= usize::MAX {
                number as usize
            } else {
                3
            },
            None => 3,
        },
{
    env_count(raw, DEFAULT_MAX_OPEN_POSITIONS)
}

/// Reads the slippage tolerance of a swap and the highest that is accepted.
pub fn slippage_settings(raw: Option<&str>, raw_max: Option<&str>) -> (bps: (u64, u64))
    ensures
        bps.0 == match number_read(
            match raw {
                Some(text) => Some(text@),
                None => None,
            },
        ) {
            Some(number) => number,
            None => 50,
        },
        bps.1 == match number_read(
            match raw_max {
                Some(text) => Some(text@),
                None => None,
            },
        ) {
            Some(number) => number,
            None => 100,
        },
{
    (env_number(raw, DEFAULT_SLIPPAGE_BPS), env_number(raw_max, DEFAULT_MAX_SLIPPAGE_BPS))
}

/// The quote asset that a name in upper case stands for.
pub open spec fn quote_asset_of(upper: Seq<char>) -> Option<QuoteAsset> {
    if upper == "SOL"@ {
        Some(QuoteAsset::SOL)
    } else if upper == "USDC"@ {
        Some(QuoteAsset::USDC)
    } else {
        None
    }
}

/// Reads the name of a quote asset that is already in upper case.
pub fn quote_asset_from_normalized(upper: String) -> (asset: Result<QuoteAsset, ConfigError>)
    ensures
        match asset {
            Ok(found) => quote_asset_of(upper@) == Some(found),
            Err(ConfigError::InvalidQuoteAsset { value }) => quote_asset_of(upper@) is None
                && value@ == upper@,
        },
{
    if reads(&upper, "SOL") {
        Ok(QuoteAsset::SOL)
    } else if reads(&upper, "USDC") {
        Ok(QuoteAsset::USDC)
    } else {
        Err(ConfigError::InvalidQuoteAsset { value: upper })
    }
}

/// Reads the quote asset: `USDC` where none is named, else the asset whose
/// name, put in upper case, was given.
pub fn parse_quote_asset(raw: Option<&str>) -> (asset: Result<QuoteAsset, ConfigError>)
    ensures
        match raw {
            None => asset matches Ok(found) && found == QuoteAsset::USDC,
            Some(text) => match asset {
                Ok(found) => quote_asset_of(uppercased(text@)) == Some(found),
                Err(ConfigError::InvalidQuoteAsset { value }) => quote_asset_of(
                    uppercased(text@),
                ) is None && value@ == uppercased(text@),
            },
        },
{
    match raw {
        None => Ok(QuoteAsset::USDC),
        Some(text) => quote_asset_from_normalized(to_uppercase(text)),
    }
}

/// The value of a setting that has a current name and an older one: the
/// current name wins.
pub fn prefer(current: Option<String>, legacy: Option<String>) -> (chosen: Option<String>)
    ensures
        chosen == match current {
            Some(value) => Some(value),
            None => legacy,
        },
{
    match current {
        Some(value) => Some(value),
        None => legacy,
    }
}

impl ConfigError {
    /// The error in words.
    pub open spec fn spec_message(self) -> Seq<char> {
        match self {
            ConfigError::InvalidQuoteAsset { value } => "invalid QUOTE_ASSET/SIE_QUOTE_ASSET: "@
                + value@,
        }
    }

    /// The error in words.
    pub fn message(&self) -> (text: String)
        ensures
            text@ == self.spec_message(),
    {
        match self {
            ConfigError::InvalidQuoteAsset { value } => {
                let mut text = "invalid QUOTE_ASSET/SIE_QUOTE_ASSET: ".to_owned();
                text.append(value.as_str());
                text
            },
        }
    }
}

} // verus!
