//! Small helpers shared by the client: credential checks, endpoint
//! addresses, decimal text and fresh conversation identifiers.

use crate::errors::ApiError;
use vstd::prelude::*;

verus! {

/// The address every endpoint of the service lives under.
pub const BASE_URL: &'static str = "https://developers.sarufi.io";

/// Checks that a credential is not empty.
pub fn validate_keys(api_key: &str) -> (outcome: Result<(), ApiError>)
    ensures
        api_key@.len() == 0 ==> outcome == Err::<(), ApiError>(ApiError::InvalidApiKey()),
        api_key@.len() != 0 ==> outcome == Ok::<(), ApiError>(()),
{
    if api_key.is_empty() {
        Err(ApiError::InvalidApiKey())
    } else {
        Ok(())
    }
}

/// The full address of the endpoint at `path`.
pub fn api_url(path: &str) -> (url: String)
    ensures
        url@ == BASE_URL@ + path@,
{
    BASE_URL.to_owned().concat(path)
}

/// The character that stands for a single decimal digit.
pub open spec fn digit_char(digit: nat) -> char {
    if digit == 0 {
        '0'
    } else if digit == 1 {
        '1'
    } else if digit == 2 {
        '2'
    } else if digit == 3 {
        '3'
    } else if digit == 4 {
        '4'
    } else if digit == 5 {
        '5'
    } else if digit == 6 {
        '6'
    } else if digit == 7 {
        '7'
    } else if digit == 8 {
        '8'
    } else {
        '9'
    }
}

/// The decimal numeral of `n`, most significant digit first and without
/// leading zeros.
pub open spec fn decimal(n: nat) -> Seq<char>
    decreases n,
{
    if n < 10 {
        seq![digit_char(n)]
    } else {
        decimal(n / 10).push(digit_char(n % 10))
    }
}

fn digit_text(digit: usize) -> (text: &'static str)
    requires
        digit < 10,
    ensures
        text@ == seq![digit_char(digit as nat)],
{
    proof {
        reveal_strlit("0");
        reveal_strlit("1");
        reveal_strlit("2");
        reveal_strlit("3");
        reveal_strlit("4");
        reveal_strlit("5");
        reveal_strlit("6");
        reveal_strlit("7");
        reveal_strlit("8");
        reveal_strlit("9");
    }
    let text = if digit == 0 {
        "0"
    } else if digit == 1 {
        "1"
    } else if digit == 2 {
        "2"
    } else if digit == 3 {
        "3"
    } else if digit == 4 {
        "4"
    } else if digit == 5 {
        "5"
    } else if digit == 6 {
        "6"
    } else if digit == 7 {
        "7"
    } else if digit == 8 {
        "8"
    } else {
        "9"
    };
    assert(text@ =~= seq![digit_char(digit as nat)]);
    text
}

/// Writes `n` as a decimal numeral.
pub fn decimal_text(n: usize) -> (text: String)
    ensures
        text@ == decimal(n as nat),
    decreases n,
{
    if n < 10 {
        digit_text(n).to_owned()
    } else {
        let text = decimal_text(n / 10).concat(digit_text(n % 10));
        assert(text@ =~= decimal(n as nat));
        text
    }
}

/// Draws a fresh random identifier from `uuid::Uuid::new_v4` and renders it
/// with the crate's `Display`, which writes the hyphenated form: 36
/// characters. Which identifier comes back is left open.
#[verifier::external_body]
pub(crate) fn generate_uuid() -> (id: String)
    ensures
        id@.len() == 36,
{
    uuid::Uuid::new_v4().to_string()
}

} // verus!
