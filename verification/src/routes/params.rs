use vstd::prelude::*;
use crate::error::ApiError;

verus! {

/// The most bytes that a key, a label or a search text may have.
pub const MAX_KEY_BYTES: usize = 128;

/// The number of rows asked for when a request names no limit.
pub const DEFAULT_LIMIT: i64 = 5;

/// The most rows that a request may ask for.
pub const MAX_LIMIT: i64 = 50;

/// A key is acceptable when it is not empty and its UTF-8 encoding has at most
/// `MAX_KEY_BYTES` bytes.
pub open spec fn key_is_valid(key: Seq<char>) -> bool {
    key.len() > 0 && vstd::utf8::encode_utf8(key).len() <= MAX_KEY_BYTES
}

/// Accepts a key, or refuses it with `InvalidKey`.
pub fn validate_key(key: &str) -> (r: Result<(), ApiError>)
    ensures
        r is Ok <==> key_is_valid(key@),
        r is Err ==> r == Err::<(), ApiError>(ApiError::InvalidKey),
{
    if key.is_empty() || key.as_bytes().len() > MAX_KEY_BYTES {
        return Err(ApiError::InvalidKey);
    }
    Ok(())
}

/// The limit that a request asks for: the one it names, or `DEFAULT_LIMIT`.
pub open spec fn requested_limit(limit: Option<i64>) -> i64 {
    match limit {
        Some(n) => n,
        None => DEFAULT_LIMIT,
    }
}

/// A limit is acceptable from 1 to `MAX_LIMIT`.
pub open spec fn limit_is_valid(n: i64) -> bool {
    1 <= n <= MAX_LIMIT
}

/// The limit to use, or `InvalidLimit`.
pub fn sanitize_limit(limit: Option<i64>) -> (r: Result<i64, ApiError>)
    ensures
        r is Ok <==> limit_is_valid(requested_limit(limit)),
        r matches Ok(n) ==> n == requested_limit(limit),
        r is Err ==> r == Err::<i64, ApiError>(ApiError::InvalidLimit),
{
    let n = match limit {
        Some(n) => n,
        None => DEFAULT_LIMIT,
    };
    if n <= 0 || n > MAX_LIMIT {
        return Err(ApiError::InvalidLimit);
    }
    Ok(n)
}

/// Whether a language code is one of the two that the terminology holds.
pub open spec fn lang_is_known(lang: Seq<char>) -> bool {
    lang == "ga"@ || lang == "en"@
}

/// Accepts `ga` or `en`, or refuses with `InvalidLang`.
pub fn validate_lang(lang: &String) -> (r: Result<(), ApiError>)
    ensures
        r is Ok <==> lang_is_known(lang@),
        r is Err ==> r == Err::<(), ApiError>(ApiError::InvalidLang),
{
    let ga = String::from_str("ga");
    let en = String::from_str("en");
    if *lang != ga && *lang != en {
        return Err(ApiError::InvalidLang);
    }
    Ok(())
}

} // verus!
