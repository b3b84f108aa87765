//! Bot detection and Cloudflare challenge detection.
//!
//! Identifies challenge pages that require a headless browser fallback.

use vstd::prelude::*;
use crate::text::{chars_of, contains_str, has_sub, to_lower, unicode_lower};

verus! {

/// The page holds JSON-LD product data.
pub open spec fn product_data_spec(b: Seq<char>) -> bool {
    has_sub(b, "application/ld+json"@)
}

/// The page holds a Cloudflare-specific challenge marker.
pub open spec fn cloudflare_spec(b: Seq<char>) -> bool {
    ||| has_sub(b, "just a moment..."@)
    ||| has_sub(b, "cf-browser-verification"@)
    ||| has_sub(b, "_cf_chl_opt"@)
    ||| has_sub(b, "checking your browser"@)
    ||| has_sub(b, "ray id:"@)
    ||| has_sub(b, "cf-challenge"@)
    ||| has_sub(b, "__cf_bm"@)
    ||| has_sub(b, "/cdn-cgi/challenge-platform/"@)
}

/// The page holds an explicit bot-protection message.
pub open spec fn explicit_protection_spec(b: Seq<char>) -> bool {
    ||| has_sub(b, "bot detected"@)
    ||| has_sub(b, "please verify you are a human"@)
    ||| has_sub(b, "enable javascript and cookies"@)
    ||| has_sub(b, "pardon our interruption"@)
}

/// The page is suspiciously small or has no body element.
pub open spec fn minimal_page_spec(b: Seq<char>, byte_len: int) -> bool {
    byte_len < 5000 || !has_sub(b, "<body"@)
}

/// The verdict on a lowercased body of `byte_len` bytes served with `status`.
pub open spec fn challenge_spec(status: u16, b: Seq<char>, byte_len: int) -> bool {
    &&& !product_data_spec(b)
    &&& (cloudflare_spec(b) || explicit_protection_spec(b) || ((status == 403 || status == 503)
        && minimal_page_spec(b, byte_len)))
}

/// Check if the response is a Cloudflare challenge page or other bot protection.
///
/// Returns true if the response appears to be a bot protection challenge rather
/// than actual page content. Detection priority:
/// 1. Pages with JSON-LD product data are real content -> false
/// 2. Strong bot protection indicators (Cloudflare markers, explicit blocks) -> true
/// 3. 403/503 with minimal content (likely challenge page) -> true
///
/// Markers are matched against the Unicode-lowercased body; the size limit
/// is on the body's length in bytes.
pub fn is_cloudflare_challenge(status: u16, body: &str) -> (r: bool)
    ensures
        r == challenge_spec(status, unicode_lower(body@), body.len() as int),
{
    let lowered = to_lower(body);
    let body_lower = lowered.as_str();
    if has_product_data(body_lower) {
        return false;
    }
    if has_cloudflare_indicators(body_lower) || has_explicit_bot_protection(body_lower) {
        return true;
    }
    let is_bot_blocked_status = status == 403 || status == 503;
    is_bot_blocked_status && is_minimal_challenge_page(body_lower, body.len())
}

/// Check if the page contains JSON-LD product data (indicates real content).
pub fn has_product_data(body_lower: &str) -> (r: bool)
    ensures
        r == product_data_spec(body_lower@),
{
    let b = chars_of(body_lower);
    contains_str(b.as_slice(), "application/ld+json")
}

/// Check for Cloudflare-specific challenge indicators.
///
/// Plain "cloudflare" is deliberately not a marker: pages that load
/// resources from Cloudflare's CDN are not challenge pages.
pub fn has_cloudflare_indicators(body_lower: &str) -> (r: bool)
    ensures
        r == cloudflare_spec(body_lower@),
{
    let b = chars_of(body_lower);
    let b = b.as_slice();
    contains_str(b, "just a moment...") || contains_str(b, "cf-browser-verification")
        || contains_str(b, "_cf_chl_opt") || contains_str(b, "checking your browser")
        || contains_str(b, "ray id:") || contains_str(b, "cf-challenge") || contains_str(b, "__cf_bm")
        || contains_str(b, "/cdn-cgi/challenge-platform/")
}

/// Check for explicit bot protection messages from various providers.
pub fn has_explicit_bot_protection(body_lower: &str) -> (r: bool)
    ensures
        r == explicit_protection_spec(body_lower@),
{
    let b = chars_of(body_lower);
    let b = b.as_slice();
    contains_str(b, "bot detected") || contains_str(b, "please verify you are a human")
        || contains_str(b, "enable javascript and cookies") || contains_str(b, "pardon our interruption")
}

/// Check if the page is suspiciously minimal (likely a challenge, not real content):
/// shorter than 5000 bytes or missing a body element.
pub fn is_minimal_challenge_page(body_lower: &str, body_len: usize) -> (r: bool)
    ensures
        r == minimal_page_spec(body_lower@, body_len as int),
{
    if body_len < 5000 {
        return true;
    }
    let b = chars_of(body_lower);
    !contains_str(b.as_slice(), "<body")
}

} // verus!
