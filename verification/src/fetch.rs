//! How a product page is fetched: a plain HTTP request first, then a
//! headless browser when the site answers with bot protection, then manual
//! verification when the browser meets a CAPTCHA. The decisions between the
//! attempts are made here; the attempts themselves are made by the caller.

use vstd::prelude::*;
use crate::bot_detection::{challenge_spec, is_cloudflare_challenge};
use crate::error::{concat_str, err_view, AppError};
use crate::text::{chars_of, contains_str, has_sub, nat_text, string_of, u64_text, unicode_lower};

verus! {

/// Error shown when bot protection is detected and the headless browser is
/// disabled.
pub const BOT_PROTECTION_MESSAGE: &'static str =
    "This site has bot protection. Enable headless browser in settings to check this site.";

/// Error shown when bot protection is detected, manual verification is
/// allowed, but the headless browser is disabled.
pub const HEADLESS_FIRST_MESSAGE: &'static str =
    "This site has bot protection. Manual verification is enabled but headless browser must be enabled first.";

/// Error shown when the headless browser meets a CAPTCHA and manual
/// verification is not allowed.
pub const MANUAL_VERIFICATION_MESSAGE: &'static str =
    "This site requires manual CAPTCHA verification. Enable manual verification in settings.";

/// What the plain HTTP request gave.
#[derive(Debug, Clone)]
pub enum PageFetch {
    /// A success status with the page's body.
    Body(String),
    /// A status that is not a success, with the requested URL.
    Status(u16, String),
    /// A client or network error (connection, timeout, DNS, TLS), with its text.
    Failed(String),
}

/// What the fetcher does next.
#[derive(Debug, Clone)]
pub enum FetchStep {
    /// The page's HTML was obtained.
    Done(String),
    /// The fetch failed with this error.
    Fail(AppError),
    /// Fetch the page with the headless browser.
    TryHeadless,
    /// Let the user solve the CAPTCHA in a visible browser.
    ManualVerification,
}

/// The view of a fetch step: 0 with the HTML, 1 with the error's view, 2 for
/// the headless browser, 3 for manual verification.
pub open spec fn step_view(s: FetchStep) -> (int, Seq<char>, (int, Seq<char>)) {
    match s {
        FetchStep::Done(h) => (0, h@, (0, Seq::empty())),
        FetchStep::Fail(e) => (1, Seq::empty(), err_view(e)),
        FetchStep::TryHeadless => (2, Seq::empty(), (0, Seq::empty())),
        FetchStep::ManualVerification => (3, Seq::empty(), (0, Seq::empty())),
    }
}

/// The step view of a failure with an external error.
pub open spec fn external_failure(msg: Seq<char>) -> (int, Seq<char>, (int, Seq<char>)) {
    (1, Seq::empty(), (4, msg))
}

/// The message of a failing status.
pub open spec fn status_message(status: u16, url: Seq<char>) -> Seq<char> {
    "HTTP "@ + nat_text(status as nat) + " for URL: "@ + url
}

/// Where bot protection sends the fetcher when the HTTP request is blocked.
pub open spec fn blocked_step(enable_headless: bool, allow_manual: bool) -> (int, Seq<char>, (int, Seq<char>)) {
    if enable_headless {
        (2, Seq::empty(), (0, Seq::empty()))
    } else if allow_manual {
        external_failure(HEADLESS_FIRST_MESSAGE@)
    } else {
        external_failure(BOT_PROTECTION_MESSAGE@)
    }
}

/// The step after the HTTP request: a body that is no challenge is the
/// page; a challenge, a 403 or a 503 counts as bot protection; any other
/// status or error fails.
pub open spec fn http_step_spec(
    body: Option<(Seq<char>, int)>,
    status: Option<(u16, Seq<char>)>,
    failure: Option<Seq<char>>,
    enable_headless: bool,
    allow_manual: bool,
) -> (int, Seq<char>, (int, Seq<char>)) {
    match body {
        Some((b, byte_len)) => if !challenge_spec(200, unicode_lower(b), byte_len) {
            (0, b, (0, Seq::empty()))
        } else {
            blocked_step(enable_headless, allow_manual)
        },
        None => match status {
            Some((s, url)) => if s == 403 || s == 503 {
                blocked_step(enable_headless, allow_manual)
            } else {
                external_failure(status_message(s, url))
            },
            None => external_failure(failure.unwrap()),
        },
    }
}

/// The view of an HTTP outcome in the three parts `http_step_spec` reads;
/// a body is given with its length in bytes.
pub open spec fn fetch_parts(f: PageFetch) -> (Option<(Seq<char>, int)>, Option<(u16, Seq<char>)>, Option<Seq<char>>) {
    match f {
        PageFetch::Body(b) => (Some((b@, (vstd::utf8::encode_utf8(b@).len() as usize) as int)), None, None),
        PageFetch::Status(s, u) => (None, Some((s, u@)), None),
        PageFetch::Failed(m) => (None, None, Some(m@)),
    }
}

fn blocked(enable_headless: bool, allow_manual: bool) -> (r: FetchStep)
    ensures
        step_view(r) == blocked_step(enable_headless, allow_manual),
{
    if enable_headless {
        FetchStep::TryHeadless
    } else if allow_manual {
        FetchStep::Fail(AppError::External(HEADLESS_FIRST_MESSAGE.to_string()))
    } else {
        FetchStep::Fail(AppError::External(BOT_PROTECTION_MESSAGE.to_string()))
    }
}

/// "HTTP {status} for URL: {url}".
fn status_text(status: u16, url: &str) -> (r: String)
    ensures
        r@ == status_message(status, url@),
{
    let digits = u64_text(status as u64);
    let number = string_of(digits.as_slice());
    let head = concat_str("HTTP ", number.as_str());
    let mid = concat_str(head.as_str(), " for URL: ");
    proof {
        reveal_strlit("HTTP ");
        reveal_strlit(" for URL: ");
    }
    concat_str(mid.as_str(), url)
}

/// The step after the plain HTTP request.
pub fn after_http(fetch: PageFetch, enable_headless: bool, allow_manual: bool) -> (r: FetchStep)
    ensures
        ({
            let (body, status, failure) = fetch_parts(fetch);
            step_view(r) == http_step_spec(body, status, failure, enable_headless, allow_manual)
        }),
{
    match fetch {
        PageFetch::Body(html) => {
            if !is_cloudflare_challenge(200, html.as_str()) {
                FetchStep::Done(html)
            } else {
                blocked(enable_headless, allow_manual)
            }
        },
        PageFetch::Status(status, url) => {
            if status == 403 || status == 503 {
                blocked(enable_headless, allow_manual)
            } else {
                FetchStep::Fail(AppError::External(status_text(status, url.as_str())))
            }
        },
        PageFetch::Failed(msg) => FetchStep::Fail(AppError::External(msg)),
    }
}

/// Whether a headless-browser error tells of a CAPTCHA: an external error
/// whose text mentions "CAPTCHA" or "challenge".
pub open spec fn captcha_error(e: (int, Seq<char>)) -> bool {
    e.0 == 4 && (has_sub(e.1, "CAPTCHA"@) || has_sub(e.1, "challenge"@))
}

/// The step after the headless browser: its page, or for a CAPTCHA manual
/// verification when allowed and an explanation when not; any other error
/// is passed on.
pub open spec fn headless_step_spec(result: Result<Seq<char>, (int, Seq<char>)>, allow_manual: bool) -> (int, Seq<char>, (int, Seq<char>)) {
    match result {
        Ok(h) => (0, h, (0, Seq::empty())),
        Err(e) => if captcha_error(e) {
            if allow_manual {
                (3, Seq::empty(), (0, Seq::empty()))
            } else {
                external_failure(MANUAL_VERIFICATION_MESSAGE@)
            }
        } else {
            (1, Seq::empty(), e)
        },
    }
}

/// The view of a text outcome.
pub open spec fn html_view(r: Result<String, AppError>) -> Result<Seq<char>, (int, Seq<char>)> {
    match r {
        Ok(h) => Ok(h@),
        Err(e) => Err(err_view(e)),
    }
}

/// The step after the headless browser.
pub fn after_headless(result: Result<String, AppError>, allow_manual: bool) -> (r: FetchStep)
    ensures
        step_view(r) == headless_step_spec(html_view(result), allow_manual),
{
    match result {
        Ok(html) => FetchStep::Done(html),
        Err(e) => {
            let is_captcha = match &e {
                AppError::External(msg) => {
                    let cs = chars_of(msg.as_str());
                    proof {
                        reveal_strlit("CAPTCHA");
                        reveal_strlit("challenge");
                    }
                    contains_str(cs.as_slice(), "CAPTCHA") || contains_str(cs.as_slice(), "challenge")
                },
                _ => false,
            };
            if is_captcha {
                if allow_manual {
                    FetchStep::ManualVerification
                } else {
                    FetchStep::Fail(AppError::External(MANUAL_VERIFICATION_MESSAGE.to_string()))
                }
            } else {
                FetchStep::Fail(e)
            }
        },
    }
}

} // verus!
