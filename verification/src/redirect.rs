//! Redirect following with a bounded number of hops.

use vstd::prelude::*;
use vstd::string::*;

verus! {

/// Number of redirects a download follows at most.
pub const DEFAULT_REDIRECT_LIMIT: u8 = 5;

/// Status reported when the bound on redirects is passed (Loop Detected).
pub const STATUS_LOOP_DETECTED: u16 = 508;

/// Status reported when a redirect names no usable location (Bad Gateway).
pub const STATUS_BAD_GATEWAY: u16 = 502;

/// The serialization of the absolute URL that `text` parses to, if it does.
pub uninterp spec fn spec_parsed_url(text: Seq<char>) -> Option<Seq<char>>;

/// The serialization of the URL that `reference` resolves to against `base`, if both
/// parse.
pub uninterp spec fn spec_joined_url(base: Seq<char>, reference: Seq<char>) -> Option<Seq<char>>;

/// Parses an absolute URL and returns its serialization.
///
/// Trusted: calls `Url::parse` of the `url` crate, as `surf` exports it. The result is a
/// function of the text alone; the contract names it and claims nothing more.
#[verifier::external_body]
fn parse_url(text: &str) -> (url: Option<String>)
    ensures
        url.deep_view() == spec_parsed_url(text@),
{
    match surf::Url::parse(text) {
        Ok(url) => Some(String::from(url)),
        Err(_) => None,
    }
}

/// Resolves a reference against a base URL and returns the serialization of the result.
///
/// Trusted: calls `Url::join` of the `url` crate, as `surf` exports it, on the base as
/// `Url::parse` reads it. The result is a function of the two texts alone; the contract
/// names it and claims nothing more.
#[verifier::external_body]
fn join_url(base: &str, reference: &str) -> (url: Option<String>)
    ensures
        url.deep_view() == spec_joined_url(base@, reference@),
{
    match surf::Url::parse(base) {
        Ok(base) => match base.join(reference) {
            Ok(url) => Some(String::from(url)),
            Err(_) => None,
        },
        Err(_) => None,
    }
}

/// Where a redirect leads: the location itself if it is an absolute URL, else the
/// location resolved against the URL that was requested.
pub open spec fn spec_target(url: Seq<char>, location: Seq<char>) -> Option<Seq<char>> {
    match spec_parsed_url(location) {
        Some(target) => Some(target),
        None => spec_joined_url(url, location),
    }
}

/// Where a redirect leads; see [`spec_target`].
pub fn redirect_target(url: &str, location: &str) -> (target: Option<String>)
    ensures
        target.deep_view() == spec_target(url@, location@),
{
    match parse_url(location) {
        Some(target) => Some(target),
        None => join_url(url, location),
    }
}

/// What to do with a response.
#[derive(Debug, PartialEq, Eq)]
pub enum Hop {
    /// The response is the answer.
    Deliver,
    /// Request this URL next; `attempts` redirects have then been followed.
    Follow { url: String, attempts: u16 },
    /// Give up, with the status and message of the failure.
    Fail { status: u16, message: String },
}

/// Mathematical content of a [`Hop`].
pub enum HopView {
    Deliver,
    Follow { url: Seq<char>, attempts: u16 },
    Fail { status: u16, message: Seq<char> },
}

impl View for Hop {
    type V = HopView;

    open spec fn view(&self) -> HopView {
        match *self {
            Hop::Deliver => HopView::Deliver,
            Hop::Follow { url, attempts } => HopView::Follow { url: url@, attempts },
            Hop::Fail { status, message } => HopView::Fail { status, message: message@ },
        }
    }
}

/// Whether a status is in the redirection range.
pub open spec fn spec_is_redirection(status: u16) -> bool {
    300 <= status < 400
}

/// Whether a status is in the success range.
pub open spec fn spec_is_success(status: u16) -> bool {
    200 <= status < 300
}

/// What to do with a response of the given status, after `attempts` redirects were
/// followed, `target` being where its location leads (`None` if it has no location, or
/// none that can be used): a redirect with a location is followed unless the bound is
/// reached; anything else is the answer.
pub open spec fn spec_decide(
    limit: u8,
    attempts: u16,
    status: u16,
    has_location: bool,
    target: Option<Seq<char>>,
) -> HopView {
    if spec_is_redirection(status) && has_location {
        match target {
            None => HopView::Fail {
                status: STATUS_BAD_GATEWAY,
                message: "Invalid redirect location"@,
            },
            Some(url) => if attempts >= limit {
                HopView::Fail { status: STATUS_LOOP_DETECTED, message: "Too many redirects"@ }
            } else {
                HopView::Follow { url, attempts: (attempts + 1) as u16 }
            },
        }
    } else {
        HopView::Deliver
    }
}

/// What to do with a response; see [`spec_decide`] and [`spec_target`].
pub open spec fn spec_next_hop(
    limit: u8,
    attempts: u16,
    status: u16,
    location: Option<Seq<char>>,
    url: Seq<char>,
) -> HopView {
    spec_decide(
        limit,
        attempts,
        status,
        location is Some,
        match location {
            Some(text) => spec_target(url, text),
            None => None,
        },
    )
}

/// Follows redirects up to a bounded number of hops.
#[derive(Debug, Clone, Copy, PartialEq, Eq)]
pub struct RedirectMiddleware {
    max_attempts: u8,
}

impl RedirectMiddleware {
    /// The number of redirects that may be followed.
    pub closed spec fn limit(&self) -> u8 {
        self.max_attempts
    }

    /// A policy that follows at most `max_attempts` redirects.
    pub fn new(max_attempts: u8) -> (policy: Self)
        ensures
            policy.limit() == max_attempts,
    {
        RedirectMiddleware { max_attempts }
    }

    /// The number of redirects that may be followed.
    pub fn max_attempts(&self) -> (limit: u8)
        ensures
            limit == self.limit(),
    {
        self.max_attempts
    }

    /// Decides on a response whose location, if it has one, leads to `target`.
    pub fn decide(&self, attempts: u16, status: u16, has_location: bool, target: Option<String>) -> (hop:
        Hop)
        ensures
            hop@ == spec_decide(self.limit(), attempts, status, has_location, target.deep_view()),
    {
        if status >= 300 && status < 400 && has_location {
            match target {
                None => Hop::Fail {
                    status: STATUS_BAD_GATEWAY,
                    message: String::from_str("Invalid redirect location"),
                },
                Some(url) => if attempts >= self.max_attempts as u16 {
                    Hop::Fail {
                        status: STATUS_LOOP_DETECTED,
                        message: String::from_str("Too many redirects"),
                    }
                } else {
                    Hop::Follow { url, attempts: attempts + 1 }
                },
            }
        } else {
            Hop::Deliver
        }
    }

    /// Decides on the response to a request of `url`.
    pub fn next_hop(&self, attempts: u16, status: u16, location: Option<String>, url: &str) -> (hop:
        Hop)
        ensures
            hop@ == spec_next_hop(self.limit(), attempts, status, location.deep_view(), url@),
    {
        match location {
            Some(text) => {
                let target = redirect_target(url, text.as_str());
                self.decide(attempts, status, true, target)
            },
            None => self.decide(attempts, status, false, None),
        }
    }
}

/// Following redirects ends: each hop that is followed counts, and none is followed once
/// the bound is reached, so a chain of redirects costs at most one request more than the
/// bound.
pub proof fn law_redirects_are_bounded(
    limit: u8,
    attempts: u16,
    status: u16,
    location: Option<Seq<char>>,
    url: Seq<char>,
)
    requires
        attempts <= limit,
    ensures
        match spec_next_hop(limit, attempts, status, location, url) {
            HopView::Follow { url: next, attempts: counted } => counted == attempts + 1 && counted
                <= limit,
            _ => true,
        },
{
}

} // verus!
