//! The fetch walk: which request to send for a selected day, how a response
//! moves the walk (a not-found answer steps one day back, down to a floor),
//! which payload field names the image, and what the whole fetch returns.
//! The network requests and the wallpaper call themselves happen outside;
//! they feed their outcomes back in as `ResponseEvent` values.

use vstd::prelude::*;
use vstd::string::*;

verus! {

use crate::caps;
use crate::date::day_in_range;
use crate::text::str_eq;

/// Day number of 1995-06-16, the first day the image service has a picture
/// for, and so the floor of the not-found day walk.
pub const EARLIEST_DAY: i64 = 728460;

/// The payload of a successful response: its fields, as key-value pairs in
/// the order they arrived.
pub struct FetchResult {
    /// The fields of the response.
    pub pairs: Vec<(String, String)>,
}

/// The value under the first pair whose key is `key`, if any.
pub open spec fn spec_lookup(pairs: Seq<(String, String)>, key: Seq<char>) -> Option<Seq<char>>
    decreases pairs.len(),
{
    if pairs.len() == 0 {
        None
    } else if pairs[0].0@ == key {
        Some(pairs[0].1@)
    } else {
        spec_lookup(pairs.skip(1), key)
    }
}

impl FetchResult {
    /// The value under `key`, if any.
    pub open spec fn spec_get(&self, key: Seq<char>) -> Option<Seq<char>> {
        spec_lookup(self.pairs@, key)
    }

    /// A payload with no fields.
    pub fn new() -> (r: Self)
        ensures
            r.pairs@.len() == 0,
    {
        FetchResult { pairs: Vec::new() }
    }

    /// Looks a field up by its key.
    pub fn get(&self, key: &str) -> (r: Option<&String>)
        ensures
            r matches Some(v) ==> self.spec_get(key@) == Some(v@),
            r is None ==> self.spec_get(key@) is None,
    {
        let n = self.pairs.len();
        let mut i: usize = 0;
        proof {
            assert(self.pairs@.skip(0) =~= self.pairs@);
        }
        while i < n
            invariant
                n == self.pairs@.len(),
                i <= n,
                spec_lookup(self.pairs@.skip(i as int), key@) == self.spec_get(key@),
            decreases n - i,
        {
            let p = &self.pairs[i];
            if str_eq(p.0.as_str(), key) {
                return Some(&p.1);
            }
            proof {
                assert(self.pairs@.skip(i as int).skip(1) =~= self.pairs@.skip(i as int + 1));
            }
            i += 1;
        }
        None
    }
}

/// Why a fetch failed.
#[derive(Debug, PartialEq, Eq, Structural)]
pub enum FetchError {
    /// The request, or the reading or decoding of its response, failed.
    Network,
    /// The service answered with a status the walk does not step around.
    Http {
        /// The status code of the answer.
        status: u16,
    },
    /// The payload lacks the URL field of the asked-for quality.
    MissingField {
        /// Whether the high-definition field was the one asked for.
        hd: bool,
    },
    /// The wallpaper capability failed to apply the image.
    Wallpaper,
}

/// A status the day walk steps around: the service has no image under the
/// requested day.
pub open spec fn spec_walkable(code: int) -> bool {
    code == 400 || code == 404
}

/// A status that carries a payload worth decoding.
pub open spec fn spec_success(code: int) -> bool {
    200 <= code < 300
}

/// Whether the response body of a status is decoded into a payload.
pub fn status_needs_body(code: u16) -> (r: bool)
    ensures
        r == spec_success(code as int),
{
    200 <= code && code < 300
}

/// The request URL for a day.
pub open spec fn spec_request_url(date: int) -> Seq<char> {
    "https://api.nasa.gov/planetary/apod?api_key=DEMO_KEY&date="@ + caps::ymd_of(date)
}

/// Builds the request URL for a day.
pub fn request_url(date: i64) -> (r: String)
    requires
        day_in_range(date as int),
    ensures
        r@ == spec_request_url(date as int),
{
    let mut s = String::from_str("https://api.nasa.gov/planetary/apod?api_key=DEMO_KEY&date=");
    match caps::format_day(date) {
        Some(f) => {
            s.append(f.as_str());
            s
        },
        None => vstd::pervasive::unreached(),
    }
}

/// Where the day walk stands: the day of the outstanding request and the
/// asked-for quality.
pub struct WalkState {
    /// Day number of the outstanding request.
    pub date: i64,
    /// Whether the high-definition image is asked for.
    pub hd: bool,
}

/// What came back for the outstanding request.
pub enum ResponseEvent {
    /// The request, or the reading or decoding of its response, failed.
    NetworkFailed,
    /// The service answered with a status but no decoded payload.
    Status {
        /// The status code of the answer.
        code: u16,
    },
    /// The service answered with a decoded payload.
    Payload {
        /// The fields of the payload.
        fields: FetchResult,
    },
}

/// What the walk asks for next.
pub enum WalkStep {
    /// Send the request for the day stepped back to.
    Retry {
        /// The request URL.
        url: String,
    },
    /// Apply this image as the wallpaper, then finish with the payload.
    Apply {
        /// The URL of the image of the asked-for quality.
        url: String,
        /// The payload it was taken from.
        fields: FetchResult,
    },
    /// The fetch failed.
    Fail {
        /// Why it failed.
        err: FetchError,
    },
}

impl WalkState {
    /// The walk stands on a supported day.
    pub open spec fn wf(&self) -> bool {
        day_in_range(self.date as int)
    }
}

/// Starts a fetch for a day: the walk state and the first request URL.
pub fn start_fetch(date: i64, hd: bool) -> (r: (WalkState, String))
    requires
        day_in_range(date as int),
    ensures
        r.0.wf(),
        r.0.date == date,
        r.0.hd == hd,
        r.1@ == spec_request_url(date as int),
{
    let url = request_url(date);
    (WalkState { date, hd }, url)
}

impl WalkState {
    /// Moves the walk by one response: a network failure fails the fetch; a
    /// not-found or bad-request status steps one day back, unless the walk
    /// stands on the floor; any other bare status fails the fetch; a payload
    /// names the image under the asked-for quality's field, or fails the
    /// fetch when that field is missing.
    pub fn on_response(&mut self, ev: ResponseEvent) -> (r: WalkStep)
        requires
            old(self).wf(),
        ensures
            final(self).wf(),
            final(self).hd == old(self).hd,
            ev is NetworkFailed ==> *final(self) == *old(self) && (r matches WalkStep::Fail { err }
                && err == FetchError::Network),
            ev matches ResponseEvent::Status { code } ==> (if spec_walkable(code as int) && old(
                self,
            ).date - 1 >= EARLIEST_DAY {
                final(self).date == old(self).date - 1 && (r matches WalkStep::Retry { url }
                    && url@ == spec_request_url(final(self).date as int))
            } else {
                *final(self) == *old(self) && (r matches WalkStep::Fail { err } && err == (
                FetchError::Http { status: code }))
            }),
            ev matches ResponseEvent::Payload { fields } ==> *final(self) == *old(self) && (
            match fields.spec_get(if old(self).hd {
                "hdurl"@
            } else {
                "url"@
            }) {
                Some(u) => r matches WalkStep::Apply { url, fields: f } && url@ == u && f
                    == fields,
                None => r matches WalkStep::Fail { err } && err == (FetchError::MissingField {
                    hd: old(self).hd,
                }),
            }),
    {
        match ev {
            ResponseEvent::NetworkFailed => WalkStep::Fail { err: FetchError::Network },
            ResponseEvent::Status { code } => {
                if (code == 400 || code == 404) && self.date - 1 >= EARLIEST_DAY {
                    self.date = self.date - 1;
                    WalkStep::Retry { url: request_url(self.date) }
                } else {
                    WalkStep::Fail { err: FetchError::Http { status: code } }
                }
            },
            ResponseEvent::Payload { fields } => {
                let key: &str = if self.hd {
                    "hdurl"
                } else {
                    "url"
                };
                match fields.get(key) {
                    Some(u) => {
                        let url = u.clone();
                        WalkStep::Apply { url, fields }
                    },
                    None => WalkStep::Fail { err: FetchError::MissingField { hd: self.hd } },
                }
            },
        }
    }
}

/// Ends a fetch after the wallpaper capability ran: the payload on success,
/// the wallpaper error on failure.
pub fn finish_fetch(fields: FetchResult, wallpaper_ok: bool) -> (r: Result<FetchResult, FetchError>)
    ensures
        wallpaper_ok ==> (r matches Ok(f) && f == fields),
        !wallpaper_ok ==> (r matches Err(e) && e == FetchError::Wallpaper),
{
    if wallpaper_ok {
        Ok(fields)
    } else {
        Err(FetchError::Wallpaper)
    }
}

} // verus!
