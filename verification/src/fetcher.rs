//! The redirect-following retrieval protocol.
//!
//! One fetch issues an HTTP GET and walks the responses: a redirect status
//! with a `Location` header sends the next request there, a 200 delivers the
//! body, anything else fails. The transport performs the requests and hands
//! each response head to [`next_step`] as plain values; [`resolve_chain`]
//! states what the whole walk does for any scripted sequence of responses.
//!
//! A delivered body is streamed into a fresh file named by a random token
//! with a fixed extension; [`make_filename`] builds the name and
//! [`ByteTally`] accounts the bytes written.

use vstd::prelude::*;

use uuid::Uuid;

use crate::errors::FetchError;

verus! {

/// How many redirects one fetch will follow before failing.
pub const REDIRECT_LIMIT: u32 = 10;

/// What the protocol reads from one HTTP response: the status code and the
/// `Location` header, if any.
pub struct ResponseHead {
    /// The response's status code.
    pub status: u16,
    /// The `Location` header of a redirect, when the response carries one.
    pub location: Option<String>,
}

/// What one response tells the fetcher to do next.
#[derive(Debug)]
pub enum FetchStep {
    /// Re-issue the request at this target.
    Follow(String),
    /// A 200 arrived: stream the body into a fresh file.
    Save,
    /// The fetch is over and failed.
    Fail(FetchError),
}

/// The statuses whose response redirects the request.
pub open spec fn spec_is_redirect(status: u16) -> bool {
    status == 301 || status == 302 || status == 303 || status == 307
}

/// What the fetcher does with a response of this status and `Location`
/// header after having already followed `followed` redirects.
pub open spec fn spec_next_step(status: u16, location: Option<String>, followed: int) -> FetchStep {
    if spec_is_redirect(status) {
        match location {
            Option::None => FetchStep::Fail(FetchError::RedirectMissingLocation),
            Option::Some(l) => if followed >= REDIRECT_LIMIT {
                FetchStep::Fail(FetchError::TooManyRedirects)
            } else {
                FetchStep::Follow(l)
            },
        }
    } else if status == 200 {
        FetchStep::Save
    } else {
        FetchStep::Fail(FetchError::UnexpectedStatus(status))
    }
}

/// Whether this status redirects the request.
pub fn is_redirect(status: u16) -> (r: bool)
    ensures
        r == spec_is_redirect(status),
{
    status == 301 || status == 302 || status == 303 || status == 307
}

/// Decide what one response means for the fetch: follow its redirect, save
/// its body, or fail — exactly as [`spec_next_step`] classifies it.
pub fn next_step(resp: ResponseHead, followed: u32) -> (step: FetchStep)
    ensures
        step == spec_next_step(resp.status, resp.location, followed as int),
{
    let ResponseHead { status, location } = resp;
    if is_redirect(status) {
        match location {
            Option::None => FetchStep::Fail(FetchError::RedirectMissingLocation),
            Option::Some(l) => if followed >= REDIRECT_LIMIT {
                FetchStep::Fail(FetchError::TooManyRedirects)
            } else {
                FetchStep::Follow(l)
            },
        }
    } else if status == 200 {
        FetchStep::Save
    } else {
        FetchStep::Fail(FetchError::UnexpectedStatus(status))
    }
}

/// How a whole fetch ends when request number `k` is answered by
/// `responses[k]`: either the body of some response is delivered, or the
/// fetch fails; `requests` counts the requests issued either way, the
/// unanswered one included when the script runs out.
#[derive(Debug)]
pub enum ChainVerdict {
    /// Some response was a 200 and its body was delivered.
    Deliver {
        /// How many requests the fetch issued, the delivering one included.
        requests: usize,
    },
    /// The fetch failed before any body was delivered.
    Fail {
        /// Why the fetch failed.
        error: FetchError,
        /// How many requests the fetch issued.
        requests: usize,
    },
}

/// How the walk ends from request `i` on, having already followed `followed`
/// redirects. A request past the end of the script is one the transport
/// never answered: a network failure.
pub open spec fn spec_chain(responses: Seq<ResponseHead>, i: int, followed: int) -> ChainVerdict
    decreases responses.len() - i,
{
    if i < 0 || i >= responses.len() {
        ChainVerdict::Fail { error: FetchError::Network, requests: (i + 1) as usize }
    } else {
        match spec_next_step(responses[i].status, responses[i].location, followed) {
            FetchStep::Follow(_) => spec_chain(responses, i + 1, followed + 1),
            FetchStep::Save => ChainVerdict::Deliver { requests: (i + 1) as usize },
            FetchStep::Fail(e) => ChainVerdict::Fail { error: e, requests: (i + 1) as usize },
        }
    }
}

/// Walk a scripted sequence of responses, one per request, and say how the
/// fetch ends: exactly the verdict of [`spec_chain`] on the whole script.
pub fn resolve_chain(responses: &Vec<ResponseHead>) -> (v: ChainVerdict)
    requires
        responses@.len() < usize::MAX,
    ensures
        v == spec_chain(responses@, 0, 0),
{
    let mut i: usize = 0;
    let mut followed: u32 = 0;
    loop
        invariant
            0 <= i <= responses@.len() < usize::MAX,
            followed <= REDIRECT_LIMIT,
            spec_chain(responses@, 0, 0) == spec_chain(responses@, i as int, followed as int),
        decreases responses@.len() - i,
    {
        if i >= responses.len() {
            return ChainVerdict::Fail { error: FetchError::Network, requests: i + 1 };
        }
        let resp = &responses[i];
        if is_redirect(resp.status) {
            match &resp.location {
                Option::None => {
                    return ChainVerdict::Fail {
                        error: FetchError::RedirectMissingLocation,
                        requests: i + 1,
                    };
                },
                Option::Some(_) => {
                    if followed >= REDIRECT_LIMIT {
                        return ChainVerdict::Fail {
                            error: FetchError::TooManyRedirects,
                            requests: i + 1,
                        };
                    }
                    i = i + 1;
                    followed = followed + 1;
                },
            }
        } else if resp.status == 200 {
            return ChainVerdict::Deliver { requests: i + 1 };
        } else {
            return ChainVerdict::Fail {
                error: FetchError::UnexpectedStatus(resp.status),
                requests: i + 1,
            };
        }
    }
}

/// The character standing at position `i` of a fresh token: a hyphen at the
/// four fixed positions, a lowercase hexadecimal digit everywhere else.
pub open spec fn token_char_at(c: char, i: int) -> bool {
    if i == 8 || i == 13 || i == 18 || i == 23 {
        c == '-'
    } else {
        ('0' <= c && c <= '9') || ('a' <= c && c <= 'f')
    }
}

/// Relies on uuid's `Uuid::new_v4` and its `Display` form: a fresh random
/// version-4 identifier rendered as 36 lowercase hexadecimal characters with
/// hyphens at positions 8, 13, 18 and 23. Randomness picks the digits, so
/// only the shape of the string is stated.
#[verifier::external_body]
fn random_token() -> (r: String)
    ensures
        r@.len() == 36,
        forall|i: int| 0 <= i < 36 ==> token_char_at(#[trigger] r@[i], i),
{
    Uuid::new_v4().to_string()
}

/// A fresh, collision-resistant filename for a saved resource: a random
/// 36-character token followed by the fixed `.jpg` extension.
pub fn make_filename() -> (name: String)
    ensures
        name@.len() == 40,
        name@.skip(36) == ".jpg"@,
        forall|i: int| 0 <= i < 36 ==> token_char_at(#[trigger] name@[i], i),
{
    let mut name = random_token();
    name.append(".jpg");
    proof {
        reveal_strlit(".jpg");
        assert(name@.skip(36) =~= ".jpg"@);
    }
    name
}

/// What a successful fetch saved: the file's name inside the destination
/// folder and how many body bytes went into it.
#[derive(Debug)]
pub struct SavedFile {
    /// The generated filename.
    pub filename: String,
    /// The length of the saved body in bytes.
    pub bytes: u64,
}

/// Running total of the body bytes streamed into the destination file, chunk
/// by chunk, so that a success reports the saved length without ever holding
/// the whole body in memory.
pub struct ByteTally {
    total: u64,
}

impl View for ByteTally {
    type V = nat;

    closed spec fn view(&self) -> nat {
        self.total as nat
    }
}

impl ByteTally {
    /// An empty tally: nothing streamed yet.
    pub fn new() -> (t: ByteTally)
        ensures
            t@ == 0,
    {
        ByteTally { total: 0 }
    }

    /// Account one chunk of `n` bytes written to the file.
    pub fn add_chunk(&mut self, n: usize)
        requires
            old(self)@ + n <= u64::MAX,
        ensures
            final(self)@ == old(self)@ + n,
    {
        self.total = self.total + (n as u64);
    }

    /// The bytes streamed so far.
    pub fn bytes(&self) -> (r: u64)
        ensures
            r == self@,
    {
        self.total
    }
}

} // verus!
