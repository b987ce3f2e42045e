use vstd::prelude::*;

verus! {

/// An HTTP client.
#[verifier::external_type_specification]
#[verifier::external_body]
pub struct ExHttpClient(reqwest::Client);

/// The error that HTTP calls return.
#[verifier::external_type_specification]
#[verifier::external_body]
pub struct ExHttpError(reqwest::Error);

/// Why fetching a feed failed.
#[derive(Debug)]
pub enum FetchError {
    /// The HTTP request failed, or the server answered with an error status.
    Request(reqwest::Error),
    /// The server answered with a body that holds nothing but white space.
    EmptyBody { url: String },
}

/// How long a request may take, in seconds.
pub const REQUEST_TIMEOUT_SECS: u64 = 15;

/// The user agent that requests name.
pub const USER_AGENT: &'static str = "terminal-news-tui/0.1";

/// The characters with the Unicode property White_Space, which
/// `char::is_whitespace` tests and `str::trim` removes.
pub open spec fn white_space(c: char) -> bool {
    let u = c as u32;
    ||| 0x9 <= u <= 0xD
    ||| u == 0x20
    ||| u == 0x85
    ||| u == 0xA0
    ||| u == 0x1680
    ||| 0x2000 <= u <= 0x200A
    ||| u == 0x2028
    ||| u == 0x2029
    ||| u == 0x202F
    ||| u == 0x205F
    ||| u == 0x3000
}

/// Whether `c` is white space.
pub fn is_white_space(c: char) -> (w: bool)
    ensures
        w == white_space(c),
{
    let u = c as u32;
    (0x9 <= u && u <= 0xD) || u == 0x20 || u == 0x85 || u == 0xA0 || u == 0x1680 || (0x2000 <= u
        && u <= 0x200A) || u == 0x2028 || u == 0x2029 || u == 0x202F || u == 0x205F || u == 0x3000
}

/// Calls `reqwest::ClientBuilder` to build a client with the given request
/// timeout and user agent. Nothing of the result is stated.
#[verifier::external_body]
fn build_http_client(timeout_secs: u64, user_agent: &str) -> Result<reqwest::Client, reqwest::Error> {
    reqwest::Client::builder()
        .timeout(std::time::Duration::from_secs(timeout_secs))
        .user_agent(user_agent)
        .build()
}

/// A text is blank when it holds nothing but white space (what `str::trim`
/// removes), the empty text included.
pub open spec fn blank(text: Seq<char>) -> bool {
    forall|i: int| 0 <= i < text.len() ==> white_space(#[trigger] text[i])
}

/// Whether `text` holds nothing but white space.
pub fn is_blank(text: &str) -> (b: bool)
    ensures
        b == blank(text@),
{
    broadcast use vstd::string::group_string_axioms;

    for c in it: text.chars()
        invariant
            it.seq() == text@,
            forall|j: int| 0 <= j < it.index() ==> white_space(#[trigger] text@[j]),
    {
        if !is_white_space(c) {
            return false;
        }
    }
    true
}

/// Accepts the body that the server sent for `url`, unless it is blank.
pub fn check_body(body: String, url: &str) -> (checked: Result<String, FetchError>)
    ensures
        blank(body@) ==> (checked matches Err(FetchError::EmptyBody { url: u }) && u@ == url@),
        !blank(body@) ==> checked == Ok::<String, FetchError>(body),
{
    if is_blank(body.as_str()) {
        Err(FetchError::EmptyBody { url: String::from_str(url) })
    } else {
        Ok(body)
    }
}

/// The settings that a fetcher's client is built with: the request timeout
/// in seconds and the user agent.
pub fn client_settings() -> (settings: (u64, &'static str))
    ensures
        settings.0 == REQUEST_TIMEOUT_SECS,
        settings.1@ == USER_AGENT@,
{
    (REQUEST_TIMEOUT_SECS, USER_AGENT)
}

/// Fetches feeds over HTTP.
pub struct Fetcher {
    client: reqwest::Client,
}

impl Fetcher {
    /// A fetcher whose client is built with `client_settings`: requests time
    /// out after `REQUEST_TIMEOUT_SECS` seconds and name `USER_AGENT`.
    pub fn new() -> (fetcher: Result<Fetcher, FetchError>)
        ensures
            fetcher matches Err(e) ==> e is Request,
    {
        let (timeout_secs, user_agent) = client_settings();
        match build_http_client(timeout_secs, user_agent) {
            Ok(client) => Ok(Fetcher { client }),
            Err(e) => Err(FetchError::Request(e)),
        }
    }

    /// The client that this fetcher was built with.
    pub closed spec fn http_client(&self) -> reqwest::Client {
        self.client
    }

    /// The client that requests go through: the one this fetcher holds.
    pub fn client(&self) -> (client: &reqwest::Client)
        ensures
            *client == self.http_client(),
    {
        &self.client
    }
}

} // verus!
