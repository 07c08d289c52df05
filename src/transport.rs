use vstd::prelude::*;
use vstd::string::*;

verus! {

#[verifier::external_type_specification]
#[verifier::external_body]
pub struct ExUrl(reqwest_wasm::Url);

/// Whether the URL parser accepts `s` as an absolute URL.
pub uninterp spec fn url_accepts(s: Seq<char>) -> bool;

/// Relies on `reqwest_wasm::Url::parse` (the url crate's parser): whether it
/// accepts a text depends on the text alone; its error is kept as text.
#[verifier::external_body]
fn parse_url(s: &str) -> (r: Result<reqwest_wasm::Url, String>)
    ensures
        r is Ok <==> url_accepts(s@),
{
    reqwest_wasm::Url::parse(s).map_err(|e| e.to_string())
}

/// A failed fetch or send: a short description for the viewer and, where
/// there is one, a longer diagnostic text.
#[derive(Debug, PartialEq, Eq)]
pub struct ErrorMessage {
    pub description: String,
    pub details: Option<String>,
}

/// Which of the two transport calls failed.
#[derive(Clone, Copy, Debug, PartialEq, Eq)]
pub enum Request {
    Fetch,
    Send,
}

/// Origin used where the page's own address cannot be learned.
pub open spec fn fallback_origin() -> Seq<char> {
    "http://localhost:9876"@
}

/// Path of the messages endpoint.
pub open spec fn messages_path() -> Seq<char> {
    "/messages"@
}

/// The origin a page address gives: the address without one trailing slash.
pub open spec fn origin_of(href: Seq<char>) -> Seq<char> {
    if href.len() > 0 && href.last() == '/' {
        href.drop_last()
    } else {
        href
    }
}

/// Address of the messages endpoint for the page at `href`, if it is known.
pub open spec fn messages_url_of(href: Option<String>) -> Seq<char> {
    match href {
        Some(h) => origin_of(h@) + messages_path(),
        None => fallback_origin() + messages_path(),
    }
}

/// The description of a request that never got an answer.
pub open spec fn no_answer_text(kind: Request) -> Seq<char> {
    match kind {
        Request::Fetch => "Unable to get messages from Server. Make sure it is running!"@,
        Request::Send => "Unable to send message to Server. Make sure it is running!"@,
    }
}

/// The decimal digit character for `d`.
pub open spec fn digit_char(d: int) -> char {
    if d == 0 { '0' }
    else if d == 1 { '1' }
    else if d == 2 { '2' }
    else if d == 3 { '3' }
    else if d == 4 { '4' }
    else if d == 5 { '5' }
    else if d == 6 { '6' }
    else if d == 7 { '7' }
    else if d == 8 { '8' }
    else { '9' }
}

/// Decimal notation of `n`, without leading zeros.
pub open spec fn decimal(n: nat) -> Seq<char>
    decreases n,
{
    if n < 10 {
        seq![digit_char(n as int)]
    } else {
        decimal(n / 10) + seq![digit_char((n % 10) as int)]
    }
}

/// Whether `code` is a success status.
pub open spec fn is_success(code: u16) -> bool {
    200 <= code <= 299
}

/// What the answer to a send with status `code` and body `body` means: success,
/// or the description of the failure.
pub open spec fn send_outcome(code: u16, body: Seq<char>) -> Result<(), Seq<char>> {
    if is_success(code) {
        Ok(())
    } else if code == 400 {
        Err("Bad request: "@ + body)
    } else {
        Err("unexpected response: "@ + decimal(code as nat))
    }
}

/// The one-character text of a decimal digit.
fn digit_text(d: u16) -> (r: &'static str)
    requires
        d < 10,
    ensures
        r@ == seq![digit_char(d as int)],
{
    proof {
        reveal_strlit("0");
        reveal_strlit("1");
        reveal_strlit("2");
        reveal_strlit("3");
        reveal_strlit("4");
        reveal_strlit("5");
        reveal_strlit("6");
        reveal_strlit("7");
        reveal_strlit("8");
        reveal_strlit("9");
    }
    let r = if d == 0 { "0" }
    else if d == 1 { "1" }
    else if d == 2 { "2" }
    else if d == 3 { "3" }
    else if d == 4 { "4" }
    else if d == 5 { "5" }
    else if d == 6 { "6" }
    else if d == 7 { "7" }
    else if d == 8 { "8" }
    else { "9" };
    assert(r@ =~= seq![digit_char(d as int)]);
    r
}

/// Decimal notation of a status code.
pub fn decimal_text(n: u16) -> (r: String)
    ensures
        r@ == decimal(n as nat),
    decreases n,
{
    if n < 10 {
        digit_text(n).to_owned()
    } else {
        let head = decimal_text(n / 10);
        head.concat(digit_text(n % 10))
    }
}

/// Address of the messages endpoint for the page at `href`; where the page's
/// address is unknown, a local server is assumed.
pub fn messages_url(href: Option<String>) -> (r: String)
    ensures
        r@ == messages_url_of(href),
{
    let origin = match &href {
        Some(h) => {
            let n = h.as_str().unicode_len();
            if n > 0 && h.as_str().get_char(n - 1) == '/' {
                h.as_str().substring_char(0, n - 1).to_owned()
            } else {
                h.clone()
            }
        },
        None => "http://localhost:9876".to_owned(),
    };
    let r = origin.concat("/messages");
    proof {
        if let Some(h) = href {
            if h@.len() > 0 && h@.last() == '/' {
                assert(h@.subrange(0, h@.len() - 1) =~= h@.drop_last());
            }
        }
    }
    r
}

/// The messages endpoint of the page at `href` (see `messages_url`), parsed;
/// where it does not parse, the parser's complaint is the error's detail.
pub fn url(href: Option<String>) -> (r: Result<reqwest_wasm::Url, ErrorMessage>)
    ensures
        r is Ok <==> url_accepts(messages_url_of(href)),
        r matches Err(e) ==> e.description@ == "Unable to parse URL"@ && e.details is Some,
{
    let address = messages_url(href);
    match parse_url(address.as_str()) {
        Ok(u) => Ok(u),
        Err(complaint) => Err(ErrorMessage::bad_url(complaint)),
    }
}

impl ErrorMessage {
    /// A request that got no answer from the server; `details` is the
    /// underlying cause, where the transport gives one.
    pub fn no_answer(kind: Request, details: Option<String>) -> (r: ErrorMessage)
        ensures
            r.description@ == no_answer_text(kind),
            r.details == details,
    {
        let description = match kind {
            Request::Fetch => "Unable to get messages from Server. Make sure it is running!".to_owned(),
            Request::Send => "Unable to send message to Server. Make sure it is running!".to_owned(),
        };
        ErrorMessage { description, details }
    }

    /// The endpoint address could not be parsed.
    pub fn bad_url(details: String) -> (r: ErrorMessage)
        ensures
            r.description@ == "Unable to parse URL"@,
            r.details == Some(details),
    {
        ErrorMessage { description: "Unable to parse URL".to_owned(), details: Some(details) }
    }

    /// The body of an answer could not be read.
    pub fn unreadable(details: String) -> (r: ErrorMessage)
        ensures
            r.description@ == "Unable to read response"@,
            r.details == Some(details),
    {
        ErrorMessage { description: "Unable to read response".to_owned(), details: Some(details) }
    }

    /// The body of an answer is not a well-formed message list.
    pub fn undecodable(details: String) -> (r: ErrorMessage)
        ensures
            r.description@ == "JSON parsing failed"@,
            r.details == Some(details),
    {
        ErrorMessage { description: "JSON parsing failed".to_owned(), details: Some(details) }
    }

    /// A copy of this error.
    pub fn duplicate(&self) -> (r: ErrorMessage)
        ensures
            r == *self,
    {
        let details = match &self.details {
            Some(d) => Some(d.clone()),
            None => None,
        };
        ErrorMessage { description: self.description.clone(), details }
    }
}

/// Checks the status of the answer to a fetch. A success status lets the
/// body be decoded; any other fails with the status (`status_text`, as
/// "404 Not Found") and keeps the body, where it could be read, as detail.
pub fn fetch_status(code: u16, status_text: String, body: Option<String>) -> (r: Result<(), ErrorMessage>)
    ensures
        is_success(code) <==> r is Ok,
        r matches Err(e) ==> e.description@ == "HTTP Error: "@ + status_text@ && e.details == body,
{
    if 200 <= code && code <= 299 {
        Ok(())
    } else {
        let description = "HTTP Error: ".to_owned().concat(status_text.as_str());
        Err(ErrorMessage { description, details: body })
    }
}

/// Checks the status of the answer to a send. A bad request reports the
/// server's body (`body`, empty where it could not be read); any other
/// failure reports the code.
pub fn send_status(code: u16, body: String) -> (r: Result<(), ErrorMessage>)
    ensures
        match send_outcome(code, body@) {
            Ok(_) => r is Ok,
            Err(d) => r matches Err(e) && e.description@ == d && e.details is None,
        },
{
    if 200 <= code && code <= 299 {
        Ok(())
    } else if code == 400 {
        let description = "Bad request: ".to_owned().concat(body.as_str());
        Err(ErrorMessage { description, details: None })
    } else {
        let description = "unexpected response: ".to_owned().concat(decimal_text(code).as_str());
        Err(ErrorMessage { description, details: None })
    }
}

} // verus!
