//! The client: what it sends for a message, and what it makes of the reply.

use crate::error::{Error, ErrorView};
use crate::json::{optional_text, read_string_member, string_member};
use crate::mail::Mail;
use vstd::prelude::*;

verus! {

/// Where every message is posted.
pub const API_URL: &'static str = "https://api.resend.com/emails";

/// What the API hands back for a message it accepted.
#[derive(Debug, PartialEq, Eq)]
pub struct Email {
    pub id: String,
}

/// A client of the API, holding the bearer token it authenticates with.
pub struct ResendClient<'a> {
    auth_token: &'a str,
}

/// One header of a request.
#[derive(Debug, PartialEq, Eq)]
pub struct Header {
    pub name: &'static str,
    pub value: String,
}

/// One HTTPS request, ready to be performed.
#[derive(Debug, PartialEq, Eq)]
pub struct Request {
    pub method: &'static str,
    pub url: &'static str,
    pub headers: Vec<Header>,
    pub body: String,
}

/// How an attempt to perform a [`Request`] ended.
#[derive(Debug, PartialEq, Eq)]
pub enum Reply {
    /// No response was obtained.
    Failed,
    /// The API answered.
    Response { status: u16, body: String },
}

/// Whether an HTTP status says that the request succeeded: the 2xx range.
pub open spec fn is_success(status: u16) -> bool {
    200 <= status < 300
}

/// What came of a message: the identifier it was given, or the failure.
pub open spec fn outcome(result: Result<Email, Error>) -> Result<Seq<char>, ErrorView> {
    match result {
        Ok(email) => Ok(email.id@),
        Err(error) => Err(error@),
    }
}

/// What a response means, given the string member `id` of its body where
/// there is one. A status outside 2xx is an error that carries the body as
/// it is; a 2xx status yields the identifier, and without one the response
/// cannot be understood.
pub open spec fn verdict(status: u16, body: Seq<char>, id: Option<Seq<char>>) -> Result<
    Seq<char>,
    ErrorView,
> {
    if !is_success(status) {
        Err(ErrorView::ResendError(body))
    } else {
        match id {
            Some(id) => Ok(id),
            None => Err(ErrorView::ResponseParseFailure),
        }
    }
}

/// What a reply means.
pub open spec fn reading(reply: Reply) -> Result<Seq<char>, ErrorView> {
    match reply {
        Reply::Failed => Err(ErrorView::TransportFailure),
        Reply::Response { status, body } => verdict(status, body@, string_member(body@, "id"@)),
    }
}

impl<'a> ResendClient<'a> {
    /// The token that the client authenticates with.
    pub closed spec fn token(&self) -> Seq<char> {
        self.auth_token@
    }

    /// A client that authenticates with `auth_token`.
    pub fn new(auth_token: &'a str) -> (client: Self)
        ensures
            client.token() == auth_token@,
    {
        ResendClient { auth_token }
    }

    /// The request that sends `mail`: a POST to [`API_URL`] that carries the
    /// token as a bearer credential and the message as a JSON body.
    pub fn request<M: Mail>(&self, mail: &M) -> (request: Request)
        ensures
            request.method@ == "POST"@,
            request.url@ == API_URL@,
            request.headers@.len() == 2,
            request.headers@[0].name@ == "Authorization"@,
            request.headers@[0].value@ == "Bearer "@ + self.token(),
            request.headers@[1].name@ == "Content-Type"@,
            request.headers@[1].value@ == "application/json"@,
            request.body@ == mail@.json(),
    {
        let mut bearer = String::from_str("Bearer ");
        bearer.append(self.auth_token);
        let mut headers = Vec::new();
        headers.push(Header { name: "Authorization", value: bearer });
        headers.push(Header { name: "Content-Type", value: String::from_str("application/json") });
        Request { method: "POST", url: API_URL, headers, body: mail.to_json() }
    }

    /// Whether `status` is in the 2xx range.
    pub fn succeeded(status: u16) -> (yes: bool)
        ensures
            yes == is_success(status),
    {
        200 <= status && status < 300
    }

    /// What a response means, given the string member `id` that was read
    /// from its body.
    pub fn decide(status: u16, body: String, id: Option<String>) -> (result: Result<Email, Error>)
        ensures
            outcome(result) == verdict(status, body@, optional_text(id)),
    {
        if !Self::succeeded(status) {
            Err(Error::ResendError(body))
        } else {
            match id {
                Some(id) => Ok(Email { id }),
                None => Err(Error::ResponseParseFailure),
            }
        }
    }

    /// What a reply means: the identifier of the message, or the failure.
    /// The body of a 2xx response is read as JSON for its member `id`; the
    /// body of any other response is handed back untouched.
    pub fn interpret(reply: Reply) -> (result: Result<Email, Error>)
        ensures
            outcome(result) == reading(reply),
    {
        match reply {
            Reply::Failed => Err(Error::TransportFailure),
            Reply::Response { status, body } => {
                let id = if Self::succeeded(status) {
                    read_string_member(body.as_str(), "id")
                } else {
                    None
                };
                Self::decide(status, body, id)
            },
        }
    }
}

/// Which replies give which outcome. An identifier comes back exactly for
/// a 2xx response whose body holds a string member `id`, and it is that
/// member. A 2xx response without one cannot be understood. Any other
/// response is an error of the API that carries the body unchanged. No
/// response is a failure of the transport.
pub proof fn lemma_outcomes(reply: Reply)
    ensures
        reading(reply) is Ok <==> (reply matches Reply::Response { status, body } && is_success(
            status,
        ) && string_member(body@, "id"@) is Some),
        reading(reply) matches Ok(id) ==> (reply matches Reply::Response { body, .. }
            && string_member(body@, "id"@) == Some(id)),
        reading(reply) == Err::<Seq<char>, ErrorView>(ErrorView::ResponseParseFailure) <==> (
        reply matches Reply::Response { status, body } && is_success(status) && string_member(
            body@,
            "id"@,
        ) is None),
        reading(reply) matches Err(ErrorView::ResendError(_)) <==> (reply matches Reply::Response {
            status,
            ..
        } && !is_success(status)),
        reading(reply) matches Err(ErrorView::ResendError(text)) ==> (
        reply matches Reply::Response { body, .. } && text == body@),
        reading(reply) == Err::<Seq<char>, ErrorView>(ErrorView::TransportFailure)
            <==> reply is Failed,
{
}

} // verus!
