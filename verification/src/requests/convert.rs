//! The conversion request: an immutable builder that accumulates the input
//! text and the parameters, and the terminal step that turns the transport's
//! answer into a result.

use crate::bionic::{Error, Fixation, Saccade, Text, TransportError};
use crate::client::{base_domain, Client};
use crate::decimal::{decimal_string, spec_decimal};
use vstd::prelude::*;

verus! {

/// The accumulated state of one conversion request: the text to convert and
/// the two parameter levels, always both defined.
#[derive(Clone)]
pub struct Request {
    pub input: String,
    pub fixation: Fixation,
    pub saccade: Saccade,
}

impl Default for Request {
    /// Empty input, default fixation and saccade.
    fn default() -> (r: Self)
        ensures
            r.input@ == Seq::<char>::empty(),
            r.fixation == Fixation::Weakest,
            r.saccade == Saccade::Fewest,
    {
        Request {
            input: String::new(),
            fixation: Fixation::default(),
            saccade: Saccade::default(),
        }
    }
}

/// What the transport handed back for one attempted round-trip: either a
/// status code together with the body read as text (`None` when the body
/// could not be read as text), or a failure raised before any status code
/// was obtained.
pub enum TransportEvent {
    Response { status: u16, body: Option<String> },
    Failure(TransportError),
}

/// Whether a status code counts as failure: the client-error and
/// server-error ranges.
pub open spec fn status_is_error(status: u16) -> bool {
    400 <= status && status < 600
}

/// The description the library gives a failure status.
pub open spec fn status_message(status: u16) -> Seq<char> {
    "HTTP status error: "@ + spec_decimal(status as nat)
}

/// An immutable request builder. Each configuration call consumes the
/// builder and returns a new value with exactly one field replaced, so
/// independently held builder values never interfere.
#[must_use]
#[derive(Clone)]
pub struct Builder {
    pub client: Client,
    pub request: Request,
}

impl Builder {
    /// A builder over the given client, seeded with the input text and the
    /// default fixation and saccade.
    pub fn new(client: Client, input: String) -> (r: Builder)
        ensures
            r.client == client,
            r.request.input == input,
            r.request.fixation == Fixation::Weakest,
            r.request.saccade == Saccade::Fewest,
    {
        let mut request = Request::default();
        request.input = input;
        Builder { client, request }
    }

    /// Replace the input text; everything else is kept.
    pub fn input(self, input: String) -> (r: Builder)
        ensures
            r.client == self.client,
            r.request.input == input,
            r.request.fixation == self.request.fixation,
            r.request.saccade == self.request.saccade,
    {
        Builder { client: self.client, request: Request { input, ..self.request } }
    }

    /// Replace the fixation level; everything else is kept.
    pub fn fixation(self, fixation: Fixation) -> (r: Builder)
        ensures
            r.client == self.client,
            r.request.input == self.request.input,
            r.request.fixation == fixation,
            r.request.saccade == self.request.saccade,
    {
        Builder { client: self.client, request: Request { fixation, ..self.request } }
    }

    /// Replace the saccade level; everything else is kept.
    pub fn saccade(self, saccade: Saccade) -> (r: Builder)
        ensures
            r.client == self.client,
            r.request.input == self.request.input,
            r.request.fixation == self.request.fixation,
            r.request.saccade == saccade,
    {
        Builder { client: self.client, request: Request { saccade, ..self.request } }
    }

    /// The multipart fields of the outbound request, in order: the input
    /// text, the fixed request and response types, and the decimal strings
    /// of the fixation and saccade codes.
    pub fn form_fields(&self) -> (r: Vec<(String, String)>)
        ensures
            r@.len() == 5,
            r@[0].0@ == "content"@ && r@[0].1@ == self.request.input@,
            r@[1].0@ == "request_type"@ && r@[1].1@ == "html"@,
            r@[2].0@ == "response_type"@ && r@[2].1@ == "html"@,
            r@[3].0@ == "fixation"@ && r@[3].1@ == spec_decimal(
                self.request.fixation.to_code_spec() as nat,
            ),
            r@[4].0@ == "saccade"@ && r@[4].1@ == spec_decimal(
                self.request.saccade.to_code_spec() as nat,
            ),
    {
        let mut r: Vec<(String, String)> = Vec::new();
        r.push((String::from_str("content"), self.request.input.clone()));
        r.push((String::from_str("request_type"), String::from_str("html")));
        r.push((String::from_str("response_type"), String::from_str("html")));
        r.push(
            (
                String::from_str("fixation"),
                decimal_string(self.request.fixation.to_code() as u16),
            ),
        );
        r.push(
            (String::from_str("saccade"), decimal_string(self.request.saccade.to_code() as u16)),
        );
        r
    }

    /// The headers of the outbound request, in order: the authentication
    /// header carrying the raw credential, the host header with the
    /// endpoint's domain or the fixed default, and the content-type value
    /// the service expects. The service names a non-multipart encoding here
    /// although the body is multipart; that mismatch is part of its wire
    /// contract and is reproduced as-is.
    pub fn headers(&self) -> (r: Vec<(String, String)>)
        ensures
            r@.len() == 3,
            r@[0].0@ == "X-RapidAPI-Key"@ && r@[0].1@ == self.client.api_key@,
            r@[1].0@ == "X-RapidAPI-Host"@ && r@[1].1@ == (match self.client.url.domain {
                Some(d) => d@,
                None => base_domain(),
            }),
            r@[2].0@ == "content_type"@ && r@[2].1@ == "application/x-www-form-urlencoded"@,
    {
        let mut r: Vec<(String, String)> = Vec::new();
        r.push((String::from_str("X-RapidAPI-Key"), self.client.api_key.secret().to_owned()));
        r.push((String::from_str("X-RapidAPI-Host"), self.client.url.host()));
        r.push(
            (
                String::from_str("content_type"),
                String::from_str("application/x-www-form-urlencoded"),
            ),
        );
        r
    }

    /// The terminal step of a send: interprets what the transport handed
    /// back. A failure raised before any status code yields the conversion
    /// error wrapping it; a failure status yields the conversion error
    /// wrapping a description of that status, with no further causes; a
    /// success status yields the converted text with the body as its
    /// content — a body that could not be read as text (handed in as
    /// `None`) is "no content", not an error.
    pub fn complete(self, event: TransportEvent) -> (r: Result<Text, Error>)
        ensures
            (match event {
                TransportEvent::Failure(te) => r matches Err(Error::FailedToConvert(e)) && e
                    == te,
                TransportEvent::Response { status, body } => {
                    if status_is_error(status) {
                        r matches Err(Error::FailedToConvert(e)) && e.message@ == status_message(
                            status,
                        ) && e.causes@.len() == 0
                    } else {
                        r matches Ok(t) && t.html == body
                    }
                },
            }),
    {
        match event {
            TransportEvent::Failure(te) => Err(Error::FailedToConvert(te)),
            TransportEvent::Response { status, body } => {
                if 400 <= status && status < 600 {
                    let mut message = String::from_str("HTTP status error: ");
                    let digits = decimal_string(status);
                    message.append(digits.as_str());
                    Err(Error::FailedToConvert(TransportError { message, causes: Vec::new() }))
                } else {
                    Ok(Text { html: body })
                }
            },
        }
    }
}

/// Law: a fresh builder leaves both parameters at their defaults, and those
/// defaults encode to the wire codes `1` and `10`.
pub proof fn lemma_default_builder_codes(b: Builder)
    requires
        b.request.fixation == Fixation::Weakest,
        b.request.saccade == Saccade::Fewest,
    ensures
        b.request.fixation.to_code_spec() == 1,
        b.request.saccade.to_code_spec() == 10,
{
}

} // verus!
