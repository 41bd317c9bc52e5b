//! One authenticated GET against a registry endpoint, as a sequence of
//! decisions: what request to send, what to make of the response status and
//! headers, and what to make of the body. The caller performs the request and
//! the body read, and hands each result to the next step.
use vstd::prelude::*;

use crate::foreign::{lower_of, lowercase, status_digits, status_line, status_reason};
use crate::text::{
    remove_angle_brackets, replace_all, replace_str, without_angle_brackets,
};

verus! {

/// The query client. It holds no state: every call stands alone.
#[derive(Debug, Clone)]
pub struct ImplQueryImageInterface {}

/// What a successful query returns: the body text (or the digest, in digest
/// mode) and the next-page link, empty when there is none.
#[derive(Debug, Clone, PartialEq)]
pub struct ResponseData {
    pub data: String,
    pub link: String,
}

impl View for ResponseData {
    type V = (Seq<char>, Seq<char>);

    open spec fn view(&self) -> (Seq<char>, Seq<char>) {
        (self.data@, self.link@)
    }
}

/// The ways a query fails.
#[derive(Debug, Clone, Copy, PartialEq, Eq, Structural)]
pub enum ErrorKind {
    /// No response was obtained (connection, timeout, name resolution).
    TransportError,
    /// A response came back with a status other than 200.
    StatusError,
    /// The status was 200 but the body could not be read as text.
    BodyReadError,
    /// Digest mode was asked for and the response has no digest header.
    MissingDigestHeaderError,
}

/// A failed query: its kind and a message for people.
#[derive(Debug, Clone)]
pub struct QueryError {
    pub kind: ErrorKind,
    pub message: String,
}

impl View for QueryError {
    type V = (ErrorKind, Seq<char>);

    open spec fn view(&self) -> (ErrorKind, Seq<char>) {
        (self.kind, self.message@)
    }
}

/// One request header, name and value.
#[derive(Debug, Clone)]
pub struct Header {
    pub name: String,
    pub value: String,
}

impl View for Header {
    type V = (Seq<char>, Seq<char>);

    open spec fn view(&self) -> (Seq<char>, Seq<char>) {
        (self.name@, self.value@)
    }
}

/// The GET request to send: where, and with which headers, in order.
#[derive(Debug, Clone)]
pub struct RequestPlan {
    pub url: String,
    pub headers: Vec<Header>,
}

/// What follows once the status and headers of a response are known.
#[derive(Debug)]
pub enum ResponseStep {
    /// Read the body as text and hand it to `on_body`, with this link.
    ReadBody(String),
    /// The query is over, with this result.
    Finished(Result<ResponseData, QueryError>),
}

/// The result of a query as values: body (or digest) and link, or the kind
/// of failure and its message.
pub type Outcome = Result<(Seq<char>, Seq<char>), (ErrorKind, Seq<char>)>;

/// The model of a `ResponseStep`.
pub enum StepModel {
    ReadBody(Seq<char>),
    Finished(Outcome),
}

/// The model of a query's result.
pub open spec fn outcome_of(r: Result<ResponseData, QueryError>) -> Outcome {
    match r {
        Ok(d) => Ok(d@),
        Err(e) => Err(e@),
    }
}

/// The characters of a text result, or of its error.
pub open spec fn text_result(r: Result<String, String>) -> Result<Seq<char>, Seq<char>> {
    match r {
        Ok(t) => Ok(t@),
        Err(e) => Err(e@),
    }
}

impl View for ResponseStep {
    type V = StepModel;

    open spec fn view(&self) -> StepModel {
        match self {
            ResponseStep::ReadBody(l) => StepModel::ReadBody(l@),
            ResponseStep::Finished(r) => StepModel::Finished(outcome_of(*r)),
        }
    }
}

/// The URL that is requested: with no token every `https` in the text
/// becomes `http`; with a token the URL is used as given.
pub open spec fn request_url_of(url: Seq<char>, token: Seq<char>) -> Seq<char> {
    if token.len() == 0 {
        replace_all(url, "https"@, "http"@)
    } else {
        url
    }
}

/// The media types the client accepts: Docker manifest lists, OCI image
/// indexes and OCI image manifests.
pub open spec fn accepted_media_types() -> Seq<char> {
    "application/vnd.docker.distribution.manifest.list.v2+json,application/vnd.oci.image.index.v1+json,application/vnd.oci.image.manifest.v1+json"@
}

/// The request headers, in order: client name, bearer credential when there
/// is a token, accepted media types, content type.
pub open spec fn request_headers_of(token: Seq<char>) -> Seq<(Seq<char>, Seq<char>)> {
    let agent = ("user-agent"@, "image-mirror"@);
    let accept = ("accept"@, accepted_media_types());
    let content = ("content-type"@, "application/json"@);
    if token.len() == 0 {
        seq![agent, accept, content]
    } else {
        seq![agent, ("authorization"@, "Bearer "@ + token), accept, content]
    }
}

/// The next-page URL carried by a `Link` header value: the value without its
/// angle brackets and without the `; rel="next"` annotation.
pub open spec fn link_target(header: Seq<char>) -> Seq<char> {
    replace_all(without_angle_brackets(header), "; rel=\"next\""@, Seq::empty())
}

/// The text every error message starts with.
pub open spec fn message_prefix() -> Seq<char> {
    "[get_details] "@
}

/// The failure for a response whose status is not 200.
pub open spec fn status_failure(status: u16) -> (ErrorKind, Seq<char>) {
    (
        ErrorKind::StatusError,
        message_prefix() + status_digits(status) + seq![' '] + status_reason(status),
    )
}

/// The failure for a response in digest mode that lacks the digest header.
pub open spec fn missing_digest_failure() -> (ErrorKind, Seq<char>) {
    (
        ErrorKind::MissingDigestHeaderError,
        message_prefix() + "missing docker-content-digest header"@,
    )
}

/// The failure when no response was obtained, with the cause lower-cased.
pub open spec fn transport_failure(cause: Seq<char>) -> (ErrorKind, Seq<char>) {
    (ErrorKind::TransportError, message_prefix() + lower_of(cause))
}

/// The failure when the body could not be read, with the cause lower-cased.
pub open spec fn body_failure(cause: Seq<char>) -> (ErrorKind, Seq<char>) {
    (
        ErrorKind::BodyReadError,
        message_prefix() + "could not read body contents "@ + lower_of(cause),
    )
}

/// What a response's status and headers decide: a non-200 status fails; in
/// digest mode the digest header is the result, with an empty link; else
/// the body is to be read, and the link is taken from the `Link` header.
pub open spec fn response_step_of(
    status: u16,
    extract_digest: bool,
    digest: Option<Seq<char>>,
    link: Option<Seq<char>>,
) -> StepModel {
    if status != 200 {
        StepModel::Finished(Err(status_failure(status)))
    } else if extract_digest {
        match digest {
            Some(d) => StepModel::Finished(Ok((d, Seq::empty()))),
            None => StepModel::Finished(Err(missing_digest_failure())),
        }
    } else {
        match link {
            Some(l) => StepModel::ReadBody(link_target(l)),
            None => StepModel::ReadBody(Seq::empty()),
        }
    }
}

/// What reading the body decides: its text with the link, or a failure.
pub open spec fn body_step_of(link: Seq<char>, body: Result<Seq<char>, Seq<char>>) -> Outcome {
    match body {
        Ok(b) => Ok((b, link)),
        Err(e) => Err(body_failure(e)),
    }
}

/// The result of a query whose response has the given status, digest header,
/// `Link` header and body (the body is read only where the headers ask for it).
pub open spec fn call_outcome(
    status: u16,
    extract_digest: bool,
    digest: Option<Seq<char>>,
    link: Option<Seq<char>>,
    body: Result<Seq<char>, Seq<char>>,
) -> Outcome {
    match response_step_of(status, extract_digest, digest, link) {
        StepModel::ReadBody(l) => body_step_of(l, body),
        StepModel::Finished(r) => r,
    }
}

/// The URL to request: `https` rewritten to `http` when `token` is empty.
pub fn request_url(url: &str, token: &str) -> (r: String)
    ensures
        r@ == request_url_of(url@, token@),
{
    if token.is_empty() {
        proof {
            reveal_strlit("https");
        }
        replace_str(url, "https", "http")
    } else {
        String::from_str(url)
    }
}

fn header(name: &str, value: String) -> (r: Header)
    ensures
        r@ == (name@, value@),
{
    Header { name: String::from_str(name), value }
}

/// The headers of the request, in the order they are sent.
pub fn request_headers(token: &str) -> (r: Vec<Header>)
    ensures
        r@.len() == request_headers_of(token@).len(),
        forall|i: int| 0 <= i < r@.len() ==> #[trigger] r@[i]@ == request_headers_of(token@)[i],
{
    let mut headers: Vec<Header> = Vec::new();
    headers.push(header("user-agent", String::from_str("image-mirror")));
    if !token.is_empty() {
        let mut bearer = String::from_str("Bearer ");
        bearer.append(token);
        headers.push(header("authorization", bearer));
    }
    headers.push(
        header(
            "accept",
            String::from_str(
                "application/vnd.docker.distribution.manifest.list.v2+json,application/vnd.oci.image.index.v1+json,application/vnd.oci.image.manifest.v1+json",
            ),
        ),
    );
    headers.push(header("content-type", String::from_str("application/json")));
    headers
}

/// The next-page URL carried by a `Link` header value.
pub fn next_page_link(header: &str) -> (r: String)
    ensures
        r@ == link_target(header@),
{
    let bare = remove_angle_brackets(header);
    proof {
        reveal_strlit("; rel=\"next\"");
        reveal_strlit("");
        assert(""@ =~= Seq::<char>::empty());
    }
    replace_str(bare.as_str(), "; rel=\"next\"", "")
}

fn prefixed(tail: &str) -> (r: String)
    ensures
        r@ == message_prefix() + tail@,
{
    let mut message = String::from_str("[get_details] ");
    message.append(tail);
    message
}

impl ImplQueryImageInterface {
    /// The request for `url`, unauthenticated (over `http`) when `token` is
    /// empty, else carrying `token` as a bearer credential.
    pub fn plan_request(&self, url: &str, token: &str) -> (r: RequestPlan)
        ensures
            r.url@ == request_url_of(url@, token@),
            r.headers@.len() == request_headers_of(token@).len(),
            forall|i: int|
                0 <= i < r.headers@.len() ==> #[trigger] r.headers@[i]@ == request_headers_of(
                    token@,
                )[i],
    {
        RequestPlan { url: request_url(url, token), headers: request_headers(token) }
    }

    /// The decision taken on a response, from its HTTP status code, the
    /// values of its `docker-content-digest` and `Link` headers, and whether
    /// the digest was asked for.
    pub fn on_response(
        &self,
        status: u16,
        extract_digest: bool,
        digest: Option<String>,
        link: Option<String>,
    ) -> (r: ResponseStep)
        requires
            100 <= status <= 999,
        ensures
            r@ == response_step_of(status, extract_digest, digest.deep_view(), link.deep_view()),
    {
        if status != 200 {
            let line = status_line(status);
            let message = prefixed(line.as_str());
            proof {
                assert(message@ =~= status_failure(status).1);
            }
            ResponseStep::Finished(Err(QueryError { kind: ErrorKind::StatusError, message }))
        } else if extract_digest {
            match digest {
                Some(d) => ResponseStep::Finished(Ok(ResponseData { data: d, link: String::new() })),
                None => {
                    let message = prefixed("missing docker-content-digest header");
                    ResponseStep::Finished(
                        Err(QueryError { kind: ErrorKind::MissingDigestHeaderError, message }),
                    )
                },
            }
        } else {
            match link {
                Some(l) => ResponseStep::ReadBody(next_page_link(l.as_str())),
                None => ResponseStep::ReadBody(String::new()),
            }
        }
    }

    /// The result once the body has been read (`Ok` with its text) or could
    /// not be (`Err` with the cause), for a response that asked for it.
    pub fn on_body(&self, link: String, body: Result<String, String>) -> (r: Result<
        ResponseData,
        QueryError,
    >)
        ensures
            outcome_of(r) == body_step_of(link@, text_result(body)),
    {
        match body {
            Ok(data) => Ok(ResponseData { data, link }),
            Err(cause) => {
                let mut message = String::from_str("[get_details] could not read body contents ");
                let lower = lowercase(cause.as_str());
                message.append(lower.as_str());
                proof {
                    reveal_strlit("[get_details] could not read body contents ");
                    reveal_strlit("[get_details] ");
                    reveal_strlit("could not read body contents ");
                    assert(message@ =~= body_failure(cause@).1);
                }
                Err(QueryError { kind: ErrorKind::BodyReadError, message })
            },
        }
    }

    /// The failure for a request that got no response, from the cause.
    pub fn on_transport_error(&self, cause: &str) -> (r: QueryError)
        ensures
            r@ == transport_failure(cause@),
    {
        let lower = lowercase(cause);
        let message = prefixed(lower.as_str());
        QueryError { kind: ErrorKind::TransportError, message }
    }
}

} // verus!
