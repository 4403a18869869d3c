//! The HTTP error value: a causal error with the status code and headers of
//! the response that it renders as, and the error for a request body that
//! could not be decoded.

use crate::chain::{chain_of, error_from_message, error_with_context, flatten_chain, is_text_chain};
use crate::codec::{serialize_error, wire_text};
use crate::serror::texts;
use vstd::prelude::*;
use vstd::string::*;

verus! {

/// An HTTP status code, from 100 to 999.
#[derive(Clone, Copy, Debug, PartialEq, Eq)]
pub struct StatusCode {
    code: u16,
}

impl View for StatusCode {
    type V = u16;

    closed spec fn view(&self) -> u16 {
        self.code
    }
}

impl StatusCode {
    #[verifier::type_invariant]
    spec fn in_range(&self) -> bool {
        100 <= self.code <= 999
    }

    /// The status code with this number, if it lies from 100 to 999.
    pub fn from_u16(code: u16) -> (r: Option<StatusCode>)
        ensures
            match r {
                Some(s) => s@ == code && 100 <= code <= 999,
                None => code < 100 || code > 999,
            },
    {
        if 100 <= code && code <= 999 {
            Some(StatusCode { code })
        } else {
            None
        }
    }

    /// 500 Internal Server Error, the status of an error that nobody
    /// annotated.
    pub fn internal_server_error() -> (r: StatusCode)
        ensures
            r@ == 500,
    {
        StatusCode { code: 500 }
    }

    /// The number of the status code.
    pub fn as_u16(&self) -> (r: u16)
        ensures
            r == self@,
            100 <= r <= 999,
    {
        proof {
            use_type_invariant(self);
        }
        self.code
    }
}

/// A header name with ASCII letters in lower case, as HTTP compares names
/// without regard to case.
pub open spec fn lower_ascii(s: Seq<char>) -> Seq<char> {
    s.map_values(|c: char| if 'A' <= c <= 'Z' { ((c as u32) + 32) as char } else { c })
}

/// Relies on `str::to_ascii_lowercase`: ASCII letters 'A' to 'Z' become 'a'
/// to 'z', every other char stays as it is.
#[verifier::external_body]
fn ascii_lowercase(s: &str) -> (r: String)
    ensures
        r@ == lower_ascii(s@),
{
    s.to_ascii_lowercase()
}

/// An ordered list of headers, names and values as text; a name may occur
/// more than once, and the values of one name keep the order in which they
/// were added. Names are kept in lower case, so that two spellings of a name
/// that differ in case are one name.
pub struct HeaderMap {
    entries: Vec<(String, String)>,
}

/// The values of a header name, in list order, whatever the case of its
/// letters.
pub open spec fn values_of(headers: Seq<(Seq<char>, Seq<char>)>, name: Seq<char>) -> Seq<Seq<char>>
    decreases headers.len(),
{
    if headers.len() == 0 {
        Seq::empty()
    } else {
        let rest = values_of(headers.drop_last(), name);
        if headers.last().0 == lower_ascii(name) {
            rest.push(headers.last().1)
        } else {
            rest
        }
    }
}

impl View for HeaderMap {
    type V = Seq<(Seq<char>, Seq<char>)>;

    closed spec fn view(&self) -> Seq<(Seq<char>, Seq<char>)> {
        self.entries@.map_values(|e: (String, String)| (e.0@, e.1@))
    }
}

impl HeaderMap {
    /// An empty list.
    pub fn new() -> (r: HeaderMap)
        ensures
            r@ == Seq::<(Seq<char>, Seq<char>)>::empty(),
    {
        let r = HeaderMap { entries: Vec::new() };
        assert(r@ =~= Seq::<(Seq<char>, Seq<char>)>::empty());
        r
    }

    /// The number of entries, counting each value of a name.
    pub fn len(&self) -> (r: usize)
        ensures
            r == self@.len(),
    {
        self.entries.len()
    }

    /// Adds a value for a name, in lower case, after all entries, keeping
    /// the values that the name already has.
    pub fn append(&mut self, name: &str, value: &str)
        ensures
            final(self)@ == old(self)@.push((lower_ascii(name@), value@)),
    {
        self.entries.push((ascii_lowercase(name), String::from_str(value)));
        assert(final(self)@ =~= old(self)@.push((lower_ascii(name@), value@)));
    }

    /// Adds all entries of `other`, in order, after all entries.
    pub fn extend(&mut self, other: HeaderMap)
        ensures
            final(self)@ == old(self)@ + other@,
    {
        let ghost added = other@;
        let mut other = other;
        self.entries.append(&mut other.entries);
        assert(final(self)@ =~= old(self)@ + added);
    }

    /// The name and value of the entry at `i`.
    pub fn entry(&self, i: usize) -> (r: (&str, &str))
        requires
            i < self@.len(),
        ensures
            (r.0@, r.1@) == self@[i as int],
    {
        (self.entries[i].0.as_str(), self.entries[i].1.as_str())
    }

    /// The values of a name, in the order in which they were added.
    pub fn get_all(&self, name: &str) -> (r: Vec<String>)
        ensures
            texts(r@) == values_of(self@, name@),
    {
        let key = ascii_lowercase(name);
        let mut r: Vec<String> = Vec::new();
        let mut i: usize = 0;
        while i < self.entries.len()
            invariant
                i <= self.entries@.len(),
                key@ == lower_ascii(name@),
                texts(r@) == values_of(self@.subrange(0, i as int), name@),
            decreases self.entries@.len() - i,
        {
            assert(self@.subrange(0, i + 1).drop_last() =~= self@.subrange(0, i as int));
            if self.entries[i].0 == key {
                r.push(self.entries[i].1.clone());
                assert(texts(r@) =~= values_of(self@.subrange(0, i + 1), name@));
            }
            i += 1;
        }
        assert(self@.subrange(0, self.entries@.len() as int) =~= self@);
        r
    }

    /// A copy of the list.
    pub fn copied(&self) -> (r: HeaderMap)
        ensures
            r@ == self@,
    {
        let mut entries: Vec<(String, String)> = Vec::new();
        let mut i: usize = 0;
        while i < self.entries.len()
            invariant
                i <= self.entries@.len(),
                entries@.len() == i,
                forall|j: int|
                    0 <= j < i ==> (#[trigger] entries@[j]).0@ == self.entries@[j].0@
                        && entries@[j].1@ == self.entries@[j].1@,
            decreases self.entries@.len() - i,
        {
            entries.push((self.entries[i].0.clone(), self.entries[i].1.clone()));
            i += 1;
        }
        let r = HeaderMap { entries };
        assert(r@ =~= self@);
        r
    }
}

/// The headers of a rendered response: `content-type: application/json`
/// first, then the headers that the error carries, none of them dropped.
pub open spec fn response_headers(headers: Seq<(Seq<char>, Seq<char>)>) -> Seq<(Seq<char>, Seq<char>)> {
    seq![(lower_ascii("Content-Type"@), "application/json"@)] + headers
}

/// The message of the error for a request body that could not be decoded.
pub open spec fn body_decode_message() -> Seq<char> {
    "failed to deserialize the request body into the target type"@
}

/// A rendered response: status line, headers and body.
pub struct Response {
    pub status: StatusCode,
    pub headers: HeaderMap,
    pub body: String,
}

/// An error on its way out of a request handler: the causal error, and the
/// status and headers of the response that it becomes.
pub struct HttpError {
    pub status: StatusCode,
    pub headers: HeaderMap,
    pub error: anyhow::Error,
}

impl HttpError {
    /// The error that any causal error becomes by default: status 500 and no
    /// headers.
    pub fn from_error(error: anyhow::Error) -> (r: HttpError)
        ensures
            r.status@ == 500,
            r.headers@.len() == 0,
            r.error == error,
    {
        HttpError { status: StatusCode::internal_server_error(), headers: HeaderMap::new(), error }
    }

    /// Replaces the status.
    pub fn status_code(self, status_code: StatusCode) -> (r: HttpError)
        ensures
            r.status == status_code,
            r.headers@ == self.headers@,
            r.error == self.error,
    {
        let mut e = self;
        e.status = status_code;
        e
    }

    /// Adds a header after those already there; earlier values of the same
    /// name stay.
    pub fn header(self, name: &str, value: &str) -> (r: HttpError)
        ensures
            r.status == self.status,
            r.headers@ == self.headers@.push((lower_ascii(name@), value@)),
            r.error == self.error,
    {
        let mut e = self;
        e.headers.append(name, value);
        e
    }

    /// Replaces all headers.
    pub fn headers(self, headers: HeaderMap) -> (r: HttpError)
        ensures
            r.status == self.status,
            r.headers@ == headers@,
            r.error == self.error,
    {
        let mut e = self;
        e.headers = headers;
        e
    }

    /// Renders the response: the error's status, `Content-Type:
    /// application/json` followed by the error's headers, and the compact
    /// wire text of the causal error as body.
    pub fn into_response(self) -> (r: Response)
        ensures
            r.status == self.status,
            r.headers@ == response_headers(self.headers@),
            exists|m: Seq<Seq<char>>|
                m.len() >= 1 && r.body@ == wire_text(#[trigger] flatten_chain(m)),
            is_text_chain(self.error) ==> r.body@ == wire_text(flatten_chain(chain_of(self.error))),
    {
        let body = serialize_error(&self.error);
        let mut headers = HeaderMap::new();
        headers.append("Content-Type", "application/json");
        headers.extend(self.headers);
        assert(headers@ =~= response_headers(self.headers@));
        Response { status: self.status, headers, body }
    }
}

/// Turns a causal error into an [`HttpError`] with a given status.
pub trait AddStatusCodeError: Sized {
    /// The causal error that `self` stands for.
    spec fn cause(self) -> anyhow::Error;

    /// The error with this status and no headers.
    fn status_code(self, status_code: StatusCode) -> (r: HttpError)
        ensures
            r.status == status_code,
            r.headers@.len() == 0,
            r.error == self.cause(),
    ;
}

impl AddStatusCodeError for anyhow::Error {
    open spec fn cause(self) -> anyhow::Error {
        self
    }

    fn status_code(self, status_code: StatusCode) -> (r: HttpError) {
        HttpError { status: status_code, headers: HeaderMap::new(), error: self }
    }
}

/// Gives the error of a result a status, leaving a success as it is.
pub trait AddStatusCode<T>: Sized {
    /// The result that `self` stands for.
    spec fn outcome(self) -> Result<T, anyhow::Error>;

    /// The success unchanged, or the error with this status and no headers.
    fn status_code(self, status_code: StatusCode) -> (r: Result<T, HttpError>)
        ensures
            match self.outcome() {
                Ok(t) => r == Ok::<T, HttpError>(t),
                Err(e) => r matches Err(x) && x.status == status_code && x.headers@.len() == 0
                    && x.error == e,
            },
    ;
}

impl<T> AddStatusCode<T> for Result<T, anyhow::Error> {
    open spec fn outcome(self) -> Result<T, anyhow::Error> {
        self
    }

    fn status_code(self, status_code: StatusCode) -> (r: Result<T, HttpError>) {
        match self {
            Ok(t) => Ok(t),
            Err(e) => Err(AddStatusCodeError::status_code(e, status_code)),
        }
    }
}

/// Turns a causal error into an [`HttpError`] with given headers and status 500.
pub trait AddHeadersError: Sized {
    /// The causal error that `self` stands for.
    spec fn cause(self) -> anyhow::Error;

    /// The error with status 500 and this one header.
    fn header(self, name: &str, value: &str) -> (r: HttpError)
        ensures
            r.status@ == 500,
            r.headers@ == seq![(lower_ascii(name@), value@)],
            r.error == self.cause(),
    ;

    /// The error with status 500 and these headers.
    fn headers(self, headers: HeaderMap) -> (r: HttpError)
        ensures
            r.status@ == 500,
            r.headers@ == headers@,
            r.error == self.cause(),
    ;
}

impl AddHeadersError for anyhow::Error {
    open spec fn cause(self) -> anyhow::Error {
        self
    }

    fn header(self, name: &str, value: &str) -> (r: HttpError) {
        let mut headers = HeaderMap::new();
        headers.append(name, value);
        assert(headers@ =~= seq![(lower_ascii(name@), value@)]);
        HttpError { headers, status: StatusCode::internal_server_error(), error: self }
    }

    fn headers(self, headers: HeaderMap) -> (r: HttpError) {
        HttpError { headers, status: StatusCode::internal_server_error(), error: self }
    }
}

/// Gives the error of a result headers, leaving a success as it is.
pub trait AddHeaders<T>: Sized {
    /// The result that `self` stands for.
    spec fn outcome(self) -> Result<T, anyhow::Error>;

    /// The success unchanged, or the error with status 500 and this one
    /// header.
    fn header(self, name: &str, value: &str) -> (r: Result<T, HttpError>)
        ensures
            match self.outcome() {
                Ok(t) => r == Ok::<T, HttpError>(t),
                Err(e) => r matches Err(x) && x.status@ == 500 && x.headers@ == seq![(lower_ascii(name@), value@)]
                    && x.error == e,
            },
    ;

    /// The success unchanged, or the error with status 500 and a copy of
    /// these headers; the headers are borrowed, so that a success can still
    /// use them.
    fn headers(self, headers: &HeaderMap) -> (r: Result<T, HttpError>)
        ensures
            match self.outcome() {
                Ok(t) => r == Ok::<T, HttpError>(t),
                Err(e) => r matches Err(x) && x.status@ == 500 && x.headers@ == headers@ && x.error
                    == e,
            },
    ;
}

impl<T> AddHeaders<T> for Result<T, anyhow::Error> {
    open spec fn outcome(self) -> Result<T, anyhow::Error> {
        self
    }

    fn header(self, name: &str, value: &str) -> (r: Result<T, HttpError>) {
        match self {
            Ok(t) => Ok(t),
            Err(e) => Err(AddHeadersError::header(e, name, value)),
        }
    }

    fn headers(self, headers: &HeaderMap) -> (r: Result<T, HttpError>) {
        match self {
            Ok(t) => Ok(t),
            Err(e) => Err(AddHeadersError::headers(e, headers.copied())),
        }
    }
}

/// A request body decoded from JSON, or a response body encoded as JSON.
pub struct Json<T>(pub T);

/// The error for a request body that could not be decoded: it renders as any
/// other [`HttpError`].
pub struct JsonError(pub HttpError);

impl JsonError {
    /// The error for a body that the decoder refused with `status`: no
    /// headers, and a chain of two messages, the decode failure and then the
    /// decoder's own diagnostic as its cause.
    pub fn from_rejection(status: StatusCode, diagnostic: String) -> (r: JsonError)
        ensures
            r.0.status == status,
            r.0.headers@.len() == 0,
            is_text_chain(r.0.error),
            chain_of(r.0.error) == seq![body_decode_message(), diagnostic@],
    {
        let cause = error_from_message(diagnostic);
        let message = String::from_str("failed to deserialize the request body into the target type");
        let error = error_with_context(cause, message);
        JsonError(HttpError { status, headers: HeaderMap::new(), error })
    }

    /// Renders the response as [`HttpError::into_response`] does.
    pub fn into_response(self) -> (r: Response)
        ensures
            r.status == self.0.status,
            r.headers@ == response_headers(self.0.headers@),
            exists|m: Seq<Seq<char>>|
                m.len() >= 1 && r.body@ == wire_text(#[trigger] flatten_chain(m)),
            is_text_chain(self.0.error) ==> r.body@ == wire_text(
                flatten_chain(chain_of(self.0.error)),
            ),
    {
        self.0.into_response()
    }
}

/// Two values added for one name both reach the rendered response, in the
/// order in which they were added, after the values that the name had.
pub proof fn lemma_header_values_kept_in_order(
    headers: Seq<(Seq<char>, Seq<char>)>,
    name: Seq<char>,
    first: Seq<char>,
    second: Seq<char>,
)
    ensures
        values_of(
            response_headers(
                headers.push((lower_ascii(name), first)).push((lower_ascii(name), second)),
            ),
            name,
        ) == values_of(response_headers(headers), name).push(first).push(second),
{
    let key = lower_ascii(name);
    let base = response_headers(headers);
    assert(response_headers(headers.push((key, first))) =~= base.push((key, first)));
    assert(response_headers(headers.push((key, first)).push((key, second))) =~= base.push(
        (key, first),
    ).push((key, second)));
    assert(base.push((key, first)).push((key, second)).drop_last() =~= base.push((key, first)));
    assert(base.push((key, first)).drop_last() =~= base);
    assert(values_of(base.push((key, first)), name) == values_of(base, name).push(first));
}

/// Two spellings of a header name that differ only in the case of ASCII
/// letters find the same values.
pub proof fn lemma_header_names_ignore_case(
    headers: Seq<(Seq<char>, Seq<char>)>,
    a: Seq<char>,
    b: Seq<char>,
)
    requires
        lower_ascii(a) == lower_ascii(b),
    ensures
        values_of(headers, a) == values_of(headers, b),
    decreases headers.len(),
{
    if headers.len() > 0 {
        lemma_header_names_ignore_case(headers.drop_last(), a, b);
    }
}

/// A response whose error carries no headers has one `content-type` value,
/// `application/json`, found under any spelling of the name.
pub proof fn lemma_default_content_type(name: Seq<char>)
    requires
        lower_ascii(name) == lower_ascii("Content-Type"@),
    ensures
        values_of(response_headers(Seq::empty()), name) == seq!["application/json"@],
{
    let hs = response_headers(Seq::empty());
    assert(hs.len() == 1);
    assert(hs.last() == (lower_ascii("Content-Type"@), "application/json"@));
    assert(hs.drop_last() =~= Seq::<(Seq<char>, Seq<char>)>::empty());
    assert(values_of(hs.drop_last(), name) == Seq::<Seq<char>>::empty());
    assert(values_of(hs, name) =~= seq!["application/json"@]);
}

} // verus!
