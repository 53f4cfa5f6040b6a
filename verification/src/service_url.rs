use vstd::prelude::*;

verus! {

/// `url::Url`, the parsed URL of the `url` crate, carried as it is.
#[verifier::external_type_specification]
#[verifier::external_body]
pub struct ExUrl(url::Url);

/// What `url::Url::parse` makes of `input`: the serialization of the parsed
/// URL, or the text of the error.
pub uninterp spec fn url_parse_result(input: Seq<char>) -> Result<Seq<char>, Seq<char>>;

/// What `url::Url::join` makes of `input` against the URL whose serialization
/// is `base`: the serialization of the joined URL, or the text of the error.
pub uninterp spec fn url_join_result(base: Seq<char>, input: Seq<char>) -> Result<Seq<char>, Seq<char>>;

/// The serialization of the URL whose serialization is `url` after
/// `url::Url::set_query` gave it the query `query`.
pub uninterp spec fn url_with_query_result(url: Seq<char>, query: Seq<char>) -> Seq<char>;

/// A URL parsed by the `url` crate, with its serialization. Its view is the
/// serialization.
#[derive(Debug)]
pub struct ServiceUrl {
    url: url::Url,
    text: String,
}

impl View for ServiceUrl {
    type V = Seq<char>;

    closed spec fn view(&self) -> Seq<char> {
        self.text@
    }
}

/// A URL that could not be parsed, with the reason.
#[derive(Clone, Debug)]
pub struct UrlError {
    pub message: String,
}

/// The serialization of a parse result, or the text of its error.
pub open spec fn url_result_view(r: Result<ServiceUrl, String>) -> Result<Seq<char>, Seq<char>> {
    match r {
        Ok(u) => Ok(u@),
        Err(m) => Err(m@),
    }
}

/// The serialization of a result of the library, or the text of its error.
pub open spec fn service_url_result_view(r: Result<ServiceUrl, UrlError>) -> Result<Seq<char>, Seq<char>> {
    match r {
        Ok(u) => Ok(u@),
        Err(e) => Err(e.message@),
    }
}

/// A URL whose query `set_query` can set without its serialization growing
/// past the 4 GiB that the `url` crate indexes with `u32`. The serialization
/// of a parsed URL is ASCII, one byte per character; a character of the query
/// takes at most 12 bytes once percent-encoded, and one byte goes to the `?`.
pub open spec fn query_fits(url: Seq<char>, query: Seq<char>) -> bool {
    url.len() + 12 * query.len() + 1 <= u32::MAX
}

/// Calls `url::Url::parse`. The contract claims that the result is what
/// `url_parse_result` names: the parsed URL with its serialization, or the
/// `Display` text of the `url::ParseError`.
#[verifier::external_body]
fn url_parse(input: &str) -> (res: Result<ServiceUrl, String>)
    ensures
        url_result_view(res) == url_parse_result(input@),
{
    match url::Url::parse(input) {
        Ok(url) => {
            let text = String::from(url.as_str());
            Ok(ServiceUrl { url, text })
        },
        Err(e) => Err(e.to_string()),
    }
}

/// Calls `url::Url::join` on the URL held by `base`. The contract claims that
/// the result is what `url_join_result` names for the serialization of `base`
/// (each `ServiceUrl` holds the serialization of the URL it holds: only these
/// wrappers build one).
#[verifier::external_body]
fn url_join(base: &ServiceUrl, input: &str) -> (res: Result<ServiceUrl, String>)
    ensures
        url_result_view(res) == url_join_result(base@, input@),
{
    match base.url.join(input) {
        Ok(url) => {
            let text = String::from(url.as_str());
            Ok(ServiceUrl { url, text })
        },
        Err(e) => Err(e.to_string()),
    }
}

/// Calls `url::Url::set_query` with `Some(query)` on the URL held by `url`.
/// The contract claims that the new serialization is what
/// `url_with_query_result` names. `set_query` unwraps a conversion of the
/// serialization's length to `u32`, hence the bound.
#[verifier::external_body]
fn url_set_query(url: &mut ServiceUrl, query: &str)
    requires
        query_fits(old(url)@, query@),
    ensures
        final(url)@ == url_with_query_result(old(url)@, query@),
{
    url.url.set_query(Some(query));
    url.text = String::from(url.url.as_str());
}

impl ServiceUrl {
    /// Parses an absolute URL.
    pub fn parse(input: &str) -> (res: Result<ServiceUrl, UrlError>)
        ensures
            service_url_result_view(res) == url_parse_result(input@),
    {
        match url_parse(input) {
            Ok(u) => Ok(u),
            Err(message) => Err(UrlError { message }),
        }
    }

    /// Resolves `input` against this URL.
    pub fn join(&self, input: &str) -> (res: Result<ServiceUrl, UrlError>)
        ensures
            service_url_result_view(res) == url_join_result(self@, input@),
    {
        match url_join(self, input) {
            Ok(u) => Ok(u),
            Err(message) => Err(UrlError { message }),
        }
    }

    /// Replaces the query of this URL.
    pub fn set_query(&mut self, query: &str)
        requires
            query_fits(old(self)@, query@),
        ensures
            final(self)@ == url_with_query_result(old(self)@, query@),
    {
        url_set_query(self, query)
    }

    /// The serialization of this URL.
    pub fn as_str(&self) -> (s: &str)
        ensures
            s@ == self@,
    {
        self.text.as_str()
    }
}

} // verus!
