//! A request put together from raw content.

use vstd::prelude::*;
use vstd::utf8::*;
use vstd::std_specs::convert::TryFromSpecImpl;
use crate::error::HttpError;
use crate::partials::HttpVersion;

verus! {

/// Marks content that nobody has read yet.
#[derive(Debug, Default, Clone, Copy)]
pub struct Unparsed;

/// A request by its method, its path and its version.
#[derive(Debug)]
pub struct HttpRequest {
    pub method: String,
    pub path: String,
    pub version: HttpVersion,
}

/// Gathers the content of a request.
#[derive(Debug)]
pub struct HttpRequestBuilder {
    content: Vec<u8>,
}

impl View for HttpRequestBuilder {
    type V = Seq<u8>;

    closed spec fn view(&self) -> Seq<u8> {
        self.content@
    }
}

impl HttpRequestBuilder {
    /// Appends `bytes` to the content.
    pub fn insert_bytes(&mut self, bytes: &[u8])
        ensures
            final(self)@ == old(self)@ + bytes@,
    {
        self.content.extend_from_slice(bytes);
        assert(self.content@ =~= old(self).content@ + bytes@);
    }

    /// A builder without content.
    pub fn new() -> (builder: HttpRequestBuilder)
        ensures
            builder@ == Seq::<u8>::empty(),
    {
        HttpRequestBuilder { content: Vec::new() }
    }

    /// Builds the request. The content is not read: whatever it holds, the
    /// request has an empty method, an empty path and version HTTP/1.1.
    pub fn build(self) -> (request: Result<HttpRequest, HttpError>)
        ensures
            request matches Ok(r) && r.method@ == Seq::<char>::empty() && r.path@ == Seq::<
                char,
            >::empty() && r.version == HttpVersion::Http11,
    {
        Ok(HttpRequest { method: String::new(), path: String::new(), version: HttpVersion::Http11 })
    }
}

impl TryFrom<HttpRequestBuilder> for String {
    type Error = std::string::FromUtf8Error;

    /// The content as text, where it is UTF-8.
    fn try_from(value: HttpRequestBuilder) -> (text: Result<String, std::string::FromUtf8Error>)
        ensures
            text is Ok <==> valid_utf8(value@),
            text matches Ok(t) ==> t@ == decode_utf8(value@),
    {
        String::from_utf8(value.content)
    }
}

impl TryFromSpecImpl<HttpRequestBuilder> for String {
    open spec fn obeys_try_from_spec() -> bool {
        false
    }

    open spec fn try_from_spec(value: HttpRequestBuilder) -> Result<
        String,
        std::string::FromUtf8Error,
    > {
        arbitrary()
    }
}

} // verus!
