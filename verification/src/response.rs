//! Response construction and serialization.
//!
//! `HttpResponse::new` applies the decision table: an existing regular file
//! is served with status `200 OK` and its exact bytes; anything else gets
//! the fixed not-found page with status `404 Not Found`; a failed read of
//! an existing file surfaces as a `BuildError`. `serialize` renders the
//! exact CRLF-terminated wire bytes.

use crate::request::HttpRequest;
use crate::request::Version;
use vstd::prelude::*;
use vstd::string::*;

verus! {

/// Response status: a closed set, extended only by new variants.
#[derive(Clone, Copy, Debug, PartialEq, Eq, Structural)]
pub enum ResponseStatus {
    OK,
    NotFound,
}

/// Whether the response advertises byte-range support.
#[derive(Clone, Copy, Debug, PartialEq, Eq, Structural)]
pub enum AcceptRanges {
    Bytes,
    NoRanges,
}

/// Why building a response failed: the target existed as a regular file
/// but reading it failed (permission denied, or the file disappeared
/// between the existence check and the read).
#[derive(Clone, Copy, Debug, PartialEq, Eq, Structural)]
pub enum BuildError {
    ResourceRead,
}

/// The outcome of resolving the request target against the document root.
/// The caller performs the filesystem probe and hands the outcome in; the
/// decision table itself is pure.
pub enum ResourceLookup {
    /// The target is a regular file whose bytes were read successfully.
    File(Vec<u8>),
    /// The target exists but is not a regular file (a directory, say).
    NotRegularFile,
    /// The target does not exist.
    Missing,
    /// The target is a regular file but reading it failed.
    ReadFailure,
}

pub ghost enum LookupView {
    File(Seq<u8>),
    NotRegularFile,
    Missing,
    ReadFailure,
}

impl View for ResourceLookup {
    type V = LookupView;

    open spec fn view(&self) -> LookupView {
        match self {
            ResourceLookup::File(content) => LookupView::File(content@),
            ResourceLookup::NotRegularFile => LookupView::NotRegularFile,
            ResourceLookup::Missing => LookupView::Missing,
            ResourceLookup::ReadFailure => LookupView::ReadFailure,
        }
    }
}

/// A built response; immutable once constructed, serialized exactly once.
#[derive(Debug)]
pub struct HttpResponse {
    pub version: Version,
    pub status: ResponseStatus,
    pub content_length: usize,
    pub accept_ranges: AcceptRanges,
    pub response_body: Vec<u8>,
    pub current_path: Vec<u8>,
    pub package_name: Vec<u8>,
    pub package_version: Vec<u8>,
}

#[verifier::ext_equal]
pub ghost struct HttpResponseView {
    pub version: Version,
    pub status: ResponseStatus,
    pub content_length: nat,
    pub accept_ranges: AcceptRanges,
    pub response_body: Seq<u8>,
    pub current_path: Seq<u8>,
    pub package_name: Seq<u8>,
    pub package_version: Seq<u8>,
}

impl View for HttpResponse {
    type V = HttpResponseView;

    open spec fn view(&self) -> HttpResponseView {
        HttpResponseView {
            version: self.version,
            status: self.status,
            content_length: self.content_length as nat,
            accept_ranges: self.accept_ranges,
            response_body: self.response_body@,
            current_path: self.current_path@,
            package_name: self.package_name@,
            package_version: self.package_version@,
        }
    }
}

/// The fixed not-found page, identical for every `NotFound` response.
pub open spec fn not_found_body() -> Seq<u8> {
    "<html><body><h1>NOT FOUND</h1></body></html>".spec_bytes()
}

/// The fixed server identity sent with every response.
pub open spec fn package_name_bytes() -> Seq<u8> {
    "simple-http".spec_bytes()
}

pub open spec fn package_version_bytes() -> Seq<u8> {
    "0.1.0".spec_bytes()
}

/// The numeric status code: paired with the status text by construction.
pub open spec fn spec_status_code(s: ResponseStatus) -> int {
    match s {
        ResponseStatus::OK => 200,
        ResponseStatus::NotFound => 404,
    }
}

/// The fixed status-line text per variant; never derived from the number.
pub open spec fn spec_status_text(s: ResponseStatus) -> Seq<u8> {
    match s {
        ResponseStatus::OK => "200 OK".spec_bytes(),
        ResponseStatus::NotFound => "404 Not Found".spec_bytes(),
    }
}

pub open spec fn spec_ranges_text(a: AcceptRanges) -> Seq<u8> {
    match a {
        AcceptRanges::Bytes => "bytes".spec_bytes(),
        AcceptRanges::NoRanges => "none".spec_bytes(),
    }
}

pub open spec fn spec_version_text(v: Version) -> Seq<u8> {
    match v {
        Version::V1_0 => "HTTP/1.0".spec_bytes(),
        Version::V1_1 => "HTTP/1.1".spec_bytes(),
        Version::V2_0 => "HTTP/2.0".spec_bytes(),
    }
}

/// Whether a response is well formed: the content length always equals the
/// exact byte length of the body, and the identity fields are the fixed
/// server constants.
pub open spec fn response_wf(r: HttpResponseView) -> bool {
    &&& r.content_length == r.response_body.len()
    &&& r.package_name == package_name_bytes()
    &&& r.package_version == package_version_bytes()
}

/// What `HttpResponse::new` returns: the decision table over the lookup
/// outcome. The served version is fixed, independent of the request's.
pub open spec fn spec_build(req: crate::request::HttpRequestView, lookup: LookupView) -> Result<
    HttpResponseView,
    BuildError,
> {
    match lookup {
        LookupView::File(content) => Result::Ok(
            HttpResponseView {
                version: Version::V2_0,
                status: ResponseStatus::OK,
                content_length: content.len(),
                accept_ranges: AcceptRanges::Bytes,
                response_body: content,
                current_path: req.path,
                package_name: package_name_bytes(),
                package_version: package_version_bytes(),
            },
        ),
        LookupView::NotRegularFile | LookupView::Missing => Result::Ok(
            HttpResponseView {
                version: Version::V2_0,
                status: ResponseStatus::NotFound,
                content_length: not_found_body().len(),
                accept_ranges: AcceptRanges::NoRanges,
                response_body: not_found_body(),
                current_path: req.path,
                package_name: package_name_bytes(),
                package_version: package_version_bytes(),
            },
        ),
        LookupView::ReadFailure => Result::Err(BuildError::ResourceRead),
    }
}

/// For every request whose target resolved to an existing regular file,
/// the built response is `200 OK` with `Accept-Ranges: bytes`, its body is
/// exactly the file's bytes, and the content length is exactly the file's
/// byte length.
pub proof fn lemma_build_serves_found_file(
    req: crate::request::HttpRequestView,
    content: Seq<u8>,
)
    ensures
        spec_build(req, LookupView::File(content)) is Ok,
        spec_build(req, LookupView::File(content))->Ok_0.status == ResponseStatus::OK,
        spec_build(req, LookupView::File(content))->Ok_0.accept_ranges == AcceptRanges::Bytes,
        spec_build(req, LookupView::File(content))->Ok_0.response_body == content,
        spec_build(req, LookupView::File(content))->Ok_0.content_length == content.len(),
{
}

/// For every request whose target did not resolve to an existing regular
/// file, the built response is `404 Not Found` with `Accept-Ranges: none`,
/// its body is the fixed not-found page, and the content length is exactly
/// that page's byte length.
pub proof fn lemma_build_serves_not_found(
    req: crate::request::HttpRequestView,
    lookup: LookupView,
)
    requires
        lookup is NotRegularFile || lookup is Missing,
    ensures
        spec_build(req, lookup) is Ok,
        spec_build(req, lookup)->Ok_0.status == ResponseStatus::NotFound,
        spec_build(req, lookup)->Ok_0.accept_ranges == AcceptRanges::NoRanges,
        spec_build(req, lookup)->Ok_0.response_body == not_found_body(),
        spec_build(req, lookup)->Ok_0.content_length == not_found_body().len(),
{
}

/// The serialized bytes end with the response's body: the content after
/// the blank line is the body and nothing else.
pub proof fn lemma_serialized_body_suffix(r: HttpResponseView)
    ensures
        ({
            let w = spec_serialize(r);
            &&& w.len() >= r.response_body.len()
            &&& w.subrange(w.len() - r.response_body.len(), w.len() as int) == r.response_body
        }),
{
    let w = spec_serialize(r);
    let head = spec_version_text(r.version) + " ".spec_bytes() + spec_status_text(r.status)
        + "\r\nContent-Length: ".spec_bytes() + spec_dec(r.content_length as int)
        + "\r\nAccept-Ranges: ".spec_bytes() + spec_ranges_text(r.accept_ranges)
        + "\r\nX-Package-Name: ".spec_bytes() + r.package_name
        + "\r\nX-Package-Version: ".spec_bytes() + r.package_version + "\r\n\r\n".spec_bytes();
    assert(w =~= head + r.response_body);
    assert((head + r.response_body).subrange(
        head.len() as int,
        head.len() + r.response_body.len() as int,
    ) =~= r.response_body);
}

/// The numeric code and the status-line text always pair up: both are
/// fixed per variant, `200` with `"200 OK"` and `404` with
/// `"404 Not Found"`, and the two texts are distinct byte sequences, so no
/// response can carry one status's code with the other's text.
pub proof fn lemma_status_pairing()
    ensures
        spec_status_text(ResponseStatus::OK) == "200 OK".spec_bytes(),
        spec_status_text(ResponseStatus::NotFound) == "404 Not Found".spec_bytes(),
        spec_status_text(ResponseStatus::OK) != spec_status_text(ResponseStatus::NotFound),
        spec_status_code(ResponseStatus::OK) == 200,
        spec_status_code(ResponseStatus::NotFound) == 404,
        forall|s: ResponseStatus|
            spec_status_code(s) == 200 <==> spec_status_text(s) == "200 OK".spec_bytes(),
        forall|s: ResponseStatus|
            spec_status_code(s) == 404 <==> spec_status_text(s) == "404 Not Found".spec_bytes(),
{
    reveal_strlit("200 OK");
    reveal_strlit("404 Not Found");
    assert(vstd::utf8::is_ascii_chars("200 OK"@));
    assert(vstd::utf8::is_ascii_chars("404 Not Found"@));
    vstd::utf8::is_ascii_chars_encode_utf8("200 OK"@);
    vstd::utf8::is_ascii_chars_encode_utf8("404 Not Found"@);
    assert("200 OK".spec_bytes().len() == 6);
    assert("404 Not Found".spec_bytes().len() == 13);
}

/// In the serialized bytes, the segment after the version and its blank is
/// exactly the status text of the response's own status: the wire pairing
/// follows the structured one.
pub proof fn lemma_serialized_status_segment(r: HttpResponseView)
    ensures
        ({
            let pre = spec_version_text(r.version) + " ".spec_bytes();
            let st = spec_status_text(r.status);
            spec_serialize(r).subrange(pre.len() as int, pre.len() + st.len() as int) == st
        }),
{
    let pre = spec_version_text(r.version) + " ".spec_bytes();
    let st = spec_status_text(r.status);
    let tail = "\r\nContent-Length: ".spec_bytes() + spec_dec(r.content_length as int)
        + "\r\nAccept-Ranges: ".spec_bytes() + spec_ranges_text(r.accept_ranges)
        + "\r\nX-Package-Name: ".spec_bytes() + r.package_name
        + "\r\nX-Package-Version: ".spec_bytes() + r.package_version + "\r\n\r\n".spec_bytes()
        + r.response_body;
    assert(spec_serialize(r) =~= pre + st + tail);
    assert((pre + st + tail).subrange(pre.len() as int, pre.len() + st.len() as int) =~= st);
}

/// The decimal digits of `n`, most significant first, no sign and no
/// leading zero (a single `0` for zero).
pub open spec fn spec_dec(n: int) -> Seq<u8>
    decreases n,
{
    if n < 0 {
        Seq::empty()
    } else if n < 10 {
        seq![(48 + n) as u8]
    } else {
        spec_dec(n / 10) + seq![(48 + n % 10) as u8]
    }
}

/// The exact wire bytes of a response:
/// ```text
/// <version> <status-code-and-text>\r\n
/// Content-Length: <n>\r\n
/// Accept-Ranges: <bytes|none>\r\n
/// X-Package-Name: <name>\r\n
/// X-Package-Version: <version>\r\n
/// \r\n
/// <body bytes>
/// ```
pub open spec fn spec_serialize(r: HttpResponseView) -> Seq<u8> {
    spec_version_text(r.version) + " ".spec_bytes() + spec_status_text(r.status)
        + "\r\nContent-Length: ".spec_bytes() + spec_dec(r.content_length as int)
        + "\r\nAccept-Ranges: ".spec_bytes() + spec_ranges_text(r.accept_ranges)
        + "\r\nX-Package-Name: ".spec_bytes() + r.package_name
        + "\r\nX-Package-Version: ".spec_bytes() + r.package_version + "\r\n\r\n".spec_bytes()
        + r.response_body
}

/// Renders `n` in decimal.
fn u64_to_dec(n: u64) -> (r: Vec<u8>)
    ensures
        r@ == spec_dec(n as int),
    decreases n,
{
    if n < 10 {
        let mut r: Vec<u8> = Vec::new();
        r.push(48 + (n as u8));
        proof {
            assert(r@ =~= spec_dec(n as int));
        }
        r
    } else {
        let mut r = u64_to_dec(n / 10);
        r.push(48 + ((n % 10) as u8));
        proof {
            assert(r@ =~= spec_dec(n as int));
        }
        r
    }
}

/// Copies a byte vector.
fn clone_bytes(v: &Vec<u8>) -> (r: Vec<u8>)
    ensures
        r@ == v@,
{
    let mut r: Vec<u8> = Vec::new();
    let mut i: usize = 0;
    while i < v.len()
        invariant
            0 <= i <= v@.len(),
            r@ == v@.subrange(0, i as int),
        decreases v@.len() - i,
    {
        r.push(v[i]);
        i = i + 1;
        proof {
            assert(r@ =~= v@.subrange(0, i as int));
        }
    }
    proof {
        assert(v@.subrange(0, v@.len() as int) =~= v@);
    }
    r
}

impl ResponseStatus {
    /// The numeric status code of this variant.
    pub fn code(&self) -> (r: u16)
        ensures
            r == spec_status_code(*self),
    {
        match self {
            ResponseStatus::OK => 200,
            ResponseStatus::NotFound => 404,
        }
    }

    /// The fixed status-line text of this variant.
    pub fn text(&self) -> (r: &'static str)
        ensures
            r.spec_bytes() == spec_status_text(*self),
    {
        match self {
            ResponseStatus::OK => "200 OK",
            ResponseStatus::NotFound => "404 Not Found",
        }
    }
}

impl AcceptRanges {
    /// The header value of this variant.
    pub fn text(&self) -> (r: &'static str)
        ensures
            r.spec_bytes() == spec_ranges_text(*self),
    {
        match self {
            AcceptRanges::Bytes => "bytes",
            AcceptRanges::NoRanges => "none",
        }
    }
}

impl Version {
    /// The protocol name of this version, as written on the status line.
    pub fn text(&self) -> (r: &'static str)
        ensures
            r.spec_bytes() == spec_version_text(*self),
    {
        match self {
            Version::V1_0 => "HTTP/1.0",
            Version::V1_1 => "HTTP/1.1",
            Version::V2_0 => "HTTP/2.0",
        }
    }
}

impl HttpResponse {
    /// Builds the response for a parsed request and the outcome of
    /// resolving its target against the document root.
    ///
    /// An existing regular file is served as `200 OK` with its exact bytes
    /// and `Accept-Ranges: bytes`; a missing target, or one that is not a
    /// regular file, gets the fixed not-found page as `404 Not Found` with
    /// `Accept-Ranges: none`; a failed read is the one error case.
    pub fn new(request: &HttpRequest, resource: ResourceLookup) -> (r: Result<
        HttpResponse,
        BuildError,
    >)
        ensures
            match r {
                Result::Ok(resp) => spec_build(request@, resource@) == Result::Ok::<
                    HttpResponseView,
                    BuildError,
                >(resp@) && response_wf(resp@),
                Result::Err(e) => spec_build(request@, resource@) == Result::Err::<
                    HttpResponseView,
                    BuildError,
                >(e),
            },
    {
        let current_path = clone_bytes(&request.resource.path);
        let package_name = "simple-http".as_bytes_vec();
        let package_version = "0.1.0".as_bytes_vec();
        match resource {
            ResourceLookup::File(content) => {
                let content_length = content.len();
                Result::Ok(
                    HttpResponse {
                        version: Version::V2_0,
                        status: ResponseStatus::OK,
                        content_length,
                        accept_ranges: AcceptRanges::Bytes,
                        response_body: content,
                        current_path,
                        package_name,
                        package_version,
                    },
                )
            },
            ResourceLookup::NotRegularFile | ResourceLookup::Missing => {
                let response_body = "<html><body><h1>NOT FOUND</h1></body></html>".as_bytes_vec();
                let content_length = response_body.len();
                Result::Ok(
                    HttpResponse {
                        version: Version::V2_0,
                        status: ResponseStatus::NotFound,
                        content_length,
                        accept_ranges: AcceptRanges::NoRanges,
                        response_body,
                        current_path,
                        package_name,
                        package_version,
                    },
                )
            },
            ResourceLookup::ReadFailure => Result::Err(BuildError::ResourceRead),
        }
    }

    /// Renders this response into the exact wire byte sequence.
    ///
    /// Pure: the result is exactly `spec_serialize` of the response, so
    /// the rendering is deterministic and the status text, the content
    /// length digits and the body are the fields of this response and
    /// nothing else.
    pub fn serialize(&self) -> (r: Vec<u8>)
        ensures
            r@ == spec_serialize(self@),
    {
        let mut out: Vec<u8> = self.version.text().as_bytes_vec();
        let mut part = " ".as_bytes_vec();
        out.append(&mut part);
        let mut part = self.status.text().as_bytes_vec();
        out.append(&mut part);
        let mut part = "\r\nContent-Length: ".as_bytes_vec();
        out.append(&mut part);
        let mut part = u64_to_dec(self.content_length as u64);
        out.append(&mut part);
        let mut part = "\r\nAccept-Ranges: ".as_bytes_vec();
        out.append(&mut part);
        let mut part = self.accept_ranges.text().as_bytes_vec();
        out.append(&mut part);
        let mut part = "\r\nX-Package-Name: ".as_bytes_vec();
        out.append(&mut part);
        let mut part = clone_bytes(&self.package_name);
        out.append(&mut part);
        let mut part = "\r\nX-Package-Version: ".as_bytes_vec();
        out.append(&mut part);
        let mut part = clone_bytes(&self.package_version);
        out.append(&mut part);
        let mut part = "\r\n\r\n".as_bytes_vec();
        out.append(&mut part);
        let mut part = clone_bytes(&self.response_body);
        out.append(&mut part);
        proof {
            assert(out@ =~= spec_serialize(self@));
        }
        out
    }
}

} // verus!
