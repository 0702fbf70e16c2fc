//! Request parsing: raw connection bytes to a structured `HttpRequest`.
//!
//! The request line must hold exactly three whitespace-separated tokens
//! (method, target, version) and end with CRLF. Header lines follow until a
//! blank line; a header line without a `:` separator is skipped. The target
//! is kept verbatim except that leading `/` separators are stripped, so it
//! can be resolved relative to the document root.

use vstd::prelude::*;
use vstd::string::*;

verus! {

/// Request method named on the request line; anything but the recognized
/// verbs is kept as `Unrecognized` rather than rejected.
#[derive(Clone, Copy, Debug, PartialEq, Eq, Structural)]
pub enum Method {
    Get,
    Post,
    Unrecognized,
}

/// Protocol version named on the request line. Versions outside this set
/// make the request line malformed.
#[derive(Clone, Copy, Debug, PartialEq, Eq, Structural)]
pub enum Version {
    V1_0,
    V1_1,
    V2_0,
}

/// Why a parse failed: no bytes at all, a request line without exactly
/// three tokens (or with an unknown version), or a header block that never
/// reaches its blank-line terminator.
#[derive(Clone, Copy, Debug, PartialEq, Eq, Structural)]
pub enum ParseError {
    EmptyInput,
    MalformedRequestLine,
    TruncatedHeaders,
}

/// One `Name: Value` header line; the name is kept verbatim, the value is
/// stripped of leading blanks.
#[derive(Debug, PartialEq, Eq)]
pub struct Header {
    pub name: Vec<u8>,
    pub value: Vec<u8>,
}

/// The requested resource: the target path, relative to the document root.
#[derive(Debug, PartialEq, Eq)]
pub struct Resource {
    pub path: Vec<u8>,
}

/// A parsed request: one per connection, never mutated after construction.
#[derive(Debug, PartialEq, Eq)]
pub struct HttpRequest {
    pub method: Method,
    pub resource: Resource,
    pub version: Version,
    pub headers: Vec<Header>,
}

#[verifier::ext_equal]
pub ghost struct HeaderView {
    pub name: Seq<u8>,
    pub value: Seq<u8>,
}

#[verifier::ext_equal]
pub ghost struct HttpRequestView {
    pub method: Method,
    pub path: Seq<u8>,
    pub version: Version,
    pub headers: Seq<HeaderView>,
}

impl View for Header {
    type V = HeaderView;

    open spec fn view(&self) -> HeaderView {
        HeaderView { name: self.name@, value: self.value@ }
    }
}

impl View for HttpRequest {
    type V = HttpRequestView;

    open spec fn view(&self) -> HttpRequestView {
        HttpRequestView {
            method: self.method,
            path: self.resource.path@,
            version: self.version,
            headers: self.headers@.map_values(|h: Header| h@),
        }
    }
}

pub const SP: u8 = 32;

pub const HT: u8 = 9;

pub const CR: u8 = 13;

pub const LF: u8 = 10;

pub const SLASH: u8 = 47;

pub const COLON: u8 = 58;

/// Token separators on the request line: space and horizontal tab.
pub open spec fn is_ws(b: u8) -> bool {
    b == SP || b == HT
}

/// First index at or after `i` holding a non-blank byte, or `s.len()`.
pub open spec fn skip_ws_from(s: Seq<u8>, i: int) -> int
    decreases s.len() - i when 0 <= i <= s.len()
{
    if i >= s.len() {
        s.len() as int
    } else if is_ws(s[i]) {
        skip_ws_from(s, i + 1)
    } else {
        i
    }
}

/// First index at or after `i` holding a blank byte, or `s.len()`.
pub open spec fn token_end_from(s: Seq<u8>, i: int) -> int
    decreases s.len() - i when 0 <= i <= s.len()
{
    if i >= s.len() {
        s.len() as int
    } else if is_ws(s[i]) {
        i
    } else {
        token_end_from(s, i + 1)
    }
}

/// Index of the first CRLF pair at or after `i`, or `s.len()` if none.
pub open spec fn crlf_from(s: Seq<u8>, i: int) -> int
    decreases s.len() - i when 0 <= i <= s.len()
{
    if i + 2 > s.len() {
        s.len() as int
    } else if s[i] == CR && s[i + 1] == LF {
        i
    } else {
        crlf_from(s, i + 1)
    }
}

/// Index of the first `:` at or after `i`, or `s.len()` if none.
pub open spec fn colon_from(s: Seq<u8>, i: int) -> int
    decreases s.len() - i when 0 <= i <= s.len()
{
    if i >= s.len() {
        s.len() as int
    } else if s[i] == COLON {
        i
    } else {
        colon_from(s, i + 1)
    }
}

/// First index at or after `i` holding a byte other than `/`, or `s.len()`.
pub open spec fn skip_slashes_from(s: Seq<u8>, i: int) -> int
    decreases s.len() - i when 0 <= i <= s.len()
{
    if i >= s.len() {
        s.len() as int
    } else if s[i] == SLASH {
        skip_slashes_from(s, i + 1)
    } else {
        i
    }
}

/// Start of the method token: the first non-blank byte of the line.
pub open spec fn method_start(line: Seq<u8>) -> int {
    skip_ws_from(line, 0)
}

pub open spec fn method_end(line: Seq<u8>) -> int {
    token_end_from(line, method_start(line))
}

pub open spec fn target_start(line: Seq<u8>) -> int {
    skip_ws_from(line, method_end(line))
}

pub open spec fn target_end(line: Seq<u8>) -> int {
    token_end_from(line, target_start(line))
}

pub open spec fn version_start(line: Seq<u8>) -> int {
    skip_ws_from(line, target_end(line))
}

pub open spec fn version_end(line: Seq<u8>) -> int {
    token_end_from(line, version_start(line))
}

/// A valid request line decomposes into exactly three whitespace-separated
/// tokens: nothing but blanks may follow the third token.
pub open spec fn has_three_tokens(line: Seq<u8>) -> bool {
    &&& method_start(line) < method_end(line)
    &&& target_start(line) < target_end(line)
    &&& version_start(line) < version_end(line)
    &&& skip_ws_from(line, version_end(line)) == line.len()
}

pub open spec fn method_token(line: Seq<u8>) -> Seq<u8> {
    line.subrange(method_start(line), method_end(line))
}

pub open spec fn target_token(line: Seq<u8>) -> Seq<u8> {
    line.subrange(target_start(line), target_end(line))
}

pub open spec fn version_token(line: Seq<u8>) -> Seq<u8> {
    line.subrange(version_start(line), version_end(line))
}

/// The method named by its token; unknown verbs are kept, not rejected.
pub open spec fn spec_method_of(tok: Seq<u8>) -> Method {
    if tok == "GET".spec_bytes() {
        Method::Get
    } else if tok == "POST".spec_bytes() {
        Method::Post
    } else {
        Method::Unrecognized
    }
}

/// The version named by its token; unknown versions make the line malformed.
pub open spec fn spec_version_of(tok: Seq<u8>) -> Option<Version> {
    if tok == "HTTP/1.0".spec_bytes() {
        Option::Some(Version::V1_0)
    } else if tok == "HTTP/1.1".spec_bytes() {
        Option::Some(Version::V1_1)
    } else if tok == "HTTP/2.0".spec_bytes() {
        Option::Some(Version::V2_0)
    } else {
        Option::None
    }
}

/// The target kept verbatim, except that leading `/` separators are
/// stripped so the path is relative to the document root.
pub open spec fn spec_normalize_target(tok: Seq<u8>) -> Seq<u8> {
    tok.subrange(skip_slashes_from(tok, 0), tok.len() as int)
}

/// One header line: `None` when the line has no `:` separator (such lines
/// are skipped); otherwise the verbatim name before the `:` and the value
/// after it, stripped of leading blanks.
pub open spec fn spec_header_of_line(line: Seq<u8>) -> Option<HeaderView> {
    let k = colon_from(line, 0);
    if k >= line.len() {
        Option::None
    } else {
        Option::Some(
            HeaderView {
                name: line.subrange(0, k),
                value: line.subrange(skip_ws_from(line, k + 1), line.len() as int),
            },
        )
    }
}

/// The headers found from position `i` up to the blank-line terminator, in
/// order, duplicates kept; `None` when the input ends before a blank line.
pub open spec fn spec_headers_from(s: Seq<u8>, i: int) -> Option<Seq<HeaderView>>
    decreases s.len() - i when 0 <= i <= s.len()
{
    let e = crlf_from(s, i);
    if e < i || e + 2 > s.len() {
        Option::None
    } else if e == i {
        Option::Some(Seq::empty())
    } else {
        match spec_headers_from(s, e + 2) {
            Option::None => Option::None,
            Option::Some(rest) => match spec_header_of_line(s.subrange(i, e)) {
                Option::None => Option::Some(rest),
                Option::Some(h) => Option::Some(seq![h] + rest),
            },
        }
    }
}

/// What `parse` returns, as a function of the input bytes alone.
///
/// Policy: empty input is rejected as such; a request line that does not
/// end in CRLF, or a header block without its blank-line terminator, is
/// truncated; a request line without exactly three tokens, or with an
/// unknown version token, is malformed.
pub open spec fn spec_parse(s: Seq<u8>) -> Result<HttpRequestView, ParseError> {
    if s.len() == 0 {
        Result::Err(ParseError::EmptyInput)
    } else {
        let e = crlf_from(s, 0);
        if e >= s.len() {
            Result::Err(ParseError::TruncatedHeaders)
        } else {
            let line = s.subrange(0, e);
            if !has_three_tokens(line) {
                Result::Err(ParseError::MalformedRequestLine)
            } else {
                match spec_version_of(version_token(line)) {
                    Option::None => Result::Err(ParseError::MalformedRequestLine),
                    Option::Some(v) => match spec_headers_from(s, e + 2) {
                        Option::None => Result::Err(ParseError::TruncatedHeaders),
                        Option::Some(hs) => Result::Ok(
                            HttpRequestView {
                                method: spec_method_of(method_token(line)),
                                path: spec_normalize_target(target_token(line)),
                                version: v,
                                headers: hs,
                            },
                        ),
                    },
                }
            }
        }
    }
}

/// Copies `s[from..to]` into a fresh vector.
fn subvec(s: &Vec<u8>, from: usize, to: usize) -> (r: Vec<u8>)
    requires
        from <= to <= s@.len(),
    ensures
        r@ == s@.subrange(from as int, to as int),
{
    let mut r: Vec<u8> = Vec::new();
    let mut i: usize = from;
    while i < to
        invariant
            from <= i <= to <= s@.len(),
            r@ == s@.subrange(from as int, i as int),
        decreases to - i,
    {
        r.push(s[i]);
        i = i + 1;
        proof {
            assert(r@ =~= s@.subrange(from as int, i as int));
        }
    }
    r
}

/// Whether two byte vectors hold the same bytes.
fn bytes_eq(a: &Vec<u8>, b: &Vec<u8>) -> (r: bool)
    ensures
        r == (a@ == b@),
{
    if a.len() != b.len() {
        return false;
    }
    let mut i: usize = 0;
    while i < a.len()
        invariant
            0 <= i <= a@.len(),
            a@.len() == b@.len(),
            forall|j: int| 0 <= j < i ==> a@[j] == b@[j],
        decreases a@.len() - i,
    {
        if a[i] != b[i] {
            return false;
        }
        i = i + 1;
    }
    proof {
        assert(a@ =~= b@);
    }
    true
}

fn exec_is_ws(b: u8) -> (r: bool)
    ensures
        r == is_ws(b),
{
    b == SP || b == HT
}

/// Finds `skip_ws_from(s@, from)`.
fn skip_ws(s: &Vec<u8>, from: usize) -> (r: usize)
    requires
        from <= s@.len(),
    ensures
        r == skip_ws_from(s@, from as int),
        from <= r <= s@.len(),
{
    let mut i: usize = from;
    while i < s.len() && exec_is_ws(s[i])
        invariant
            from <= i <= s@.len(),
            skip_ws_from(s@, from as int) == skip_ws_from(s@, i as int),
        decreases s@.len() - i,
    {
        i = i + 1;
    }
    i
}

/// Finds `token_end_from(s@, from)`.
fn token_end(s: &Vec<u8>, from: usize) -> (r: usize)
    requires
        from <= s@.len(),
    ensures
        r == token_end_from(s@, from as int),
        from <= r <= s@.len(),
{
    let mut i: usize = from;
    while i < s.len() && !exec_is_ws(s[i])
        invariant
            from <= i <= s@.len(),
            token_end_from(s@, from as int) == token_end_from(s@, i as int),
        decreases s@.len() - i,
    {
        i = i + 1;
    }
    i
}

/// Finds `crlf_from(s@, from)`.
fn find_crlf(s: &Vec<u8>, from: usize) -> (r: usize)
    requires
        from <= s@.len(),
    ensures
        r == crlf_from(s@, from as int),
        from <= r <= s@.len(),
        r < s@.len() ==> r + 2 <= s@.len() && s@[r as int] == CR && s@[r as int + 1] == LF,
{
    let mut i: usize = from;
    loop
        invariant
            from <= i <= s@.len(),
            crlf_from(s@, from as int) == crlf_from(s@, i as int),
        decreases s@.len() - i,
    {
        if s.len() < 2 || i > s.len() - 2 {
            proof {
                assert(i + 2 > s@.len());
            }
            return s.len();
        }
        if s[i] == CR && s[i + 1] == LF {
            return i;
        }
        i = i + 1;
    }
}

/// Finds `colon_from(s@, from)`.
fn find_colon(s: &Vec<u8>, from: usize) -> (r: usize)
    requires
        from <= s@.len(),
    ensures
        r == colon_from(s@, from as int),
        from <= r <= s@.len(),
{
    let mut i: usize = from;
    while i < s.len() && s[i] != COLON
        invariant
            from <= i <= s@.len(),
            colon_from(s@, from as int) == colon_from(s@, i as int),
        decreases s@.len() - i,
    {
        i = i + 1;
    }
    i
}

/// Finds `skip_slashes_from(s@, 0)`.
fn skip_slashes(s: &Vec<u8>) -> (r: usize)
    ensures
        r == skip_slashes_from(s@, 0),
        r <= s@.len(),
{
    let mut i: usize = 0;
    while i < s.len() && s[i] == SLASH
        invariant
            0 <= i <= s@.len(),
            skip_slashes_from(s@, 0) == skip_slashes_from(s@, i as int),
        decreases s@.len() - i,
    {
        i = i + 1;
    }
    i
}

/// For every input whose request line is valid — it ends in CRLF and
/// decomposes into exactly three whitespace-delimited tokens, with a known
/// version — a successful parse carries exactly those tokens: the method
/// and version are the first and third token's readings, and the target is
/// the second token verbatim, save the stripped leading slashes. Inputs
/// whose request line is not of that form never parse successfully.
pub proof fn lemma_parse_extracts_tokens(s: Seq<u8>)
    ensures
        spec_parse(s) is Ok ==> ({
            let line = s.subrange(0, crlf_from(s, 0));
            &&& crlf_from(s, 0) < s.len()
            &&& has_three_tokens(line)
            &&& spec_parse(s)->Ok_0.method == spec_method_of(method_token(line))
            &&& spec_parse(s)->Ok_0.path == spec_normalize_target(target_token(line))
            &&& Option::Some(spec_parse(s)->Ok_0.version) == spec_version_of(version_token(line))
        }),
        s.len() > 0 && crlf_from(s, 0) < s.len() && !has_three_tokens(
            s.subrange(0, crlf_from(s, 0)),
        ) ==> spec_parse(s) == Result::Err::<HttpRequestView, ParseError>(
            ParseError::MalformedRequestLine,
        ),
{
}

/// Maps a method token to its `Method`.
fn method_of(tok: &Vec<u8>) -> (m: Method)
    ensures
        m == spec_method_of(tok@),
{
    let get = "GET".as_bytes_vec();
    if bytes_eq(tok, &get) {
        return Method::Get;
    }
    let post = "POST".as_bytes_vec();
    if bytes_eq(tok, &post) {
        return Method::Post;
    }
    Method::Unrecognized
}

/// Maps a version token to its `Version`, or `None` for an unknown one.
fn version_of(tok: &Vec<u8>) -> (v: Option<Version>)
    ensures
        v == spec_version_of(tok@),
{
    let v10 = "HTTP/1.0".as_bytes_vec();
    if bytes_eq(tok, &v10) {
        return Option::Some(Version::V1_0);
    }
    let v11 = "HTTP/1.1".as_bytes_vec();
    if bytes_eq(tok, &v11) {
        return Option::Some(Version::V1_1);
    }
    let v20 = "HTTP/2.0".as_bytes_vec();
    if bytes_eq(tok, &v20) {
        return Option::Some(Version::V2_0);
    }
    Option::None
}

/// Parses the bytes read from one connection into an `HttpRequest`.
///
/// Pure: the result is exactly `spec_parse` of the input bytes, so equal
/// inputs always parse to equal requests.
pub fn parse(input: &Vec<u8>) -> (r: Result<HttpRequest, ParseError>)
    ensures
        match r {
            Result::Ok(req) => spec_parse(input@) == Result::Ok::<HttpRequestView, ParseError>(
                req@,
            ),
            Result::Err(e) => spec_parse(input@) == Result::Err::<HttpRequestView, ParseError>(e),
        },
{
    if input.len() == 0 {
        return Result::Err(ParseError::EmptyInput);
    }
    let e = find_crlf(input, 0);
    if e >= input.len() {
        return Result::Err(ParseError::TruncatedHeaders);
    }
    let line = subvec(input, 0, e);
    let m_s = skip_ws(&line, 0);
    let m_e = token_end(&line, m_s);
    let t_s = skip_ws(&line, m_e);
    let t_e = token_end(&line, t_s);
    let v_s = skip_ws(&line, t_e);
    let v_e = token_end(&line, v_s);
    let after = skip_ws(&line, v_e);
    if !(m_s < m_e && t_s < t_e && v_s < v_e && after == line.len()) {
        return Result::Err(ParseError::MalformedRequestLine);
    }
    let version_tok = subvec(&line, v_s, v_e);
    let version = match version_of(&version_tok) {
        Option::Some(v) => v,
        Option::None => {
            return Result::Err(ParseError::MalformedRequestLine);
        },
    };
    let method_tok = subvec(&line, m_s, m_e);
    let method = method_of(&method_tok);
    let target_tok = subvec(&line, t_s, t_e);
    let slashes = skip_slashes(&target_tok);
    let path = subvec(&target_tok, slashes, target_tok.len());
    let mut headers: Vec<Header> = Vec::new();
    let mut i: usize = e + 2;
    proof {
        let s = input@;
        let lv = s.subrange(0, e as int);
        assert(lv == line@);
        assert(has_three_tokens(lv));
        assert(version_token(lv) == version_tok@);
        assert(method_token(lv) == method_tok@);
        assert(target_token(lv) == target_tok@);
        assert(path@ == spec_normalize_target(target_token(lv)));
        let tail = spec_headers_from(s, i as int);
        if tail is Some {
            assert(headers@.map_values(|h: Header| h@) + tail->Some_0 =~= tail->Some_0);
        }
    }
    loop
        invariant
            e + 2 <= i <= input@.len(),
            input@.len() > 0,
            e == crlf_from(input@, 0),
            e < input@.len(),
            spec_headers_from(input@, e + 2) == (match spec_headers_from(input@, i as int) {
                Option::None => Option::None::<Seq<HeaderView>>,
                Option::Some(rest) => Option::Some(headers@.map_values(|h: Header| h@) + rest),
            }),
            (match spec_headers_from(input@, e + 2) {
                Option::None => spec_parse(input@) == Result::Err::<HttpRequestView, ParseError>(
                    ParseError::TruncatedHeaders,
                ),
                Option::Some(hs) => spec_parse(input@) == Result::Ok::<
                    HttpRequestView,
                    ParseError,
                >(HttpRequestView { method: method, path: path@, version: version, headers: hs }),
            }),
        ensures
            spec_headers_from(input@, e + 2) == Option::Some(
                headers@.map_values(|h: Header| h@),
            ),
        decreases input@.len() - i,
    {
        let he = find_crlf(input, i);
        if he >= input.len() {
            proof {
                assert(crlf_from(input@, i as int) == input@.len());
                assert(spec_headers_from(input@, i as int) is None);
                assert(spec_headers_from(input@, e + 2) is None);
            }
            return Result::Err(ParseError::TruncatedHeaders);
        }
        if he == i {
            proof {
                assert(spec_headers_from(input@, i as int) == Option::Some(
                    Seq::<HeaderView>::empty(),
                ));
                assert(headers@.map_values(|h: Header| h@) + Seq::<HeaderView>::empty()
                    =~= headers@.map_values(|h: Header| h@));
            }
            break;
        }
        let hline = subvec(input, i, he);
        let k = find_colon(&hline, 0);
        proof {
            let tail = spec_headers_from(input@, he + 2 as int);
            let here = spec_header_of_line(hline@);
            if tail is Some {
                let acc = headers@.map_values(|h: Header| h@);
                if here is Some {
                    assert(acc + (seq![here->Some_0] + tail->Some_0) =~= (acc + seq![
                        here->Some_0,
                    ]) + tail->Some_0);
                }
            }
        }
        if k < hline.len() {
            let name = subvec(&hline, 0, k);
            let value_start = skip_ws(&hline, k + 1);
            let value = subvec(&hline, value_start, hline.len());
            let ghost old_headers = headers@;
            headers.push(Header { name, value });
            proof {
                assert(headers@.map_values(|h: Header| h@) =~= old_headers.map_values(
                    |h: Header| h@,
                ) + seq![spec_header_of_line(hline@)->Some_0]);
            }
        }
        i = he + 2;
    }
    let req = HttpRequest { method, resource: Resource { path }, version, headers };
    proof {
        assert(req@ == spec_parse(input@)->Ok_0);
    }
    Result::Ok(req)
}

} // verus!
