//! The connection parser: a state machine over the lines of one
//! connection that produces one parsed request or one parse error.
//!
//! It awaits the request line first — exactly three space-separated
//! tokens, method, URI and version — and then header lines, each split
//! on the first `": "` separator. An empty line finalizes the request;
//! running out of lines before that is a no-data error. No request
//! body is ever read.

use crate::errors::{Error, OxidarError};
use crate::server::http::{
    method_err_msg, spec_parse_method, spec_parse_version, version_err_msg, Method, Version,
};
use crate::server::request::Request;
use crate::text::strs_view;
use vstd::prelude::*;

verus! {

/// The pieces of `s` split on every single space: always at least one
/// piece, and empty pieces are kept, so two adjacent spaces yield an
/// empty token between them.
pub open spec fn split_sp(s: Seq<char>) -> Seq<Seq<char>>
    decreases s.len(),
{
    if s.len() == 0 {
        seq![Seq::<char>::empty()]
    } else if s[0] == ' ' {
        seq![Seq::<char>::empty()] + split_sp(s.drop_first())
    } else {
        let rest = split_sp(s.drop_first());
        rest.update(0, seq![s[0]] + rest[0])
    }
}

/// Splitting on spaces yields at least one piece.
pub proof fn lemma_split_sp_len(s: Seq<char>)
    ensures
        split_sp(s).len() >= 1,
    decreases s.len(),
{
    if s.len() == 0 {
    } else {
        lemma_split_sp_len(s.drop_first());
    }
}

/// `s` split at the first `": "` occurrence, if there is one: the part
/// before it and the part after it.
pub open spec fn split_hdr(s: Seq<char>) -> Option<(Seq<char>, Seq<char>)>
    decreases s.len(),
{
    if s.len() < 2 {
        None
    } else if s[0] == ':' && s[1] == ' ' {
        Some((Seq::<char>::empty(), s.skip(2)))
    } else {
        match split_hdr(s.drop_first()) {
            None => None,
            Some(p) => Some((seq![s[0]] + p.0, p.1)),
        }
    }
}

/// The message reported when a request line has no second token.
pub open spec fn uri_missing_msg() -> Seq<char> {
    "Malformed Request: URI could not be found."@
}

/// The message reported when a request line has no third token.
pub open spec fn version_missing_msg() -> Seq<char> {
    "Malformed Request: HTTP version could not be found."@
}

/// The message reported when a request line has a fourth token.
pub open spec fn extra_tokens_msg() -> Seq<char> {
    "Malformed Request: Items found after version."@
}

/// The message reported when a header line has no `": "` separator.
pub open spec fn header_err_msg(line: Seq<char>) -> Seq<char> {
    "Malformed Request: Header \""@ + line + "\" could not be parsed."@
}

/// The message reported when the lines run out before an empty line
/// finalizes the request.
pub open spec fn no_data_msg() -> Seq<char> {
    "No data found in request."@
}

/// What a request line denotes: method, URI and version if it consists
/// of exactly three space-separated tokens that parse, else the exact
/// error message owed for it.
pub open spec fn spec_parse_request_line(line: Seq<char>) -> Result<
    (Method, Seq<char>, Version),
    Seq<char>,
> {
    let parts = split_sp(line);
    if parts.len() == 1 {
        Err(uri_missing_msg())
    } else if parts.len() == 2 {
        Err(version_missing_msg())
    } else if parts.len() > 3 {
        Err(extra_tokens_msg())
    } else {
        match spec_parse_method(parts[0]) {
            None => Err(method_err_msg(parts[0])),
            Some(m) => match spec_parse_version(parts[2]) {
                None => Err(version_err_msg(parts[2])),
                Some(v) => Ok((m, parts[1], v)),
            },
        }
    }
}

/// The parser's model of a finished request.
pub struct ReqModel {
    pub method: Method,
    pub uri: Seq<char>,
    pub version: Version,
    pub headers: Seq<(Seq<char>, Seq<char>)>,
}

/// Header collection: each non-empty line must carry a `": "`
/// separator; an empty line finalizes the accumulated request; running
/// out of lines first is a no-data error.
pub open spec fn spec_parse_headers(lines: Seq<Seq<char>>, acc: ReqModel) -> Result<
    ReqModel,
    Seq<char>,
>
    decreases lines.len(),
{
    if lines.len() == 0 {
        Err(no_data_msg())
    } else if lines[0].len() == 0 {
        Ok(acc)
    } else {
        match split_hdr(lines[0]) {
            None => Err(header_err_msg(lines[0])),
            Some(p) => spec_parse_headers(
                lines.drop_first(),
                ReqModel { headers: acc.headers.push(p), ..acc },
            ),
        }
    }
}

/// What the lines of one connection denote: one request, or the exact
/// error message owed for them.
pub open spec fn spec_parse_request(lines: Seq<Seq<char>>) -> Result<ReqModel, Seq<char>> {
    if lines.len() == 0 {
        Err(no_data_msg())
    } else {
        match spec_parse_request_line(lines[0]) {
            Err(m) => Err(m),
            Ok(t) => spec_parse_headers(
                lines.drop_first(),
                ReqModel { method: t.0, uri: t.1, version: t.2, headers: Seq::empty() },
            ),
        }
    }
}

/// How an exec request realizes a model.
pub open spec fn req_matches(req: Request, m: ReqModel) -> bool {
    &&& req.method == m.method
    &&& req.uri@ == m.uri
    &&& req.version == m.version
    &&& req.headers_seq() == m.headers
}

/// `parts` with its first piece extended by `p` on the left.
spec fn prepend_first(p: Seq<char>, parts: Seq<Seq<char>>) -> Seq<Seq<char>> {
    parts.update(0, p + parts[0])
}

/// Splits a line on every single space, keeping empty pieces, so that
/// the pieces view as `split_sp` of the line.
pub fn split_spaces(line: &str) -> (parts: Vec<String>)
    ensures
        strs_view(parts@) == split_sp(line@),
        parts@.len() >= 1,
{
    let n: usize = line.unicode_len();
    let mut parts: Vec<String> = Vec::new();
    let mut start: usize = 0;
    let mut i: usize = 0;
    proof {
        assert(line@.skip(0) =~= line@);
        assert(prepend_first(line@.subrange(0, 0), split_sp(line@)) =~~= split_sp(line@)) by {
            lemma_split_sp_len(line@);
        }
    }
    while i < n
        invariant
            n == line@.len(),
            0 <= start <= i <= n,
            split_sp(line@) =~~= strs_view(parts@) + prepend_first(
                line@.subrange(start as int, i as int),
                split_sp(line@.skip(i as int)),
            ),
        decreases n - i,
    {
        proof {
            lemma_split_sp_len(line@.skip(i as int + 1));
            assert(line@.skip(i as int).drop_first() =~= line@.skip(i as int + 1));
            assert(line@.skip(i as int)[0] == line@[i as int]);
        }
        let c = line.get_char(i);
        if c == ' ' {
            let piece = String::from_str(line.substring_char(start, i));
            proof {
                let old_parts = parts@;
                let tail = split_sp(line@.skip(i as int + 1));
                assert(split_sp(line@.skip(i as int)) =~~= seq![Seq::<char>::empty()] + tail);
                assert(prepend_first(
                    line@.subrange(start as int, i as int),
                    seq![Seq::<char>::empty()] + tail,
                ) =~~= seq![line@.subrange(start as int, i as int)] + tail);
                assert(strs_view(old_parts.push(piece)) =~~= strs_view(old_parts) + seq![
                    line@.subrange(start as int, i as int),
                ]);
                assert(prepend_first(
                    line@.subrange(i as int + 1, i as int + 1),
                    tail,
                ) =~~= tail) by {
                    lemma_split_sp_len(line@.skip(i as int + 1));
                }
            }
            parts.push(piece);
            start = i + 1;
        } else {
            proof {
                let rest = split_sp(line@.skip(i as int + 1));
                assert(split_sp(line@.skip(i as int)) =~~= rest.update(
                    0,
                    seq![line@[i as int]] + rest[0],
                ));
                assert(line@.subrange(start as int, i as int) + (seq![line@[i as int]] + rest[0])
                    =~= line@.subrange(start as int, i as int + 1) + rest[0]);
                assert(prepend_first(
                    line@.subrange(start as int, i as int),
                    rest.update(0, seq![line@[i as int]] + rest[0]),
                ) =~~= prepend_first(line@.subrange(start as int, i as int + 1), rest)) by {
                    lemma_split_sp_len(line@.skip(i as int + 1));
                }
            }
        }
        i += 1;
    }
    let piece = String::from_str(line.substring_char(start, n));
    proof {
        assert(line@.skip(n as int).len() == 0);
        assert(split_sp(line@.skip(n as int)) =~~= seq![Seq::<char>::empty()]);
        assert(prepend_first(line@.subrange(start as int, n as int), seq![
            Seq::<char>::empty(),
        ]) =~~= seq![line@.subrange(start as int, n as int)]);
        assert(strs_view(parts@.push(piece)) =~~= strs_view(parts@) + seq![
            line@.subrange(start as int, n as int),
        ]);
    }
    parts.push(piece);
    proof {
        assert(strs_view(parts@) =~~= split_sp(line@));
    }
    parts
}

/// Splits a header line at its first `": "` separator, so that the
/// result matches `split_hdr` of the line.
pub fn split_header(line: &str) -> (r: Option<(String, String)>)
    ensures
        r matches Some(p) ==> split_hdr(line@) == Some((p.0@, p.1@)),
        r is None ==> split_hdr(line@) is None,
{
    let n: usize = line.unicode_len();
    if n < 2 {
        return None;
    }
    let mut i: usize = 0;
    proof {
        assert(line@.skip(0) =~= line@);
    }
    while i < n - 1
        invariant
            n == line@.len(),
            2 <= n,
            0 <= i <= n - 1,
            split_hdr(line@) == opt_prefix(
                line@.subrange(0, i as int),
                split_hdr(line@.skip(i as int)),
            ),
        decreases n - i,
    {
        proof {
            assert(line@.skip(i as int).drop_first() =~= line@.skip(i as int + 1));
            assert(line@.skip(i as int)[0] == line@[i as int]);
            assert(line@.skip(i as int)[1] == line@[i as int + 1]);
        }
        let a = line.get_char(i);
        let b = line.get_char(i + 1);
        if a == ':' && b == ' ' {
            let key = String::from_str(line.substring_char(0, i));
            let val = String::from_str(line.substring_char(i + 2, n));
            proof {
                assert(line@.skip(i as int).skip(2) =~= line@.subrange(i as int + 2, n as int));
                assert(line@.subrange(0, i as int) + Seq::<char>::empty() =~= line@.subrange(
                    0,
                    i as int,
                ));
            }
            return Some((key, val));
        }
        proof {
            match split_hdr(line@.skip(i as int + 1)) {
                Some(p) => {
                    assert(line@.subrange(0, i as int) + (seq![line@[i as int]] + p.0) =~= line@
                        .subrange(0, i as int + 1) + p.0);
                },
                None => {
                },
            }
        }
        i += 1;
    }
    proof {
        assert(line@.skip(i as int).len() < 2);
    }
    None
}

/// An optional split, with `p` prepended to the part before the
/// separator.
spec fn opt_prefix(p: Seq<char>, o: Option<(Seq<char>, Seq<char>)>) -> Option<
    (Seq<char>, Seq<char>),
> {
    match o {
        None => None,
        Some(t) => Some((p + t.0, t.1)),
    }
}

/// Parses a request line into method, URI and version; any other shape
/// yields the fatally classified malformed-request error the line is
/// owed, with its exact message.
pub fn parse_request_line(line: &str) -> (r: Result<(Method, String, Version), OxidarError>)
    ensures
        r matches Ok(t) ==> (spec_parse_request_line(line@) matches Ok(s) && (s.0 == t.0 && s.1
            == t.1@ && s.2 == t.2)),
        r matches Err(e) ==> (spec_parse_request_line(line@) matches Err(msg) && (e matches
            OxidarError::Fatal(i) && i matches Error::Untyped(s) && s@ == msg)),
{
    let parts = split_spaces(line);
    proof {
        assert(forall|k: int| 0 <= k < parts@.len() ==> strs_view(parts@)[k] == parts@[k]@);
    }
    if parts.len() == 1 {
        Err(OxidarError::abort_std(String::from_str("Malformed Request: URI could not be found.")))
    } else if parts.len() == 2 {
        Err(
            OxidarError::abort_std(
                String::from_str("Malformed Request: HTTP version could not be found."),
            ),
        )
    } else if parts.len() > 3 {
        Err(OxidarError::abort_std(String::from_str("Malformed Request: Items found after version.")))
    } else {
        let method = match Method::try_from(parts[0].as_str()) {
            Ok(m) => m,
            Err(e) => {
                return Err(e);
            },
        };
        let version = match Version::try_from(parts[2].as_str()) {
            Ok(v) => v,
            Err(e) => {
                return Err(e);
            },
        };
        let uri = parts[1].clone();
        Ok((method, uri, version))
    }
}

/// Parses the lines of one connection into a request. Exactly the lines
/// up to the first empty line are consumed: the request line, then
/// headers. Every failure is the fatally classified error the input is
/// owed, with its exact message; no partial request ever escapes.
pub fn parse_request(lines: &Vec<String>) -> (r: Result<Request, OxidarError>)
    ensures
        r matches Ok(req) ==> (spec_parse_request(strs_view(lines@)) matches Ok(m) && req_matches(
            req,
            m,
        )),
        r matches Err(e) ==> (spec_parse_request(strs_view(lines@)) matches Err(msg) && (e matches
            OxidarError::Fatal(i) && i matches Error::Untyped(s) && s@ == msg)),
{
    let ghost model = strs_view(lines@);
    if lines.len() == 0 {
        return Err(OxidarError::abort_std(String::from_str("No data found in request.")));
    }
    let first = match parse_request_line(lines[0].as_str()) {
        Ok(t) => t,
        Err(e) => {
            proof {
                assert(model[0] == lines@[0]@);
            }
            return Err(e);
        },
    };
    let mut req = Request { method: first.0, uri: first.1, version: first.2, headers: Vec::new() };
    let ghost m0 = ReqModel {
        method: req.method,
        uri: req.uri@,
        version: req.version,
        headers: Seq::empty(),
    };
    proof {
        assert(model[0] == lines@[0]@);
        assert(req.headers_seq() =~= m0.headers);
        assert(model.skip(1) =~= model.drop_first());
    }
    let mut i: usize = 1;
    while i < lines.len()
        invariant
            1 <= i <= lines.len(),
            model == strs_view(lines@),
            spec_parse_request(model) == spec_parse_headers(
                model.skip(i as int),
                ReqModel {
                    method: req.method,
                    uri: req.uri@,
                    version: req.version,
                    headers: req.headers_seq(),
                },
            ),
        decreases lines.len() - i,
    {
        proof {
            assert(model.skip(i as int)[0] == lines@[i as int]@);
            assert(model.skip(i as int).drop_first() =~= model.skip(i as int + 1));
        }
        let line = &lines[i];
        if line.as_str().is_empty() {
            return Ok(req);
        }
        match split_header(line.as_str()) {
            None => {
                let mut msg = String::from_str("Malformed Request: Header \"");
                msg.append(line.as_str());
                msg.append("\" could not be parsed.");
                return Err(OxidarError::abort_std(msg));
            },
            Some(p) => {
                let ghost before = req.headers_seq();
                let (key, val) = p;
                let ghost kv = (key@, val@);
                req.insert_header(key, val);
                proof {
                    assert(req.headers_seq() =~= before.push(kv));
                }
            },
        }
        i += 1;
    }
    proof {
        assert(model.skip(i as int).len() == 0);
    }
    Err(OxidarError::abort_std(String::from_str("No data found in request.")))
}

/// A request line with fewer than three space-separated tokens never
/// yields a request: parsing fails on the spot, whatever follows.
pub proof fn lemma_short_request_line_fails(lines: Seq<Seq<char>>)
    requires
        lines.len() > 0,
        split_sp(lines[0]).len() < 3,
    ensures
        spec_parse_request(lines) is Err,
{
    lemma_split_sp_len(lines[0]);
}

/// A request is finalized only by a terminating empty line: whenever
/// parsing succeeds, some empty line follows the request line, and
/// every header line before it is non-empty and carries its `": "`
/// separator. No partial request escapes the parser.
pub proof fn lemma_finalized_only_by_empty_line(lines: Seq<Seq<char>>)
    requires
        spec_parse_request(lines) is Ok,
    ensures
        exists|k: int| #![auto] 1 <= k < lines.len() && lines[k].len() == 0 && (forall|j: int|
            1 <= j < k ==> lines[j].len() > 0 && split_hdr(lines[j]) is Some),
{
    match spec_parse_request_line(lines[0]) {
        Err(_) => {
        },
        Ok(t) => {
            let acc = ReqModel { method: t.0, uri: t.1, version: t.2, headers: Seq::empty() };
            let k = lemma_headers_finalized(lines.drop_first(), acc);
            assert forall|j: int| 1 <= j < k + 1 implies lines[j].len() > 0 && split_hdr(
                lines[j],
            ) is Some by {
                assert(lines.drop_first()[j - 1] == lines[j]);
            }
            assert(1 <= k + 1 < lines.len() && lines[k + 1].len() == 0 && (forall|j: int|
                1 <= j < k + 1 ==> lines[j].len() > 0 && split_hdr(lines[j]) is Some));
        },
    }
}

/// Helper for [`lemma_finalized_only_by_empty_line`]: the same claim
/// about header collection alone, handing back the index of the
/// terminating empty line.
proof fn lemma_headers_finalized(lines: Seq<Seq<char>>, acc: ReqModel) -> (k: int)
    requires
        spec_parse_headers(lines, acc) is Ok,
    ensures
        0 <= k < lines.len(),
        lines[k].len() == 0,
        forall|j: int| 0 <= j < k ==> lines[j].len() > 0 && split_hdr(#[trigger] lines[j]) is Some,
    decreases lines.len(),
{
    if lines[0].len() == 0 {
        0
    } else {
        match split_hdr(lines[0]) {
            None => 0,
            Some(p) => {
                let k1 = lemma_headers_finalized(
                    lines.drop_first(),
                    ReqModel { headers: acc.headers.push(p), ..acc },
                );
                assert forall|j: int| 0 <= j < k1 + 1 implies lines[j].len() > 0 && split_hdr(
                    lines[j],
                ) is Some by {
                    if j > 0 {
                        assert(lines.drop_first()[j - 1] == lines[j]);
                    }
                }
                k1 + 1
            },
        }
    }
}

/// A non-empty header line without a `": "` separator, standing before
/// any terminating empty line, makes parsing fail: no request is ever
/// finalized past it.
pub proof fn lemma_bad_header_fails(lines: Seq<Seq<char>>, j: int)
    requires
        1 <= j < lines.len(),
        lines[j].len() > 0,
        split_hdr(lines[j]) is None,
        forall|i: int| 1 <= i < j ==> lines[i].len() > 0,
    ensures
        spec_parse_request(lines) is Err,
{
    match spec_parse_request_line(lines[0]) {
        Err(_) => {
        },
        Ok(t) => {
            lemma_bad_header_fails_rec(
                lines.drop_first(),
                ReqModel { method: t.0, uri: t.1, version: t.2, headers: Seq::empty() },
                j - 1,
            );
        },
    }
}

/// Helper for [`lemma_bad_header_fails`]: the same claim about header
/// collection alone.
proof fn lemma_bad_header_fails_rec(lines: Seq<Seq<char>>, acc: ReqModel, j: int)
    requires
        0 <= j < lines.len(),
        lines[j].len() > 0,
        split_hdr(lines[j]) is None,
        forall|i: int| 0 <= i < j ==> lines[i].len() > 0,
    ensures
        spec_parse_headers(lines, acc) is Err,
    decreases j,
{
    if j == 0 {
    } else {
        match split_hdr(lines[0]) {
            None => {
            },
            Some(p) => {
                assert(lines.drop_first()[j - 1] == lines[j]);
                assert(forall|i: int| 0 <= i < j - 1 ==> lines.drop_first()[i] == lines[i + 1]);
                lemma_bad_header_fails_rec(
                    lines.drop_first(),
                    ReqModel { headers: acc.headers.push(p), ..acc },
                    j - 1,
                );
            },
        }
    }
}

} // verus!
