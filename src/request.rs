use vstd::prelude::*;

use crate::outside::{is_json_text, parsed_scheme, parses_as_json, url_scheme};
use crate::text::{chars_of, contains_chars, contains_seq, same_name, same_name_exec};
use crate::{ApiClient, HttpRequest, RequestError};

verus! {

/// What goes to the transport: method, URL and headers. The body is not carried.
#[derive(Debug)]
pub struct OutgoingRequest {
    pub method: String,
    pub url: String,
    pub headers: Vec<(String, String)>,
}

/// Header pairs as character sequences.
pub open spec fn header_pairs(h: Seq<(String, String)>) -> Seq<(Seq<char>, Seq<char>)> {
    h.map_values(|p: (String, String)| (p.0@, p.1@))
}

impl View for OutgoingRequest {
    type V = (Seq<char>, Seq<char>, Seq<(Seq<char>, Seq<char>)>);

    open spec fn view(&self) -> Self::V {
        (self.method@, self.url@, header_pairs(self.headers@))
    }
}

/// A header pair is applied only when both name and value are non-empty.
pub open spec fn usable(p: (Seq<char>, Seq<char>)) -> bool {
    p.0.len() > 0 && p.1.len() > 0
}

/// The usable pairs of `h`, in their order.
pub open spec fn usable_headers(h: Seq<(Seq<char>, Seq<char>)>) -> Seq<(Seq<char>, Seq<char>)>
    decreases h.len(),
{
    if h.len() == 0 {
        Seq::empty()
    } else {
        let rest = usable_headers(h.drop_last());
        if usable(h.last()) {
            rest.push(h.last())
        } else {
            rest
        }
    }
}

pub open spec fn content_type_lower() -> Seq<char> {
    seq!['c', 'o', 'n', 't', 'e', 'n', 't', '-', 't', 'y', 'p', 'e']
}

pub open spec fn content_type_upper() -> Seq<char> {
    seq!['C', 'O', 'N', 'T', 'E', 'N', 'T', '-', 'T', 'Y', 'P', 'E']
}

/// `name` is `Content-Type`, header names being compared without regard to ASCII case.
pub open spec fn is_content_type(name: Seq<char>) -> bool {
    same_name(name, content_type_lower(), content_type_upper())
}

/// Some header of `h` is a `Content-Type` header.
pub open spec fn has_content_type(h: Seq<(Seq<char>, Seq<char>)>) -> bool {
    exists|k: int| 0 <= k < h.len() && is_content_type(#[trigger] h[k].0)
}

/// Some `Content-Type` header of `h` has a value that contains `application/json`.
pub open spec fn declares_json(h: Seq<(Seq<char>, Seq<char>)>) -> bool {
    exists|k: int|
        0 <= k < h.len() && is_content_type(#[trigger] h[k].0) && contains_seq(
            h[k].1,
            "application/json"@,
        )
}

pub open spec fn is_web_scheme(s: Seq<char>) -> bool {
    s == "http"@ || s == "https"@
}

pub open spec fn is_supported_method(m: Seq<char>) -> bool {
    ||| m == "GET"@
    ||| m == "POST"@
    ||| m == "PUT"@
    ||| m == "DELETE"@
    ||| m == "PATCH"@
    ||| m == "HEAD"@
    ||| m == "OPTIONS"@
}

/// Methods that must declare a content type when they carry a body.
pub open spec fn needs_content_type(m: Seq<char>) -> bool {
    m == "POST"@ || m == "PUT"@ || m == "PATCH"@
}

/// The check that couples the body with the outgoing headers `h`.
pub open spec fn body_error(
    method: Seq<char>,
    h: Seq<(Seq<char>, Seq<char>)>,
    body: Seq<char>,
) -> Option<RequestError> {
    if body.len() == 0 {
        None
    } else if has_content_type(h) {
        if declares_json(h) && !is_json_text(body) {
            Some(RequestError::InvalidJsonBody)
        } else {
            None
        }
    } else if needs_content_type(method) {
        Some(RequestError::MissingContentType)
    } else {
        None
    }
}

/// What `build` gives for `req`: the first failing rule, in order URL, scheme, method, body;
/// else the method, the URL and the usable headers.
pub open spec fn build_outcome(req: HttpRequest) -> Result<
    (Seq<char>, Seq<char>, Seq<(Seq<char>, Seq<char>)>),
    RequestError,
> {
    let h = usable_headers(header_pairs(req.headers@));
    match parsed_scheme(req.url@) {
        None => Err(RequestError::MalformedUrl),
        Some(s) => if !is_web_scheme(s) {
            Err(RequestError::UnsupportedScheme)
        } else if !is_supported_method(req.method@) {
            Err(RequestError::UnsupportedMethod)
        } else {
            match body_error(req.method@, h, req.body@) {
                Some(e) => Err(e),
                None => Ok((req.method@, req.url@, h)),
            }
        },
    }
}

fn same_text(s: &String, lit: &str) -> (r: bool)
    ensures
        r == (s@ == lit@),
{
    *s == lit.to_owned()
}

/// The usable pairs of `headers`, copied in their order.
pub fn sendable_headers(headers: &Vec<(String, String)>) -> (r: Vec<(String, String)>)
    ensures
        header_pairs(r@) == usable_headers(header_pairs(headers@)),
{
    let ghost all = header_pairs(headers@);
    let mut out: Vec<(String, String)> = Vec::new();
    let mut i: usize = 0;
    while i < headers.len()
        invariant
            i <= headers@.len(),
            all == header_pairs(headers@),
            header_pairs(out@) == usable_headers(all.take(i as int)),
        decreases headers@.len() - i,
    {
        let pair = &headers[i];
        proof {
            assert(all.take(i + 1).drop_last() =~= all.take(i as int));
            assert(all.take(i + 1).last() == all[i as int]);
        }
        if !pair.0.as_str().is_empty() && !pair.1.as_str().is_empty() {
            let ghost before = out@;
            out.push((pair.0.clone(), pair.1.clone()));
            proof {
                assert(header_pairs(out@) =~= header_pairs(before).push(all[i as int]));
            }
        }
        i = i + 1;
    }
    proof {
        assert(all.take(headers@.len() as int) =~= all);
    }
    out
}

/// Whether `headers` has a `Content-Type` header, and whether one of them declares JSON.
fn content_type_of(headers: &Vec<(String, String)>) -> (r: (bool, bool))
    ensures
        r.0 == has_content_type(header_pairs(headers@)),
        r.1 == declares_json(header_pairs(headers@)),
{
    let ghost h = header_pairs(headers@);
    let lower: Vec<char> = vec!['c', 'o', 'n', 't', 'e', 'n', 't', '-', 't', 'y', 'p', 'e'];
    let upper: Vec<char> = vec!['C', 'O', 'N', 'T', 'E', 'N', 'T', '-', 'T', 'Y', 'P', 'E'];
    let json = chars_of("application/json");
    proof {
        assert(lower@ =~= content_type_lower());
        assert(upper@ =~= content_type_upper());
    }
    let mut present = false;
    let mut is_json = false;
    let mut i: usize = 0;
    while i < headers.len()
        invariant
            i <= headers@.len(),
            h == header_pairs(headers@),
            lower@ == content_type_lower(),
            upper@ == content_type_upper(),
            json@ == "application/json"@,
            present == exists|k: int| 0 <= k < i && is_content_type(#[trigger] h[k].0),
            is_json == exists|k: int|
                0 <= k < i && is_content_type(#[trigger] h[k].0) && contains_seq(
                    h[k].1,
                    "application/json"@,
                ),
        decreases headers@.len() - i,
    {
        let name = chars_of(headers[i].0.as_str());
        let value = chars_of(headers[i].1.as_str());
        let named = same_name_exec(&name, &lower, &upper);
        let json_here = named && contains_chars(&value, &json);
        proof {
            assert(h[i as int].0 == name@ && h[i as int].1 == value@);
            if !named {
                assert forall|k: int| 0 <= k < i + 1 && is_content_type(#[trigger] h[k].0) implies k
                    < i by {}
            }
            if !json_here {
                assert forall|k: int|
                    0 <= k < i + 1 && is_content_type(#[trigger] h[k].0) && contains_seq(
                        h[k].1,
                        "application/json"@,
                    ) implies k < i by {}
            }
        }
        present = present || named;
        is_json = is_json || json_here;
        i = i + 1;
    }
    (present, is_json)
}

impl ApiClient {
    /// Checks `req` and builds what goes to the transport, or says which rule failed first.
    pub fn build(req: &HttpRequest) -> (r: Result<OutgoingRequest, RequestError>)
        ensures
            match r {
                Ok(o) => build_outcome(*req) == Ok::<_, RequestError>(o@),
                Err(e) => build_outcome(*req) == Err::<
                    (Seq<char>, Seq<char>, Seq<(Seq<char>, Seq<char>)>),
                    RequestError,
                >(e),
            },
    {
        let scheme = match url_scheme(req.url.as_str()) {
            None => {
                return Err(RequestError::MalformedUrl);
            },
            Some(s) => s,
        };
        if !same_text(&scheme, "http") && !same_text(&scheme, "https") {
            return Err(RequestError::UnsupportedScheme);
        }
        let m = &req.method;
        if !(same_text(m, "GET") || same_text(m, "POST") || same_text(m, "PUT") || same_text(
            m,
            "DELETE",
        ) || same_text(m, "PATCH") || same_text(m, "HEAD") || same_text(m, "OPTIONS")) {
            return Err(RequestError::UnsupportedMethod);
        }
        let headers = sendable_headers(&req.headers);
        if !req.body.as_str().is_empty() {
            let (present, is_json) = content_type_of(&headers);
            if present {
                if is_json && !parses_as_json(req.body.as_str()) {
                    return Err(RequestError::InvalidJsonBody);
                }
            } else if same_text(m, "POST") || same_text(m, "PUT") || same_text(m, "PATCH") {
                return Err(RequestError::MissingContentType);
            }
        }
        Ok(OutgoingRequest { method: req.method.clone(), url: req.url.clone(), headers })
    }
}

} // verus!
