use vstd::prelude::*;

use crate::outside::{is_json_text, parsed_scheme};
use crate::request::{
    build_outcome, declares_json, has_content_type, header_pairs, is_supported_method,
    is_web_scheme, needs_content_type, usable, usable_headers,
};
use crate::response::elapsed_ms;
use crate::{HttpRequest, RequestError};

verus! {

/// A request whose URL is an `http` or `https` URL and whose method is outside the accepted
/// set is rejected as an unsupported method, so nothing is handed to the transport.
pub proof fn unknown_method_is_rejected(req: HttpRequest)
    requires
        parsed_scheme(req.url@) matches Some(s) && is_web_scheme(s),
        !is_supported_method(req.method@),
    ensures
        build_outcome(req) == Err::<
            (Seq<char>, Seq<char>, Seq<(Seq<char>, Seq<char>)>),
            RequestError,
        >(RequestError::UnsupportedMethod),
{
}

/// A request whose URL parses with a scheme other than `http` and `https` is rejected as an
/// unsupported scheme.
pub proof fn other_scheme_is_rejected(req: HttpRequest)
    requires
        parsed_scheme(req.url@) matches Some(s) && !is_web_scheme(s),
    ensures
        build_outcome(req) == Err::<
            (Seq<char>, Seq<char>, Seq<(Seq<char>, Seq<char>)>),
            RequestError,
        >(RequestError::UnsupportedScheme),
{
}

/// A POST, PUT or PATCH to an `http` or `https` URL with a non-empty body and no
/// `Content-Type` header among the applied headers is rejected for the missing content type.
pub proof fn body_without_content_type_is_rejected(req: HttpRequest)
    requires
        parsed_scheme(req.url@) matches Some(s) && is_web_scheme(s),
        needs_content_type(req.method@),
        req.body@.len() > 0,
        !has_content_type(usable_headers(header_pairs(req.headers@))),
    ensures
        build_outcome(req) == Err::<
            (Seq<char>, Seq<char>, Seq<(Seq<char>, Seq<char>)>),
            RequestError,
        >(RequestError::MissingContentType),
{
}

/// A request to an `http` or `https` URL with an accepted method, a `Content-Type` header that
/// declares JSON and a non-empty body that does not parse as JSON is rejected as an invalid
/// JSON body.
pub proof fn declared_json_must_parse(req: HttpRequest)
    requires
        parsed_scheme(req.url@) matches Some(s) && is_web_scheme(s),
        is_supported_method(req.method@),
        req.body@.len() > 0,
        declares_json(usable_headers(header_pairs(req.headers@))),
        !is_json_text(req.body@),
    ensures
        build_outcome(req) == Err::<
            (Seq<char>, Seq<char>, Seq<(Seq<char>, Seq<char>)>),
            RequestError,
        >(RequestError::InvalidJsonBody),
{
    let h = usable_headers(header_pairs(req.headers@));
    let k = choose|k: int| 0 <= k < h.len() && crate::request::is_content_type(#[trigger] h[k].0)
        && crate::text::contains_seq(h[k].1, "application/json"@);
    assert(has_content_type(h));
}

/// Every header that goes to the transport has a non-empty name and a non-empty value.
pub proof fn sent_headers_are_usable(h: Seq<(Seq<char>, Seq<char>)>)
    ensures
        forall|k: int| 0 <= k < usable_headers(h).len() ==> usable(#[trigger] usable_headers(h)[k]),
    decreases h.len(),
{
    if h.len() > 0 {
        let rest = usable_headers(h.drop_last());
        sent_headers_are_usable(h.drop_last());
        assert forall|k: int| 0 <= k < usable_headers(h).len() implies usable(
            #[trigger] usable_headers(h)[k],
        ) by {
            if usable(h.last()) && k == rest.len() {
                assert(usable_headers(h)[k] == h.last());
            } else {
                assert(usable_headers(h)[k] == rest[k]);
            }
        }
    }
}

/// Header pairs with an empty name or value never decide the outcome: two requests that agree
/// on everything but such pairs are built alike.
pub proof fn unusable_headers_change_nothing(a: HttpRequest, b: HttpRequest)
    requires
        a.method@ == b.method@,
        a.url@ == b.url@,
        a.body@ == b.body@,
        usable_headers(header_pairs(a.headers@)) == usable_headers(header_pairs(b.headers@)),
    ensures
        build_outcome(a) == build_outcome(b),
{
}

/// Dropping a pair with an empty name or value leaves the applied headers as they were.
pub proof fn unusable_pair_is_skipped(h: Seq<(Seq<char>, Seq<char>)>, p: (Seq<char>, Seq<char>))
    requires
        !usable(p),
    ensures
        usable_headers(h.push(p)) == usable_headers(h),
{
    assert(h.push(p).drop_last() =~= h);
}

/// The elapsed time is never negative and, for a clock that did not step back, is exactly the
/// interval between the two readings.
pub proof fn elapsed_is_the_interval(start: u64, end: u64)
    ensures
        elapsed_ms(start, end) >= 0,
        end >= start ==> elapsed_ms(start, end) == end - start,
{
}

} // verus!
