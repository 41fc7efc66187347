use vstd::prelude::*;

use crate::{ApiClient, HttpResponse, RequestError};

verus! {

/// Status line and timing of a response whose body is still to be read.
#[derive(Debug)]
pub struct ResponseHead {
    pub status: u16,
    pub status_text: String,
    pub time: u64,
}

/// Milliseconds from `start` to `end`; a clock that stepped back counts as no time.
pub open spec fn elapsed_ms(start: u64, end: u64) -> u64 {
    if end >= start {
        (end - start) as u64
    } else {
        0
    }
}

/// The status text handed back for `text`.
pub open spec fn status_text_of(text: Seq<char>) -> Seq<char> {
    if text.len() == 0 {
        "No Status Text"@
    } else {
        text
    }
}

/// The body handed back for a body read that produced `text`, or no string.
pub open spec fn body_of(text: Option<Seq<char>>) -> Seq<char> {
    match text {
        Some(t) => t,
        None => "No response body"@,
    }
}

impl ApiClient {
    /// Takes the transport's answer to the dispatch: its status and status text, or the host's
    /// diagnostic where it failed. `start` and `end` are the clock's readings, in milliseconds,
    /// at dispatch and at completion.
    pub fn receive(fetched: Result<(u16, String), String>, start: u64, end: u64) -> (r: Result<
        ResponseHead,
        RequestError,
    >)
        ensures
            match fetched {
                Err(msg) => r == Err::<ResponseHead, RequestError>(
                    RequestError::NetworkError(msg),
                ),
                Ok((status, text)) => r matches Ok(head) && head.status == status
                    && head.status_text@ == status_text_of(text@) && head.time == elapsed_ms(
                    start,
                    end,
                ),
            },
    {
        let time: u64 = if end >= start {
            end - start
        } else {
            0
        };
        match fetched {
            Err(msg) => Err(RequestError::NetworkError(msg)),
            Ok((status, text)) => {
                let status_text = if text.as_str().is_empty() {
                    "No Status Text".to_owned()
                } else {
                    text
                };
                Ok(ResponseHead { status, status_text, time })
            },
        }
    }

    /// Takes the result of reading the body as text: the text, `None` where the host produced
    /// no string, or the host's diagnostic where the read failed.
    pub fn finish(head: ResponseHead, body: Result<Option<String>, String>) -> (r: Result<
        HttpResponse,
        RequestError,
    >)
        ensures
            match body {
                Err(msg) => r == Err::<HttpResponse, RequestError>(
                    RequestError::BodyReadError(msg),
                ),
                Ok(text) => r matches Ok(resp) && resp.status == head.status
                    && resp.status_text == head.status_text && resp.headers@.len() == 0
                    && resp.body@ == body_of(
                    match text {
                        Some(t) => Some(t@),
                        None => None,
                    },
                ) && resp.time == head.time,
            },
    {
        match body {
            Err(msg) => Err(RequestError::BodyReadError(msg)),
            Ok(text) => {
                let body = match text {
                    Some(t) => t,
                    None => "No response body".to_owned(),
                };
                Ok(
                    HttpResponse {
                        status: head.status,
                        status_text: head.status_text,
                        headers: Vec::new(),
                        body,
                        time: head.time,
                    },
                )
            },
        }
    }
}

} // verus!
