//! Log sink client logic: interpretation of the sink's acknowledgement.
//!
//! A submission is acknowledged with a small JSON object whose optional
//! `result` field says whether the sink accepted the reading. The POST itself
//! happens outside the library.

use vstd::prelude::*;

use crate::errors::BrewfatherError;
use crate::extract::{has_key, key_lookup, lookup_key};
use crate::json::{json_doc_of, parse_json, JsonVal};
use vstd::string::StringExecFns;

verus! {

/// The key of the acknowledgement marker.
pub open spec fn result_key() -> Seq<char> {
    "result"@
}

/// An acknowledgement body that does not decode as an object with an
/// optional string `result` field surfaces the decoder's message, as a
/// transport-level failure.
pub open spec fn is_decode_failure(r: Result<(), BrewfatherError>) -> bool {
    r matches Err(BrewfatherError::Transport { message }) && message@
        == "error decoding response body"@
}

/// The decode-failure outcome.
fn decode_failure() -> (r: Result<(), BrewfatherError>)
    ensures
        is_decode_failure(r),
{
    Err(BrewfatherError::Transport { message: String::from_str("error decoding response body") })
}

/// Interpret the sink's acknowledgement: require status 200; a `result`
/// marker of `OK` or `success` means the reading was accepted; any other
/// string is an unexpected result; a null or absent marker is no result at
/// all.
pub fn interpret_submit_response(status: u16, payload: String) -> (r: Result<(), BrewfatherError>)
    ensures
        status != 200 ==> (r matches Err(BrewfatherError::UnexpectedStatusCode {
            status_code,
            payload: p,
        }) && status_code == status && p == payload),
        status == 200 ==> match json_doc_of(payload@) {
            None => is_decode_failure(r),
            Some(doc) => match doc {
                JsonVal::Obj(es) => if !has_key(es@, result_key()) {
                    r matches Err(BrewfatherError::NoResult)
                } else {
                    match key_lookup(es@, result_key()) {
                        JsonVal::Null => r matches Err(BrewfatherError::NoResult),
                        JsonVal::Str(s) => if s@ == "OK"@ || s@ == "success"@ {
                            r is Ok
                        } else {
                            r matches Err(BrewfatherError::UnexpectedResult { result }) && result@
                                == s@
                        },
                        _ => is_decode_failure(r),
                    }
                },
                _ => is_decode_failure(r),
            },
        },
{
    if status != 200 {
        return Err(BrewfatherError::UnexpectedStatusCode { status_code: status, payload });
    }
    let doc = match parse_json(payload.as_str()) {
        Some(d) => d,
        None => {
            return decode_failure();
        },
    };
    let es = match &doc {
        JsonVal::Obj(es) => es,
        _ => {
            return decode_failure();
        },
    };
    let rkey = String::from_str("result");
    match lookup_key(es, &rkey) {
        None => Err(BrewfatherError::NoResult),
        Some(v) => match v {
            JsonVal::Null => Err(BrewfatherError::NoResult),
            JsonVal::Str(s) => {
                let ok_marker = String::from_str("OK");
                let success_marker = String::from_str("success");
                if *s == ok_marker || *s == success_marker {
                    Ok(())
                } else {
                    Err(BrewfatherError::UnexpectedResult { result: s.clone() })
                }
            },
            _ => decode_failure(),
        },
    }
}

} // verus!
