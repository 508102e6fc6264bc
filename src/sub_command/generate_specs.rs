use vstd::prelude::*;
use vstd::utf8::{decode_utf8, encode_utf8_decode_utf8, valid_utf8};

use json::JsonValue;

use crate::error::Error;
use crate::json_text::{error_text, is_number, json_accepts, member, parse_json, set_member};
use crate::path_buffer::utf8_str;

verus! {

/// Sets the parachain id of a plain chain spec, the JSON text `data` that a
/// collator's `build-spec` printed. The spec must already hold a number under
/// `para_id`.
///
/// Errors: `FromUtf8` when `data` is not UTF-8; `ParseJson` when the text is
/// not JSON; `InvalidJsonValue("para_id")` when the member is not a number.
pub fn set_para_id(data: Vec<u8>, para_id: u32) -> (r: Result<JsonValue, Error>)
    ensures
        !valid_utf8(data@) ==> r matches Err(Error::FromUtf8(_)),
        valid_utf8(data@) && !json_accepts(decode_utf8(data@)) ==> r matches Err(
            Error::ParseJson(_),
        ),
        valid_utf8(data@) && json_accepts(decode_utf8(data@)) ==> r is Ok || (r matches Err(
            Error::InvalidJsonValue(key),
        ) && key@ == "para_id"@),
{
    let text = match utf8_str(data.as_slice()) {
        Some(t) => t,
        None => return Err(Error::FromUtf8("chain spec output is not UTF-8".to_owned())),
    };
    proof {
        encode_utf8_decode_utf8(text@);
    }
    let mut spec = match parse_json(text) {
        Ok(v) => v,
        Err(e) => return Err(Error::ParseJson(error_text(&e))),
    };
    if is_number(member(&spec, "para_id")) {
        set_member(&mut spec, "para_id", para_id);
        Ok(spec)
    } else {
        Err(Error::InvalidJsonValue("para_id".to_owned()))
    }
}

} // verus!
