use vstd::prelude::*;

use crate::error::GoogleMapPlaceError;
use crate::json::{json_document, member, number_of, text_of, Json};
use crate::places::text_decodes;
use crate::response::{
    chars_of, components_decode, has_type, location_decodes, long_name_of, pick, short_name_of,
    status_of, AddressComponent, Location, Response,
};

verus! {

/// Where exactly one component carries `tag`, a lookup by `tag` picks that
/// component: its long name and its short name are what the lookups return.
pub proof fn lemma_sole_carrier_is_picked(cs: Seq<AddressComponent>, tag: Seq<char>, i: int)
    requires
        0 <= i < cs.len(),
        has_type(cs[i], tag),
        forall|j: int| 0 <= j < cs.len() && j != i ==> !has_type(#[trigger] cs[j], tag),
    ensures
        pick(cs, tag) == Some(cs[i]),
        long_name_of(cs, tag) == Some(cs[i].long_name@),
        short_name_of(cs, tag) == Some(cs[i].short_name@),
{
    assert(crate::response::is_first_of_type(cs, tag, i));
    let k = choose|k: int| crate::response::is_first_of_type(cs, tag, k);
    assert(k == i);
}

/// A decoded component list has one component for each item of the payload's
/// array, in the same order.
pub proof fn lemma_components_keep_count(j: Option<Json>, cs: Seq<AddressComponent>)
    requires
        components_decode(j, cs),
    ensures
        j matches Some(Json::Array(items)) && items@.len() == cs.len(),
{
}

/// A decoded point holds the payload's coordinates as the text of their
/// numbers, digit for digit, with nothing rounded.
pub proof fn lemma_location_keeps_digits(v: Json, p: Location)
    requires
        location_decodes(Some(v), p),
    ensures
        number_of(member(v, "lat"@)) == Some(p.lat@),
        number_of(member(v, "lng"@)) == Some(p.lng@),
{
}

/// A lookup is a function of the place result alone: two lookups by the same
/// tag on the same components return the same name.
pub proof fn lemma_lookup_is_stable(
    cs: Seq<AddressComponent>,
    tag: Seq<char>,
    first: Option<&str>,
    second: Option<&str>,
)
    requires
        chars_of(first) == long_name_of(cs, tag),
        chars_of(second) == long_name_of(cs, tag),
    ensures
        chars_of(first) == chars_of(second),
{
}

/// A body whose status is `INVALID_REQUEST` decodes to `InvalidRequest`,
/// whatever else it holds.
pub proof fn lemma_invalid_request(
    text: Seq<char>,
    body: Json,
    r: Result<Response, GoogleMapPlaceError>,
)
    requires
        json_document(text) == Some(body),
        status_of(body) == Some("INVALID_REQUEST"@),
        text_decodes(text, r),
    ensures
        r matches Ok(Response::InvalidRequest),
{
    reveal_strlit("INVALID_REQUEST");
    reveal_strlit("OK");
    reveal_strlit("ZERO_RESULTS");
    assert("INVALID_REQUEST"@ != "OK"@) by {
        assert("INVALID_REQUEST"@[0] != "OK"@[0]);
    }
    assert("INVALID_REQUEST"@ != "ZERO_RESULTS"@) by {
        assert("INVALID_REQUEST"@[0] != "ZERO_RESULTS"@[0]);
    }
}

/// A body whose status is `REQUEST_DENIED` decodes to `RequestDenied`,
/// carrying its `error_message` string as it stands.
pub proof fn lemma_request_denied(
    text: Seq<char>,
    body: Json,
    message: Seq<char>,
    r: Result<Response, GoogleMapPlaceError>,
)
    requires
        json_document(text) == Some(body),
        status_of(body) == Some("REQUEST_DENIED"@),
        text_of(member(body, "error_message"@)) == Some(message),
        text_decodes(text, r),
    ensures
        r matches Ok(Response::RequestDenied { error_message }) && error_message@ == message,
{
    reveal_strlit("REQUEST_DENIED");
    reveal_strlit("OK");
    reveal_strlit("ZERO_RESULTS");
    reveal_strlit("INVALID_REQUEST");
    reveal_strlit("OVER_QUERY_LIMIT");
    assert("REQUEST_DENIED"@ != "OK"@) by {
        assert("REQUEST_DENIED"@[0] != "OK"@[0]);
    }
    assert("REQUEST_DENIED"@ != "ZERO_RESULTS"@) by {
        assert("REQUEST_DENIED"@[0] != "ZERO_RESULTS"@[0]);
    }
    assert("REQUEST_DENIED"@ != "INVALID_REQUEST"@) by {
        assert("REQUEST_DENIED"@[0] != "INVALID_REQUEST"@[0]);
    }
    assert("REQUEST_DENIED"@ != "OVER_QUERY_LIMIT"@) by {
        assert("REQUEST_DENIED"@[0] != "OVER_QUERY_LIMIT"@[0]);
    }
}

/// A JSON body whose status is none of the five known ones, or that has no
/// string status, decodes to `UnknownError` and never fails.
pub proof fn lemma_unrecognized_status(
    text: Seq<char>,
    body: Json,
    r: Result<Response, GoogleMapPlaceError>,
)
    requires
        json_document(text) == Some(body),
        status_of(body) != Some("OK"@),
        status_of(body) != Some("ZERO_RESULTS"@),
        status_of(body) != Some("INVALID_REQUEST"@),
        status_of(body) != Some("OVER_QUERY_LIMIT"@),
        status_of(body) != Some("REQUEST_DENIED"@),
        text_decodes(text, r),
    ensures
        r matches Ok(Response::UnknownError),
{
}

} // verus!
