use vstd::prelude::*;

use vstd::string::StringExecFns;

use crate::error::GoogleMapPlaceError;
use crate::json::{json_document, parse_document};
use crate::response::{body_decodable, response_decodes, Response};

verus! {

/// A client of the place-details endpoint, carrying its own API key.
pub struct Places {
    pub api_key: String,
}

/// What form_urlencoded makes of a string: its UTF-8 bytes, percent-encoded
/// for a query.
pub uninterp spec fn form_encoded(s: Seq<char>) -> Seq<char>;

/// Relies on form_urlencoded::byte_serialize: encodes the bytes of `s` for a
/// query string, as a function of `s` alone.
#[verifier::external_body]
fn url_encode(s: &str) -> (r: String)
    ensures
        r@ == form_encoded(s@),
{
    form_urlencoded::byte_serialize(s.as_bytes()).collect()
}

/// The request target for a place id and a key.
pub open spec fn details_url(place_id: Seq<char>, key: Seq<char>) -> Seq<char> {
    "https://maps.googleapis.com/maps/api/place/details/json?place_id="@ + form_encoded(place_id)
        + "&key="@ + form_encoded(key)
}

/// What a body text decodes to: text that is not JSON, or an `OK` body whose
/// result does not decode, is an unknown error; any other body is a response.
pub open spec fn text_decodes(text: Seq<char>, r: Result<Response, GoogleMapPlaceError>) -> bool {
    match json_document(text) {
        None => r matches Err(GoogleMapPlaceError::Unknown(_)),
        Some(body) => if body_decodable(body) {
            r matches Ok(v) && response_decodes(body, v)
        } else {
            r matches Err(GoogleMapPlaceError::Unknown(_))
        },
    }
}

/// What a transport outcome turns into: its failure, word for word, as an
/// unknown error; its body as `text_decodes` says.
pub open spec fn reply_decodes(
    reply: Result<String, String>,
    r: Result<Response, GoogleMapPlaceError>,
) -> bool {
    match reply {
        Err(m) => r matches Err(GoogleMapPlaceError::Unknown(d)) && d@ == m@,
        Ok(body) => text_decodes(body@, r),
    }
}

/// Decodes a response body.
pub fn decode_response(text: &str) -> (r: Result<Response, GoogleMapPlaceError>)
    ensures
        text_decodes(text@, r),
{
    match parse_document(text) {
        Err(m) => Err(GoogleMapPlaceError::Unknown(m)),
        Ok(body) => match Response::from_json(&body) {
            Some(v) => Ok(v),
            None => Err(
                GoogleMapPlaceError::Unknown("the result of an OK response does not decode".to_owned()),
            ),
        },
    }
}

impl Places {
    pub fn new(api_key: &str) -> (r: Places)
        ensures
            r.api_key@ == api_key@,
    {
        Places { api_key: api_key.to_owned() }
    }

    /// The request target for `place_id`; an empty id is refused.
    pub fn request_url(&self, place_id: &str) -> (r: Result<String, GoogleMapPlaceError>)
        ensures
            r is Err <==> place_id@.len() == 0,
            r matches Err(e) ==> e is BadRequest,
            r matches Ok(u) ==> u@ == details_url(place_id@, self.api_key@),
    {
        if place_id.is_empty() {
            return Err(GoogleMapPlaceError::BadRequest("Place id is required".to_owned()));
        }
        let mut url = "https://maps.googleapis.com/maps/api/place/details/json?place_id=".to_owned();
        let id = url_encode(place_id);
        url.append(id.as_str());
        url.append("&key=");
        let key = url_encode(self.api_key.as_str());
        url.append(key.as_str());
        Ok(url)
    }

    /// Turns what the transport brought back into the lookup's outcome.
    pub fn read_reply(reply: Result<String, String>) -> (r: Result<Response, GoogleMapPlaceError>)
        ensures
            reply_decodes(reply, r),
    {
        match reply {
            Err(m) => Err(GoogleMapPlaceError::Unknown(m)),
            Ok(body) => decode_response(body.as_str()),
        }
    }

    /// Looks up `place_id`: refuses an empty id before `fetch` is called,
    /// else hands `fetch` the request target once and decodes what it returns.
    pub fn get_map_place<F: Fn(&str) -> Result<String, String>>(
        &self,
        place_id: &str,
        fetch: F,
    ) -> (r: Result<Response, GoogleMapPlaceError>)
        requires
            forall|u: &str| #[trigger] fetch.requires((u,)),
        ensures
            place_id@.len() == 0 ==> r matches Err(GoogleMapPlaceError::BadRequest(_)),
            place_id@.len() > 0 ==> exists|u: &str, reply: Result<String, String>|
                u@ == details_url(place_id@, self.api_key@) && #[trigger] fetch.ensures((u,), reply)
                    && reply_decodes(reply, r),
    {
        let url = match self.request_url(place_id) {
            Ok(u) => u,
            Err(e) => {
                return Err(e);
            },
        };
        let reply = fetch(url.as_str());
        Places::read_reply(reply)
    }
}

} // verus!
