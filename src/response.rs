use vstd::prelude::*;

use crate::json::{member, number_of, opt, text_of, Json};

verus! {

/// One fragment of a structured address, with its semantic type tags.
#[derive(Debug)]
pub struct AddressComponent {
    pub long_name: String,
    pub short_name: String,
    pub types: Vec<String>,
}

/// A point; each coordinate is kept as the decimal text of the payload's number.
#[derive(Debug)]
pub struct Location {
    pub lat: String,
    pub lng: String,
}

/// A bounding box.
#[derive(Debug)]
pub struct Viewport {
    pub northeast: Location,
    pub southwest: Location,
}

#[derive(Debug)]
pub struct Geometry {
    pub location: Location,
    pub viewport: Viewport,
}

/// The place that a successful lookup describes.
#[derive(Debug)]
pub struct PlaceResult {
    pub place_id: String,
    pub name: String,
    pub formatted_address: String,
    pub address_components: Vec<AddressComponent>,
    pub geometry: Option<Geometry>,
}

/// The outcome that the service reports in its `status` member.
#[derive(Debug)]
pub enum Response {
    OK { result: PlaceResult },
    ZeroResults,
    InvalidRequest,
    OverQueryLimit,
    RequestDenied { error_message: String },
    UnknownError,
}

// ---- lookups by tag ----

/// The component carries the tag `tag`.
pub open spec fn has_type(c: AddressComponent, tag: Seq<char>) -> bool {
    exists|k: int| 0 <= k < c.types@.len() && #[trigger] c.types@[k]@ == tag
}

/// Component `i` is the first one of `cs` that carries `tag`.
pub open spec fn is_first_of_type(cs: Seq<AddressComponent>, tag: Seq<char>, i: int) -> bool {
    &&& 0 <= i < cs.len()
    &&& has_type(cs[i], tag)
    &&& forall|j: int| 0 <= j < i ==> !has_type(#[trigger] cs[j], tag)
}

/// The component that a lookup by `tag` picks: the first one, in payload
/// order, that carries the tag.
pub open spec fn pick(cs: Seq<AddressComponent>, tag: Seq<char>) -> Option<AddressComponent> {
    if exists|i: int| is_first_of_type(cs, tag, i) {
        Some(cs[choose|i: int| is_first_of_type(cs, tag, i)])
    } else {
        None
    }
}

/// The long name of the picked component.
pub open spec fn long_name_of(cs: Seq<AddressComponent>, tag: Seq<char>) -> Option<Seq<char>> {
    match pick(cs, tag) {
        Some(c) => Some(c.long_name@),
        None => None,
    }
}

/// The short name of the picked component.
pub open spec fn short_name_of(cs: Seq<AddressComponent>, tag: Seq<char>) -> Option<Seq<char>> {
    match pick(cs, tag) {
        Some(c) => Some(c.short_name@),
        None => None,
    }
}

/// A borrowed optional string, read as its characters.
pub open spec fn chars_of(o: Option<&str>) -> Option<Seq<char>> {
    match o {
        Some(s) => Some(s@),
        None => None,
    }
}

impl AddressComponent {
    /// Whether the component carries the tag `tag`.
    pub fn has_type(&self, tag: &str) -> (r: bool)
        ensures
            r == has_type(*self, tag@),
    {
        let wanted: String = tag.to_owned();
        let mut k: usize = 0;
        while k < self.types.len()
            invariant
                0 <= k <= self.types@.len(),
                wanted@ == tag@,
                forall|m: int| 0 <= m < k ==> #[trigger] self.types@[m]@ != tag@,
            decreases self.types@.len() - k,
        {
            if self.types[k] == wanted {
                return true;
            }
            k += 1;
        }
        false
    }
}

impl PlaceResult {
    /// The first address component, in payload order, that carries `tag`.
    pub fn component(&self, tag: &str) -> (r: Option<&AddressComponent>)
        ensures
            match r {
                Some(c) => pick(self.address_components@, tag@) == Some(*c),
                None => pick(self.address_components@, tag@) is None,
            },
    {
        let cs = &self.address_components;
        let mut i: usize = 0;
        while i < cs.len()
            invariant
                0 <= i <= cs@.len(),
                cs@ == self.address_components@,
                forall|j: int| 0 <= j < i ==> !has_type(#[trigger] cs@[j], tag@),
            decreases cs@.len() - i,
        {
            if cs[i].has_type(tag) {
                proof {
                    assert(is_first_of_type(cs@, tag@, i as int));
                    assert forall|k: int| is_first_of_type(cs@, tag@, k) implies k == i by {
                        if k < i {
                            assert(!has_type(cs@[k], tag@));
                        } else if k > i {
                            assert(!has_type(cs@[i as int], tag@));
                        }
                    }
                }
                return Some(&cs[i]);
            }
            i += 1;
        }
        None
    }

    /// The long name of the first component that carries `tag`.
    pub fn long_name(&self, tag: &str) -> (r: Option<&str>)
        ensures
            chars_of(r) == long_name_of(self.address_components@, tag@),
    {
        match self.component(tag) {
            Some(c) => Some(c.long_name.as_str()),
            None => None,
        }
    }

    /// The short name of the first component that carries `tag`.
    pub fn short_name(&self, tag: &str) -> (r: Option<&str>)
        ensures
            chars_of(r) == short_name_of(self.address_components@, tag@),
    {
        match self.component(tag) {
            Some(c) => Some(c.short_name.as_str()),
            None => None,
        }
    }

    pub fn street_number(&self) -> (r: Option<&str>)
        ensures
            chars_of(r) == long_name_of(self.address_components@, "street_number"@),
    {
        self.long_name("street_number")
    }

    pub fn route(&self) -> (r: Option<&str>)
        ensures
            chars_of(r) == long_name_of(self.address_components@, "route"@),
    {
        self.long_name("route")
    }

    pub fn sublocality(&self) -> (r: Option<&str>)
        ensures
            chars_of(r) == long_name_of(self.address_components@, "sublocality"@),
    {
        self.long_name("sublocality")
    }

    pub fn postal_code(&self) -> (r: Option<&str>)
        ensures
            chars_of(r) == long_name_of(self.address_components@, "postal_code"@),
    {
        self.long_name("postal_code")
    }

    pub fn city(&self) -> (r: Option<&str>)
        ensures
            chars_of(r) == long_name_of(self.address_components@, "locality"@),
    {
        self.long_name("locality")
    }

    pub fn state(&self) -> (r: Option<&str>)
        ensures
            chars_of(r) == long_name_of(self.address_components@, "administrative_area_level_1"@),
    {
        self.long_name("administrative_area_level_1")
    }

    pub fn country(&self) -> (r: Option<&str>)
        ensures
            chars_of(r) == long_name_of(self.address_components@, "country"@),
    {
        self.long_name("country")
    }

    pub fn country_code(&self) -> (r: Option<&str>)
        ensures
            chars_of(r) == short_name_of(self.address_components@, "country"@),
    {
        self.short_name("country")
    }
}

// ---- decoding from a JSON body ----

/// The value is an array of strings.
pub open spec fn texts_decodable(j: Option<Json>) -> bool {
    match j {
        Some(Json::Array(items)) => forall|k: int|
            0 <= k < items@.len() ==> (#[trigger] text_of(Some(items@[k]))) is Some,
        _ => false,
    }
}

/// The value is an array of strings that reads as `ts`.
pub open spec fn texts_decode(j: Option<Json>, ts: Seq<String>) -> bool {
    match j {
        Some(Json::Array(items)) => {
            &&& items@.len() == ts.len()
            &&& forall|k: int| 0 <= k < ts.len() ==> #[trigger] text_of(Some(items@[k])) == Some(ts[k]@)
        },
        _ => false,
    }
}

/// The value holds the string members of an address component.
pub open spec fn component_decodable(j: Json) -> bool {
    &&& text_of(member(j, "long_name"@)) is Some
    &&& text_of(member(j, "short_name"@)) is Some
    &&& texts_decodable(member(j, "types"@))
}

/// The value reads as the address component `c`.
pub open spec fn component_decodes(j: Json, c: AddressComponent) -> bool {
    &&& text_of(member(j, "long_name"@)) == Some(c.long_name@)
    &&& text_of(member(j, "short_name"@)) == Some(c.short_name@)
    &&& texts_decode(member(j, "types"@), c.types@)
}

/// Every item is an address component.
pub open spec fn all_components_decodable(items: Seq<Json>) -> bool {
    forall|k: int| 0 <= k < items.len() ==> #[trigger] component_decodable(items[k])
}

/// The value is an array of address components.
pub open spec fn components_decodable(j: Option<Json>) -> bool {
    match j {
        Some(Json::Array(items)) => all_components_decodable(items@),
        _ => false,
    }
}

/// The value is an array that reads, item by item, as `cs`.
pub open spec fn components_decode(j: Option<Json>, cs: Seq<AddressComponent>) -> bool {
    match j {
        Some(Json::Array(items)) => {
            &&& items@.len() == cs.len()
            &&& forall|k: int| 0 <= k < cs.len() ==> component_decodes(#[trigger] items@[k], cs[k])
        },
        _ => false,
    }
}

/// The value is an object with numbers `lat` and `lng`.
pub open spec fn location_decodable(j: Option<Json>) -> bool {
    match j {
        Some(v) => number_of(member(v, "lat"@)) is Some && number_of(member(v, "lng"@)) is Some,
        None => false,
    }
}

/// The value reads as the point `p`, digit for digit.
pub open spec fn location_decodes(j: Option<Json>, p: Location) -> bool {
    match j {
        Some(v) => number_of(member(v, "lat"@)) == Some(p.lat@) && number_of(member(v, "lng"@))
            == Some(p.lng@),
        None => false,
    }
}

pub open spec fn viewport_decodable(j: Option<Json>) -> bool {
    match j {
        Some(v) => location_decodable(member(v, "northeast"@)) && location_decodable(
            member(v, "southwest"@),
        ),
        None => false,
    }
}

pub open spec fn viewport_decodes(j: Option<Json>, b: Viewport) -> bool {
    match j {
        Some(v) => location_decodes(member(v, "northeast"@), b.northeast) && location_decodes(
            member(v, "southwest"@),
            b.southwest,
        ),
        None => false,
    }
}

/// A geometry that is absent or null is no geometry; one that is present must decode.
pub open spec fn geometry_decodable(j: Option<Json>) -> bool {
    match j {
        None => true,
        Some(Json::Null) => true,
        Some(v) => location_decodable(member(v, "location"@)) && viewport_decodable(
            member(v, "viewport"@),
        ),
    }
}

pub open spec fn geometry_decodes(j: Option<Json>, g: Option<Geometry>) -> bool {
    match j {
        None => g is None,
        Some(Json::Null) => g is None,
        Some(v) => match g {
            Some(g) => location_decodes(member(v, "location"@), g.location) && viewport_decodes(
                member(v, "viewport"@),
                g.viewport,
            ),
            None => false,
        },
    }
}

/// The value holds every member that a place result needs.
pub open spec fn place_decodable(j: Json) -> bool {
    &&& text_of(member(j, "place_id"@)) is Some
    &&& text_of(member(j, "name"@)) is Some
    &&& text_of(member(j, "formatted_address"@)) is Some
    &&& components_decodable(member(j, "address_components"@))
    &&& geometry_decodable(member(j, "geometry"@))
}

/// The value reads as the place result `p`.
pub open spec fn place_decodes(j: Json, p: PlaceResult) -> bool {
    &&& text_of(member(j, "place_id"@)) == Some(p.place_id@)
    &&& text_of(member(j, "name"@)) == Some(p.name@)
    &&& text_of(member(j, "formatted_address"@)) == Some(p.formatted_address@)
    &&& components_decode(member(j, "address_components"@), p.address_components@)
    &&& geometry_decodes(member(j, "geometry"@), p.geometry)
}

/// The `status` member of a body, where it is a string.
pub open spec fn status_of(body: Json) -> Option<Seq<char>> {
    text_of(member(body, "status"@))
}

/// The characters of a string member, or none where it is missing or no string.
pub open spec fn text_or_empty(j: Option<Json>) -> Seq<char> {
    match text_of(j) {
        Some(s) => s,
        None => Seq::empty(),
    }
}

/// A body decodes unless its status is `OK` and its `result` does not.
pub open spec fn body_decodable(body: Json) -> bool {
    status_of(body) == Some("OK"@) ==> match member(body, "result"@) {
        Some(res) => place_decodable(res),
        None => false,
    }
}

/// The body reads as the response `r`: the status picks the variant, and any
/// status other than the five known ones, or none at all, is an unknown error.
pub open spec fn response_decodes(body: Json, r: Response) -> bool {
    let s = status_of(body);
    if s == Some("OK"@) {
        match (member(body, "result"@), r) {
            (Some(res), Response::OK { result }) => place_decodes(res, result),
            _ => false,
        }
    } else if s == Some("ZERO_RESULTS"@) {
        r is ZeroResults
    } else if s == Some("INVALID_REQUEST"@) {
        r is InvalidRequest
    } else if s == Some("OVER_QUERY_LIMIT"@) {
        r is OverQueryLimit
    } else if s == Some("REQUEST_DENIED"@) {
        match r {
            Response::RequestDenied { error_message } => error_message@ == text_or_empty(
                member(body, "error_message"@),
            ),
            _ => false,
        }
    } else {
        r is UnknownError
    }
}

/// The string member `key` of `j`, copied.
fn text_member(j: &Json, key: &str) -> (r: Option<String>)
    ensures
        match r {
            Some(s) => text_of(member(*j, key@)) == Some(s@),
            None => text_of(member(*j, key@)) is None,
        },
{
    match j.member(key) {
        Some(v) => match v.as_text() {
            Some(s) => Some(s.clone()),
            None => None,
        },
        None => None,
    }
}

/// The number member `key` of `j`, as its text.
fn number_member(j: &Json, key: &str) -> (r: Option<String>)
    ensures
        match r {
            Some(s) => number_of(member(*j, key@)) == Some(s@),
            None => number_of(member(*j, key@)) is None,
        },
{
    match j.member(key) {
        Some(Json::Number(s)) => Some(s.clone()),
        _ => None,
    }
}

/// An array of strings.
fn texts_from(j: Option<&Json>) -> (r: Option<Vec<String>>)
    ensures
        r is Some == texts_decodable(opt(j)),
        r matches Some(ts) ==> texts_decode(opt(j), ts@),
{
    match j {
        Some(Json::Array(items)) => {
            let mut out: Vec<String> = Vec::new();
            let mut k: usize = 0;
            while k < items.len()
                invariant
                    0 <= k <= items@.len(),
                    opt(j) == Some(Json::Array(*items)),
                    out@.len() == k,
                    forall|m: int| 0 <= m < k ==> #[trigger] text_of(Some(items@[m])) == Some(out@[m]@),
                decreases items@.len() - k,
            {
                match items[k].as_text() {
                    Some(s) => out.push(s.clone()),
                    None => {
                        assert(!(text_of(Some(items@[k as int])) is Some));
                        return None;
                    },
                }
                k += 1;
            }
            Some(out)
        },
        _ => None,
    }
}

impl AddressComponent {
    /// Decodes one address component.
    pub fn from_json(j: &Json) -> (r: Option<AddressComponent>)
        ensures
            r is Some == component_decodable(*j),
            r matches Some(c) ==> component_decodes(*j, c),
    {
        let long_name = match text_member(j, "long_name") {
            Some(s) => s,
            None => {
                return None;
            },
        };
        let short_name = match text_member(j, "short_name") {
            Some(s) => s,
            None => {
                return None;
            },
        };
        let types = match texts_from(j.member("types")) {
            Some(ts) => ts,
            None => {
                return None;
            },
        };
        Some(AddressComponent { long_name, short_name, types })
    }
}

/// An array of address components.
fn components_from(j: Option<&Json>) -> (r: Option<Vec<AddressComponent>>)
    ensures
        r is Some == components_decodable(opt(j)),
        r matches Some(cs) ==> components_decode(opt(j), cs@),
{
    match j {
        Some(Json::Array(items)) => {
            let mut out: Vec<AddressComponent> = Vec::new();
            let mut k: usize = 0;
            while k < items.len()
                invariant
                    0 <= k <= items@.len(),
                    opt(j) == Some(Json::Array(*items)),
                    out@.len() == k,
                    forall|m: int| 0 <= m < k ==> component_decodes(#[trigger] items@[m], out@[m]),
                    forall|m: int| 0 <= m < k ==> component_decodable(#[trigger] items@[m]),
                decreases items@.len() - k,
            {
                match AddressComponent::from_json(&items[k]) {
                    Some(c) => out.push(c),
                    None => {
                        let ghost kk = k as int;
                        assert(!component_decodable(items@[kk]));
                        assert(!all_components_decodable(items@));
                        return None;
                    },
                }
                k += 1;
            }
            Some(out)
        },
        _ => None,
    }
}

impl Location {
    /// Decodes a point from an object with numbers `lat` and `lng`.
    pub fn from_json(j: Option<&Json>) -> (r: Option<Location>)
        ensures
            r is Some == location_decodable(opt(j)),
            r matches Some(p) ==> location_decodes(opt(j), p),
    {
        let v = match j {
            Some(v) => v,
            None => {
                return None;
            },
        };
        let lat = match number_member(v, "lat") {
            Some(s) => s,
            None => {
                return None;
            },
        };
        let lng = match number_member(v, "lng") {
            Some(s) => s,
            None => {
                return None;
            },
        };
        Some(Location { lat, lng })
    }
}

impl Viewport {
    pub fn from_json(j: Option<&Json>) -> (r: Option<Viewport>)
        ensures
            r is Some == viewport_decodable(opt(j)),
            r matches Some(b) ==> viewport_decodes(opt(j), b),
    {
        let v = match j {
            Some(v) => v,
            None => {
                return None;
            },
        };
        let northeast = match Location::from_json(v.member("northeast")) {
            Some(p) => p,
            None => {
                return None;
            },
        };
        let southwest = match Location::from_json(v.member("southwest")) {
            Some(p) => p,
            None => {
                return None;
            },
        };
        Some(Viewport { northeast, southwest })
    }
}

impl Geometry {
    /// Decodes an optional geometry: the outer `None` is a failure, the inner
    /// one a geometry that is absent or null.
    pub fn from_json(j: Option<&Json>) -> (r: Option<Option<Geometry>>)
        ensures
            r is Some == geometry_decodable(opt(j)),
            r matches Some(g) ==> geometry_decodes(opt(j), g),
    {
        let v = match j {
            None => {
                return Some(None);
            },
            Some(Json::Null) => {
                return Some(None);
            },
            Some(v) => v,
        };
        let location = match Location::from_json(v.member("location")) {
            Some(p) => p,
            None => {
                return None;
            },
        };
        let viewport = match Viewport::from_json(v.member("viewport")) {
            Some(b) => b,
            None => {
                return None;
            },
        };
        Some(Some(Geometry { location, viewport }))
    }
}

impl PlaceResult {
    /// Decodes the `result` member of a successful response.
    pub fn from_json(j: &Json) -> (r: Option<PlaceResult>)
        ensures
            r is Some == place_decodable(*j),
            r matches Some(p) ==> place_decodes(*j, p),
    {
        let place_id = match text_member(j, "place_id") {
            Some(s) => s,
            None => {
                return None;
            },
        };
        let name = match text_member(j, "name") {
            Some(s) => s,
            None => {
                return None;
            },
        };
        let formatted_address = match text_member(j, "formatted_address") {
            Some(s) => s,
            None => {
                return None;
            },
        };
        let address_components = match components_from(j.member("address_components")) {
            Some(cs) => cs,
            None => {
                return None;
            },
        };
        let geometry = match Geometry::from_json(j.member("geometry")) {
            Some(g) => g,
            None => {
                return None;
            },
        };
        Some(PlaceResult { place_id, name, formatted_address, address_components, geometry })
    }
}

impl Response {
    /// Decodes a response body. Every status decodes, known or not; only an
    /// `OK` body whose `result` does not decode fails.
    pub fn from_json(body: &Json) -> (r: Option<Response>)
        ensures
            r is Some == body_decodable(*body),
            r matches Some(v) ==> response_decodes(*body, v),
    {
        let status = match text_member(body, "status") {
            Some(s) => s,
            None => {
                return Some(Response::UnknownError);
            },
        };
        if status == "OK".to_owned() {
            match body.member("result") {
                Some(res) => match PlaceResult::from_json(res) {
                    Some(result) => Some(Response::OK { result }),
                    None => None,
                },
                None => None,
            }
        } else if status == "ZERO_RESULTS".to_owned() {
            Some(Response::ZeroResults)
        } else if status == "INVALID_REQUEST".to_owned() {
            Some(Response::InvalidRequest)
        } else if status == "OVER_QUERY_LIMIT".to_owned() {
            Some(Response::OverQueryLimit)
        } else if status == "REQUEST_DENIED".to_owned() {
            let error_message = match text_member(body, "error_message") {
                Some(s) => s,
                None => String::new(),
            };
            Some(Response::RequestDenied { error_message })
        } else {
            Some(Response::UnknownError)
        }
    }
}

} // verus!
