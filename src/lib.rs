//! Client for the place-details endpoint of a map service: the response model,
//! its decoding from the JSON body, and the typed address lookups over it.
pub mod error;
pub mod json;
pub mod places;
pub mod proofs;
pub mod response;

pub use crate::error::GoogleMapPlaceError;
pub use crate::json::Json;
pub use crate::places::{decode_response, Places};
pub use crate::response::{AddressComponent, Geometry, Location, PlaceResult, Response, Viewport};
