//! Looks up anime by title on two public services and turns their answers
//! into display text: a REST search whose hits become titled fields, and a
//! GraphQL search whose best match becomes a cleaned summary. The HTTP
//! exchange itself is left to the caller, which hands over the answer's body.
use vstd::prelude::*;

pub mod cleanup;
pub mod decode;
pub mod display;
pub mod json;
pub mod lookup;
pub mod media;
pub mod model;
pub mod request;
pub mod text;

verus! {

} // verus!
