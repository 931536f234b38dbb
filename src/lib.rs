//! Webhooks from local JSON templates: configuration resolution, inventory
//! listing, literal placeholder substitution, template reading and request
//! construction, each with a verified contract.
use vstd::prelude::*;

pub mod cli;
pub mod configs;
pub mod error;
pub mod http;
pub mod json;
pub mod template;
pub mod text;

verus! {

} // verus!
