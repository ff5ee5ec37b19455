//! A small archive service: a typed record (category, URL, title), its JSON
//! wire format, and the pure decision logic of a store-backed HTTP handler.

pub mod category;
pub mod decode;
pub mod encode;
pub mod handler;
pub mod item;
pub mod responses;
pub mod store;

use vstd::prelude::*;

verus! {

} // verus!
