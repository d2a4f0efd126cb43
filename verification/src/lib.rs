use vstd::prelude::*;

pub mod config;
pub mod dispatch;
pub mod json;
pub mod path;
pub mod registry;
pub mod s3access;
pub mod strutil;

verus! {

} // verus!
