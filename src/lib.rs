use vstd::prelude::*;

pub mod error;
pub mod key;
pub mod paths;
pub mod record;
pub mod session;
pub mod slug;
pub mod text;

verus! {

} // verus!
