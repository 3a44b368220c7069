use vstd::prelude::*;

pub mod credentials;
pub mod dispatch;
pub mod layout;
pub mod messages;
pub mod request;
pub mod server;
pub mod text;

verus! {

} // verus!
