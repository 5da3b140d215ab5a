//! The native data of the authorization engine: the requests and the
//! configuration that it takes, and the results that it gives. Plain values
//! without behaviour; each comes with the view that contracts speak of.

pub mod config;
pub mod request;
pub mod response;
