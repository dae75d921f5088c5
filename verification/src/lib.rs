//! A web framework for people who appreciate simplicity: the request and
//! response logic of the framework, verified.
pub mod allow;
pub mod body;
pub mod cookies;
pub mod encoding;
pub mod error;
pub mod guard;
pub mod next;
pub mod params;
pub mod query;
pub mod resource;
pub mod rescue;
pub mod response;
pub mod server;
pub mod status;
pub mod text;
pub mod ws;
