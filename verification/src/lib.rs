//! Sign-in to the Hydro Ottawa customer service: the password proof exchange
//! with the identity provider, the exchange of its tokens for the vendor's
//! bearer token, and the session that results; beside it, the requests that a
//! session is used for, and what is shown and republished of their answers.

pub mod api;
pub mod api_types;
pub mod auth;
pub mod bytes;
pub mod display;
pub mod error;
pub mod group;
pub mod http;
pub mod mqtt;
pub mod srp;
pub mod token;
