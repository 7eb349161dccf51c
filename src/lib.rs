//! Typed client pieces for Google Workspace APIs, centred on the OAuth2
//! access-token lifecycle: scopes, the authorization URL, the token-endpoint
//! exchanges, and a token manager that refreshes lazily at point of use.

pub mod calendar;
pub mod client;
pub mod gmail;
pub mod oauth;
pub mod request;
pub mod scopes;
pub mod tasks;
pub mod token;
