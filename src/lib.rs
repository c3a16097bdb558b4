//! Identity resolution and session handling for tenants that sign in through
//! an OAuth2 identity provider.

pub mod tenant;
pub mod store;
pub mod csrf;
pub mod resolver;
pub mod session;
mod entropy;
