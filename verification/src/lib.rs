//! A media-catalog addon for one provider. A catalog's public id is a token
//! that holds its query; a request path names the token, a page and a genre;
//! the query is resolved for the request, asked of the provider, and the
//! answer normalized into a page of catalog entries.

pub mod addon;
pub mod codec;
pub mod error;
pub mod globals;
pub mod json;
pub mod text;
pub mod trakt;
