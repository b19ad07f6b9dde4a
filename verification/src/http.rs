//! The REST layer's verified core: session configuration and the routes the
//! library requests. The HTTP transport itself lives outside the library.

pub mod builder;
pub mod client;
