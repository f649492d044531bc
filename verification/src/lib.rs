//! Request handling for a static file server that picks a site by the `Host`
//! header: which configured host a request belongs to, which file under that
//! host's root it names, and what the response carries.
//!
//! Nothing here opens a socket or reads a file's contents. The caller reads the
//! file that [`router::router`] names and hands the bytes to
//! [`router::simple_file_send`].

pub mod config;
pub mod decimal;
pub mod host;
pub mod mime;
pub mod path;
pub mod response;
pub mod router;
