//! A small verified HTTP/1.1 server core: the wire codec that parses
//! one request from raw bytes and serializes a response back, the
//! first-match router, the handler decision functions, and the
//! per-connection pipeline that ties them together. The surrounding
//! glue owns listener, sockets, threads and the file system; it hands
//! the core plain bytes and performs the file actions the core names.
pub mod config;
pub mod handlers;
pub mod headers;
pub mod http;
pub mod pipeline;
pub mod pool;
pub mod request;
pub mod response;
pub mod routing;
pub mod text;
pub mod tokens;
