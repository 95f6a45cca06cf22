//! A reverse proxy between gRPC-Web clients and a native gRPC backend: the
//! routing decisions, header rewriting, trailer pseudo-frame codec, response
//! frame translation and listener control, each with a verified contract.
pub mod bytes_util;
pub mod headers;
pub mod codec;
pub mod frames;
pub mod forward;
pub mod listener;
pub mod grpcweb;
