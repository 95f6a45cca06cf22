//! The client/server split of the proxy: its settings and its parts.
pub mod args;
pub mod grpc_client;
pub mod grpc_header;
pub mod grpc_web_server;
