//! Decision logic of a family of small TCP/TLS echo tools: echo servers,
//! interactive clients, forwarding proxies, and the TLS and CORS settings
//! they are started with. Every function here is pure computation over plain
//! values; sockets, files, threads and the terminal belong to the caller.

pub mod text;
pub mod event;
pub mod server;
pub mod relay;
pub mod client;
pub mod tls;
pub mod web;
