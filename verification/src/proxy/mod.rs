//! The listener that terminates TLS with the current identity.

pub mod tls_acceptor;
