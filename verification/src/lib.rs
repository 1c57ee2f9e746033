//! Identity and mutual-authentication layer for nodes of a peer-to-peer
//! network that has no certificate authority.
//!
//! Each node generates its own elliptic-curve key pair and a self-signed
//! certificate that serves both as its network identity and as its TLS
//! credential.  Because no authority vouches for anyone, the node itself
//! validates every certificate it is asked to trust — its own freshly
//! generated one and every peer's — against one fixed, non-negotiable rule
//! set: one signature algorithm, one curve, one serial number, one validity
//! window shape.
//!
//! The decision logic of that rule set lives in [`validation`] as a pure
//! function over plain values and carries exact contracts; [`tls`] binds it
//! to real X.509 certificates through a small trusted layer over OpenSSL.
//! [`global_state_update`] holds the unrelated, much simpler decoding of a
//! chainspec's global-state-update file.

pub mod error;
pub mod name;
pub mod validation;
pub mod tls;
pub mod global_state_update;
