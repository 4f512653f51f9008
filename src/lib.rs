//! A ticket-signing authority: canonical encoding of ticket claims, Ed25519
//! signing, and packaging of the signed claims into a scannable QR image.

pub mod config;
pub mod wire;
pub mod messages;
pub mod signer;
pub mod claims;
pub mod qr;
pub mod decode;
pub mod validation;
