//! Process settings: where to listen and where the signing key comes from.

use vstd::prelude::*;

verus! {

/// The address to bind when none is configured: all interfaces.
pub fn default_ip() -> (r: [u8; 4])
    ensures
        r@ == seq![0u8, 0u8, 0u8, 0u8],
{
    let r: [u8; 4] = [0, 0, 0, 0];
    assert(r@ =~= seq![0u8, 0u8, 0u8, 0u8]);
    r
}

/// The port to bind when none is configured.
pub fn default_port() -> (r: u16)
    ensures
        r == 50051,
{
    50051
}

/// The PKCS#8 PEM file the signing key is read from when none is configured.
pub fn default_path_signing_key_file() -> (r: String)
    ensures
        r@ == "sign.pem"@,
{
    "sign.pem".to_owned()
}

/// The settings of one process.
pub struct Options {
    /// IPv4 address to bind.
    pub ip: [u8; 4],
    pub port: u16,
    /// PKCS#8 PEM file that holds the signing key.
    pub signing_key_file: String,
    /// Use a fresh random key instead of the file (not for production).
    pub generate_signing_key: bool,
}

} // verus!
