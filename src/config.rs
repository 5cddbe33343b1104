//! Process-wide configuration, read once at startup.

use vstd::prelude::*;

verus! {

/// The configuration of the service.
pub struct Config {
    /// Connection URL of the database.
    pub database_url: String,
    /// Secret key that signs session tokens.
    pub hmac_key: String,
}

impl Config {
    /// A configuration with the given database URL and signing secret.
    pub fn new(database_url: String, hmac_key: String) -> (r: Config)
        ensures
            r.database_url@ == database_url@,
            r.hmac_key@ == hmac_key@,
    {
        Config { database_url, hmac_key }
    }
}

/// The bytes of the signing key: the UTF-8 encoding of the configured secret.
pub open spec fn key_of(config: Config) -> Seq<u8> {
    vstd::utf8::encode_utf8(config.hmac_key@)
}

} // verus!
