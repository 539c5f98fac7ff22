//! The configuration surface the enclosing process reads at startup.
//!
//! The service context takes the signing secret and the persistence
//! handle from here; loading the values from the environment or a file
//! is the application shell's work.

use vstd::prelude::*;

verus! {

/// Everything the process is configured with. The two fields with
/// defaults fall back to [`default_port`] and [`default_mode`] when the
/// sources leave them out.
#[derive(Debug, Clone)]
pub struct AppConfig {
    pub mongodb_uri: String,
    pub mongodb_name: String,
    pub redis_host: String,
    pub redis_port: u16,
    pub redis_password: Option<String>,
    pub redis_db: i64,
    pub jwt_secret: String,
    pub aws_region: String,
    pub aws_access_key_id: String,
    pub aws_secret_access_key: String,
    pub aws_bucket_name: String,
    pub firebase_credentials_file: String,
    pub port: u16,
    pub app_mode: String,
}

/// The listening port used when none is configured.
pub fn default_port() -> (p: u16)
    ensures
        p == 3000,
{
    3000
}

/// The operating mode used when none is configured.
pub fn default_mode() -> (m: String)
    ensures
        m@ == "production"@,
{
    String::from_str("production")
}

} // verus!
