//! Named HTTP/TCP posture constants.

use vstd::prelude::*;

verus! {

/// Max idle connections retained per host in the connection pool (one-shot CLI).
pub const POOL_MAX_IDLE_PER_HOST: usize = 2;

/// Idle connection lifetime in the pool before eviction (seconds).
pub const POOL_IDLE_TIMEOUT_SECS: u64 = 30;

/// TCP keepalive idle probe delay (seconds).
pub const TCP_KEEPALIVE_IDLE_SECS: u64 = 60;

/// TCP keepalive probe interval (seconds).
pub const TCP_KEEPALIVE_INTERVAL_SECS: u64 = 10;

/// TCP keepalive probe retry count before the connection is considered dead.
pub const TCP_KEEPALIVE_RETRIES: u32 = 3;

/// Floor for the TLS library version pin.
pub const RUSTLS_VERSION_FLOOR: &'static str = "0.23.18";

/// Trust anchors the HTTP client validates against.
pub const TLS_TRUST_ANCHORS: &'static str = "webpki-roots";

/// Crypto provider installed by the binary.
pub const TLS_CRYPTO_PROVIDER: &'static str = "ring";

/// Why the provider is not pure Rust, in one machine-readable token.
pub const TLS_PROVIDER_POSTURE: &'static str = "c-build-dep(ring); pure-rust-blocked(graviola:needs-adx, rustcrypto:webpki-advisories)";

} // verus!
