use vstd::prelude::*;
use crate::trace::{occurrences, lemma_occurrences_concat};

verus! {

/// Which side of a connection an endpoint plays.
#[derive(Clone, Copy, Debug, PartialEq, Eq, Structural)]
pub enum EndpointRole {
    Client,
    Server,
}

/// Transport security of an endpoint.
#[derive(Clone, Copy, Debug, PartialEq, Eq, Structural)]
pub enum SecurityMode {
    Unsecured,
    Secured,
}

/// The permessage-deflate extension toggles.
#[derive(Clone, Copy, Debug, PartialEq, Eq, Structural)]
pub struct DeflateSettings {
    pub enabled: bool,
    pub window_bits: u8,
}

/// The owned buffer fields of a settings descriptor, in release order.
#[derive(Clone, Copy, Debug, PartialEq, Eq, Structural)]
pub enum BufferField {
    SslSeed,
    SslCaCert,
    SslOwnCert,
    SslPrivateKey,
    Host,
    AllowedOrigin,
}

pub const DEFAULT_PING_INTERVAL_MS: u32 = 60_000;
pub const DEFAULT_PING_TIMEOUT_MS: u32 = 30_000;
pub const DEFAULT_MESSAGE_LIMIT: u64 = 4 * 1024 * 1024;
pub const DEFAULT_WINDOW_BITS: u8 = 15;

/// Configuration applied to a connection context before it connects or
/// binds. Each `Some` buffer is owned by the descriptor and is released by
/// `destroy_ws_settings`.
#[derive(Debug)]
pub struct WsSettings {
    pub endpoint: EndpointRole,
    pub mode: SecurityMode,
    pub ping_interval: u32,
    pub ping_timeout: u32,
    pub message_limit: u64,
    pub auto_mask_frame: bool,
    pub extensions: DeflateSettings,
    pub ssl_seed: Option<Vec<u8>>,
    pub ssl_ca_cert: Option<Vec<u8>>,
    pub ssl_own_cert: Option<Vec<u8>>,
    pub ssl_private_key: Option<Vec<u8>>,
    pub host: Option<Vec<u8>>,
    pub allowed_origin: Option<Vec<u8>>,
}

impl WsSettings {
    /// Whether the descriptor owns a buffer in field `f`.
    pub open spec fn owns(&self, f: BufferField) -> bool {
        match f {
            BufferField::SslSeed => self.ssl_seed is Some,
            BufferField::SslCaCert => self.ssl_ca_cert is Some,
            BufferField::SslOwnCert => self.ssl_own_cert is Some,
            BufferField::SslPrivateKey => self.ssl_private_key is Some,
            BufferField::Host => self.host is Some,
            BufferField::AllowedOrigin => self.allowed_origin is Some,
        }
    }

    pub open spec fn owned_if(&self, f: BufferField) -> Seq<BufferField> {
        if self.owns(f) {
            seq![f]
        } else {
            seq![]
        }
    }

    /// The owned fields, in the order in which release walks them.
    pub open spec fn owned_fields(&self) -> Seq<BufferField> {
        self.owned_if(BufferField::SslSeed) + self.owned_if(BufferField::SslCaCert)
            + self.owned_if(BufferField::SslOwnCert) + self.owned_if(BufferField::SslPrivateKey)
            + self.owned_if(BufferField::Host) + self.owned_if(BufferField::AllowedOrigin)
    }

    /// The all-zero descriptor: numbers zero, flags false, enumerations at
    /// their first variant, no buffers.
    pub open spec fn is_zeroed(&self) -> bool {
        &&& self.endpoint == EndpointRole::Client
        &&& self.mode == SecurityMode::Unsecured
        &&& self.ping_interval == 0
        &&& self.ping_timeout == 0
        &&& self.message_limit == 0
        &&& !self.auto_mask_frame
        &&& !self.extensions.enabled
        &&& self.extensions.window_bits == 0
        &&& forall|f: BufferField| !self.owns(f)
    }

    /// The role defaults that `default_ws_settings` gives.
    pub open spec fn is_default_for(&self, role: EndpointRole) -> bool {
        &&& self.endpoint == role
        &&& self.mode == SecurityMode::Unsecured
        &&& self.ping_interval == 60_000
        &&& self.ping_timeout == 30_000
        &&& self.message_limit == 4 * 1024 * 1024
        &&& self.auto_mask_frame == (role == EndpointRole::Client)
        &&& !self.extensions.enabled
        &&& self.extensions.window_bits == 15
        &&& forall|f: BufferField| !self.owns(f)
    }

    pub fn zeroed() -> (s: WsSettings)
        ensures
            s.is_zeroed(),
    {
        WsSettings {
            endpoint: EndpointRole::Client,
            mode: SecurityMode::Unsecured,
            ping_interval: 0,
            ping_timeout: 0,
            message_limit: 0,
            auto_mask_frame: false,
            extensions: DeflateSettings { enabled: false, window_bits: 0 },
            ssl_seed: None,
            ssl_ca_cert: None,
            ssl_own_cert: None,
            ssl_private_key: None,
            host: None,
            allowed_origin: None,
        }
    }
}

/// The settings an endpoint of `role` starts from: shared timers and
/// message-size ceiling, outgoing frames masked by clients only, no
/// compression, no buffers.
pub fn default_ws_settings(role: EndpointRole) -> (s: WsSettings)
    ensures
        s.is_default_for(role),
{
    let auto_mask_frame = match role {
        EndpointRole::Client => true,
        EndpointRole::Server => false,
    };
    WsSettings {
        endpoint: role,
        mode: SecurityMode::Unsecured,
        ping_interval: DEFAULT_PING_INTERVAL_MS,
        ping_timeout: DEFAULT_PING_TIMEOUT_MS,
        message_limit: DEFAULT_MESSAGE_LIMIT,
        auto_mask_frame,
        extensions: DeflateSettings { enabled: false, window_bits: DEFAULT_WINDOW_BITS },
        ssl_seed: None,
        ssl_ca_cert: None,
        ssl_own_cert: None,
        ssl_private_key: None,
        host: None,
        allowed_origin: None,
    }
}

/// Releases every owned buffer of `s`, once each, then zeroes the whole
/// descriptor. Returns the fields whose buffers were released, in release
/// order.
pub fn destroy_ws_settings(s: &mut WsSettings) -> (released: Vec<BufferField>)
    ensures
        released@ == old(s).owned_fields(),
        final(s).is_zeroed(),
{
    let mut released: Vec<BufferField> = Vec::new();
    if s.ssl_seed.is_some() {
        released.push(BufferField::SslSeed);
    }
    if s.ssl_ca_cert.is_some() {
        released.push(BufferField::SslCaCert);
    }
    if s.ssl_own_cert.is_some() {
        released.push(BufferField::SslOwnCert);
    }
    if s.ssl_private_key.is_some() {
        released.push(BufferField::SslPrivateKey);
    }
    if s.host.is_some() {
        released.push(BufferField::Host);
    }
    if s.allowed_origin.is_some() {
        released.push(BufferField::AllowedOrigin);
    }
    assert(released@ =~= old(s).owned_fields());
    *s = WsSettings::zeroed();
    released
}

/// Releasing a descriptor frees each owned buffer exactly once and touches
/// no field that holds none.
pub proof fn lemma_release_frees_each_owned_buffer_once(s: WsSettings, f: BufferField)
    ensures
        occurrences(s.owned_fields(), f) == if s.owns(f) {
            1nat
        } else {
            0nat
        },
{
    let a = s.owned_if(BufferField::SslSeed);
    let b = s.owned_if(BufferField::SslCaCert);
    let c = s.owned_if(BufferField::SslOwnCert);
    let d = s.owned_if(BufferField::SslPrivateKey);
    let e = s.owned_if(BufferField::Host);
    let g = s.owned_if(BufferField::AllowedOrigin);
    lemma_occurrences_concat(a, b, f);
    lemma_occurrences_concat(a + b, c, f);
    lemma_occurrences_concat(a + b + c, d, f);
    lemma_occurrences_concat(a + b + c + d, e, f);
    lemma_occurrences_concat(a + b + c + d + e, g, f);
    assert forall|x: BufferField|
        occurrences(#[trigger] s.owned_if(x), f) == if x == f && s.owns(x) {
            1nat
        } else {
            0nat
        } by {
        reveal_with_fuel(occurrences, 2);
        if s.owns(x) {
            assert(s.owned_if(x).drop_last() =~= Seq::<BufferField>::empty());
        }
    }
}

} // verus!
