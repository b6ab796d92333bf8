//! The gateway's configuration record and the rules it must satisfy.

use crate::text::chars_of;
use crate::text::decimal;
use crate::text::decimal_digits;
use vstd::prelude::*;
use vstd::string::StrSliceExecFns;
use vstd::string::StringExecFns;

verus! {

/// Settings of one proxy instance, as read from its configuration file.
#[derive(Debug, Clone)]
pub struct GatewayConfig {
    pub listen_port: u16,
    pub upstream_ips: Vec<String>,
    pub tls_cert_path: String,
    pub tls_key_path: String,
    pub rate_limit_per_second: u32,
    /// Secret key for validating token signatures (HMAC-SHA-256).
    pub jwt_secret: String,
}

/// Why a configuration could not be used.
#[derive(Debug)]
pub enum ConfigError {
    /// The file at the given path could not be read; the second field is
    /// the operating system's description of the failure.
    Io(String, String),
    /// The file was read but is not a configuration; the field describes
    /// where parsing stopped.
    Parse(String),
    /// The configuration was parsed but breaks a rule; the field names it.
    Validation(String),
}

/// The rules a configuration can break, in the order they are examined.
pub enum ConfigFault {
    NoUpstreams,
    ZeroRateLimit,
    EmptySecret,
}

impl ConfigFault {
    /// The diagnostic reported for this fault.
    pub open spec fn diagnostic(self) -> Seq<char> {
        match self {
            ConfigFault::NoUpstreams => "upstream_ips must not be empty"@,
            ConfigFault::ZeroRateLimit => "rate_limit_per_second must be greater than 0"@,
            ConfigFault::EmptySecret => "jwt_secret must not be empty"@,
        }
    }
}

/// The host of an upstream written as `host:port`: what stands before the
/// first colon, or all of it when there is none.
pub open spec fn host_part(upstream: Seq<char>) -> Seq<char>
    decreases upstream.len(),
{
    if upstream.len() == 0 || upstream.first() == ':' {
        Seq::empty()
    } else {
        seq![upstream.first()] + host_part(upstream.drop_first())
    }
}

/// The name the upstreams are addressed by: the host of the first one, or
/// `localhost` when none is configured.
pub open spec fn sni_of(upstreams: Seq<String>) -> Seq<char> {
    if upstreams.len() == 0 {
        "localhost"@
    } else {
        host_part(upstreams.first()@)
    }
}

/// The host part ends where the first colon stands.
proof fn lemma_host_part_ends_at_colon(upstream: Seq<char>, end: int)
    requires
        0 <= end <= upstream.len(),
        forall|k: int| 0 <= k < end ==> upstream[k] != ':',
        end == upstream.len() || upstream[end] == ':',
    ensures
        host_part(upstream) == upstream.take(end),
    decreases end,
{
    if end == 0 {
        assert(upstream.take(0) =~= Seq::<char>::empty());
    } else {
        let rest = upstream.drop_first();
        assert forall|k: int| 0 <= k < end - 1 implies rest[k] != ':' by {
            assert(rest[k] == upstream[k + 1]);
        }
        lemma_host_part_ends_at_colon(rest, end - 1);
        assert(upstream.take(end) =~= seq![upstream.first()] + rest.take(end - 1));
    }
}

/// The host of an upstream written as `host:port`.
pub fn host_of(upstream: &str) -> (host: String)
    ensures
        host@ == host_part(upstream@),
{
    let chars = chars_of(upstream);
    let mut end: usize = 0;
    while end < chars.len() && chars[end] != ':'
        invariant
            end <= chars.len(),
            forall|k: int| 0 <= k < end ==> chars@[k] != ':',
        decreases chars.len() - end,
    {
        end += 1;
    }
    proof {
        lemma_host_part_ends_at_colon(upstream@, end as int);
    }
    String::from_str(upstream.substring_char(0, end))
}

impl GatewayConfig {
    /// The name the upstreams are addressed by, both as TLS server name and
    /// as `Host` header.
    pub fn upstream_sni(&self) -> (name: String)
        ensures
            name@ == sni_of(self.upstream_ips@),
    {
        if self.upstream_ips.len() == 0 {
            String::from_str("localhost")
        } else {
            host_of(self.upstream_ips[0].as_str())
        }
    }

    /// The address the TLS listener binds to: every interface, on the
    /// configured port.
    pub fn listen_address(&self) -> (address: String)
        ensures
            address@ == "0.0.0.0:"@ + decimal_digits(self.listen_port as nat),
    {
        let port = decimal(self.listen_port);
        String::from_str("0.0.0.0:").concat(port.as_str())
    }

    /// The first rule this configuration breaks, if any.
    pub open spec fn first_fault(&self) -> Option<ConfigFault> {
        if self.upstream_ips@.len() == 0 {
            Some(ConfigFault::NoUpstreams)
        } else if self.rate_limit_per_second == 0 {
            Some(ConfigFault::ZeroRateLimit)
        } else if self.jwt_secret@.len() == 0 {
            Some(ConfigFault::EmptySecret)
        } else {
            None
        }
    }

    /// A configuration is usable when it names at least one upstream, allows
    /// at least one request per second and carries a non-empty secret.
    pub open spec fn is_valid(&self) -> bool {
        &&& self.upstream_ips@.len() > 0
        &&& self.rate_limit_per_second > 0
        &&& self.jwt_secret@.len() > 0
    }

    /// Checks the configuration against its rules and reports the first one
    /// that is broken.
    pub fn validate(&self) -> (r: Result<(), ConfigError>)
        ensures
            r is Ok <==> self.is_valid(),
            match self.first_fault() {
                None => r is Ok,
                Some(fault) => r matches Err(ConfigError::Validation(text))
                    && text@ == fault.diagnostic(),
            },
    {
        if self.upstream_ips.len() == 0 {
            return Err(ConfigError::Validation(String::from_str("upstream_ips must not be empty")));
        }
        if self.rate_limit_per_second == 0 {
            return Err(
                ConfigError::Validation(
                    String::from_str("rate_limit_per_second must be greater than 0"),
                ),
            );
        }
        if self.jwt_secret.as_str().is_empty() {
            return Err(ConfigError::Validation(String::from_str("jwt_secret must not be empty")));
        }
        Ok(())
    }
}

impl ConfigError {
    /// The text shown for this error.
    pub open spec fn message_spec(&self) -> Seq<char> {
        match self {
            ConfigError::Io(path, cause) => "config io error at "@ + path@ + ": "@ + cause@,
            ConfigError::Parse(cause) => "config parse error: "@ + cause@,
            ConfigError::Validation(rule) => "config validation: "@ + rule@,
        }
    }

    /// Renders the error as the one-line diagnostic printed at startup and
    /// logged on a failed reload.
    pub fn message(&self) -> (text: String)
        ensures
            text@ == self.message_spec(),
    {
        match self {
            ConfigError::Io(path, cause) => {
                let text = String::from_str("config io error at ");
                let text = text.concat(path.as_str());
                let text = text.concat(": ");
                text.concat(cause.as_str())
            },
            ConfigError::Parse(cause) => {
                String::from_str("config parse error: ").concat(cause.as_str())
            },
            ConfigError::Validation(rule) => {
                String::from_str("config validation: ").concat(rule.as_str())
            },
        }
    }
}

} // verus!
