//! The settings of the wireless access point.
//!
//! The settings are handed in at startup as one value. The radio driver
//! keeps the network name in 32 bytes and the passphrase in 64, so longer
//! texts are refused here, before anything is brought up.

use vstd::prelude::*;

verus! {

/// The most bytes of UTF-8 a network name may take.
pub const SSID_MAX_BYTES: usize = 32;

/// The most bytes of UTF-8 a passphrase may take.
pub const PASSPHRASE_MAX_BYTES: usize = 64;

/// How stations authenticate to the access point.
#[derive(Clone, Copy, Debug, PartialEq, Eq, Structural)]
pub enum AuthMethod {
    /// No authentication: an open network.
    Open,
    WEP,
    WPA,
    WPA2Personal,
    WPAWPA2Personal,
    WPA2Enterprise,
    WPA3Personal,
    WPA2WPA3Personal,
    WAPIPersonal,
}

/// Why a set of access point settings was refused.
#[derive(Clone, Copy, Debug, PartialEq, Eq, Structural)]
pub enum ConfigError {
    /// The network name takes more than [`SSID_MAX_BYTES`] bytes.
    SsidTooLong,
    /// The passphrase takes more than [`PASSPHRASE_MAX_BYTES`] bytes.
    PassphraseTooLong,
}

/// The number of bytes that `text` takes as UTF-8.
pub open spec fn byte_len(text: Seq<char>) -> nat {
    vstd::utf8::encode_utf8(text).len()
}

/// The settings of the access point: network name, passphrase, channel and
/// authentication method.
#[derive(Debug, PartialEq, Eq)]
pub struct AccessPointConfig {
    ssid: String,
    passphrase: String,
    channel: u8,
    auth_method: AuthMethod,
}

impl AccessPointConfig {
    #[verifier::type_invariant]
    spec fn fits_driver(self) -> bool {
        &&& byte_len(self.ssid@) <= SSID_MAX_BYTES
        &&& byte_len(self.passphrase@) <= PASSPHRASE_MAX_BYTES
    }

    /// The network name, for use in contracts.
    pub closed spec fn spec_ssid(&self) -> Seq<char> {
        self.ssid@
    }

    /// The passphrase, for use in contracts.
    pub closed spec fn spec_passphrase(&self) -> Seq<char> {
        self.passphrase@
    }

    /// The channel, for use in contracts.
    pub closed spec fn spec_channel(&self) -> u8 {
        self.channel
    }

    /// The authentication method, for use in contracts.
    pub closed spec fn spec_auth_method(&self) -> AuthMethod {
        self.auth_method
    }

    /// Settings made of the four given values. A network name that is too
    /// long is reported first, a passphrase that is too long second.
    pub fn new(ssid: String, passphrase: String, channel: u8, auth_method: AuthMethod) -> (config:
        Result<AccessPointConfig, ConfigError>)
        ensures
            byte_len(ssid@) > SSID_MAX_BYTES <==> config == Err::<AccessPointConfig, ConfigError>(
                ConfigError::SsidTooLong,
            ),
            byte_len(ssid@) <= SSID_MAX_BYTES && byte_len(passphrase@) > PASSPHRASE_MAX_BYTES
                <==> config == Err::<AccessPointConfig, ConfigError>(
                ConfigError::PassphraseTooLong,
            ),
            config matches Ok(c) ==> {
                &&& c.spec_ssid() == ssid@
                &&& c.spec_passphrase() == passphrase@
                &&& c.spec_channel() == channel
                &&& c.spec_auth_method() == auth_method
            },
    {
        if ssid.as_str().as_bytes().len() > SSID_MAX_BYTES {
            Err(ConfigError::SsidTooLong)
        } else if passphrase.as_str().as_bytes().len() > PASSPHRASE_MAX_BYTES {
            Err(ConfigError::PassphraseTooLong)
        } else {
            Ok(AccessPointConfig { ssid, passphrase, channel, auth_method })
        }
    }

    /// The network name; at most [`SSID_MAX_BYTES`] bytes long.
    pub fn ssid(&self) -> (ssid: &str)
        ensures
            ssid@ == self.spec_ssid(),
            byte_len(ssid@) <= SSID_MAX_BYTES,
    {
        proof {
            use_type_invariant(self);
        }
        self.ssid.as_str()
    }

    /// The passphrase; at most [`PASSPHRASE_MAX_BYTES`] bytes long.
    pub fn passphrase(&self) -> (passphrase: &str)
        ensures
            passphrase@ == self.spec_passphrase(),
            byte_len(passphrase@) <= PASSPHRASE_MAX_BYTES,
    {
        proof {
            use_type_invariant(self);
        }
        self.passphrase.as_str()
    }

    /// The channel.
    pub fn channel(&self) -> (channel: u8)
        ensures
            channel == self.spec_channel(),
    {
        self.channel
    }

    /// The authentication method.
    pub fn auth_method(&self) -> (auth_method: AuthMethod)
        ensures
            auth_method == self.spec_auth_method(),
    {
        self.auth_method
    }
}

} // verus!
