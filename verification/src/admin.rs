//! Platform administration: one-time initialization, authority-gated
//! configuration updates, and dual-signed authority rotation.
//!
//! The host's signature layer proves that `caller` (and, for rotation, the
//! incoming authority as well) actually signed the request; the core checks
//! the signer against the stored identities and applies the change.

use vstd::prelude::*;
use crate::constants::MAX_FEE_BPS;
use crate::errors::RawlError;
use crate::state::{PlatformConfig, Pubkey};

verus! {

/// Create the platform configuration: authority, default oracle, fee rate,
/// treasury, default match timeout, unpaused. Refuses a fee rate above the
/// platform cap and a non-positive timeout — a timeout of 0 would let
/// anyone cancel every locked match at once. The host guarantees this runs
/// once.
pub fn initialize(
    authority: Pubkey,
    oracle: Pubkey,
    treasury: Pubkey,
    fee_bps: u16,
    match_timeout: i64,
) -> (r: Result<PlatformConfig, RawlError>)
    ensures
        match r {
            Ok(config) => {
                &&& fee_bps <= MAX_FEE_BPS
                &&& match_timeout > 0
                &&& config == (PlatformConfig {
                    authority,
                    oracle,
                    fee_bps,
                    treasury,
                    paused: false,
                    match_timeout,
                })
                &&& config.wf()
            },
            Err(e) => {
                if fee_bps > MAX_FEE_BPS {
                    e == RawlError::InvalidFeeBps
                } else {
                    match_timeout <= 0 && e == RawlError::InvalidTimeout
                }
            },
        },
{
    if fee_bps > MAX_FEE_BPS {
        return Err(RawlError::InvalidFeeBps);
    }
    if match_timeout <= 0 {
        return Err(RawlError::InvalidTimeout);
    }
    Ok(PlatformConfig {
        authority,
        oracle,
        fee_bps,
        treasury,
        paused: false,
        match_timeout,
    })
}

/// Independently optional, authority-gated updates to the configuration.
/// All parameters are validated before any field changes, so an error leaves
/// the configuration untouched.
pub fn update_config(
    config: &mut PlatformConfig,
    caller: Pubkey,
    fee_bps: Option<u16>,
    match_timeout: Option<i64>,
    paused: Option<bool>,
    oracle: Option<Pubkey>,
    treasury: Option<Pubkey>,
) -> (r: Result<(), RawlError>)
    ensures
        match r {
            Ok(()) => {
                &&& caller == old(config).authority
                &&& match fee_bps {
                    Some(f) => f <= MAX_FEE_BPS && final(config).fee_bps == f,
                    None => final(config).fee_bps == old(config).fee_bps,
                }
                &&& match match_timeout {
                    Some(t) => t > 0 && final(config).match_timeout == t,
                    None => final(config).match_timeout == old(config).match_timeout,
                }
                &&& match paused {
                    Some(p) => final(config).paused == p,
                    None => final(config).paused == old(config).paused,
                }
                &&& match oracle {
                    Some(o) => final(config).oracle == o,
                    None => final(config).oracle == old(config).oracle,
                }
                &&& match treasury {
                    Some(t) => final(config).treasury == t,
                    None => final(config).treasury == old(config).treasury,
                }
                &&& final(config).authority == old(config).authority
                &&& old(config).wf() ==> final(config).wf()
            },
            Err(e) => {
                &&& *final(config) == *old(config)
                &&& if caller != old(config).authority {
                    e == RawlError::Unauthorized
                } else if fee_bps matches Some(f) && f > MAX_FEE_BPS {
                    e == RawlError::InvalidFeeBps
                } else {
                    &&& match_timeout matches Some(t) && t <= 0
                    &&& e == RawlError::InvalidTimeout
                }
            },
        },
{
    if caller != config.authority {
        return Err(RawlError::Unauthorized);
    }
    if let Some(f) = fee_bps {
        if f > MAX_FEE_BPS {
            return Err(RawlError::InvalidFeeBps);
        }
    }
    if let Some(t) = match_timeout {
        if t <= 0 {
            return Err(RawlError::InvalidTimeout);
        }
    }
    if let Some(f) = fee_bps {
        config.fee_bps = f;
    }
    if let Some(t) = match_timeout {
        config.match_timeout = t;
    }
    if let Some(p) = paused {
        config.paused = p;
    }
    if let Some(o) = oracle {
        config.oracle = o;
    }
    if let Some(t) = treasury {
        config.treasury = t;
    }
    Ok(())
}

/// Rotate the platform authority. The host proves control of both the
/// outgoing and the incoming key (dual signature); the core checks that the
/// outgoing signer is the stored authority.
pub fn update_authority(
    config: &mut PlatformConfig,
    current_authority: Pubkey,
    new_authority: Pubkey,
) -> (r: Result<(), RawlError>)
    ensures
        match r {
            Ok(()) => {
                &&& current_authority == old(config).authority
                &&& *final(config) == (PlatformConfig {
                    authority: new_authority,
                    ..*old(config)
                })
            },
            Err(e) => {
                &&& current_authority != old(config).authority
                &&& e == RawlError::Unauthorized
                &&& *final(config) == *old(config)
            },
        },
{
    if current_authority != config.authority {
        return Err(RawlError::Unauthorized);
    }
    config.authority = new_authority;
    Ok(())
}

} // verus!
