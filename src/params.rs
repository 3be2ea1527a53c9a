//! Resolution of a raw configuration record into consensus parameters.

use std::time::Duration;
use vstd::prelude::*;

use crate::time::{duration_from_millis, to_duration};

verus! {

/// Default propose timeout in milliseconds.
pub const DEFAULT_PROPOSE_MS: u64 = 2400;

/// Default prevote timeout in milliseconds.
pub const DEFAULT_PREVOTE_MS: u64 = 100;

/// Default precommit timeout in milliseconds.
pub const DEFAULT_PRECOMMIT_MS: u64 = 100;

/// Default commit timeout in milliseconds.
pub const DEFAULT_COMMIT_MS: u64 = 400;

/// Raw configuration as the loader hands it over. `K` is the raw
/// private-key material, turned into a signer during resolution.
#[derive(Debug)]
pub struct Config<K> {
    /// Base round duration in milliseconds.
    pub duration: u64,
    pub is_test: bool,
    pub signer: K,
    /// Propose step timeout in milliseconds.
    pub timeout_propose: Option<u64>,
    /// Prevote step timeout in milliseconds.
    pub timeout_prevote: Option<u64>,
    /// Precommit step timeout in milliseconds.
    pub timeout_precommit: Option<u64>,
    /// Commit step timeout in milliseconds.
    pub timeout_commit: Option<u64>,
}

/// Tendermint timer information: the timeout of each step of a round
/// (propose, prevote, precommit, commit).
#[derive(Debug, Clone, Copy)]
pub struct TendermintTimer {
    pub propose: Duration,
    pub prevote: Duration,
    pub precommit: Duration,
    pub commit: Duration,
}

/// Fully resolved parameters, handed to the consensus engine once.
pub struct TendermintParams<S> {
    pub timer: TendermintTimer,
    pub duration: Duration,
    pub is_test: bool,
    pub signer: S,
}

/// Why resolution failed.
#[derive(Debug, Clone, Copy, PartialEq, Eq, Structural)]
pub enum ParamsError {
    /// The signing-key material could not be turned into a signer.
    InvalidSigningKey,
}

/// The milliseconds a phase waits: its override when present, else its default.
pub open spec fn effective_millis(timeout: Option<u64>, default_ms: u64) -> u64 {
    match timeout {
        Some(ms) => ms,
        None => default_ms,
    }
}

impl TendermintTimer {
    /// The default timer: propose 2400 ms, prevote 100 ms, precommit 100 ms,
    /// commit 400 ms.
    pub open spec fn spec_default() -> TendermintTimer {
        TendermintTimer {
            propose: duration_from_millis(DEFAULT_PROPOSE_MS),
            prevote: duration_from_millis(DEFAULT_PREVOTE_MS),
            precommit: duration_from_millis(DEFAULT_PRECOMMIT_MS),
            commit: duration_from_millis(DEFAULT_COMMIT_MS),
        }
    }

    /// The timer that `config` resolves to, each phase on its own.
    pub open spec fn resolved<K>(config: Config<K>) -> TendermintTimer {
        TendermintTimer {
            propose: duration_from_millis(effective_millis(config.timeout_propose, DEFAULT_PROPOSE_MS)),
            prevote: duration_from_millis(effective_millis(config.timeout_prevote, DEFAULT_PREVOTE_MS)),
            precommit: duration_from_millis(
                effective_millis(config.timeout_precommit, DEFAULT_PRECOMMIT_MS),
            ),
            commit: duration_from_millis(effective_millis(config.timeout_commit, DEFAULT_COMMIT_MS)),
        }
    }
}

impl Default for TendermintTimer {
    /// Sets the default timeout of each step.
    fn default() -> (r: Self)
        ensures
            r == Self::spec_default(),
    {
        TendermintTimer {
            propose: Duration::from_millis(DEFAULT_PROPOSE_MS),
            prevote: Duration::from_millis(DEFAULT_PREVOTE_MS),
            precommit: Duration::from_millis(DEFAULT_PRECOMMIT_MS),
            commit: Duration::from_millis(DEFAULT_COMMIT_MS),
        }
    }
}

/// The override-or-default rule applied to every phase: the override in
/// milliseconds when present, else the phase's default duration.
pub fn timeout_or(timeout: Option<u64>, default: Duration) -> (d: Duration)
    ensures
        d == match timeout {
            Some(ms) => duration_from_millis(ms),
            None => default,
        },
{
    match timeout {
        Some(ms) => to_duration(ms),
        None => default,
    }
}

impl<S> TendermintParams<S> {
    /// Whether the timer, duration and test flag of `self` are those that
    /// `config` resolves to.
    pub open spec fn resolves_from<K>(self, config: Config<K>) -> bool {
        &&& self.timer == TendermintTimer::resolved(config)
        &&& self.duration == duration_from_millis(config.duration)
        &&& self.is_test == config.is_test
    }

    /// Resolves `config`: every phase timeout takes its override or its
    /// default, the duration is converted, `is_test` is carried over, and
    /// the raw key is handed, once, to `to_signer`. Fails when `to_signer`
    /// rejects the key material.
    pub fn from_config<K, F>(config: Config<K>, to_signer: F) -> (r: Result<Self, ParamsError>)
        where
            F: FnOnce(K) -> Option<S>,
        requires
            to_signer.requires((config.signer,)),
        ensures
            match r {
                Ok(p) => {
                    &&& p.resolves_from(config)
                    &&& to_signer.ensures((config.signer,), Some(p.signer))
                },
                Err(e) => {
                    &&& e == ParamsError::InvalidSigningKey
                    &&& to_signer.ensures((config.signer,), None)
                },
            },
    {
        let dt = TendermintTimer::default();
        let timer = TendermintTimer {
            propose: timeout_or(config.timeout_propose, dt.propose),
            prevote: timeout_or(config.timeout_prevote, dt.prevote),
            precommit: timeout_or(config.timeout_precommit, dt.precommit),
            commit: timeout_or(config.timeout_commit, dt.commit),
        };
        let duration = to_duration(config.duration);
        match to_signer(config.signer) {
            Some(signer) => Ok(TendermintParams { timer, duration, is_test: config.is_test, signer }),
            None => Err(ParamsError::InvalidSigningKey),
        }
    }
}

} // verus!
