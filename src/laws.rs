//! Laws of parameter resolution, stated over the contracts of `params`.

use vstd::prelude::*;

use crate::params::{
    effective_millis, Config, TendermintParams, TendermintTimer, DEFAULT_COMMIT_MS,
    DEFAULT_PRECOMMIT_MS, DEFAULT_PREVOTE_MS, DEFAULT_PROPOSE_MS,
};
use crate::time::duration_from_millis;

verus! {

/// With no timeout override at all, the resolved timer is exactly the
/// default timer.
pub proof fn lemma_no_overrides_give_default_timer<K>(config: Config<K>)
    requires
        config.timeout_propose is None,
        config.timeout_prevote is None,
        config.timeout_precommit is None,
        config.timeout_commit is None,
    ensures
        TendermintTimer::resolved(config) == TendermintTimer::spec_default(),
{
}

/// Each phase resolves on its own: a present override becomes that phase's
/// timeout unchanged, an absent one leaves the phase at its default,
/// whatever the other phases hold.
pub proof fn lemma_phases_resolve_independently<K>(config: Config<K>)
    ensures
        ({
            let t = TendermintTimer::resolved(config);
            &&& t.propose == match config.timeout_propose {
                Some(ms) => duration_from_millis(ms),
                None => TendermintTimer::spec_default().propose,
            }
            &&& t.prevote == match config.timeout_prevote {
                Some(ms) => duration_from_millis(ms),
                None => TendermintTimer::spec_default().prevote,
            }
            &&& t.precommit == match config.timeout_precommit {
                Some(ms) => duration_from_millis(ms),
                None => TendermintTimer::spec_default().precommit,
            }
            &&& t.commit == match config.timeout_commit {
                Some(ms) => duration_from_millis(ms),
                None => TendermintTimer::spec_default().commit,
            }
        }),
{
}

/// Resolution is deterministic: two resolutions of one configuration agree
/// on the timer, the duration and the test flag.
pub proof fn lemma_resolution_deterministic<K, S>(
    config: Config<K>,
    p1: TendermintParams<S>,
    p2: TendermintParams<S>,
)
    requires
        p1.resolves_from(config),
        p2.resolves_from(config),
    ensures
        p1.timer == p2.timer,
        p1.duration == p2.duration,
        p1.is_test == p2.is_test,
{
}

} // verus!
