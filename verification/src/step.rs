//! The step sequencer: a session-wide monotonic guard.
//!
//! Each bootstrap milestone of the session carries a fixed numeral.  Claiming
//! a numeral succeeds only when it is strictly greater than the stored value,
//! so every milestone fires at most once and milestones fire in order.  A
//! rejected claim signals that the handshake ran twice and is fatal.

use vstd::prelude::*;

verus! {

/// Milestone numeral: the server configured compression after encryption.
pub const STEP_COMPRESSION_CONFIGURED: u8 = 8;

/// Milestone numeral: the server confirmed the login after encryption.
pub const STEP_LOGIN_SUCCEEDED: u8 = 9;

/// Milestone numeral: the join-game bootstrap began.
pub const STEP_JOIN_GAME: u8 = 10;

/// Milestone numeral: the client settings were sent, one second after the
/// join-game bootstrap began.
pub const STEP_CLIENT_SETTINGS: u8 = 15;

/// Milestone numeral: the respawn client status was sent after the first
/// teleport confirmation.
pub const STEP_RESPAWN: u8 = 33;

/// A rejected claim: the numeral `attempted` was not strictly greater than
/// the stored value `current` at the time of the claim.
#[derive(Clone, Copy, Debug, PartialEq, Eq, Structural)]
pub struct StepViolation {
    pub attempted: u8,
    pub current: u8,
}

/// The session-scoped monotonic counter guarding bootstrap milestones.
pub struct StepSequencer {
    value: u8,
}

impl StepSequencer {
    /// The stored value, for contracts.
    pub closed spec fn current_spec(&self) -> u8 {
        self.value
    }

    /// A fresh sequencer stores zero, so every positive numeral is still open.
    pub fn new() -> (s: Self)
        ensures
            s.current_spec() == 0,
    {
        StepSequencer { value: 0 }
    }

    /// The stored value.
    pub fn current(&self) -> (v: u8)
        ensures
            v == self.current_spec(),
    {
        self.value
    }

    /// Claim milestone `n`: succeeds iff `n` is strictly greater than the
    /// stored value, and then stores `n`.  A failed claim leaves the value
    /// unchanged and reports both numerals.
    pub fn claim(&mut self, n: u8) -> (r: Result<(), StepViolation>)
        ensures
            r is Ok <==> n > old(self).current_spec(),
            final(self).current_spec() == (if n > old(self).current_spec() {
                n
            } else {
                old(self).current_spec()
            }),
            r matches Err(v) ==> v.attempted == n
                && v.current == old(self).current_spec(),
    {
        if n > self.value {
            self.value = n;
            Ok(())
        } else {
            Err(StepViolation { attempted: n, current: self.value })
        }
    }
}

/// The stored value after a run of claims starting from `v0`: each claim
/// raises the value to its numeral when the numeral is strictly greater,
/// and leaves it unchanged otherwise.
pub open spec fn value_after(v0: u8, claims: Seq<u8>) -> u8
    decreases claims.len(),
{
    if claims.len() == 0 {
        v0
    } else {
        let prev = value_after(v0, claims.drop_last());
        if claims.last() > prev {
            claims.last()
        } else {
            prev
        }
    }
}

/// Whether the claim at position `i` of the run succeeds.
pub open spec fn claim_accepted(v0: u8, claims: Seq<u8>, i: int) -> bool
    recommends
        0 <= i < claims.len(),
{
    claims[i] > value_after(v0, claims.take(i))
}

/// For any run of claims, the stored value never decreases over time.
pub proof fn lemma_value_nondecreasing(v0: u8, claims: Seq<u8>, i: int, j: int)
    requires
        0 <= i <= j <= claims.len(),
    ensures
        value_after(v0, claims.take(i)) <= value_after(v0, claims.take(j)),
    decreases j - i,
{
    if i < j {
        lemma_value_nondecreasing(v0, claims, i, j - 1);
        assert(claims.take(j).drop_last() =~= claims.take(j - 1));
    }
}

/// In any run of claims, the compression milestone is accepted only
/// strictly before the login-succeeded milestone: its numeral is the
/// smaller, and the stored value never decreases.
pub proof fn lemma_compression_before_login_success(
    v0: u8,
    claims: Seq<u8>,
    i: int,
    j: int,
)
    requires
        0 <= i < claims.len(),
        0 <= j < claims.len(),
        claims[i] == STEP_LOGIN_SUCCEEDED,
        claims[j] == STEP_COMPRESSION_CONFIGURED,
        claim_accepted(v0, claims, i),
        claim_accepted(v0, claims, j),
    ensures
        j < i,
{
    if j > i {
        assert(claims.take(i + 1).drop_last() =~= claims.take(i));
        assert(value_after(v0, claims.take(i + 1)) == STEP_LOGIN_SUCCEEDED);
        lemma_value_nondecreasing(v0, claims, i + 1, j);
    }
}

/// For any run of claims, each numeral is accepted at most once: once a
/// claim of numeral `claims[i]` succeeds, every later claim of the same
/// numeral is rejected.
pub proof fn lemma_numeral_accepted_at_most_once(
    v0: u8,
    claims: Seq<u8>,
    i: int,
    j: int,
)
    requires
        0 <= i < j < claims.len(),
        claims[i] == claims[j],
        claim_accepted(v0, claims, i),
    ensures
        !claim_accepted(v0, claims, j),
{
    assert(claims.take(i + 1).drop_last() =~= claims.take(i));
    assert(value_after(v0, claims.take(i + 1)) == claims[i]);
    lemma_value_nondecreasing(v0, claims, i + 1, j);
}

} // verus!
