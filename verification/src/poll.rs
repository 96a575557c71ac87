use vstd::prelude::*;

use vstd::arithmetic::power2::lemma2_to64;
use vstd::arithmetic::power2::lemma_pow2_strictly_increases;
use vstd::arithmetic::power2::lemma_pow2_unfold;
use vstd::arithmetic::power2::pow2;

use crate::errors::AcmeError;
use crate::status::OrderStatus;

verus! {

/// Largest base delay the poller accepts, in milliseconds. Together with
/// the attempt bound it keeps every doubled delay within `u64`.
pub const MAX_BASE_DELAY_MS: u64 = 1000000000;

/// Largest attempt budget the poller accepts.
pub const MAX_ATTEMPT_BUDGET: u32 = 32;

/// What the driving loop must do next: wait for the given delay and then
/// issue one fresh status query, or stop because the poll is decided.
#[derive(Clone, Copy, Debug, PartialEq, Eq, Structural)]
pub enum PollAction {
    Query { delay_ms: u64 },
    Stop,
}

/// The retry/backoff state machine around order-status queries.
///
/// The machine never declares success without a fresh authority
/// observation equal to its target status: the only way `outcome` becomes
/// `Ok` is `observe` being handed that status. Waiting, querying and
/// cancellation belong to the caller; the machine only decides.
pub struct Poller {
    /// The status awaited: `Ready` before finalization, `Valid` after.
    pub target: OrderStatus,
    /// How many fresh queries may be issued before giving up.
    pub max_attempts: u32,
    /// Delay slept after the first unready observation; it doubles after
    /// every further one, uncapped within the budget. The first query
    /// itself is immediate.
    pub base_delay_ms: u64,
    /// Queries observed so far.
    pub attempts: u32,
    /// Delay to wait before the next query.
    pub next_delay_ms: u64,
    /// `None` while the poll is undecided; otherwise the decision.
    pub outcome: Option<Result<(), AcmeError>>,
}

/// The delay slept before one more query, after `attempts` observations so
/// far: the first query is immediate, and after the `N`th unready
/// observation the sleep is `base_delay_ms * 2^(N-1)` — 250 ms, 500 ms,
/// 1000 ms, ... for a 250 ms base, uncapped within the budget.
pub open spec fn spec_backoff_delay(base_delay_ms: u64, attempts: nat) -> nat {
    if attempts == 0 {
        0
    } else {
        (base_delay_ms as nat) * pow2((attempts - 1) as nat)
    }
}

/// The error a poll reports when the authority explicitly rejects the
/// order: `OrderInvalid` while waiting for `Ready`, `IssuanceFailed` while
/// waiting for `Valid` after finalization.
pub open spec fn spec_rejection_error(target: OrderStatus) -> AcmeError {
    if target is Valid {
        AcmeError::IssuanceFailed
    } else {
        AcmeError::OrderInvalid
    }
}

impl Poller {
    /// Well-formedness: the target is one of the two awaited statuses, the
    /// bounds are in range, and while undecided the machine has budget left
    /// and its next delay is exactly the backoff schedule's — none before
    /// the first query, `base_delay_ms * 2^(N-1)` after the `N`th unready
    /// observation.
    pub open spec fn wf(self) -> bool {
        &&& self.target is Ready || self.target is Valid
        &&& 1 <= self.max_attempts <= MAX_ATTEMPT_BUDGET
        &&& 1 <= self.base_delay_ms <= MAX_BASE_DELAY_MS
        &&& self.attempts <= self.max_attempts
        &&& self.outcome is None ==> self.attempts < self.max_attempts
        &&& self.outcome is None ==> self.next_delay_ms == spec_backoff_delay(
            self.base_delay_ms,
            self.attempts as nat,
        )
    }

    /// The poll is still undecided.
    pub open spec fn spec_in_progress(&self) -> bool {
        self.outcome is None
    }

    #[verifier::when_used_as_spec(spec_in_progress)]
    pub fn in_progress(&self) -> (r: bool)
        ensures
            r == self.spec_in_progress(),
    {
        self.outcome.is_none()
    }

    /// Starts a poll that waits for `target` under the given attempt budget
    /// and base delay.
    pub fn new(target: OrderStatus, max_attempts: u32, base_delay_ms: u64) -> (r: Poller)
        requires
            target is Ready || target is Valid,
            1 <= max_attempts <= MAX_ATTEMPT_BUDGET,
            1 <= base_delay_ms <= MAX_BASE_DELAY_MS,
        ensures
            r == (Poller {
                target,
                max_attempts,
                base_delay_ms,
                attempts: 0,
                next_delay_ms: 0,
                outcome: None,
            }),
            r.wf(),
    {
        let r = Poller {
            target,
            max_attempts,
            base_delay_ms,
            attempts: 0,
            next_delay_ms: 0,
            outcome: None,
        };
        proof {
            assert(r.next_delay_ms == spec_backoff_delay(r.base_delay_ms, r.attempts as nat));
            assert(r.wf());
        }
        r
    }

    /// What to do next. While the poll is undecided the answer is: wait
    /// exactly `spec_backoff_delay(base_delay_ms, attempts)` milliseconds —
    /// nothing before the first query, `base_delay_ms * 2^(N-1)` after the
    /// `N`th unready observation — then issue one fresh query. Once
    /// decided, no further query is ever requested.
    pub fn next_action(&self) -> (r: PollAction)
        requires
            self.wf(),
        ensures
            self.spec_in_progress() ==> r == (PollAction::Query {
                delay_ms: spec_backoff_delay(self.base_delay_ms, self.attempts as nat) as u64,
            }),
            !self.spec_in_progress() ==> r == PollAction::Stop,
    {
        if self.outcome.is_none() {
            PollAction::Query { delay_ms: self.next_delay_ms }
        } else {
            PollAction::Stop
        }
    }

    /// Feeds one fresh authority observation into the machine. The target
    /// status decides the poll successfully; `Invalid` rejects it at once;
    /// any other status consumes one attempt, and consuming the last one
    /// decides the poll with `PollTimeout`.
    pub fn observe(&mut self, status: OrderStatus)
        requires
            old(self).wf(),
            old(self).spec_in_progress(),
        ensures
            final(self).wf(),
            final(self).target == old(self).target,
            final(self).max_attempts == old(self).max_attempts,
            final(self).base_delay_ms == old(self).base_delay_ms,
            final(self).attempts == old(self).attempts + 1,
            status == old(self).target ==> final(self).outcome == Some(Ok::<(), AcmeError>(())),
            status != old(self).target && status is Invalid ==> final(self).outcome == Some(
                Err::<(), AcmeError>(spec_rejection_error(old(self).target)),
            ),
            status != old(self).target && !(status is Invalid) && old(self).attempts + 1 < old(
                self,
            ).max_attempts ==> final(self).outcome is None,
            status != old(self).target && !(status is Invalid) && old(self).attempts + 1 == old(
                self,
            ).max_attempts ==> final(self).outcome == Some(
                Err::<(), AcmeError>(AcmeError::PollTimeout),
            ),
    {
        self.attempts = self.attempts + 1;
        if status == self.target {
            self.outcome = Some(Ok(()));
        } else if status.is_rejected() {
            let e = if matches!(self.target, OrderStatus::Valid) {
                AcmeError::IssuanceFailed
            } else {
                AcmeError::OrderInvalid
            };
            self.outcome = Some(Err(e));
        } else if self.attempts == self.max_attempts {
            self.outcome = Some(Err(AcmeError::PollTimeout));
        } else if self.attempts == 1 {
            self.next_delay_ms = self.base_delay_ms;
            proof {
                lemma2_to64();
                assert((self.base_delay_ms as nat) * pow2(0) == self.base_delay_ms as nat)
                    by (nonlinear_arith)
                    requires
                        pow2(0) == 1,
                ;
                assert(self.next_delay_ms == spec_backoff_delay(
                    self.base_delay_ms,
                    self.attempts as nat,
                ));
            }
        } else {
            proof {
                let a = self.attempts as nat;
                lemma2_to64();
                if a - 1 < 31 {
                    lemma_pow2_strictly_increases((a - 1) as nat, 31);
                }
                lemma_pow2_unfold((a - 1) as nat);
                assert(pow2((a - 1) as nat) <= 0x8000_0000);
                assert(self.base_delay_ms * pow2((a - 1) as nat) <= 1000000000 * 0x8000_0000)
                    by (nonlinear_arith)
                    requires
                        self.base_delay_ms <= 1000000000,
                        pow2((a - 1) as nat) <= 0x8000_0000,
                ;
                assert(self.next_delay_ms * 2 == self.base_delay_ms * pow2((a - 1) as nat))
                    by (nonlinear_arith)
                    requires
                        self.next_delay_ms == self.base_delay_ms * pow2((a - 2) as nat),
                        pow2((a - 1) as nat) == 2 * pow2((a - 2) as nat),
                ;
            }
            self.next_delay_ms = self.next_delay_ms * 2;
            proof {
                assert(self.next_delay_ms == spec_backoff_delay(
                    self.base_delay_ms,
                    self.attempts as nat,
                ));
            }
        }
    }
}

/// How many fresh queries a poll issues over a given sequence of authority
/// answers: one per answer until the target status or `Invalid` is seen,
/// never more than the budget.
pub open spec fn spec_poll_queries(
    statuses: Seq<OrderStatus>,
    target: OrderStatus,
    budget: nat,
) -> nat
    decreases budget,
{
    if budget == 0 || statuses.len() == 0 {
        0
    } else if statuses[0] == target || statuses[0] is Invalid {
        1
    } else {
        1 + spec_poll_queries(statuses.drop_first(), target, (budget - 1) as nat)
    }
}

/// What a poll decides over a given sequence of authority answers:
/// success on the target status, rejection on `Invalid`, and `PollTimeout`
/// once the budget is exhausted without a terminal answer.
pub open spec fn spec_poll_outcome(
    statuses: Seq<OrderStatus>,
    target: OrderStatus,
    budget: nat,
) -> Result<(), AcmeError>
    decreases budget,
{
    if budget == 0 || statuses.len() == 0 {
        Err(AcmeError::PollTimeout)
    } else if statuses[0] == target {
        Ok(())
    } else if statuses[0] is Invalid {
        Err(spec_rejection_error(target))
    } else {
        spec_poll_outcome(statuses.drop_first(), target, (budget - 1) as nat)
    }
}

/// A poll never issues more queries than its attempt budget: after the
/// budget is exceeded the poll has failed and queries nothing further.
pub proof fn lemma_poll_queries_within_budget(
    statuses: Seq<OrderStatus>,
    target: OrderStatus,
    budget: nat,
)
    ensures
        spec_poll_queries(statuses, target, budget) <= budget,
    decreases budget,
{
    if budget > 0 && statuses.len() > 0 && !(statuses[0] == target || statuses[0] is Invalid) {
        lemma_poll_queries_within_budget(statuses.drop_first(), target, (budget - 1) as nat);
    }
}

/// Idempotence of a decided poll: once the authority has reported the
/// target status, polling again is safe — the first fresh query simply
/// reconfirms that status, and the poll succeeds after exactly one query.
pub proof fn lemma_poll_after_target_is_idempotent(
    statuses: Seq<OrderStatus>,
    target: OrderStatus,
    budget: nat,
)
    requires
        budget >= 1,
        statuses.len() >= 1,
        statuses[0] == target,
    ensures
        spec_poll_outcome(statuses, target, budget) == Ok::<(), AcmeError>(()),
        spec_poll_queries(statuses, target, budget) == 1,
{
}

/// What one complete poll did: the delay slept before each query, how many
/// queries were issued, and what was decided.
pub struct PollReport {
    pub delays_ms: Vec<u64>,
    pub queries: u32,
    pub outcome: Result<(), AcmeError>,
}

/// Runs one complete poll against a sequence of authority answers, handed
/// in by a collaborator that performed the fresh queries — `statuses[k]`
/// being the answer to the `k`th query. The report's decision and query
/// count match `spec_poll_outcome` and `spec_poll_queries` exactly, and
/// the delays follow the backoff schedule: the first query is immediate,
/// and the sleep after the `N`th unready answer is `base_delay_ms *
/// 2^(N-1)`.
pub fn poll_order(
    statuses: &Vec<OrderStatus>,
    target: OrderStatus,
    max_attempts: u32,
    base_delay_ms: u64,
) -> (r: PollReport)
    requires
        target is Ready || target is Valid,
        1 <= max_attempts <= MAX_ATTEMPT_BUDGET,
        1 <= base_delay_ms <= MAX_BASE_DELAY_MS,
        statuses@.len() >= max_attempts,
    ensures
        r.queries as nat == spec_poll_queries(statuses@, target, max_attempts as nat),
        r.outcome == spec_poll_outcome(statuses@, target, max_attempts as nat),
        r.delays_ms@.len() == r.queries,
        forall|k: int| 0 <= k < r.queries ==> r.delays_ms@[k] == spec_backoff_delay(
            base_delay_ms,
            k as nat,
        ),
        1 <= r.queries <= max_attempts,
{
    let mut poller = Poller::new(target, max_attempts, base_delay_ms);
    let mut delays: Vec<u64> = Vec::new();
    let mut i: usize = 0;
    proof {
        assert(statuses@.skip(0) =~= statuses@);
    }
    while poller.in_progress()
        invariant
            poller.wf(),
            poller.target == target,
            poller.max_attempts == max_attempts,
            poller.base_delay_ms == base_delay_ms,
            target is Ready || target is Valid,
            1 <= max_attempts <= MAX_ATTEMPT_BUDGET,
            1 <= base_delay_ms <= MAX_BASE_DELAY_MS,
            statuses@.len() >= max_attempts,
            poller.attempts as int == i as int,
            i <= max_attempts,
            delays@.len() == i,
            forall|k: int| 0 <= k < i ==> delays@[k] == spec_backoff_delay(base_delay_ms, k as nat),
            poller.spec_in_progress() ==> spec_poll_queries(statuses@, target, max_attempts as nat)
                == i + spec_poll_queries(
                statuses@.skip(i as int),
                target,
                (max_attempts - i) as nat,
            ),
            poller.spec_in_progress() ==> spec_poll_outcome(statuses@, target, max_attempts as nat)
                == spec_poll_outcome(statuses@.skip(i as int), target, (max_attempts - i) as nat),
            !poller.spec_in_progress() ==> poller.outcome == Some(
                spec_poll_outcome(statuses@, target, max_attempts as nat),
            ),
            !poller.spec_in_progress() ==> i as nat == spec_poll_queries(
                statuses@,
                target,
                max_attempts as nat,
            ) && 1 <= i,
        decreases max_attempts - i,
    {
        let action = poller.next_action();
        let delay_ms = match action {
            PollAction::Query { delay_ms } => delay_ms,
            PollAction::Stop => 0,
        };
        delays.push(delay_ms);
        let status = statuses[i];
        proof {
            assert(statuses@.skip(i as int)[0] == statuses@[i as int]);
            assert(statuses@.skip(i as int).drop_first() =~= statuses@.skip(i as int + 1));
        }
        poller.observe(status);
        proof {
            if status != target && !(status is Invalid) && i + 1 == max_attempts {
                assert(spec_poll_queries(statuses@.skip(i as int + 1), target, 0) == 0);
                assert(spec_poll_outcome(statuses@.skip(i as int + 1), target, 0) == Err::<
                    (),
                    AcmeError,
                >(AcmeError::PollTimeout));
            }
        }
        i = i + 1;
    }
    let outcome = match poller.outcome {
        Some(res) => res,
        None => Err(AcmeError::PollTimeout),
    };
    proof {
        assert(i <= 32);
    }
    PollReport { delays_ms: delays, queries: i as u32, outcome }
}

/// The pre-finalization poll of the order lifecycle: waits for the
/// authority to report `Ready`, fails with `OrderInvalid` on an explicit
/// rejection, and with `PollTimeout` when the attempt budget runs out.
pub fn poll_until_ready(statuses: &Vec<OrderStatus>, max_attempts: u32, base_delay_ms: u64) -> (r:
    PollReport)
    requires
        1 <= max_attempts <= MAX_ATTEMPT_BUDGET,
        1 <= base_delay_ms <= MAX_BASE_DELAY_MS,
        statuses@.len() >= max_attempts,
    ensures
        r.queries as nat == spec_poll_queries(statuses@, OrderStatus::Ready, max_attempts as nat),
        r.outcome == spec_poll_outcome(statuses@, OrderStatus::Ready, max_attempts as nat),
        r.delays_ms@.len() == r.queries,
        forall|k: int| 0 <= k < r.queries ==> r.delays_ms@[k] == spec_backoff_delay(
            base_delay_ms,
            k as nat,
        ),
        1 <= r.queries <= max_attempts,
{
    poll_order(statuses, OrderStatus::Ready, max_attempts, base_delay_ms)
}

} // verus!
