//! Per-session paid-inference budgets and the ledger consulted before dispatch.

use std::collections::HashMap;

use vstd::prelude::*;

use crate::openrouter::error::{OpenRouterError, OpenRouterErrorKind};

verus! {

broadcast use vstd::std_specs::hash::group_hash_axioms;

/// Configuration ceilings copied from resolved `policies.cost`.
#[derive(Debug, Clone, Copy, PartialEq, Eq, Structural)]
pub struct CostPolicyConfig {
    pub max_session_usd_micros: u64,
    pub max_attempt_usd_micros: Option<u64>,
}

/// Pre-dispatch budget evaluation result.
#[derive(Debug, Clone, Copy, PartialEq, Eq, Structural)]
pub enum BudgetDecision {
    Allow { estimate_usd_micros: u64 },
    DenySession,
    DenyAttempt,
}

/// Conservative default estimate when usage is unknown (one cent).
pub const DEFAULT_ATTEMPT_ESTIMATE_USD_MICROS: u64 = 10_000;

/// Redacted durable spend persistence, implemented at the storage edge.
pub trait DurableSpendStore {
    /// Whether `outcome` is an answer this store may give when its spends
    /// are loaded; a store that says nothing may give any.
    open spec fn loads(&self, outcome: Result<Vec<(u128, u64)>, OpenRouterError>) -> bool {
        true
    }

    /// Whether `outcome` is an answer this store may give when it is asked
    /// to keep `spend_usd_micros` as the total of `session_id`; a store that
    /// says nothing may give any.
    open spec fn persists(&self, session_id: u128, spend_usd_micros: u64, outcome: Result<(), OpenRouterError>) -> bool {
        true
    }

    /// Loads every per-session spend for ledger restore.
    fn load_spends(&self) -> (r: Result<Vec<(u128, u64)>, OpenRouterError>)
        ensures
            self.loads(r),
    ;

    /// Persists the latest redacted spend total for one session.
    fn persist_spend(&self, session_id: u128, spend_usd_micros: u64) -> (r: Result<
        (),
        OpenRouterError,
    >)
        ensures
            self.persists(session_id, spend_usd_micros, r),
    ;
}

/// Per-session paid-inference spend ledger consulted before paid dispatch.
pub struct SessionCostLedger {
    by_session: HashMap<u128, u64>,
}

/// `a + b`, saturated at `u64::MAX`.
pub open spec fn saturating_add(a: u64, b: u64) -> u64 {
    if a + b > u64::MAX {
        u64::MAX
    } else {
        (a + b) as u64
    }
}

/// Spend recorded for a session in a ledger view (zero when absent).
pub open spec fn spend_of(m: Map<u128, u64>, session_id: u128) -> u64 {
    if m.contains_key(session_id) {
        m[session_id]
    } else {
        0
    }
}

/// The ledger view after restoring `spends`: zero spends are skipped and a
/// later entry for the same session wins.
pub open spec fn restored(spends: Seq<(u128, u64)>) -> Map<u128, u64>
    decreases spends.len(),
{
    if spends.len() == 0 {
        Map::empty()
    } else {
        let prev = restored(spends.drop_last());
        let (id, spend) = spends.last();
        if spend > 0 {
            prev.insert(id, spend)
        } else {
            prev
        }
    }
}

/// The decision `evaluate_budget` owes for a policy, a current spend and an estimate.
pub open spec fn budget_decision(policy: CostPolicyConfig, spend: u64, estimate: u64) -> BudgetDecision {
    if policy.max_attempt_usd_micros matches Some(max_attempt) && estimate > max_attempt {
        BudgetDecision::DenyAttempt
    } else if saturating_add(spend, estimate) > policy.max_session_usd_micros {
        BudgetDecision::DenySession
    } else {
        BudgetDecision::Allow { estimate_usd_micros: estimate }
    }
}

impl View for SessionCostLedger {
    type V = Map<u128, u64>;

    closed spec fn view(&self) -> Map<u128, u64> {
        self.by_session@
    }
}

impl SessionCostLedger {
    /// An empty ledger.
    #[must_use]
    pub fn new() -> (r: Self)
        ensures
            r@ == Map::<u128, u64>::empty(),
    {
        Self { by_session: HashMap::new() }
    }

    /// Builds a ledger from the spends that `store` restores.
    ///
    /// # Errors
    ///
    /// Returns the store's error when it cannot load prior spends.
    pub fn with_durable_store<S: DurableSpendStore>(store: &S) -> (r: Result<Self, OpenRouterError>)
        ensures
            exists|x: Result<Vec<(u128, u64)>, OpenRouterError>|
                #[trigger] store.loads(x) && match x {
                    Ok(spends) => r matches Ok(l) && l@ == restored(spends@),
                    Err(e) => r == Err::<Self, OpenRouterError>(e),
                },
    {
        let mut ledger = Self::new();
        match ledger.restore_from_durable(store) {
            Ok(()) => Ok(ledger),
            Err(e) => Err(e),
        }
    }

    /// Reloads redacted spends from the durable store after restart.
    ///
    /// # Errors
    ///
    /// Returns the store's error, leaving the ledger unchanged.
    pub fn restore_from_durable<S: DurableSpendStore>(&mut self, store: &S) -> (r: Result<
        (),
        OpenRouterError,
    >)
        ensures
            exists|x: Result<Vec<(u128, u64)>, OpenRouterError>|
                #[trigger] store.loads(x) && match x {
                    Ok(spends) => r is Ok && final(self)@ == restored(spends@),
                    Err(e) => r == Err::<(), OpenRouterError>(e) && final(self)@ == old(self)@,
                },
    {
        let loaded = store.load_spends();
        let ghost x = loaded;
        match loaded {
            Ok(spends) => {
                self.restore_spends(&spends);
                assert(store.loads(x));
                Ok(())
            },
            Err(e) => {
                assert(store.loads(x));
                Err(e)
            },
        }
    }

    /// Replaces the ledger with `spends`, skipping zero totals.
    pub fn restore_spends(&mut self, spends: &Vec<(u128, u64)>)
        ensures
            final(self)@ == restored(spends@),
    {
        self.by_session.clear();
        let mut i: usize = 0;
        while i < spends.len()
            invariant
                i <= spends@.len(),
                self.by_session@ == restored(spends@.take(i as int)),
            decreases spends@.len() - i,
        {
            let (session_id, spend) = spends[i];
            assert(spends@.take(i + 1).drop_last() =~= spends@.take(i as int));
            if spend > 0 {
                self.by_session.insert(session_id, spend);
            }
            i += 1;
        }
        assert(spends@.take(spends@.len() as int) =~= spends@);
    }

    /// The recorded spend of a session, zero when none was recorded.
    #[must_use]
    pub fn spend_usd_micros(&self, session_id: u128) -> (r: u64)
        ensures
            r == spend_of(self@, session_id),
    {
        match self.by_session.get(&session_id) {
            Some(spend) => *spend,
            None => 0,
        }
    }

    /// Records a completion spend and returns the session's new total.
    ///
    /// # Errors
    ///
    /// Never fails in memory; the `Result` matches the durable variant.
    pub fn record_spend(&mut self, session_id: u128, usd_micros: u64) -> (r: Result<u64, OpenRouterError>)
        ensures
            r == Ok::<u64, OpenRouterError>(saturating_add(spend_of(old(self)@, session_id), usd_micros)),
            usd_micros == 0 ==> final(self)@ == old(self)@,
            usd_micros > 0 ==> final(self)@ == old(self)@.insert(
                session_id,
                saturating_add(spend_of(old(self)@, session_id), usd_micros),
            ),
    {
        if usd_micros == 0 {
            return Ok(self.spend_usd_micros(session_id));
        }
        let total = self.spend_usd_micros(session_id).saturating_add(usd_micros);
        self.by_session.insert(session_id, total);
        Ok(total)
    }

    /// Records a completion spend and persists the new total through `store`.
    ///
    /// # Errors
    ///
    /// Returns the store's error after the in-memory update.
    pub fn record_spend_durable<S: DurableSpendStore>(
        &mut self,
        store: &S,
        session_id: u128,
        usd_micros: u64,
    ) -> (r: Result<u64, OpenRouterError>)
        ensures
            usd_micros == 0 ==> final(self)@ == old(self)@ && r == Ok::<u64, OpenRouterError>(
                spend_of(old(self)@, session_id),
            ),
            usd_micros > 0 ==> final(self)@ == old(self)@.insert(
                session_id,
                saturating_add(spend_of(old(self)@, session_id), usd_micros),
            ),
            usd_micros > 0 ==> exists|x: Result<(), OpenRouterError>|
                #[trigger] store.persists(
                    session_id,
                    saturating_add(spend_of(old(self)@, session_id), usd_micros),
                    x,
                ) && r == match x {
                    Ok(()) => Ok::<u64, OpenRouterError>(
                        saturating_add(spend_of(old(self)@, session_id), usd_micros),
                    ),
                    Err(e) => Err(e),
                },
    {
        if usd_micros == 0 {
            return Ok(self.spend_usd_micros(session_id));
        }
        let total = self.spend_usd_micros(session_id).saturating_add(usd_micros);
        self.by_session.insert(session_id, total);
        let persisted = store.persist_spend(session_id, total);
        let ghost x = persisted;
        match persisted {
            Ok(()) => {
                assert(store.persists(session_id, total, x));
                Ok(total)
            },
            Err(e) => {
                assert(store.persists(session_id, total, x));
                Err(e)
            },
        }
    }

    /// Seeds the ledger directly (does not persist).
    pub fn seed_spend(&mut self, session_id: u128, usd_micros: u64)
        ensures
            final(self)@ == old(self)@.insert(session_id, usd_micros),
    {
        self.by_session.insert(session_id, usd_micros);
    }
}

/// Evaluates whether a paid attempt may start for one session.
#[must_use]
pub fn evaluate_budget(
    policy: CostPolicyConfig,
    ledger: &SessionCostLedger,
    session_id: u128,
    estimate_usd_micros: u64,
) -> (r: BudgetDecision)
    ensures
        r == budget_decision(policy, spend_of(ledger@, session_id), estimate_usd_micros),
        (r == BudgetDecision::DenyAttempt) <==> (policy.max_attempt_usd_micros matches Some(m)
            && estimate_usd_micros > m),
        r is Allow ==> r == (BudgetDecision::Allow { estimate_usd_micros }),
        !(policy.max_attempt_usd_micros matches Some(m) && estimate_usd_micros > m) ==> (
        spend_of(ledger@, session_id) + estimate_usd_micros <= policy.max_session_usd_micros ==> r
            == (BudgetDecision::Allow { estimate_usd_micros })),
        !(policy.max_attempt_usd_micros matches Some(m) && estimate_usd_micros > m) ==> (
        spend_of(ledger@, session_id) + estimate_usd_micros > policy.max_session_usd_micros
            && policy.max_session_usd_micros < u64::MAX ==> r == BudgetDecision::DenySession),
{
    if let Some(max_attempt) = policy.max_attempt_usd_micros {
        if estimate_usd_micros > max_attempt {
            return BudgetDecision::DenyAttempt;
        }
    }
    let spend = ledger.spend_usd_micros(session_id);
    let projected = spend.saturating_add(estimate_usd_micros);
    if projected > policy.max_session_usd_micros {
        BudgetDecision::DenySession
    } else {
        BudgetDecision::Allow { estimate_usd_micros }
    }
}

/// Converts a deny decision into a redacted pre-dispatch error.
///
/// # Errors
///
/// Returns a budget error for both deny variants.
pub fn deny_error(decision: BudgetDecision) -> (r: Result<(), OpenRouterError>)
    ensures
        decision is Allow <==> r is Ok,
        r matches Err(e) ==> e.spec_kind() == OpenRouterErrorKind::BudgetExceeded,
        decision is DenySession ==> (r matches Err(e) && e.spec_message()
            == "session paid-inference budget would be exceeded"@),
        decision is DenyAttempt ==> (r matches Err(e) && e.spec_message()
            == "attempt paid-inference budget would be exceeded"@),
{
    match decision {
        BudgetDecision::Allow { .. } => Ok(()),
        BudgetDecision::DenySession => {
            proof {
                reveal_strlit("session paid-inference budget would be exceeded");
            }
            Err(
                OpenRouterError::fixed(
                    OpenRouterErrorKind::BudgetExceeded,
                    "session paid-inference budget would be exceeded",
                ),
            )
        },
        BudgetDecision::DenyAttempt => {
            proof {
                reveal_strlit("attempt paid-inference budget would be exceeded");
            }
            Err(
                OpenRouterError::fixed(
                    OpenRouterErrorKind::BudgetExceeded,
                    "attempt paid-inference budget would be exceeded",
                ),
            )
        },
    }
}

/// Estimates attempt cost using the conservative default, capped by session.
#[must_use]
pub fn estimate_attempt_usd_micros(policy: CostPolicyConfig) -> (r: u64)
    ensures
        r == (if DEFAULT_ATTEMPT_ESTIMATE_USD_MICROS <= policy.max_session_usd_micros {
            DEFAULT_ATTEMPT_ESTIMATE_USD_MICROS
        } else {
            policy.max_session_usd_micros
        }),
{
    if DEFAULT_ATTEMPT_ESTIMATE_USD_MICROS <= policy.max_session_usd_micros {
        DEFAULT_ATTEMPT_ESTIMATE_USD_MICROS
    } else {
        policy.max_session_usd_micros
    }
}

/// An allowed attempt respects the attempt ceiling and keeps the session's
/// projected spend within the session ceiling.
pub proof fn allowed_attempt_respects_ceilings(policy: CostPolicyConfig, spend: u64, estimate: u64)
    requires
        budget_decision(policy, spend, estimate) is Allow,
    ensures
        policy.max_attempt_usd_micros matches Some(m) ==> estimate <= m,
        spend + estimate <= u64::MAX ==> spend + estimate <= policy.max_session_usd_micros,
        budget_decision(policy, spend, estimate) == (BudgetDecision::Allow { estimate_usd_micros: estimate }),
{
}

/// Recording a spend for one session leaves every other session's spend as it was.
pub proof fn recording_isolates_sessions(
    before: Map<u128, u64>,
    session_id: u128,
    other: u128,
    total: u64,
)
    requires
        session_id != other,
    ensures
        spend_of(before.insert(session_id, total), other) == spend_of(before, other),
        spend_of(before.insert(session_id, total), session_id) == total,
{
}

/// Recorded spends never decrease a session's total.
pub proof fn recording_never_lowers_spend(before: Map<u128, u64>, session_id: u128, usd: u64)
    ensures
        saturating_add(spend_of(before, session_id), usd) >= spend_of(before, session_id),
{
}


/// The budget refuses only what a ceiling forbids: an attempt is denied
/// exactly when it exceeds the per-attempt ceiling; otherwise, when the
/// current spend plus the estimate stays within the session ceiling, the
/// attempt is allowed with that estimate, and when it goes over a session
/// ceiling below `u64::MAX` the session is denied. An allowed attempt
/// always carries the estimate it was asked with.
pub proof fn budget_denies_only_what_a_ceiling_forbids(
    policy: CostPolicyConfig,
    spend: u64,
    estimate: u64,
)
    ensures
        (budget_decision(policy, spend, estimate) == BudgetDecision::DenyAttempt) <==> (
        policy.max_attempt_usd_micros matches Some(m) && estimate > m),
        budget_decision(policy, spend, estimate) is Allow ==> budget_decision(policy, spend, estimate)
            == (BudgetDecision::Allow { estimate_usd_micros: estimate }),
        !(policy.max_attempt_usd_micros matches Some(m) && estimate > m) ==> (spend + estimate
            <= policy.max_session_usd_micros ==> budget_decision(policy, spend, estimate)
            == (BudgetDecision::Allow { estimate_usd_micros: estimate })),
        !(policy.max_attempt_usd_micros matches Some(m) && estimate > m) ==> (spend + estimate
            > policy.max_session_usd_micros && policy.max_session_usd_micros < u64::MAX
            ==> budget_decision(policy, spend, estimate) == BudgetDecision::DenySession),
{
}

} // verus!
