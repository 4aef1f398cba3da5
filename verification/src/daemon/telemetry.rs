//! Bounded, content-free daemon metrics.
//!
//! Counters are keyed by closed label sets only; a record with any other
//! label is dropped and counted as rejected.

use vstd::prelude::*;

use crate::text::str_eq;

verus! {

/// Number of route rules.
pub const ROUTE_RULE_COUNT: usize = 5;

/// Number of outcomes.
pub const OUTCOME_COUNT: usize = 8;

/// Fixed routing labels accepted by daemon metrics.
#[derive(Clone, Copy, Debug, Eq, PartialEq, Structural)]
pub enum RouteRule {
    Explicit,
    Workflow,
    Resolver,
    Coordinator,
    Clarification,
}

/// Position of a route rule in the counter table.
pub open spec fn route_index(rule: RouteRule) -> int {
    match rule {
        RouteRule::Explicit => 0,
        RouteRule::Workflow => 1,
        RouteRule::Resolver => 2,
        RouteRule::Coordinator => 3,
        RouteRule::Clarification => 4,
    }
}

/// The route rule a label names, if any.
pub open spec fn route_rule_of(label: Seq<char>) -> Option<RouteRule> {
    if label == "explicit"@ {
        Some(RouteRule::Explicit)
    } else if label == "workflow"@ {
        Some(RouteRule::Workflow)
    } else if label == "resolver"@ {
        Some(RouteRule::Resolver)
    } else if label == "coordinator"@ {
        Some(RouteRule::Coordinator)
    } else if label == "clarification"@ {
        Some(RouteRule::Clarification)
    } else {
        None
    }
}

impl RouteRule {
    fn index(self) -> (r: usize)
        ensures
            r == route_index(self),
    {
        match self {
            Self::Explicit => 0,
            Self::Workflow => 1,
            Self::Resolver => 2,
            Self::Coordinator => 3,
            Self::Clarification => 4,
        }
    }

    fn from_static_label(label: &str) -> (r: Option<Self>)
        ensures
            r == route_rule_of(label@),
    {
        if str_eq(label, "explicit") {
            Some(Self::Explicit)
        } else if str_eq(label, "workflow") {
            Some(Self::Workflow)
        } else if str_eq(label, "resolver") {
            Some(Self::Resolver)
        } else if str_eq(label, "coordinator") {
            Some(Self::Coordinator)
        } else if str_eq(label, "clarification") {
            Some(Self::Clarification)
        } else {
            None
        }
    }
}

/// Fixed lifecycle outcomes accepted by daemon metrics.
#[derive(Clone, Copy, Debug, Eq, PartialEq, Structural)]
pub enum TelemetryOutcome {
    Success,
    Denied,
    Failed,
    Cancelled,
    Abandoned,
    Timeout,
    OutcomeUnknown,
    ClientLagged,
}

/// Position of an outcome in the counter tables.
pub open spec fn outcome_index(outcome: TelemetryOutcome) -> int {
    match outcome {
        TelemetryOutcome::Success => 0,
        TelemetryOutcome::Denied => 1,
        TelemetryOutcome::Failed => 2,
        TelemetryOutcome::Cancelled => 3,
        TelemetryOutcome::Abandoned => 4,
        TelemetryOutcome::Timeout => 5,
        TelemetryOutcome::OutcomeUnknown => 6,
        TelemetryOutcome::ClientLagged => 7,
    }
}

/// The outcome a label names, if any.
pub open spec fn outcome_of(label: Seq<char>) -> Option<TelemetryOutcome> {
    if label == "success"@ {
        Some(TelemetryOutcome::Success)
    } else if label == "denied"@ {
        Some(TelemetryOutcome::Denied)
    } else if label == "failed"@ {
        Some(TelemetryOutcome::Failed)
    } else if label == "cancelled"@ {
        Some(TelemetryOutcome::Cancelled)
    } else if label == "abandoned"@ {
        Some(TelemetryOutcome::Abandoned)
    } else if label == "timeout"@ {
        Some(TelemetryOutcome::Timeout)
    } else if label == "outcome_unknown"@ {
        Some(TelemetryOutcome::OutcomeUnknown)
    } else if label == "client_lagged"@ {
        Some(TelemetryOutcome::ClientLagged)
    } else {
        None
    }
}

impl TelemetryOutcome {
    fn index(self) -> (r: usize)
        ensures
            r == outcome_index(self),
    {
        match self {
            Self::Success => 0,
            Self::Denied => 1,
            Self::Failed => 2,
            Self::Cancelled => 3,
            Self::Abandoned => 4,
            Self::Timeout => 5,
            Self::OutcomeUnknown => 6,
            Self::ClientLagged => 7,
        }
    }

    fn from_static_label(label: &str) -> (r: Option<Self>)
        ensures
            r == outcome_of(label@),
    {
        if str_eq(label, "success") {
            Some(Self::Success)
        } else if str_eq(label, "denied") {
            Some(Self::Denied)
        } else if str_eq(label, "failed") {
            Some(Self::Failed)
        } else if str_eq(label, "cancelled") {
            Some(Self::Cancelled)
        } else if str_eq(label, "abandoned") {
            Some(Self::Abandoned)
        } else if str_eq(label, "timeout") {
            Some(Self::Timeout)
        } else if str_eq(label, "outcome_unknown") {
            Some(Self::OutcomeUnknown)
        } else if str_eq(label, "client_lagged") {
            Some(Self::ClientLagged)
        } else {
            None
        }
    }
}

/// External telemetry delivery mode. The default is local-only metrics;
/// OTLP is reserved for a future exporter and cannot be selected while that
/// exporter is unavailable.
#[derive(Clone, Copy, Debug, Eq, PartialEq, Structural)]
pub enum ExternalTelemetryExport {
    Disabled,
    Otlp,
}

impl Default for ExternalTelemetryExport {
    fn default() -> (r: Self)
        ensures
            r == ExternalTelemetryExport::Disabled,
    {
        ExternalTelemetryExport::Disabled
    }
}

/// Telemetry initialization failure.
#[derive(Clone, Copy, Debug, Eq, PartialEq, Structural)]
pub enum TelemetryError {
    ExternalExporterUnavailable,
}

impl TelemetryError {
    /// The stable text of the failure.
    pub fn message(&self) -> (r: &'static str)
        ensures
            r@ == "OTLP telemetry export was requested but no exporter is available"@,
    {
        "OTLP telemetry export was requested but no exporter is available"
    }
}

/// The counter after one saturating increment.
pub open spec fn bumped(value: u64) -> u64 {
    if value == u64::MAX {
        value
    } else {
        (value + 1) as u64
    }
}

/// Adds one to a counter, saturating at `u64::MAX` instead of wrapping.
pub fn increment(counter: &mut u64)
    ensures
        *final(counter) == bumped(*old(counter)),
{
    *counter = counter.saturating_add(1);
}

/// Position of a route and outcome pair in the flat route table.
pub open spec fn route_slot(rule: RouteRule, outcome: TelemetryOutcome) -> int {
    route_index(rule) * 8 + outcome_index(outcome)
}

/// Immutable copy of the bounded counters.
#[derive(Clone, Debug, Eq, PartialEq)]
pub struct TelemetrySnapshot {
    route_decisions: [u64; 40],
    attempts: [u64; 8],
    rejected_records: u64,
    external_export: ExternalTelemetryExport,
}

impl TelemetrySnapshot {
    /// Route decisions counted for one label pair.
    pub closed spec fn route_count(&self, rule: RouteRule, outcome: TelemetryOutcome) -> u64 {
        self.route_decisions@[route_slot(rule, outcome)]
    }

    /// Attempts counted for one outcome.
    pub closed spec fn attempt_count(&self, outcome: TelemetryOutcome) -> u64 {
        self.attempts@[outcome_index(outcome)]
    }

    /// Records dropped for a label outside the closed sets.
    pub closed spec fn rejected_count(&self) -> u64 {
        self.rejected_records
    }

    /// Delivery mode of the sink the snapshot was taken from.
    pub closed spec fn export_mode(&self) -> ExternalTelemetryExport {
        self.external_export
    }

    /// Returns the route decision count for one fixed label pair.
    pub fn route_decisions(&self, rule: RouteRule, outcome: TelemetryOutcome) -> (r: u64)
        ensures
            r == self.route_count(rule, outcome),
    {
        self.route_decisions[rule.index() * 8 + outcome.index()]
    }

    /// Returns the attempt count for one fixed outcome.
    pub fn attempts(&self, outcome: TelemetryOutcome) -> (r: u64)
        ensures
            r == self.attempt_count(outcome),
    {
        self.attempts[outcome.index()]
    }

    /// Returns the number of records dropped because a label was not allowed.
    pub fn rejected_records(&self) -> (r: u64)
        ensures
            r == self.rejected_count(),
    {
        self.rejected_records
    }

    /// Reports whether external delivery was enabled for the sink.
    pub fn external_export(&self) -> (r: ExternalTelemetryExport)
        ensures
            r == self.export_mode(),
    {
        self.external_export
    }
}

/// Telemetry sink with a bounded label space.
#[derive(Debug)]
pub struct BoundedTelemetry {
    route_decisions: [u64; 40],
    attempts: [u64; 8],
    rejected_records: u64,
    external_export: ExternalTelemetryExport,
}

impl BoundedTelemetry {
    /// Route decisions counted for one label pair.
    pub closed spec fn route_count(&self, rule: RouteRule, outcome: TelemetryOutcome) -> u64 {
        self.route_decisions@[route_slot(rule, outcome)]
    }

    /// Attempts counted for one outcome.
    pub closed spec fn attempt_count(&self, outcome: TelemetryOutcome) -> u64 {
        self.attempts@[outcome_index(outcome)]
    }

    /// Records dropped for a label outside the closed sets.
    pub closed spec fn rejected_count(&self) -> u64 {
        self.rejected_records
    }

    /// Delivery mode of the sink.
    pub closed spec fn export_mode(&self) -> ExternalTelemetryExport {
        self.external_export
    }

    /// Every counter is zero.
    pub open spec fn is_fresh(&self) -> bool {
        &&& forall|r: RouteRule, o: TelemetryOutcome| #[trigger] self.route_count(r, o) == 0
        &&& forall|o: TelemetryOutcome| #[trigger] self.attempt_count(o) == 0
        &&& self.rejected_count() == 0
    }

    /// Initializes telemetry with the requested external delivery policy.
    ///
    /// # Errors
    ///
    /// `ExternalExporterUnavailable` when OTLP is requested: this build has no
    /// external exporter, and no partially enabled sink is returned.
    pub fn initialize(external_export: ExternalTelemetryExport) -> (r: Result<
        Self,
        TelemetryError,
    >)
        ensures
            external_export == ExternalTelemetryExport::Disabled ==> (r matches Ok(t)
                && t.is_fresh() && t.export_mode() == ExternalTelemetryExport::Disabled),
            external_export == ExternalTelemetryExport::Otlp ==> r == Err::<Self, TelemetryError>(
                TelemetryError::ExternalExporterUnavailable,
            ),
    {
        match external_export {
            ExternalTelemetryExport::Disabled => Ok(Self::local_only()),
            ExternalTelemetryExport::Otlp => Err(TelemetryError::ExternalExporterUnavailable),
        }
    }

    fn local_only() -> (r: Self)
        ensures
            r.is_fresh(),
            r.export_mode() == ExternalTelemetryExport::Disabled,
    {
        let r = Self {
            route_decisions: [0u64; 40],
            attempts: [0u64; 8],
            rejected_records: 0,
            external_export: ExternalTelemetryExport::Disabled,
        };
        assert forall|rule: RouteRule, o: TelemetryOutcome| #[trigger] r.route_count(rule, o)
            == 0 by {
            assert(0 <= route_slot(rule, o) < 40);
        }
        assert forall|o: TelemetryOutcome| #[trigger] r.attempt_count(o) == 0 by {
            assert(0 <= outcome_index(o) < 8);
        }
        r
    }

    /// Records a route using only typed, bounded labels.
    pub fn record_bounded_route(&mut self, rule: RouteRule, outcome: TelemetryOutcome)
        ensures
            final(self).route_count(rule, outcome) == bumped(old(self).route_count(rule, outcome)),
            forall|r: RouteRule, o: TelemetryOutcome|
                (r, o) != (rule, outcome) ==> #[trigger] final(self).route_count(r, o) == old(
                    self,
                ).route_count(r, o),
            forall|o: TelemetryOutcome| #[trigger]
                final(self).attempt_count(o) == old(self).attempt_count(o),
            final(self).rejected_count() == old(self).rejected_count(),
            final(self).export_mode() == old(self).export_mode(),
    {
        let slot = rule.index() * 8 + outcome.index();
        let mut value = self.route_decisions[slot];
        increment(&mut value);
        self.route_decisions[slot] = value;
        assert forall|r: RouteRule, o: TelemetryOutcome|
            (r, o) != (rule, outcome) implies #[trigger] self.route_count(r, o) == old(
                self,
            ).route_count(r, o) by {
            assert(route_slot(r, o) != route_slot(rule, outcome));
            assert(0 <= route_slot(r, o) < 40);
        }
    }

    /// Records an attempt using only a typed, bounded outcome.
    pub fn record_bounded_attempt(&mut self, outcome: TelemetryOutcome)
        ensures
            final(self).attempt_count(outcome) == bumped(old(self).attempt_count(outcome)),
            forall|o: TelemetryOutcome|
                o != outcome ==> #[trigger] final(self).attempt_count(o) == old(
                    self,
                ).attempt_count(o),
            forall|r: RouteRule, o: TelemetryOutcome| #[trigger]
                final(self).route_count(r, o) == old(self).route_count(r, o),
            final(self).rejected_count() == old(self).rejected_count(),
            final(self).export_mode() == old(self).export_mode(),
    {
        let slot = outcome.index();
        let mut value = self.attempts[slot];
        increment(&mut value);
        self.attempts[slot] = value;
        assert forall|o: TelemetryOutcome| o != outcome implies #[trigger] self.attempt_count(o)
            == old(self).attempt_count(o) by {
            assert(outcome_index(o) != outcome_index(outcome));
            assert(0 <= outcome_index(o) < 8);
        }
    }

    /// Captures the current counters.
    pub fn snapshot(&self) -> (r: TelemetrySnapshot)
        ensures
            forall|rule: RouteRule, o: TelemetryOutcome| #[trigger]
                r.route_count(rule, o) == self.route_count(rule, o),
            forall|o: TelemetryOutcome| #[trigger] r.attempt_count(o) == self.attempt_count(o),
            r.rejected_count() == self.rejected_count(),
            r.export_mode() == self.export_mode(),
    {
        TelemetrySnapshot {
            route_decisions: self.route_decisions,
            attempts: self.attempts,
            rejected_records: self.rejected_records,
            external_export: self.external_export,
        }
    }

    fn reject_record(&mut self)
        ensures
            final(self).rejected_count() == bumped(old(self).rejected_count()),
            forall|r: RouteRule, o: TelemetryOutcome| #[trigger]
                final(self).route_count(r, o) == old(self).route_count(r, o),
            forall|o: TelemetryOutcome| #[trigger]
                final(self).attempt_count(o) == old(self).attempt_count(o),
            final(self).export_mode() == old(self).export_mode(),
    {
        increment(&mut self.rejected_records);
    }

    /// Records a route decision given by its wire labels. A label outside
    /// the closed sets drops the record and counts it as rejected.
    pub fn record_route(&mut self, selected_rule: &str, outcome: &str)
        ensures
            match (route_rule_of(selected_rule@), outcome_of(outcome@)) {
                (Some(rule), Some(o)) => {
                    &&& final(self).route_count(rule, o) == bumped(old(self).route_count(rule, o))
                    &&& forall|r2: RouteRule, o2: TelemetryOutcome|
                        (r2, o2) != (rule, o) ==> #[trigger] final(self).route_count(r2, o2)
                            == old(self).route_count(r2, o2)
                    &&& final(self).rejected_count() == old(self).rejected_count()
                },
                _ => {
                    &&& final(self).rejected_count() == bumped(old(self).rejected_count())
                    &&& forall|r2: RouteRule, o2: TelemetryOutcome| #[trigger]
                        final(self).route_count(r2, o2) == old(self).route_count(r2, o2)
                },
            },
            forall|o2: TelemetryOutcome| #[trigger]
                final(self).attempt_count(o2) == old(self).attempt_count(o2),
            final(self).export_mode() == old(self).export_mode(),
    {
        match (RouteRule::from_static_label(selected_rule), TelemetryOutcome::from_static_label(
            outcome,
        )) {
            (Some(rule), Some(outcome)) => self.record_bounded_route(rule, outcome),
            _ => self.reject_record(),
        }
    }

    /// Records a provider attempt given by its wire outcome label. A label
    /// outside the closed set drops the record and counts it as rejected.
    pub fn record_attempt(&mut self, outcome: &str)
        ensures
            match outcome_of(outcome@) {
                Some(o) => {
                    &&& final(self).attempt_count(o) == bumped(old(self).attempt_count(o))
                    &&& forall|o2: TelemetryOutcome|
                        o2 != o ==> #[trigger] final(self).attempt_count(o2) == old(
                            self,
                        ).attempt_count(o2)
                    &&& final(self).rejected_count() == old(self).rejected_count()
                },
                None => {
                    &&& final(self).rejected_count() == bumped(old(self).rejected_count())
                    &&& forall|o2: TelemetryOutcome| #[trigger]
                        final(self).attempt_count(o2) == old(self).attempt_count(o2)
                },
            },
            forall|r2: RouteRule, o2: TelemetryOutcome| #[trigger]
                final(self).route_count(r2, o2) == old(self).route_count(r2, o2),
            final(self).export_mode() == old(self).export_mode(),
    {
        match TelemetryOutcome::from_static_label(outcome) {
            Some(outcome) => self.record_bounded_attempt(outcome),
            None => self.reject_record(),
        }
    }
}

impl Default for BoundedTelemetry {
    /// A local-only sink with every counter at zero.
    fn default() -> (r: Self)
        ensures
            r.is_fresh(),
            r.export_mode() == ExternalTelemetryExport::Disabled,
    {
        Self::local_only()
    }
}

} // verus!
