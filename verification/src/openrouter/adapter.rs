//! Adapter rules that need no network: which configurations connect, which
//! transport failures are definite, and how a finished stream is judged.

use vstd::prelude::*;
use vstd::utf8::{decode_utf8, encode_utf8, valid_utf8};

use crate::failure::{CoreError, FailureCategory, ProviderFailure};
use crate::openrouter::attempts::{AttemptSlot, after_begin, after_release};
use crate::openrouter::budget::{
    BudgetDecision, CostPolicyConfig, SessionCostLedger, deny_error, saturating_add, spend_of,
};
use crate::openrouter::protocol::{body_fits, decode_body, payloads_outputs, sse_payloads};
use crate::openrouter::transport::{MAX_BODY_BYTES, TransportResult};
use crate::openrouter::error::{OpenRouterError, OpenRouterErrorKind, provider_category};
use crate::text::utf8_len;

verus! {

/// Longest adapter version, in bytes.
pub const MAX_ADAPTER_VERSION_BYTES: usize = 256;

/// A configuration the adapter accepts: a cancellation deadline, a version
/// of 1 to 256 bytes, a credential reference, and a session budget.
pub open spec fn connect_config_ok(
    cancellation_deadline_nanos: u128,
    adapter_version: Seq<char>,
    credential_ref: Seq<char>,
    policy: CostPolicyConfig,
) -> bool {
    cancellation_deadline_nanos > 0 && adapter_version.len() > 0 && encode_utf8(
        adapter_version,
    ).len() <= 256 && credential_ref.len() > 0 && policy.max_session_usd_micros > 0
}

/// Checks the configuration the adapter is connected with.
///
/// # Errors
///
/// `InvalidRequest` ("OpenRouter adapter configuration is invalid") for a
/// zero deadline, an empty or oversized version, an empty credential
/// reference, or a zero session budget.
pub fn validate_connect(
    cancellation_deadline_nanos: u128,
    adapter_version: &str,
    credential_ref: &str,
    policy: CostPolicyConfig,
) -> (r: Result<(), CoreError>)
    ensures
        connect_config_ok(cancellation_deadline_nanos, adapter_version@, credential_ref@, policy)
            ==> r is Ok,
        !connect_config_ok(cancellation_deadline_nanos, adapter_version@, credential_ref@, policy)
            ==> (r matches Err(e) && e.category == FailureCategory::InvalidRequest && e.message@
            == "OpenRouter adapter configuration is invalid"@),
{
    let version_len = utf8_len(adapter_version);
    if cancellation_deadline_nanos == 0 || version_len == 0 || version_len
        > MAX_ADAPTER_VERSION_BYTES || credential_ref.is_empty()
        || policy.max_session_usd_micros == 0 {
        return Err(
            CoreError {
                category: FailureCategory::InvalidRequest,
                message: "OpenRouter adapter configuration is invalid".to_owned(),
            },
        );
    }
    Ok(())
}

/// Transport failures that happen before anything was sent: a missing or
/// empty credential, an exhausted budget, or an invalid configuration.
pub open spec fn definite_before_dispatch(kind: OpenRouterErrorKind) -> bool {
    kind == OpenRouterErrorKind::CredentialMissing || kind == OpenRouterErrorKind::CredentialEmpty
        || kind == OpenRouterErrorKind::BudgetExceeded || kind
        == OpenRouterErrorKind::InvalidConfig
}

/// Whether a transport failure is definite, so no request can have reached
/// the provider.
pub fn transport_failure_definite(kind: OpenRouterErrorKind) -> (r: bool)
    ensures
        r == definite_before_dispatch(kind),
{
    match kind {
        OpenRouterErrorKind::CredentialMissing | OpenRouterErrorKind::CredentialEmpty
        | OpenRouterErrorKind::BudgetExceeded | OpenRouterErrorKind::InvalidConfig => true,
        _ => false,
    }
}

/// Judges a decoded stream: a stream that reached its terminal marker
/// completes and is charged at least one micro-dollar; any other stream
/// leaves the outcome unknown.
///
/// # Errors
///
/// `OutcomeUnknown`, with one message when nothing was received and another
/// when output came without the terminal marker.
pub fn stream_outcome(has_outputs: bool, completed: bool, cost_usd_micros: u64) -> (r: Result<
    u64,
    OpenRouterError,
>)
    ensures
        completed ==> r == Ok::<u64, OpenRouterError>(
            if cost_usd_micros == 0 {
                1
            } else {
                cost_usd_micros
            },
        ),
        !completed && !has_outputs ==> (r matches Err(e) && e.spec_kind()
            == OpenRouterErrorKind::OutcomeUnknown && e.spec_message()
            == "OpenRouter stream ended without a definite completion"@),
        !completed && has_outputs ==> (r matches Err(e) && e.spec_kind()
            == OpenRouterErrorKind::OutcomeUnknown && e.spec_message()
            == "OpenRouter stream ended without a terminal marker"@),
{
    if !completed && !has_outputs {
        proof {
            reveal_strlit("OpenRouter stream ended without a definite completion");
        }
        return Err(
            OpenRouterError::fixed(
                OpenRouterErrorKind::OutcomeUnknown,
                "OpenRouter stream ended without a definite completion",
            ),
        );
    }
    if completed {
        Ok(
            if cost_usd_micros == 0 {
                1
            } else {
                cost_usd_micros
            },
        )
    } else {
        proof {
            reveal_strlit("OpenRouter stream ended without a terminal marker");
        }
        Err(
            OpenRouterError::fixed(
                OpenRouterErrorKind::OutcomeUnknown,
                "OpenRouter stream ended without a terminal marker",
            ),
        )
    }
}


/// A provider failure that carries an adapter failure's category and
/// message.
pub open spec fn failure_from(
    f: ProviderFailure,
    kind: OpenRouterErrorKind,
    message: Seq<char>,
    definite: bool,
) -> bool {
    f.category == provider_category(kind) && f.user_safe_message@ == message && f.definite
        == definite
}

/// The message a budget refusal carries.
pub open spec fn budget_refusal(decision: BudgetDecision) -> Seq<char> {
    if decision is DenySession {
        "session paid-inference budget would be exceeded"@
    } else {
        "attempt paid-inference budget would be exceeded"@
    }
}

/// Checks, in order, what must hold before a paid prompt is sent: no other
/// attempt is active on the session, the credential resolved, the budget
/// allows the estimate, and the attempt was not cancelled first. Every
/// refusal is definite, since nothing was sent; on success the secret is
/// handed on.
///
/// # Errors
///
/// The first refusal, as a provider failure.
pub fn prompt_preflight(
    active_attempt: bool,
    secret: Result<String, OpenRouterError>,
    decision: BudgetDecision,
    cancelled: bool,
) -> (r: Result<String, ProviderFailure>)
    ensures
        active_attempt ==> (r matches Err(f) && failure_from(
            f,
            OpenRouterErrorKind::Unavailable,
            "OpenRouter session already has an active attempt"@,
            true,
        )),
        !active_attempt && secret is Err ==> (r matches Err(f) && failure_from(
            f,
            secret->Err_0.spec_kind(),
            secret->Err_0.spec_message(),
            true,
        )),
        !active_attempt && secret is Ok && !(decision is Allow) ==> (r matches Err(f)
            && failure_from(f, OpenRouterErrorKind::BudgetExceeded, budget_refusal(decision), true)),
        !active_attempt && secret is Ok && decision is Allow && cancelled ==> (r matches Err(f)
            && failure_from(
            f,
            OpenRouterErrorKind::Cancelled,
            "OpenRouter attempt was cancelled before dispatch"@,
            true,
        )),
        !active_attempt && secret is Ok && decision is Allow && !cancelled ==> (r matches Ok(s)
            && s == secret->Ok_0),
{
    if active_attempt {
        proof {
            reveal_strlit("OpenRouter session already has an active attempt");
        }
        return Err(
            OpenRouterError::fixed(
                OpenRouterErrorKind::Unavailable,
                "OpenRouter session already has an active attempt",
            ).into_provider_failure(true),
        );
    }
    let secret = match secret {
        Ok(secret) => secret,
        Err(error) => return Err(error.into_provider_failure(true)),
    };
    match deny_error(decision) {
        Ok(()) => {},
        Err(error) => return Err(error.into_provider_failure(true)),
    }
    if cancelled {
        proof {
            reveal_strlit("OpenRouter attempt was cancelled before dispatch");
        }
        return Err(
            OpenRouterError::fixed(
                OpenRouterErrorKind::Cancelled,
                "OpenRouter attempt was cancelled before dispatch",
            ).into_provider_failure(true),
        );
    }
    Ok(secret)
}

/// Judges what the transport returned before the stream is decoded: a
/// transport failure is definite only when nothing can have reached the
/// provider, and a cancellation that arrived meanwhile wins.
///
/// # Errors
///
/// The transport's failure, or the cancellation.
pub fn transport_outcome(transport_failure: Option<OpenRouterError>, cancelled: bool) -> (r: Result<
    (),
    ProviderFailure,
>)
    ensures
        transport_failure matches Some(e) ==> (r matches Err(f) && failure_from(
            f,
            e.spec_kind(),
            e.spec_message(),
            definite_before_dispatch(e.spec_kind()),
        )),
        transport_failure is None && cancelled ==> (r matches Err(f) && failure_from(
            f,
            OpenRouterErrorKind::Cancelled,
            "OpenRouter attempt was cancelled"@,
            true,
        )),
        transport_failure is None && !cancelled ==> r is Ok,
{
    match transport_failure {
        Some(error) => {
            let definite = transport_failure_definite(error.kind());
            Err(error.into_provider_failure(definite))
        },
        None => if cancelled {
            proof {
                reveal_strlit("OpenRouter attempt was cancelled");
            }
            Err(
                OpenRouterError::fixed(
                    OpenRouterErrorKind::Cancelled,
                    "OpenRouter attempt was cancelled",
                ).into_provider_failure(true),
            )
        } else {
            Ok(())
        },
    }
}


/// One item of a provider stream: an assistant text, or the end of a
/// completed attempt.
#[derive(Debug, PartialEq)]
pub enum ProviderOutput {
    Content { event_type: String, text: String },
    Completed { summary: String },
}

/// What a body decodes to: its texts and whether its end marker came, or
/// the kind of failure that refuses it.
pub open spec fn body_outputs(body: Seq<u8>) -> Result<(Seq<Seq<char>>, bool), OpenRouterErrorKind> {
    if body.len() > MAX_BODY_BYTES {
        Err(OpenRouterErrorKind::ResponseTooLarge)
    } else if !valid_utf8(body) {
        Err(OpenRouterErrorKind::MalformedStream)
    } else {
        match payloads_outputs(sse_payloads(decode_utf8(body))) {
            Ok(x) => Ok(x),
            Err((kind, _)) => Err(kind),
        }
    }
}

/// An assistant message with the given text.
pub open spec fn is_message(item: ProviderOutput, text: Seq<char>) -> bool {
    item matches ProviderOutput::Content { event_type, text: t } && event_type@
        == "assistant_message"@ && t@ == text
}

/// The items of a completed stream: each text as an assistant message,
/// then one completion.
pub open spec fn completed_items(texts: Seq<Seq<char>>, items: Seq<ProviderOutput>) -> bool {
    &&& items.len() == texts.len() + 1
    &&& forall|i: int|
        0 <= i < texts.len() ==> is_message(#[trigger] items[i], texts[i])
    &&& items.last() matches ProviderOutput::Completed { summary } && summary@
        == "openrouter completed"@
}

/// The spend a completed attempt is charged: what it cost, at least one
/// micro-dollar.
pub open spec fn charged(cost_usd_micros: u64) -> u64 {
    if cost_usd_micros == 0 {
        1
    } else {
        cost_usd_micros
    }
}

/// Finishes an attempt once the transport has answered: the attempt is
/// always released; a transport failure, a cancellation or an undecodable
/// body fails it; a stream without its end marker leaves the outcome
/// unknown, a non-definite failure; a completed stream yields its texts and
/// one completion, and its spend is recorded once. Only a completed stream
/// changes the ledger.
///
/// # Errors
///
/// The failure, as a provider failure.
pub fn finish_prompt(
    slot: &mut AttemptSlot,
    ledger: &mut SessionCostLedger,
    session_id: u128,
    attempt_id: u128,
    transport: Result<TransportResult, OpenRouterError>,
) -> (r: Result<Vec<ProviderOutput>, ProviderFailure>)
    requires
        transport matches Ok(t) ==> body_fits(t.body@),
    ensures
        final(slot)@ == after_release(old(slot)@, attempt_id),
        !(r is Ok) ==> final(ledger)@ == old(ledger)@,
        match transport {
            Err(e) => r matches Err(f) && failure_from(
                f,
                e.spec_kind(),
                e.spec_message(),
                definite_before_dispatch(e.spec_kind()),
            ),
            Ok(t) => if old(slot)@.active matches Some(a) && a.cancel_requested {
                r matches Err(f) && failure_from(
                    f,
                    OpenRouterErrorKind::Cancelled,
                    "OpenRouter attempt was cancelled"@,
                    true,
                )
            } else {
                match body_outputs(t.body@) {
                    Err(kind) => r matches Err(f) && f.category == provider_category(kind)
                        && !f.definite,
                    Ok((texts, done)) => if !done {
                        r matches Err(f) && failure_from(
                            f,
                            OpenRouterErrorKind::OutcomeUnknown,
                            if texts.len() == 0 {
                                "OpenRouter stream ended without a definite completion"@
                            } else {
                                "OpenRouter stream ended without a terminal marker"@
                            },
                            false,
                        )
                    } else {
                        &&& r matches Ok(items) && completed_items(texts, items@)
                        &&& final(ledger)@ == old(ledger)@.insert(
                            session_id,
                            saturating_add(
                                spend_of(old(ledger)@, session_id),
                                charged(t.usage.cost_usd_micros),
                            ),
                        )
                    },
                }
            },
        },
{
    let result = match transport {
        Ok(result) => result,
        Err(error) => {
            slot.release(attempt_id);
            let definite = transport_failure_definite(error.kind());
            return Err(error.into_provider_failure(definite));
        },
    };
    if slot.cancel_requested() {
        slot.release(attempt_id);
        proof {
            reveal_strlit("OpenRouter attempt was cancelled");
        }
        return Err(
            OpenRouterError::fixed(
                OpenRouterErrorKind::Cancelled,
                "OpenRouter attempt was cancelled",
            ).into_provider_failure(true),
        );
    }
    let decoded = decode_body(result.body.as_slice());
    let (texts, completed) = match decoded {
        Ok(d) => d,
        Err(error) => {
            slot.release(attempt_id);
            return Err(error.into_provider_failure(false));
        },
    };
    let has_outputs = texts.len() > 0;
    let spend = match stream_outcome(has_outputs, completed, result.usage.cost_usd_micros) {
        Ok(spend) => spend,
        Err(error) => {
            slot.release(attempt_id);
            return Err(error.into_provider_failure(false));
        },
    };
    let _ = ledger.record_spend(session_id, spend);
    let mut items: Vec<ProviderOutput> = Vec::new();
    let n = texts.len();
    let mut i: usize = 0;
    let ghost views = texts@.map_values(|t: String| t@);
    while i < n
        invariant
            n == texts@.len(),
            i <= n,
            views == texts@.map_values(|t: String| t@),
            items@.len() == i,
            forall|k: int|
                0 <= k < i ==> is_message(#[trigger] items@[k], views[k]),
        decreases n - i,
    {
        items.push(
            ProviderOutput::Content {
                event_type: "assistant_message".to_owned(),
                text: texts[i].clone(),
            },
        );
        i += 1;
    }
    items.push(ProviderOutput::Completed { summary: "openrouter completed".to_owned() });
    slot.release(attempt_id);
    Ok(items)
}

/// `finish_prompt` where every error report of the body survives the cut
/// to 256 bytes; `None`, with nothing changed, where one would not.
pub fn try_finish_prompt(
    slot: &mut AttemptSlot,
    ledger: &mut SessionCostLedger,
    session_id: u128,
    attempt_id: u128,
    transport: Result<TransportResult, OpenRouterError>,
) -> (r: Option<Result<Vec<ProviderOutput>, ProviderFailure>>)
    ensures
        r is None <==> (transport matches Ok(t) && !body_fits(t.body@)),
        r is None ==> final(slot)@ == old(slot)@ && final(ledger)@ == old(ledger)@,
        r is Some ==> final(slot)@ == after_release(old(slot)@, attempt_id),
{
    if let Ok(t) = &transport {
        if crate::openrouter::protocol::try_decode_body(t.body.as_slice()).is_none() {
            return None;
        }
    }
    Some(finish_prompt(slot, ledger, session_id, attempt_id, transport))
}


/// Starts an attempt on a session's slot, in the order the adapter checks:
/// no other attempt in flight, the credential, the budget, then a
/// cancellation that arrived before dispatch. Every refusal is definite;
/// only the last one touches the slot (it forgets that cancellation). On
/// success the slot holds the attempt and the secret is handed on.
///
/// # Errors
///
/// The first refusal, as a provider failure.
pub fn begin_prompt(
    slot: &mut AttemptSlot,
    attempt_id: u128,
    secret: Result<String, OpenRouterError>,
    decision: BudgetDecision,
) -> (r: Result<String, ProviderFailure>)
    ensures
        old(slot)@.active is Some ==> (r matches Err(f) && failure_from(
            f,
            OpenRouterErrorKind::Unavailable,
            "OpenRouter session already has an active attempt"@,
            true,
        )) && final(slot)@ == old(slot)@,
        old(slot)@.active is None && secret is Err ==> (r matches Err(f) && failure_from(
            f,
            secret->Err_0.spec_kind(),
            secret->Err_0.spec_message(),
            true,
        )) && final(slot)@ == old(slot)@,
        old(slot)@.active is None && secret is Ok && !(decision is Allow) ==> (r matches Err(f)
            && failure_from(f, OpenRouterErrorKind::BudgetExceeded, budget_refusal(decision), true))
            && final(slot)@ == old(slot)@,
        old(slot)@.active is None && secret is Ok && decision is Allow ==> final(slot)@
            == after_begin(old(slot)@, attempt_id),
        old(slot)@.active is None && secret is Ok && decision is Allow && old(slot)@.pending.contains(
            attempt_id,
        ) ==> (r matches Err(f) && failure_from(
            f,
            OpenRouterErrorKind::Cancelled,
            "OpenRouter attempt was cancelled before dispatch"@,
            true,
        )),
        old(slot)@.active is None && secret is Ok && decision is Allow && !old(
            slot,
        )@.pending.contains(attempt_id) ==> (r matches Ok(s) && s == secret->Ok_0),
{
    let secret = prompt_preflight(slot.is_busy(), secret, decision, false)?;
    match slot.begin(attempt_id) {
        Ok(()) => Ok(secret),
        Err(error) => Err(error.into_provider_failure(true)),
    }
}

} // verus!
