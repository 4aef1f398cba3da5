//! Redacted `OpenRouter` adapter failures.

use vstd::prelude::*;
use vstd::utf8::{encode_utf8, is_char_boundary};

use crate::failure::{CoreError, FailureCategory, ProviderFailure};
use crate::text::lemma_utf8_len_bounds;

verus! {

/// Longest kept message, in UTF-8 bytes.
pub const MAX_MESSAGE_BYTES: usize = 256;

/// Stable redacted `OpenRouter` failure kinds.
#[derive(Debug, Clone, Copy, PartialEq, Eq, Structural)]
pub enum OpenRouterErrorKind {
    InvalidConfig,
    CredentialMissing,
    CredentialEmpty,
    BudgetExceeded,
    Transport,
    ResponseTooLarge,
    MalformedStream,
    Unavailable,
    Cancelled,
    OutcomeUnknown,
    ShuttingDown,
}

/// Messages that `String::truncate(256)` accepts: short enough, or with a
/// character boundary at byte 256.
pub open spec fn truncatable(m: Seq<char>) -> bool {
    encode_utf8(m).len() <= 256 || is_char_boundary(encode_utf8(m), 256)
}

/// The UTF-8 bytes that are kept of a message.
pub open spec fn kept_bytes(m: Seq<char>) -> Seq<u8> {
    if encode_utf8(m).len() <= 256 {
        encode_utf8(m)
    } else {
        encode_utf8(m).take(256)
    }
}

/// Messages of at most 64 characters are never cut.
pub proof fn lemma_short_message_truncatable(m: Seq<char>)
    requires
        m.len() <= 64,
    ensures
        truncatable(m),
        kept_bytes(m) == encode_utf8(m),
{
    lemma_utf8_len_bounds(m);
}

/// Shortens a string to `len` bytes (`String::truncate`); no effect when the
/// string is not longer than that.
#[verifier::external_body]
fn truncate_string(s: &mut String, len: usize)
    requires
        encode_utf8(old(s)@).len() <= len || is_char_boundary(encode_utf8(old(s)@), len as int),
    ensures
        encode_utf8(old(s)@).len() <= len ==> final(s)@ == old(s)@,
        encode_utf8(old(s)@).len() > len ==> encode_utf8(final(s)@) == encode_utf8(old(s)@).take(
            len as int,
        ),
{
    s.truncate(len)
}

/// Redacted `OpenRouter` adapter failure.
#[derive(Debug, Clone)]
pub struct OpenRouterError {
    kind: OpenRouterErrorKind,
    message: String,
}

/// Failure category reported to the core for each kind.
pub open spec fn core_category(kind: OpenRouterErrorKind) -> FailureCategory {
    match kind {
        OpenRouterErrorKind::InvalidConfig => FailureCategory::InvalidRequest,
        OpenRouterErrorKind::CredentialMissing | OpenRouterErrorKind::CredentialEmpty => {
            FailureCategory::ProviderUnavailable
        },
        OpenRouterErrorKind::BudgetExceeded => FailureCategory::PolicyDenied,
        OpenRouterErrorKind::Transport | OpenRouterErrorKind::ResponseTooLarge
        | OpenRouterErrorKind::MalformedStream | OpenRouterErrorKind::Unavailable
        | OpenRouterErrorKind::ShuttingDown => FailureCategory::ProviderUnavailable,
        OpenRouterErrorKind::Cancelled => FailureCategory::InvalidTransition,
        OpenRouterErrorKind::OutcomeUnknown => FailureCategory::OutcomeUnknown,
    }
}

/// Failure category reported to the provider port for each kind.
pub open spec fn provider_category(kind: OpenRouterErrorKind) -> FailureCategory {
    match kind {
        OpenRouterErrorKind::BudgetExceeded => FailureCategory::PolicyDenied,
        OpenRouterErrorKind::CredentialMissing | OpenRouterErrorKind::CredentialEmpty => {
            FailureCategory::ProviderUnavailable
        },
        OpenRouterErrorKind::OutcomeUnknown => FailureCategory::OutcomeUnknown,
        OpenRouterErrorKind::InvalidConfig => FailureCategory::InvalidRequest,
        _ => FailureCategory::ProviderUnavailable,
    }
}

impl OpenRouterError {
    /// The kind of this failure.
    pub closed spec fn spec_kind(&self) -> OpenRouterErrorKind {
        self.kind
    }

    /// The kept message of this failure.
    pub closed spec fn spec_message(&self) -> Seq<char> {
        self.message@
    }

    /// Builds a failure whose message is cut to its first 256 UTF-8 bytes.
    #[must_use]
    pub fn new(kind: OpenRouterErrorKind, message: String) -> (r: Self)
        requires
            truncatable(message@),
        ensures
            r.spec_kind() == kind,
            encode_utf8(r.spec_message()) == kept_bytes(message@),
            encode_utf8(message@).len() <= 256 ==> r.spec_message() == message@,
    {
        let mut message = message;
        truncate_string(&mut message, MAX_MESSAGE_BYTES);
        Self { kind, message }
    }

    /// Builds a failure from a fixed message of at most 64 characters.
    #[must_use]
    pub(crate) fn fixed(kind: OpenRouterErrorKind, message: &str) -> (r: Self)
        requires
            message@.len() <= 64,
        ensures
            r.spec_kind() == kind,
            r.spec_message() == message@,
    {
        proof {
            lemma_short_message_truncatable(message@);
        }
        Self::new(kind, message.to_owned())
    }

    #[must_use]
    pub fn kind(&self) -> (r: OpenRouterErrorKind)
        ensures
            r == self.spec_kind(),
    {
        self.kind
    }

    #[must_use]
    pub fn message(&self) -> (r: &str)
        ensures
            r@ == self.spec_message(),
    {
        self.message.as_str()
    }

    /// Maps into the core failure taxonomy, keeping the message.
    #[must_use]
    pub fn into_core(self) -> (r: CoreError)
        ensures
            r.category == core_category(self.spec_kind()),
            r.message@ == self.spec_message(),
    {
        let category = match self.kind {
            OpenRouterErrorKind::InvalidConfig => FailureCategory::InvalidRequest,
            OpenRouterErrorKind::CredentialMissing | OpenRouterErrorKind::CredentialEmpty => {
                FailureCategory::ProviderUnavailable
            },
            OpenRouterErrorKind::BudgetExceeded => FailureCategory::PolicyDenied,
            OpenRouterErrorKind::Transport | OpenRouterErrorKind::ResponseTooLarge
            | OpenRouterErrorKind::MalformedStream | OpenRouterErrorKind::Unavailable
            | OpenRouterErrorKind::ShuttingDown => FailureCategory::ProviderUnavailable,
            OpenRouterErrorKind::Cancelled => FailureCategory::InvalidTransition,
            OpenRouterErrorKind::OutcomeUnknown => FailureCategory::OutcomeUnknown,
        };
        CoreError { category, message: self.message }
    }

    /// Maps into a provider failure with the given definiteness.
    #[must_use]
    pub fn into_provider_failure(self, definite: bool) -> (r: ProviderFailure)
        ensures
            r.category == provider_category(self.spec_kind()),
            r.user_safe_message@ == self.spec_message(),
            r.definite == definite,
    {
        let category = match self.kind {
            OpenRouterErrorKind::BudgetExceeded => FailureCategory::PolicyDenied,
            OpenRouterErrorKind::CredentialMissing | OpenRouterErrorKind::CredentialEmpty => {
                FailureCategory::ProviderUnavailable
            },
            OpenRouterErrorKind::OutcomeUnknown => FailureCategory::OutcomeUnknown,
            OpenRouterErrorKind::InvalidConfig => FailureCategory::InvalidRequest,
            _ => FailureCategory::ProviderUnavailable,
        };
        ProviderFailure { category, user_safe_message: self.message, definite }
    }
}

} // verus!
