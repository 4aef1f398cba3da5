//! Platform keyring secret source for production credential resolution.

use vstd::prelude::*;

use crate::openrouter::credential::SecretSource;
use crate::openrouter::error::{OpenRouterError, OpenRouterErrorKind};
use crate::text::{chars_of, slice_chars, starts_with, starts_with_exec, string_from_chars};

verus! {

/// Keyring service name under which Workbench stores credentials.
pub const PLATFORM_SERVICE: &'static str = "multi-agent-development-workbench";

/// A keyring entry (`keyring::Entry`).
#[verifier::external_type_specification]
#[verifier::external_body]
pub struct ExKeyringEntry(keyring::Entry);

/// What a keyring lookup returned.
pub enum KeyringLookup {
    Found(String),
    NoEntry,
    Failed,
}

/// Opens the keyring entry for `service` and `account` (`keyring::Entry::new`).
/// Whether the platform store accepts the entry is not stated.
#[verifier::external_body]
fn keyring_entry(service: &str, account: &str) -> (r: Option<keyring::Entry>) {
    keyring::Entry::new(service, account).ok()
}

/// Reads the password of a keyring entry (`keyring::Entry::get_password`).
/// What the platform store holds is not stated.
#[verifier::external_body]
fn keyring_password(entry: &keyring::Entry) -> (r: KeyringLookup) {
    match entry.get_password() {
        Ok(secret) => KeyringLookup::Found(secret),
        Err(keyring::Error::NoEntry) => KeyringLookup::NoEntry,
        Err(_) => KeyringLookup::Failed,
    }
}

/// Resolves `platform:` / `keychain:` / `secret-service:` handles via keyring.
#[derive(Debug, Clone, Copy, Default)]
pub struct PlatformSecretSource;

/// The account named by a credential reference, after its scheme prefix.
pub open spec fn account_of(credential_ref: Seq<char>) -> Option<Seq<char>> {
    if starts_with(credential_ref, "platform:"@) {
        Some(credential_ref.skip("platform:"@.len() as int))
    } else if starts_with(credential_ref, "keychain:"@) {
        Some(credential_ref.skip("keychain:"@.len() as int))
    } else if starts_with(credential_ref, "secret-service:"@) {
        Some(credential_ref.skip("secret-service:"@.len() as int))
    } else {
        None
    }
}

/// Strips `prefix` from `s` when it starts with it.
fn strip_prefix_chars(s: &Vec<char>, prefix: &str) -> (r: Option<Vec<char>>)
    ensures
        match r {
            Some(rest) => starts_with(s@, prefix@) && rest@ == s@.skip(prefix@.len() as int),
            None => !starts_with(s@, prefix@),
        },
{
    let p = chars_of(prefix);
    if starts_with_exec(s, &p) {
        let rest = slice_chars(s, p.len(), s.len());
        assert(rest@ =~= s@.skip(prefix@.len() as int));
        Some(rest)
    } else {
        None
    }
}

impl PlatformSecretSource {
    /// A source over the platform keyring.
    #[must_use]
    pub fn new() -> (r: Self)
        ensures
            r == PlatformSecretSource,
    {
        Self
    }

    /// The keyring account named by a supported credential reference.
    pub fn account_id(credential_ref: &str) -> (r: Option<String>)
        ensures
            match r {
                Some(a) => account_of(credential_ref@) == Some(a@),
                None => account_of(credential_ref@) is None,
            },
    {
        let s = chars_of(credential_ref);
        if let Some(rest) = strip_prefix_chars(&s, "platform:") {
            return Some(string_from_chars(&rest));
        }
        if let Some(rest) = strip_prefix_chars(&s, "keychain:") {
            return Some(string_from_chars(&rest));
        }
        if let Some(rest) = strip_prefix_chars(&s, "secret-service:") {
            return Some(string_from_chars(&rest));
        }
        None
    }
}

impl SecretSource for PlatformSecretSource {
    /// An unsupported scheme is refused; for a supported one the keyring
    /// answers, or is unavailable. Whether an entry exists, and what it
    /// holds, is the platform store's.
    open spec fn resolves(&self, credential_ref: Seq<char>, outcome: Result<Option<String>, OpenRouterError>) -> bool {
        &&& account_of(credential_ref) is None ==> (outcome matches Err(e) && e.spec_kind()
            == OpenRouterErrorKind::InvalidConfig && e.spec_message()
            == "credential_ref scheme is unsupported"@)
        &&& account_of(credential_ref) is Some ==> (outcome is Ok || (outcome matches Err(e)
            && e.spec_kind() == OpenRouterErrorKind::Unavailable && e.spec_message()
            == "credential store unavailable"@))
    }

    /// Looks the reference's account up in the platform keyring.
    fn resolve(&self, credential_ref: &str) -> (r: Result<Option<String>, OpenRouterError>) {
        let account = match Self::account_id(credential_ref) {
            Some(account) => account,
            None => {
                proof {
                    reveal_strlit("credential_ref scheme is unsupported");
                }
                return Err(
                    OpenRouterError::fixed(
                        OpenRouterErrorKind::InvalidConfig,
                        "credential_ref scheme is unsupported",
                    ),
                );
            },
        };
        proof {
            reveal_strlit("credential store unavailable");
        }
        let entry = match keyring_entry(PLATFORM_SERVICE, account.as_str()) {
            Some(entry) => entry,
            None => {
                return Err(
                    OpenRouterError::fixed(
                        OpenRouterErrorKind::Unavailable,
                        "credential store unavailable",
                    ),
                );
            },
        };
        match keyring_password(&entry) {
            KeyringLookup::Found(secret) => Ok(Some(secret)),
            KeyringLookup::NoEntry => Ok(None),
            KeyringLookup::Failed => Err(
                OpenRouterError::fixed(OpenRouterErrorKind::Unavailable, "credential store unavailable"),
            ),
        }
    }
}

} // verus!
