//! Credential resolution rules shared by every secret source.

use vstd::prelude::*;

use crate::openrouter::error::{OpenRouterError, OpenRouterErrorKind};

verus! {

/// Resolves opaque credential references without exposing storage details.
pub trait SecretSource {
    /// Whether `outcome` is an answer this source may give for the
    /// reference `credential_ref`.
    spec fn resolves(&self, credential_ref: Seq<char>, outcome: Result<Option<String>, OpenRouterError>) -> bool;

    /// Returns the secret for `credential_ref`, or `None` when absent.
    fn resolve(&self, credential_ref: &str) -> (r: Result<Option<String>, OpenRouterError>)
        ensures
            self.resolves(credential_ref@, r),
    ;
}

/// What the credential rules make of a source's answer: a store failure is
/// passed on, an absent secret is missing, an empty one is empty, and any
/// other is the secret.
pub open spec fn secret_outcome(
    resolved: Result<Option<String>, OpenRouterError>,
    r: Result<String, OpenRouterError>,
) -> bool {
    match resolved {
        Err(e) => r matches Err(f) && f.spec_kind() == e.spec_kind() && f.spec_message()
            == e.spec_message(),
        Ok(None) => r matches Err(f) && f.spec_kind() == OpenRouterErrorKind::CredentialMissing
            && f.spec_message() == "API credential is unavailable"@,
        Ok(Some(s)) => if s@.len() == 0 {
            r matches Err(f) && f.spec_kind() == OpenRouterErrorKind::CredentialEmpty
                && f.spec_message() == "API credential is empty"@
        } else {
            r matches Ok(t) && t@ == s@
        },
    }
}

/// Applies the credential rules to what a source returned: a store failure
/// is passed on, an absent secret is missing, and an empty one is empty.
///
/// # Errors
///
/// Returns the store failure, or a credential-missing or credential-empty error.
pub fn secret_from_lookup(resolved: Result<Option<String>, OpenRouterError>) -> (r: Result<
    String,
    OpenRouterError,
>)
    ensures
        secret_outcome(resolved, r),
{
    match resolved {
        Err(e) => Err(e),
        Ok(None) => {
            proof {
                reveal_strlit("API credential is unavailable");
            }
            Err(
                OpenRouterError::fixed(
                    OpenRouterErrorKind::CredentialMissing,
                    "API credential is unavailable",
                ),
            )
        },
        Ok(Some(secret)) => {
            if secret.as_str().is_empty() {
                proof {
                    reveal_strlit("API credential is empty");
                }
                Err(
                    OpenRouterError::fixed(
                        OpenRouterErrorKind::CredentialEmpty,
                        "API credential is empty",
                    ),
                )
            } else {
                Ok(secret)
            }
        },
    }
}

/// Loads a non-empty secret or returns a definite pre-dispatch failure.
///
/// # Errors
///
/// Returns when the secret is missing, empty, or the store fails.
pub fn require_secret<S: SecretSource>(source: &S, credential_ref: &str) -> (r: Result<
    String,
    OpenRouterError,
>)
    ensures
        exists|x: Result<Option<String>, OpenRouterError>|
            #[trigger] source.resolves(credential_ref@, x) && secret_outcome(x, r),
        r matches Ok(s) ==> s@.len() > 0,
{
    let resolved = source.resolve(credential_ref);
    let ghost x = resolved;
    let r = secret_from_lookup(resolved);
    assert(source.resolves(credential_ref@, x) && secret_outcome(x, r));
    r
}


/// The secrets held by a list of reference and secret pairs.
pub open spec fn secrets_of(pairs: Seq<(String, String)>) -> Map<Seq<char>, Seq<char>>
    decreases pairs.len(),
{
    if pairs.len() == 0 {
        Map::empty()
    } else {
        secrets_of(pairs.drop_last()).insert(pairs.last().0@, pairs.last().1@)
    }
}

/// No reference occurs twice.
pub open spec fn distinct_refs(pairs: Seq<(String, String)>) -> bool {
    forall|i: int, j: int|
        0 <= i < pairs.len() && 0 <= j < pairs.len() && i != j ==> (#[trigger] pairs[i]).0@
            != (#[trigger] pairs[j]).0@
}

/// The references of the pairs are the map's keys, each with its secret.
proof fn lemma_secrets_of(pairs: Seq<(String, String)>)
    requires
        distinct_refs(pairs),
    ensures
        forall|k: Seq<char>|
            #[trigger] secrets_of(pairs).contains_key(k) <==> exists|i: int|
                0 <= i < pairs.len() && pairs[i].0@ == k,
        forall|i: int| 0 <= i < pairs.len() ==> #[trigger] secrets_of(pairs)[pairs[i].0@] == pairs[i].1@,
    decreases pairs.len(),
{
    if pairs.len() > 0 {
        let init = pairs.drop_last();
        assert(distinct_refs(init)) by {
            assert forall|i: int, j: int|
                0 <= i < init.len() && 0 <= j < init.len() && i != j implies (#[trigger] init[i]).0@
                != (#[trigger] init[j]).0@ by {
                assert(init[i] == pairs[i] && init[j] == pairs[j]);
            }
        }
        lemma_secrets_of(init);
        let last = pairs.last();
        assert(secrets_of(pairs) == secrets_of(init).insert(last.0@, last.1@));
        assert forall|k: Seq<char>|
            #[trigger] secrets_of(pairs).contains_key(k) <==> exists|i: int|
                0 <= i < pairs.len() && pairs[i].0@ == k by {
            if secrets_of(pairs).contains_key(k) {
                if k == last.0@ {
                    assert(pairs[pairs.len() - 1].0@ == k);
                } else {
                    assert(secrets_of(init).contains_key(k));
                    let i = choose|i: int| 0 <= i < init.len() && init[i].0@ == k;
                    assert(init[i] == pairs[i]);
                }
            }
            if exists|i: int| 0 <= i < pairs.len() && pairs[i].0@ == k {
                let i = choose|i: int| 0 <= i < pairs.len() && pairs[i].0@ == k;
                if i < pairs.len() - 1 {
                    assert(init[i] == pairs[i]);
                    assert(exists|j: int| 0 <= j < init.len() && init[j].0@ == k);
                    assert(secrets_of(init).contains_key(k));
                }
            }
        }
        assert forall|i: int| 0 <= i < pairs.len() implies #[trigger] secrets_of(pairs)[pairs[i].0@]
            == pairs[i].1@ by {
            if i < pairs.len() - 1 {
                assert(init[i] == pairs[i]);
                assert(pairs[i].0@ != pairs[pairs.len() - 1].0@);
                assert(secrets_of(init)[init[i].0@] == init[i].1@);
            }
        }
    }
}

/// In-memory secret source used by offline tests.
#[derive(Clone, Debug)]
pub struct MemorySecretSource {
    secrets: Vec<(String, String)>,
}

impl MemorySecretSource {
    /// The secret held for each reference.
    pub closed spec fn spec_secrets(&self) -> Map<Seq<char>, Seq<char>> {
        secrets_of(self.secrets@)
    }

    /// No reference is held twice.
    pub closed spec fn wf(&self) -> bool {
        distinct_refs(self.secrets@)
    }

    /// An empty source.
    pub fn new() -> (r: Self)
        ensures
            r.wf(),
            r.spec_secrets() == Map::<Seq<char>, Seq<char>>::empty(),
    {
        Self { secrets: Vec::new() }
    }

    fn position(&self, credential_ref: &str) -> (r: Option<usize>)
        ensures
            match r {
                Some(i) => i < self.secrets@.len() && self.secrets@[i as int].0@ == credential_ref@,
                None => forall|i: int|
                    0 <= i < self.secrets@.len() ==> (#[trigger] self.secrets@[i]).0@
                        != credential_ref@,
            },
    {
        let n = self.secrets.len();
        let mut i: usize = 0;
        while i < n
            invariant
                n == self.secrets@.len(),
                i <= n,
                forall|j: int| 0 <= j < i ==> (#[trigger] self.secrets@[j]).0@ != credential_ref@,
            decreases n - i,
        {
            if crate::text::str_eq(self.secrets[i].0.as_str(), credential_ref) {
                return Some(i);
            }
            i += 1;
        }
        None
    }

    /// Installs a secret for a credential reference, replacing any other.
    pub fn put(&mut self, credential_ref: String, secret: String)
        requires
            old(self).wf(),
        ensures
            final(self).wf(),
            final(self).spec_secrets() == old(self).spec_secrets().insert(credential_ref@, secret@),
    {
        proof {
            lemma_secrets_of(self.secrets@);
        }
        let ghost key = credential_ref@;
        let ghost value = secret@;
        match self.position(credential_ref.as_str()) {
            Some(i) => {
                let ghost before = self.secrets@;
                self.secrets.set(i, (credential_ref, secret));
                proof {
                    let after = self.secrets@;
                    assert forall|a: int, b: int|
                        0 <= a < after.len() && 0 <= b < after.len() && a != b implies (#[trigger] after[a]).0@
                        != (#[trigger] after[b]).0@ by {
                        if a != i && b != i {
                            assert(after[a] == before[a] && after[b] == before[b]);
                        } else if a == i {
                            assert(after[b] == before[b]);
                            assert(before[i as int].0@ == key);
                        } else {
                            assert(after[a] == before[a]);
                            assert(before[i as int].0@ == key);
                        }
                    }
                    lemma_secrets_of(after);
                    assert(secrets_of(after) =~= secrets_of(before).insert(key, value)) by {
                        assert forall|k: Seq<char>| secrets_of(after).contains_key(k) <==> secrets_of(
                            before,
                        ).insert(key, value).contains_key(k) by {
                            if secrets_of(after).contains_key(k) {
                                let j = choose|j: int| 0 <= j < after.len() && after[j].0@ == k;
                                if j != i {
                                    assert(before[j] == after[j]);
                                }
                            }
                            if secrets_of(before).contains_key(k) {
                                let j = choose|j: int| 0 <= j < before.len() && before[j].0@ == k;
                                if j != i {
                                    assert(before[j] == after[j]);
                                } else {
                                    assert(after[i as int].0@ == k);
                                }
                            }
                            if k == key {
                                assert(after[i as int].0@ == k);
                            }
                        }
                        assert forall|k: Seq<char>| #[trigger] secrets_of(after).contains_key(k) implies secrets_of(
                            after,
                        )[k] == secrets_of(before).insert(key, value)[k] by {
                            let j = choose|j: int| 0 <= j < after.len() && after[j].0@ == k;
                            if j != i {
                                assert(before[j] == after[j]);
                            }
                        }
                    }
                }
            },
            None => {
                let ghost before = self.secrets@;
                self.secrets.push((credential_ref, secret));
                proof {
                    let after = self.secrets@;
                    assert(after.drop_last() =~= before);
                    assert forall|a: int, b: int|
                        0 <= a < after.len() && 0 <= b < after.len() && a != b implies (#[trigger] after[a]).0@
                        != (#[trigger] after[b]).0@ by {
                        if a < before.len() && b < before.len() {
                            assert(after[a] == before[a] && after[b] == before[b]);
                        } else if a < before.len() {
                            assert(after[a] == before[a]);
                        } else {
                            assert(after[b] == before[b]);
                        }
                    }
                }
            },
        }
    }

    /// Removes the secret of a credential reference.
    pub fn remove(&mut self, credential_ref: &str)
        requires
            old(self).wf(),
        ensures
            final(self).wf(),
            final(self).spec_secrets() == old(self).spec_secrets().remove(credential_ref@),
    {
        proof {
            lemma_secrets_of(self.secrets@);
        }
        let ghost key = credential_ref@;
        match self.position(credential_ref) {
            Some(i) => {
                let ghost before = self.secrets@;
                let _removed = self.secrets.remove(i);
                proof {
                    let after = self.secrets@;
                    assert(after =~= before.remove(i as int));
                    assert forall|a: int, b: int|
                        0 <= a < after.len() && 0 <= b < after.len() && a != b implies (#[trigger] after[a]).0@
                        != (#[trigger] after[b]).0@ by {
                        let a2 = if a < i { a } else { a + 1 };
                        let b2 = if b < i { b } else { b + 1 };
                        assert(after[a] == before[a2] && after[b] == before[b2]);
                    }
                    lemma_secrets_of(after);
                    assert(secrets_of(after) =~= secrets_of(before).remove(key)) by {
                        assert forall|k: Seq<char>| secrets_of(after).contains_key(k) <==> secrets_of(
                            before,
                        ).remove(key).contains_key(k) by {
                            if secrets_of(after).contains_key(k) {
                                let j = choose|j: int| 0 <= j < after.len() && after[j].0@ == k;
                                let j2 = if j < i { j } else { j + 1 };
                                assert(before[j2] == after[j]);
                                assert(j2 != i);
                            }
                            if secrets_of(before).contains_key(k) && k != key {
                                let j = choose|j: int| 0 <= j < before.len() && before[j].0@ == k;
                                assert(j != i);
                                let j3 = if j < i { j } else { j - 1 };
                                assert(after[j3] == before[j]);
                            }
                        }
                        assert forall|k: Seq<char>| #[trigger] secrets_of(after).contains_key(k) implies secrets_of(
                            after,
                        )[k] == secrets_of(before).remove(key)[k] by {
                            let j = choose|j: int| 0 <= j < after.len() && after[j].0@ == k;
                            let j2 = if j < i { j } else { j + 1 };
                            assert(before[j2] == after[j]);
                        }
                    }
                }
            },
            None => {
                assert(self.spec_secrets() =~= self.spec_secrets().remove(key));
            },
        }
    }
}

impl SecretSource for MemorySecretSource {
    /// The secret held for the reference, if any; it never fails.
    open spec fn resolves(&self, credential_ref: Seq<char>, outcome: Result<Option<String>, OpenRouterError>) -> bool {
        self.wf() ==> match outcome {
            Ok(Some(s)) => self.spec_secrets().contains_key(credential_ref) && s@
                == self.spec_secrets()[credential_ref],
            Ok(None) => !self.spec_secrets().contains_key(credential_ref),
            Err(_) => false,
        }
    }

    /// The secret held for the reference, if any; it never fails.
    fn resolve(&self, credential_ref: &str) -> (r: Result<Option<String>, OpenRouterError>) {
        proof {
            if self.wf() {
                lemma_secrets_of(self.secrets@);
            }
        }
        match self.position(credential_ref) {
            Some(i) => Ok(Some(self.secrets[i].1.clone())),
            None => Ok(None),
        }
    }
}

} // verus!
