//! Provider runtime rules that need no process: the version an adapter
//! reports, the cancellation budget it gets, and the checks on its locked
//! executable snapshot.

use vstd::prelude::*;
use vstd::utf8::{decode_utf8, encode_utf8, valid_utf8};

use crate::failure::CoreError;
use crate::text::{
    chars_of, contains_char, ends_with, slice_chars, starts_with, starts_with_exec, str_eq,
    str_from_utf8, string_from_chars, trim, trim_exec, utf8_len,
};

verus! {

/// Time kept inside the public cancellation deadline for the daemon to
/// persist and publish the terminal reconciliation outcome, in nanoseconds
/// (500 ms).
pub const CANCELLATION_FINALIZATION_RESERVE_NANOS: u128 = 500_000_000;

/// Longest accepted version output, in bytes.
pub const MAX_VERSION_OUTPUT_BYTES: usize = 4_096;

/// Why the provider runtime could not start or probe an adapter.
#[derive(Debug)]
pub enum ProviderRuntimeError {
    Configuration(String),
    Core(CoreError),
    Incompatible(&'static str),
    Probe(&'static str),
    Snapshot,
    Reap,
    Task,
}

/// A control character (Unicode category `Cc`, as `char::is_control`).
pub open spec fn is_control(c: char) -> bool {
    (c as u32) <= 0x1f || (0x7f <= (c as u32) && (c as u32) <= 0x9f)
}

/// Last index below `end` where `a` is directly followed by `b`.
pub open spec fn rfind_pair_below(s: Seq<char>, a: char, b: char, end: int) -> Option<int>
    decreases end,
{
    if end <= 0 {
        None
    } else if end < s.len() && s[end - 1] == a && s[end] == b {
        Some(end - 1)
    } else {
        rfind_pair_below(s, a, b, end - 1)
    }
}

/// Start of the last ` [` in `s` (`str::rfind(" [")`).
pub open spec fn rfind_channel_mark(s: Seq<char>) -> Option<int> {
    rfind_pair_below(s, ' ', '[', s.len() as int)
}

/// The version text after `grok `, without a trailing ` [channel]` label.
pub open spec fn strip_channel(v: Seq<char>) -> Seq<char> {
    match rfind_channel_mark(v) {
        Some(i) => if ends_with(v, seq![']']) && i > 0 {
            v.take(i)
        } else {
            v
        },
        None => v,
    }
}

/// The version a `grok --version` output reports: the output is UTF-8,
/// trimmed it is one line (non-empty and without a newline, which is what
/// `str::lines` counts as one line once trimmed) starting with `grok `; the
/// mutable channel label is dropped; the rest holds 1 to 255 bytes and no
/// control character.
pub open spec fn grok_version(bytes: Seq<u8>) -> Option<Seq<char>> {
    if !valid_utf8(bytes) {
        None
    } else {
        let output = trim(decode_utf8(bytes));
        if output.len() == 0 || output.contains('\n') || !starts_with(output, "grok "@) {
            None
        } else {
            let version = strip_channel(output.skip(5));
            if version.len() == 0 || encode_utf8(version).len() > 255 || exists|i: int|
                0 <= i < version.len() && is_control(#[trigger] version[i]) {
                None
            } else {
                Some(version)
            }
        }
    }
}

/// A found pair lies below `end`.
proof fn lemma_rfind_pair_below(s: Seq<char>, a: char, b: char, end: int)
    ensures
        rfind_pair_below(s, a, b, end) matches Some(j) ==> 0 <= j < end && j + 1 < s.len(),
    decreases end,
{
    if end > 0 && !(end < s.len() && s[end - 1] == a && s[end] == b) {
        lemma_rfind_pair_below(s, a, b, end - 1);
    }
}

/// Finds the last ` [` of a version text.
fn rfind_channel_mark_exec(v: &Vec<char>) -> (r: Option<usize>)
    ensures
        match r {
            Some(i) => rfind_channel_mark(v@) == Some(i as int) && i + 1 < v@.len(),
            None => rfind_channel_mark(v@) is None,
        },
{
    proof {
        lemma_rfind_pair_below(v@, ' ', '[', v@.len() as int);
    }
    let mut end = v.len();
    while end > 0
        invariant
            end <= v@.len(),
            rfind_channel_mark(v@) == rfind_pair_below(v@, ' ', '[', end as int),
        decreases end,
    {
        if end < v.len() && v[end - 1] == ' ' && v[end] == '[' {
            return Some(end - 1);
        }
        end -= 1;
    }
    None
}

/// Reads the version from `grok --version` output.
///
/// # Errors
///
/// `Probe("adapter version probe failed")` when the output is not UTF-8,
/// not one line, not `grok <version>`, or the version is empty, longer
/// than 255 bytes, or holds a control character.
pub fn normalize_grok_version(bytes: &[u8]) -> (r: Result<String, ProviderRuntimeError>)
    ensures
        match grok_version(bytes@) {
            Some(v) => r matches Ok(s) && s@ == v,
            None => r matches Err(ProviderRuntimeError::Probe(m)) && m@
                == "adapter version probe failed"@,
        },
{
    let text = match str_from_utf8(bytes) {
        Some(text) => text,
        None => return Err(ProviderRuntimeError::Probe("adapter version probe failed")),
    };
    let output = trim_exec(&chars_of(text));
    if output.len() == 0 || contains_char(&output, '\n') {
        return Err(ProviderRuntimeError::Probe("adapter version probe failed"));
    }
    let prefix = chars_of("grok ");
    proof {
        reveal_strlit("grok ");
    }
    if !starts_with_exec(&output, &prefix) {
        return Err(ProviderRuntimeError::Probe("adapter version probe failed"));
    }
    let rest = slice_chars(&output, 5, output.len());
    assert(rest@ == output@.skip(5));
    let n = rest.len();
    let version = match rfind_channel_mark_exec(&rest) {
        Some(i) => if n > 0 && rest[n - 1] == ']' && i > 0 {
            assert(ends_with(rest@, seq![']'])) by {
                assert(rest@.subrange(n - 1, n as int) =~= seq![']']);
            }
            slice_chars(&rest, 0, i)
        } else {
            assert(!ends_with(rest@, seq![']']) || !(i > 0)) by {
                if n > 0 && ends_with(rest@, seq![']']) {
                    assert(rest@.subrange(n - 1, n as int)[0] == ']');
                }
            }
            rest
        },
        None => rest,
    };
    assert(version@ =~= strip_channel(output@.skip(5)));
    let m = version.len();
    let mut i: usize = 0;
    while i < m
        invariant
            m == version@.len(),
            i <= m,
            forall|k: int| 0 <= k < i ==> !is_control(#[trigger] version@[k]),
            valid_utf8(bytes@),
            trim(decode_utf8(bytes@)).len() > 0,
            !trim(decode_utf8(bytes@)).contains('\n'),
            starts_with(trim(decode_utf8(bytes@)), "grok "@),
            version@ == strip_channel(trim(decode_utf8(bytes@)).skip(5)),
        decreases m - i,
    {
        let u = version[i] as u32;
        if u <= 0x1f || (0x7f <= u && u <= 0x9f) {
            assert(is_control(version@[i as int]));
            return Err(ProviderRuntimeError::Probe("adapter version probe failed"));
        }
        i += 1;
    }
    let result = string_from_chars(&version);
    if m == 0 || utf8_len(result.as_str()) > 255 {
        return Err(ProviderRuntimeError::Probe("adapter version probe failed"));
    }
    Ok(result)
}

/// The part of a public cancellation deadline left to the provider, in
/// nanoseconds.
///
/// # Errors
///
/// `Incompatible` when the deadline leaves nothing after the finalization
/// reserve.
pub fn provider_cancellation_budget(public_deadline_nanos: u128) -> (r: Result<
    u128,
    ProviderRuntimeError,
>)
    ensures
        public_deadline_nanos > CANCELLATION_FINALIZATION_RESERVE_NANOS ==> r == Ok::<
            u128,
            ProviderRuntimeError,
        >((public_deadline_nanos - CANCELLATION_FINALIZATION_RESERVE_NANOS) as u128),
        public_deadline_nanos <= CANCELLATION_FINALIZATION_RESERVE_NANOS ==> (r matches Err(
            ProviderRuntimeError::Incompatible(m),
        ) && m@ == "cancellation deadline leaves no finalization budget"@),
{
    if public_deadline_nanos > CANCELLATION_FINALIZATION_RESERVE_NANOS {
        Ok(public_deadline_nanos - CANCELLATION_FINALIZATION_RESERVE_NANOS)
    } else {
        Err(ProviderRuntimeError::Incompatible("cancellation deadline leaves no finalization budget"))
    }
}

/// The budget and the reserve add up to the public deadline, so the
/// provider never gets time past it.
pub proof fn cancellation_budget_preserves_deadline(public_deadline_nanos: u128, budget: u128)
    requires
        public_deadline_nanos > CANCELLATION_FINALIZATION_RESERVE_NANOS,
        budget == public_deadline_nanos - CANCELLATION_FINALIZATION_RESERVE_NANOS,
    ensures
        budget + CANCELLATION_FINALIZATION_RESERVE_NANOS == public_deadline_nanos,
        0 < budget < public_deadline_nanos,
{
}

/// A file may be snapshotted as an adapter executable: a regular file owned
/// by the daemon's user, not writable by group or others, and executable.
pub open spec fn snapshot_source_ok(is_file: bool, owner_uid: u32, daemon_uid: u32, mode: u32) -> bool {
    is_file && owner_uid == daemon_uid && mode & 0o022u32 == 0 && mode & 0o111u32 != 0
}

/// Checks the metadata of an adapter executable before it is copied.
///
/// # Errors
///
/// `Snapshot` when the file is not a regular file of the daemon's user,
/// is group or world writable, or is not executable.
pub fn check_snapshot_source(is_file: bool, owner_uid: u32, daemon_uid: u32, mode: u32) -> (r:
    Result<(), ProviderRuntimeError>)
    ensures
        snapshot_source_ok(is_file, owner_uid, daemon_uid, mode) ==> r is Ok,
        !snapshot_source_ok(is_file, owner_uid, daemon_uid, mode) ==> r matches Err(
            ProviderRuntimeError::Snapshot,
        ),
{
    if !is_file || owner_uid != daemon_uid || mode & 0o022u32 != 0 || mode & 0o111u32 == 0 {
        Err(ProviderRuntimeError::Snapshot)
    } else {
        Ok(())
    }
}

/// Checks that a snapshot's digest is the one the lock committed.
///
/// # Errors
///
/// `Incompatible("ACP executable differs from the lock")` otherwise.
pub fn require_locked_digest(digest: &str, expected_sha256: &str) -> (r: Result<
    (),
    ProviderRuntimeError,
>)
    ensures
        digest@ == expected_sha256@ ==> r is Ok,
        digest@ != expected_sha256@ ==> (r matches Err(ProviderRuntimeError::Incompatible(m))
            && m@ == "ACP executable differs from the lock"@),
{
    if str_eq(digest, expected_sha256) {
        Ok(())
    } else {
        Err(ProviderRuntimeError::Incompatible("ACP executable differs from the lock"))
    }
}

} // verus!
