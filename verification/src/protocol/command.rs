//! Client commands, their parameters and the rules every command must meet.

use std::collections::HashMap;

use vstd::prelude::*;
use vstd::utf8::encode_utf8;

use crate::protocol::ids::{PROTOCOL_V1, is_uuid_v7, uuid_version};
use crate::text::{
    chars_of, has_parent_component, is_absolute_path, path_has_parent_component,
    path_is_absolute, push_all, str_eq, string_from_chars, utf8_len,
};

verus! {

/// A decoded client request.
#[derive(Debug)]
pub struct ClientCommand {
    pub protocol: String,
    pub request_id: u128,
    pub session_id: Option<u128>,
    pub command: Command,
}

/// Every committed protocol method with its parameters.
#[derive(Debug)]
pub enum Command {
    Initialize(InitializeParams),
    StatusGet(EmptyParams),
    SessionCreate(CreateSessionParams),
    SessionList(ListSessionsParams),
    SessionGet(EmptyParams),
    SessionAttach(AttachSessionParams),
    SessionPrompt(PromptParams),
    SessionPause(EmptyParams),
    SessionResume(EmptyParams),
    SessionRedirect(RedirectParams),
    SessionCancel(EmptyParams),
    SessionApprovalResolve(ApprovalParams),
    SessionReconcile(ReconciliationParams),
    SessionExport(ExportParams),
    SessionDelete(DeleteParams),
}

/// Parameters of `initialize`.
#[derive(Debug, Clone)]
pub struct InitializeParams {
    pub client_name: String,
    pub client_version: String,
    pub supported_protocols: Vec<String>,
}

/// Parameters of methods that take none.
#[derive(Clone, Copy, Debug, Default, PartialEq, Eq, Structural)]
pub struct EmptyParams {}

/// Parameters of `session.create`.
#[derive(Debug)]
pub struct CreateSessionParams {
    pub persistent: bool,
    pub configuration_overrides: Option<HashMap<String, serde_json::Value>>,
}

/// Parameters of `session.list`.
#[derive(Clone, Copy, Debug, PartialEq, Eq, Structural)]
pub struct ListSessionsParams {
    pub limit: u16,
    pub before_session_id: Option<u128>,
}

/// Parameters of `session.attach`.
#[derive(Clone, Copy, Debug, PartialEq, Eq, Structural)]
pub struct AttachSessionParams {
    pub after_sequence: u64,
}

/// Parameters of `session.prompt`.
#[derive(Clone, Debug)]
pub struct PromptParams {
    pub text: String,
    pub explicit_target: Option<String>,
}

/// Parameters of `session.redirect`.
#[derive(Clone, Debug)]
pub struct RedirectParams {
    pub instruction: String,
}

/// Parameters of `session.approval.resolve`.
#[derive(Clone, Copy, Debug, PartialEq, Eq, Structural)]
pub struct ApprovalParams {
    pub approval_id: u128,
    pub decision: ApprovalDecision,
}

/// A human decision on a pending approval.
#[derive(Clone, Copy, Debug, PartialEq, Eq, Structural)]
pub enum ApprovalDecision {
    Grant,
    Deny,
}

/// Parameters of `session.reconcile`.
#[derive(Clone, Debug)]
pub struct ReconciliationParams {
    pub attempt_id: u128,
    pub resolution: ReconciliationResolution,
    pub evidence: Option<String>,
}

/// How a human resolves an uncertain attempt.
#[derive(Clone, Copy, Debug, PartialEq, Eq, Structural)]
pub enum ReconciliationResolution {
    Retry,
    AcceptResult,
    Abandon,
}

/// Parameters of `session.export`.
#[derive(Clone, Debug)]
pub struct ExportParams {
    pub output_path: String,
    pub age_recipients: Vec<String>,
}

/// Parameters of `session.delete`.
#[derive(Clone, Copy, Debug, PartialEq, Eq, Structural)]
pub struct DeleteParams {
    pub confirm_session_id: u128,
}

/// Default page size of `session.list`.
pub fn default_session_list_limit() -> (r: u16)
    ensures
        r == 50,
{
    50
}

/// Number of UTF-8 bytes of a text.
pub open spec fn byte_len(s: Seq<char>) -> nat {
    encode_utf8(s).len()
}

/// The texts of a vector of strings.
pub open spec fn texts(v: Seq<String>) -> Seq<Seq<char>> {
    v.map_values(|s: String| s@)
}

/// Why a free-text field is rejected, if it is.
pub open spec fn content_fault(value: Seq<char>, field: Seq<char>) -> Option<Seq<char>> {
    if value.len() == 0 || byte_len(value) > 1_048_576 {
        Some(field + " must contain 1 to 1048576 bytes"@)
    } else {
        None
    }
}

/// Lowercase ASCII letter.
pub open spec fn is_lower(c: char) -> bool {
    'a' <= c && c <= 'z'
}

/// Character allowed after the first one of an identifier.
pub open spec fn is_identifier_char(c: char) -> bool {
    is_lower(c) || ('0' <= c && c <= '9') || c == '-'
}

/// A lowercase identifier of at most 63 bytes.
pub open spec fn identifier_ok(value: Seq<char>) -> bool {
    value.len() > 0 && is_lower(value[0]) && (forall|i: int|
        1 <= i < value.len() ==> is_identifier_char(#[trigger] value[i])) && byte_len(value) <= 63
}

/// An absolute export path without `..` of at most 4096 bytes.
pub open spec fn output_path_ok(value: Seq<char>) -> bool {
    byte_len(value) <= 4096 && is_absolute_path(value) && !has_parent_component(value)
}

/// Why a UUID field is rejected, if it is.
pub open spec fn uuid_fault(id: u128, field: Seq<char>) -> Option<Seq<char>> {
    if uuid_version(id) == 7 {
        None
    } else {
        Some(field + " must be a UUIDv7"@)
    }
}

/// Some element holds more than `max` bytes.
pub open spec fn some_longer_than(v: Seq<Seq<char>>, max: nat) -> bool {
    exists|i: int| 0 <= i < v.len() && byte_len(#[trigger] v[i]) > max
}

/// Some element is empty or holds more than `max` bytes.
pub open spec fn some_empty_or_longer_than(v: Seq<Seq<char>>, max: nat) -> bool {
    exists|i: int| 0 <= i < v.len() && (#[trigger] v[i].len() == 0 || byte_len(v[i]) > max)
}

/// The rule, if any, that a command's parameters break.
pub open spec fn command_fault(c: Command) -> Option<Seq<char>> {
    match c {
        Command::Initialize(p) => if p.client_name@.len() == 0 || byte_len(p.client_name@) > 128
            || p.client_version@.len() == 0 || byte_len(p.client_version@) > 128 {
            Some("client name and version must contain 1 to 128 bytes"@)
        } else if p.supported_protocols@.len() == 0 || !texts(p.supported_protocols@).no_duplicates()
            || some_longer_than(texts(p.supported_protocols@), 32) {
            Some("supported_protocols must be non-empty and unique"@)
        } else {
            None
        },
        Command::SessionCreate(p) => if !p.persistent {
            Some("feature 001 supports persistent sessions only"@)
        } else {
            None
        },
        Command::SessionList(p) => if !(1 <= p.limit && p.limit <= 100) {
            Some("limit must be between 1 and 100"@)
        } else {
            match p.before_session_id {
                Some(id) => uuid_fault(id, "before_session_id"@),
                None => None,
            }
        },
        Command::SessionPrompt(p) => match content_fault(p.text@, "text"@) {
            Some(m) => Some(m),
            None => match p.explicit_target {
                Some(t) => if identifier_ok(t@) {
                    None
                } else {
                    Some("explicit_target has an invalid identifier"@)
                },
                None => None,
            },
        },
        Command::SessionRedirect(p) => content_fault(p.instruction@, "instruction"@),
        Command::SessionApprovalResolve(p) => uuid_fault(p.approval_id, "approval_id"@),
        Command::SessionReconcile(p) => match uuid_fault(p.attempt_id, "attempt_id"@) {
            Some(m) => Some(m),
            None => if p.evidence matches Some(e) && byte_len(e@) > 4096 {
                Some("evidence exceeds 4096 bytes"@)
            } else {
                None
            },
        },
        Command::SessionExport(p) => if !output_path_ok(p.output_path@) {
            Some("output_path must be an absolute non-traversing path"@)
        } else if p.age_recipients@.len() == 0 || !texts(p.age_recipients@).no_duplicates()
            || some_empty_or_longer_than(texts(p.age_recipients@), 512) {
            Some("age_recipients must be non-empty, valid, and unique"@)
        } else {
            None
        },
        Command::SessionDelete(p) => uuid_fault(p.confirm_session_id, "confirm_session_id"@),
        _ => None,
    }
}

/// An export request whose path is good and whose recipients are
/// non-empty, pairwise distinct and each 1 to 512 bytes long, however many
/// there are.
pub open spec fn export_acceptable(p: ExportParams) -> bool {
    &&& output_path_ok(p.output_path@)
    &&& p.age_recipients@.len() > 0
    &&& forall|i: int, j: int|
        0 <= i < j < p.age_recipients@.len() ==> (#[trigger] p.age_recipients@[i])@
            != (#[trigger] p.age_recipients@[j])@
    &&& forall|i: int|
        0 <= i < p.age_recipients@.len() ==> 0 < (#[trigger] p.age_recipients@[i])@.len()
            && byte_len(p.age_recipients@[i]@) <= 512
}

/// An export is refused exactly when its path is bad, it names no
/// recipient, two recipients are the same, or a recipient is empty or
/// longer than 512 bytes; the number of recipients is otherwise free.
pub proof fn export_is_accepted_exactly_when_its_fields_are_good(p: ExportParams)
    ensures
        command_fault(Command::SessionExport(p)) is None <==> export_acceptable(p),
{
    let t = texts(p.age_recipients@);
    assert forall|i: int| 0 <= i < t.len() implies #[trigger] t[i] == p.age_recipients@[i]@ by {}
    if export_acceptable(p) {
        assert(t.no_duplicates()) by {
            assert forall|i: int, j: int| 0 <= i < t.len() && 0 <= j < t.len() && i != j implies t[i]
                != t[j] by {
                if i < j {
                    assert(p.age_recipients@[i]@ != p.age_recipients@[j]@);
                } else {
                    assert(p.age_recipients@[j]@ != p.age_recipients@[i]@);
                }
            }
        }
        assert(!some_empty_or_longer_than(t, 512)) by {
            assert forall|i: int| 0 <= i < t.len() implies !(#[trigger] t[i].len() == 0 || byte_len(
                t[i],
            ) > 512) by {
                assert(t[i] == p.age_recipients@[i]@);
            }
        }
    }
    if command_fault(Command::SessionExport(p)) is None {
        assert forall|i: int, j: int|
            0 <= i < j < p.age_recipients@.len() implies (#[trigger] p.age_recipients@[i])@
            != (#[trigger] p.age_recipients@[j])@ by {
            assert(t[i] != t[j]);
        }
        assert forall|i: int| 0 <= i < p.age_recipients@.len() implies 0 < (
        #[trigger] p.age_recipients@[i])@.len() && byte_len(p.age_recipients@[i]@) <= 512 by {
            assert(!(t[i].len() == 0 || byte_len(t[i]) > 512));
        }
    }
}

/// The wire name of a command's method.
pub open spec fn method_name(c: Command) -> Seq<char> {
    match c {
        Command::Initialize(_) => "initialize"@,
        Command::StatusGet(_) => "status.get"@,
        Command::SessionCreate(_) => "session.create"@,
        Command::SessionList(_) => "session.list"@,
        Command::SessionGet(_) => "session.get"@,
        Command::SessionAttach(_) => "session.attach"@,
        Command::SessionPrompt(_) => "session.prompt"@,
        Command::SessionPause(_) => "session.pause"@,
        Command::SessionResume(_) => "session.resume"@,
        Command::SessionRedirect(_) => "session.redirect"@,
        Command::SessionCancel(_) => "session.cancel"@,
        Command::SessionApprovalResolve(_) => "session.approval.resolve"@,
        Command::SessionReconcile(_) => "session.reconcile"@,
        Command::SessionExport(_) => "session.export"@,
        Command::SessionDelete(_) => "session.delete"@,
    }
}

/// Methods that address one session.
pub open spec fn needs_session(c: Command) -> bool {
    !(c is Initialize || c is StatusGet || c is SessionCreate || c is SessionList)
}

/// `a` followed by `b`, as a `String`.
fn concat(a: &str, b: &str) -> (r: String)
    ensures
        r@ == a@ + b@,
{
    let mut v = chars_of(a);
    push_all(&mut v, &chars_of(b));
    string_from_chars(&v)
}

/// Checks the byte size of a free-text field.
///
/// # Errors
///
/// Returns `"<field> must contain 1 to 1048576 bytes"` for an empty or oversized text.
pub fn validate_content(value: &str, field: &str) -> (r: Result<(), String>)
    ensures
        match content_fault(value@, field@) {
            None => r is Ok,
            Some(m) => r matches Err(e) && e@ == m,
        },
{
    if utf8_len(value) == 0 || utf8_len(value) > 1_048_576 {
        Err(concat(field, " must contain 1 to 1048576 bytes"))
    } else {
        Ok(())
    }
}

/// Checks an explicit routing target identifier.
///
/// # Errors
///
/// Returns `"explicit_target has an invalid identifier"` when the value is not
/// a lowercase identifier of at most 63 bytes.
pub fn validate_identifier(value: &str) -> (r: Result<(), String>)
    ensures
        identifier_ok(value@) ==> r is Ok,
        !identifier_ok(value@) ==> (r matches Err(e) && e@
            == "explicit_target has an invalid identifier"@),
{
    let v = chars_of(value);
    if v.len() == 0 || !('a' <= v[0] && v[0] <= 'z') {
        return Err("explicit_target has an invalid identifier".to_owned());
    }
    let mut ok = true;
    let mut i: usize = 1;
    while ok && i < v.len()
        invariant
            1 <= i <= v@.len(),
            is_lower(v@[0]),
            ok ==> forall|k: int| 1 <= k < i ==> is_identifier_char(#[trigger] v@[k]),
            !ok ==> !identifier_ok(value@),
            v@ == value@,
        decreases v@.len() - i + (if ok { 1int } else { 0int }),
    {
        let c = v[i];
        if !(('a' <= c && c <= 'z') || ('0' <= c && c <= '9') || c == '-') {
            assert(!is_identifier_char(v@[i as int]));
            ok = false;
        } else {
            i += 1;
        }
    }
    if ok && utf8_len(value) <= 63 {
        Ok(())
    } else {
        Err("explicit_target has an invalid identifier".to_owned())
    }
}

/// Checks an export output path.
///
/// # Errors
///
/// Returns `"output_path must be an absolute non-traversing path"` for a long,
/// relative or traversing path.
pub fn validate_output_path(value: &str) -> (r: Result<(), String>)
    ensures
        output_path_ok(value@) ==> r is Ok,
        !output_path_ok(value@) ==> (r matches Err(e) && e@
            == "output_path must be an absolute non-traversing path"@),
{
    let v = chars_of(value);
    if utf8_len(value) > 4_096 || !path_is_absolute(&v) || path_has_parent_component(&v) {
        Err("output_path must be an absolute non-traversing path".to_owned())
    } else {
        Ok(())
    }
}

/// Checks that a UUID field holds a UUIDv7.
///
/// # Errors
///
/// Returns `"<field> must be a UUIDv7"` otherwise.
pub fn require_uuid_v7(value: u128, field: &str) -> (r: Result<(), String>)
    ensures
        match uuid_fault(value, field@) {
            None => r is Ok,
            Some(m) => r matches Err(e) && e@ == m,
        },
{
    if is_uuid_v7(value) {
        Ok(())
    } else {
        Err(concat(field, " must be a UUIDv7"))
    }
}

/// No two strings of `v` hold the same text.
fn all_distinct(v: &Vec<String>) -> (r: bool)
    ensures
        r == texts(v@).no_duplicates(),
{
    let n = v.len();
    let mut i: usize = 0;
    while i < n
        invariant
            n == v@.len(),
            i <= n,
            forall|a: int, b: int| 0 <= a < i && a < b < n ==> v@[a]@ != v@[b]@,
        decreases n - i,
    {
        let mut j = i + 1;
        while j < n
            invariant
                n == v@.len(),
                i < n,
                i + 1 <= j <= n,
                forall|a: int, b: int| 0 <= a < i && a < b < n ==> v@[a]@ != v@[b]@,
                forall|b: int| i < b < j ==> v@[i as int]@ != v@[b]@,
            decreases n - j,
        {
            if str_eq(v[i].as_str(), v[j].as_str()) {
                assert(texts(v@)[i as int] == texts(v@)[j as int]);
                return false;
            }
            j += 1;
        }
        i += 1;
    }
    assert forall|a: int, b: int| 0 <= a < texts(v@).len() && 0 <= b < texts(v@).len() && a != b
        implies texts(v@)[a] != texts(v@)[b] by {
        if a < b {
            assert(v@[a]@ != v@[b]@);
        } else {
            assert(v@[b]@ != v@[a]@);
        }
    }
    true
}

/// Some string of `v` is longer than `max` bytes, or empty when `or_empty`.
fn any_bad_length(v: &Vec<String>, max: usize, or_empty: bool) -> (r: bool)
    ensures
        !or_empty ==> r == some_longer_than(texts(v@), max as nat),
        or_empty ==> r == some_empty_or_longer_than(texts(v@), max as nat),
{
    let n = v.len();
    let mut i: usize = 0;
    while i < n
        invariant
            n == v@.len(),
            i <= n,
            forall|k: int|
                0 <= k < i ==> !(byte_len(#[trigger] texts(v@)[k]) > max || (or_empty
                    && texts(v@)[k].len() == 0)),
        decreases n - i,
    {
        let s = v[i].as_str();
        assert(texts(v@)[i as int] == s@);
        if utf8_len(s) > max || (or_empty && s.is_empty()) {
            return true;
        }
        i += 1;
    }
    false
}

impl Command {
    /// The wire name of this command's method.
    pub fn method(&self) -> (r: &'static str)
        ensures
            r@ == method_name(*self),
    {
        match self {
            Self::Initialize(_) => "initialize",
            Self::StatusGet(_) => "status.get",
            Self::SessionCreate(_) => "session.create",
            Self::SessionList(_) => "session.list",
            Self::SessionGet(_) => "session.get",
            Self::SessionAttach(_) => "session.attach",
            Self::SessionPrompt(_) => "session.prompt",
            Self::SessionPause(_) => "session.pause",
            Self::SessionResume(_) => "session.resume",
            Self::SessionRedirect(_) => "session.redirect",
            Self::SessionCancel(_) => "session.cancel",
            Self::SessionApprovalResolve(_) => "session.approval.resolve",
            Self::SessionReconcile(_) => "session.reconcile",
            Self::SessionExport(_) => "session.export",
            Self::SessionDelete(_) => "session.delete",
        }
    }

    /// Whether the method addresses one session.
    pub fn requires_session(&self) -> (r: bool)
        ensures
            r == needs_session(*self),
    {
        !matches!(
            self,
            Self::Initialize(_) | Self::StatusGet(_) | Self::SessionCreate(_) | Self::SessionList(_)
        )
    }

    /// Checks the rules that the parameters of each method must meet.
    ///
    /// # Errors
    ///
    /// Returns the message of the first rule that is broken.
    pub fn validate(&self) -> (r: Result<(), String>)
        ensures
            match command_fault(*self) {
                None => r is Ok,
                Some(m) => r matches Err(e) && e@ == m,
            },
            *self matches Command::SessionExport(p) ==> (export_acceptable(p) <==> r is Ok),
    {
        proof {
            if *self is SessionExport {
                export_is_accepted_exactly_when_its_fields_are_good(self->SessionExport_0);
            }
        }
        match self {
            Self::Initialize(params) => {
                let name_len = utf8_len(params.client_name.as_str());
                let version_len = utf8_len(params.client_version.as_str());
                if name_len == 0 || name_len > 128 || version_len == 0 || version_len > 128 {
                    return Err("client name and version must contain 1 to 128 bytes".to_owned());
                }
                if params.supported_protocols.len() == 0 || !all_distinct(
                    &params.supported_protocols,
                ) || any_bad_length(&params.supported_protocols, 32, false) {
                    return Err("supported_protocols must be non-empty and unique".to_owned());
                }
            },
            Self::SessionCreate(params) => {
                if !params.persistent {
                    return Err("feature 001 supports persistent sessions only".to_owned());
                }
            },
            Self::SessionList(params) => {
                if !(1 <= params.limit && params.limit <= 100) {
                    return Err("limit must be between 1 and 100".to_owned());
                }
                if let Some(before_session_id) = params.before_session_id {
                    if let Err(e) = require_uuid_v7(before_session_id, "before_session_id") {
                        return Err(e);
                    }
                }
            },
            Self::SessionPrompt(params) => {
                if let Err(e) = validate_content(params.text.as_str(), "text") {
                    return Err(e);
                }
                if let Some(target) = &params.explicit_target {
                    if let Err(e) = validate_identifier(target.as_str()) {
                        return Err(e);
                    }
                }
            },
            Self::SessionRedirect(params) => {
                return validate_content(params.instruction.as_str(), "instruction");
            },
            Self::SessionApprovalResolve(params) => {
                return require_uuid_v7(params.approval_id, "approval_id");
            },
            Self::SessionReconcile(params) => {
                if let Err(e) = require_uuid_v7(params.attempt_id, "attempt_id") {
                    return Err(e);
                }
                if let Some(evidence) = &params.evidence {
                    if utf8_len(evidence.as_str()) > 4_096 {
                        return Err("evidence exceeds 4096 bytes".to_owned());
                    }
                }
            },
            Self::SessionExport(params) => {
                if let Err(e) = validate_output_path(params.output_path.as_str()) {
                    return Err(e);
                }
                if params.age_recipients.len() == 0 || !all_distinct(&params.age_recipients)
                    || any_bad_length(&params.age_recipients, 512, true) {
                    return Err("age_recipients must be non-empty, valid, and unique".to_owned());
                }
            },
            Self::SessionDelete(params) => {
                return require_uuid_v7(params.confirm_session_id, "confirm_session_id");
            },
            _ => {},
        }
        Ok(())
    }
}

/// The rule, if any, that a decoded request breaks, in the order the
/// envelope is read: protocol, request id, session id, the method's
/// parameters, the session scope, and the method's own rules.
pub open spec fn client_command_fault(
    protocol: Seq<char>,
    request_id: u128,
    session_id: Option<u128>,
    parsed: Result<Command, String>,
) -> Option<Seq<char>> {
    if protocol != PROTOCOL_V1@ {
        Some("unsupported protocol major"@)
    } else if uuid_fault(request_id, "request_id"@) is Some {
        uuid_fault(request_id, "request_id"@)
    } else if session_id matches Some(s) && uuid_fault(s, "session_id"@) is Some {
        uuid_fault(session_id->0, "session_id"@)
    } else {
        match parsed {
            Err(e) => Some(e@),
            Ok(c) => if needs_session(c) && session_id is None {
                Some("session_id is required for this method"@)
            } else if !needs_session(c) && session_id is Some {
                Some("session_id is forbidden for this method"@)
            } else {
                command_fault(c)
            },
        }
    }
}

impl ClientCommand {
    /// Assembles a request from its envelope fields and the parsed method
    /// parameters.
    ///
    /// # Errors
    ///
    /// Returns the message of the first rule that is broken.
    pub fn from_wire(
        protocol: String,
        request_id: u128,
        session_id: Option<u128>,
        parsed: Result<Command, String>,
    ) -> (r: Result<Self, String>)
        ensures
            match client_command_fault(protocol@, request_id, session_id, parsed) {
                Some(m) => r matches Err(e) && e@ == m,
                None => r matches Ok(c) && c.protocol@ == protocol@ && c.request_id == request_id
                    && c.session_id == session_id && parsed == Ok::<Command, String>(c.command),
            },
    {
        if !str_eq(protocol.as_str(), PROTOCOL_V1) {
            return Err("unsupported protocol major".to_owned());
        }
        if let Err(e) = require_uuid_v7(request_id, "request_id") {
            return Err(e);
        }
        if let Some(session) = session_id {
            if let Err(e) = require_uuid_v7(session, "session_id") {
                return Err(e);
            }
        }
        let command = match parsed {
            Ok(command) => command,
            Err(e) => return Err(e),
        };
        let session_required = command.requires_session();
        if session_required && session_id.is_none() {
            return Err("session_id is required for this method".to_owned());
        }
        if !session_required && session_id.is_some() {
            return Err("session_id is forbidden for this method".to_owned());
        }
        if let Err(e) = command.validate() {
            return Err(e);
        }
        Ok(Self { protocol, request_id, session_id, command })
    }
}

} // verus!
