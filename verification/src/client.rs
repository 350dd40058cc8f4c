//! Client settings: the API environment, the workspace identifier, and how
//! explicit settings and the environment variables resolve them.

use vstd::prelude::*;
use vstd::string::StringSliceAdditionalSpecFns;

use crate::error::{HonchoError, Result};
use crate::types::dream::{DreamType, ScheduleDreamRequest};

verus! {

/// Default `limit` of a workspace search that leaves it unset.
pub const DEFAULT_SEARCH_LIMIT: u32 = 10;

/// Longest workspace identifier, in bytes.
pub const MAX_WORKSPACE_ID_LEN: usize = 512;

/// Workspace used when neither the caller nor the environment names one.
pub const DEFAULT_WORKSPACE_ID: &'static str = "default";

/// API environment.
#[derive(Debug, Clone, Copy, PartialEq, Eq)]
pub enum Environment {
    /// Local development server.
    Local,
    /// Production API at <https://api.honcho.dev>.
    Production,
}

impl Default for Environment {
    /// [`Environment::Production`].
    fn default() -> (r: Self)
        ensures
            r == Environment::Production,
    {
        Environment::Production
    }
}

/// The base URL of an environment.
pub open spec fn spec_base_url(env: Environment) -> Seq<char> {
    match env {
        Environment::Local => "http://localhost:8000"@,
        Environment::Production => "https://api.honcho.dev"@,
    }
}

impl Environment {
    /// The base URL of the environment.
    pub fn base_url(self) -> (r: &'static str)
        ensures
            r@ == spec_base_url(self),
    {
        match self {
            Environment::Local => "http://localhost:8000",
            Environment::Production => "https://api.honcho.dev",
        }
    }
}

/// Whether `b` may occur in a workspace identifier (`[a-zA-Z0-9_-]`).
pub open spec fn is_workspace_id_byte(b: u8) -> bool {
    (48 <= b <= 57) || (65 <= b <= 90) || (97 <= b <= 122) || b == 95 || b == 45
}

/// The message of the error for a workspace identifier with these bytes,
/// if it is refused.
pub open spec fn spec_workspace_id_check(bytes: Seq<u8>) -> Option<Seq<char>> {
    if bytes.len() == 0 {
        Some("workspace_id must not be empty"@)
    } else if bytes.len() > MAX_WORKSPACE_ID_LEN {
        Some("workspace_id must be at most 512 characters"@)
    } else if exists|i: int| 0 <= i < bytes.len() && !is_workspace_id_byte(#[trigger] bytes[i]) {
        Some("workspace_id must match [a-zA-Z0-9_-]+"@)
    } else {
        None
    }
}

/// Whether `b` is an ASCII letter, either case.
pub open spec fn is_ascii_letter(b: u8) -> bool {
    ('a' as u8) <= b <= ('z' as u8) || ('A' as u8) <= b <= ('Z' as u8)
}

/// Whether `b` is an ASCII decimal digit.
pub open spec fn is_ascii_digit(b: u8) -> bool {
    ('0' as u8) <= b <= ('9' as u8)
}

/// Law: a workspace identifier is accepted exactly when it has 1 to 512
/// bytes, each an ASCII letter of either case, a digit, `_` or `-`.
pub proof fn law_workspace_id_accepts(bytes: Seq<u8>)
    ensures
        spec_workspace_id_check(bytes) is None <==> {
            &&& 1 <= bytes.len() <= 512
            &&& forall|i: int|
                0 <= i < bytes.len() ==> is_ascii_letter(#[trigger] bytes[i]) || is_ascii_digit(bytes[i]) || bytes[i]
                    == ('_' as u8) || bytes[i] == ('-' as u8)
        },
{
    assert(('a' as u8) == 97u8 && ('z' as u8) == 122u8 && ('A' as u8) == 65u8 && ('Z' as u8) == 90u8);
    assert(('0' as u8) == 48u8 && ('9' as u8) == 57u8 && ('_' as u8) == 95u8 && ('-' as u8) == 45u8);
    if spec_workspace_id_check(bytes) is None {
        assert forall|i: int| 0 <= i < bytes.len() implies is_ascii_letter(#[trigger] bytes[i]) || is_ascii_digit(
            bytes[i],
        ) || bytes[i] == ('_' as u8) || bytes[i] == ('-' as u8) by {
            assert(is_workspace_id_byte(bytes[i]));
        }
    } else if 1 <= bytes.len() <= 512 {
        let i = choose|i: int| 0 <= i < bytes.len() && !is_workspace_id_byte(#[trigger] bytes[i]);
        assert(!(is_ascii_letter(bytes[i]) || is_ascii_digit(bytes[i]) || bytes[i] == ('_' as u8) || bytes[i] == (
        '-' as u8)));
    }
}

/// Check a workspace identifier: 1 to 512 bytes of `[a-zA-Z0-9_-]`.
pub fn validate_workspace_id(workspace_id: &str) -> (r: Result<()>)
    ensures
        match spec_workspace_id_check(workspace_id.spec_bytes()) {
            None => r is Ok,
            Some(m) => r matches Err(HonchoError::Configuration(msg)) && msg@ == m,
        },
{
    let bytes = workspace_id.as_bytes();
    let n = bytes.len();
    if n == 0 {
        return Err(HonchoError::Configuration(String::from_str("workspace_id must not be empty")));
    }
    if n > MAX_WORKSPACE_ID_LEN {
        return Err(HonchoError::Configuration(String::from_str("workspace_id must be at most 512 characters")));
    }
    let mut i: usize = 0;
    while i < n
        invariant
            n == bytes@.len(),
            0 < n <= MAX_WORKSPACE_ID_LEN,
            bytes@ == workspace_id.spec_bytes(),
            i <= n,
            forall|j: int| 0 <= j < i ==> is_workspace_id_byte(#[trigger] bytes@[j]),
        decreases n - i,
    {
        let b = bytes[i];
        if !((48 <= b && b <= 57) || (65 <= b && b <= 90) || (97 <= b && b <= 122) || b == 95 || b == 45) {
            assert(!is_workspace_id_byte(bytes@[i as int]));
            return Err(HonchoError::Configuration(String::from_str("workspace_id must match [a-zA-Z0-9_-]+")));
        }
        i = i + 1;
    }
    Ok(())
}

/// A setting read from the environment counts only when it is not empty.
pub open spec fn spec_non_empty(v: Option<String>) -> Option<String> {
    match v {
        Some(s) => if s@.len() > 0 {
            Some(s)
        } else {
            None
        },
        None => None,
    }
}

/// The value of an environment setting, when it is set and not empty.
pub fn non_empty(v: Option<String>) -> (r: Option<String>)
    ensures
        r == spec_non_empty(v),
{
    match v {
        Some(s) => if s.as_str().is_empty() {
            None
        } else {
            Some(s)
        },
        None => None,
    }
}

/// The base URL a client uses: the explicit one, else `HONCHO_URL`, else
/// `HONCHO_API_URL` (each when set and not empty), else the environment's.
pub fn resolve_base_url(
    explicit: Option<String>,
    honcho_url: Option<String>,
    honcho_api_url: Option<String>,
    environment: Environment,
) -> (r: String)
    ensures
        r@ == match explicit {
            Some(s) => s@,
            None => match spec_non_empty(honcho_url) {
                Some(s) => s@,
                None => match spec_non_empty(honcho_api_url) {
                    Some(s) => s@,
                    None => spec_base_url(environment),
                },
            },
        },
{
    if let Some(s) = explicit {
        return s;
    }
    if let Some(s) = non_empty(honcho_url) {
        return s;
    }
    if let Some(s) = non_empty(honcho_api_url) {
        return s;
    }
    String::from_str(environment.base_url())
}

/// The API key a client uses: the explicit one, else `HONCHO_API_KEY` when
/// set and not empty.
pub fn resolve_api_key(explicit: Option<String>, env_key: Option<String>) -> (r: Option<String>)
    ensures
        r == match explicit {
            Some(s) => Some(s),
            None => spec_non_empty(env_key),
        },
{
    match explicit {
        Some(s) => Some(s),
        None => non_empty(env_key),
    }
}

/// The workspace a client uses: the explicit one, else
/// `HONCHO_WORKSPACE_ID` when set and not empty, else `default`.
pub fn resolve_workspace_id(explicit: Option<String>, env_id: Option<String>) -> (r: String)
    ensures
        r@ == match explicit {
            Some(s) => s@,
            None => match spec_non_empty(env_id) {
                Some(s) => s@,
                None => DEFAULT_WORKSPACE_ID@,
            },
        },
{
    if let Some(s) = explicit {
        return s;
    }
    if let Some(s) = non_empty(env_id) {
        return s;
    }
    String::from_str(DEFAULT_WORKSPACE_ID)
}

} // verus!

verus! {

/// Whether the workspace of a client is known to exist on the server.
#[derive(Debug)]
pub struct EnsureState {
    ensured: bool,
}

impl View for EnsureState {
    type V = bool;

    closed spec fn view(&self) -> bool {
        self.ensured
    }
}

/// The outcome of ensuring a workspace that the server answered with `r`:
/// a conflict means the workspace already exists, which is success.
pub open spec fn spec_ensure_outcome(r: Result<()>) -> bool {
    match r {
        Ok(()) => true,
        Err(e) => e.spec_status() == Some(409u16),
    }
}

impl EnsureState {
    /// Nothing known yet.
    pub fn new() -> (r: Self)
        ensures
            !r@,
    {
        EnsureState { ensured: false }
    }

    /// Whether a request must ensure the workspace first.
    pub fn needs_ensure(&self) -> (r: bool)
        ensures
            r == !self@,
    {
        !self.ensured
    }

    /// Take in the server's answer to ensuring the workspace: success, or a
    /// conflict (the workspace exists), marks it ensured; another error is
    /// passed on and leaves it unknown.
    pub fn on_ensure_result(&mut self, r: Result<()>) -> (out: Result<()>)
        ensures
            out is Ok == spec_ensure_outcome(r),
            final(self)@ == (old(self)@ || spec_ensure_outcome(r)),
            out matches Err(e) ==> r == Err::<(), HonchoError>(e),
    {
        match r {
            Ok(()) => {
                self.ensured = true;
                Ok(())
            },
            Err(e) => {
                if let Some(status) = e.status_code() {
                    if status == 409 {
                        self.ensured = true;
                        return Ok(());
                    }
                }
                Err(e)
            },
        }
    }

    /// A read through the get-or-create endpoint succeeded: the workspace exists.
    pub fn on_workspace_read(&mut self)
        ensures
            final(self)@,
    {
        self.ensured = true;
    }

    /// Forget what is known, so the next request ensures the workspace again.
    pub fn reset(&mut self)
        ensures
            !final(self)@,
    {
        self.ensured = false;
    }

    /// Workspace `deleted_id` was deleted by a client of workspace `own_id`:
    /// forget its workspace when it was that one.
    pub fn on_workspace_deleted(&mut self, deleted_id: &str, own_id: &str)
        ensures
            final(self)@ == (old(self)@ && deleted_id@ != own_id@),
    {
        if crate::json::str_equal(deleted_id, own_id) {
            self.ensured = false;
        }
    }
}

/// Law: a conflict when ensuring a workspace means it already exists,
/// which counts as success.
pub proof fn law_ensure_conflict_is_success(e: HonchoError)
    requires
        e.spec_status() == Some(409u16),
    ensures
        spec_ensure_outcome(Err(e)),
{
}

/// The query parameter `name` with value `v`, when `v` is given.
pub open spec fn opt_param(name: Seq<char>, v: Option<String>) -> Seq<(Seq<char>, Seq<char>)> {
    match v {
        Some(x) => seq![(name, x@)],
        None => Seq::empty(),
    }
}

/// Query parameters as pairs of character sequences.
pub open spec fn params_view(q: Seq<(String, String)>) -> Seq<(Seq<char>, Seq<char>)> {
    q.map_values(|p: (String, String)| (p.0@, p.1@))
}

fn push_opt_param(q: &mut Vec<(String, String)>, name: &str, v: Option<String>)
    ensures
        params_view(final(q)@) == params_view(old(q)@) + opt_param(name@, v),
{
    match v {
        Some(x) => {
            q.push((String::from_str(name), x));
            assert(params_view(q@) =~= params_view(old(q)@) + opt_param(name@, Some(x)));
        },
        None => {
            assert(params_view(q@) =~= params_view(old(q)@) + opt_param(name@, None));
        },
    }
}

/// The query parameters of a workspace queue status request: each of
/// `observer_id`, `sender_id` and `session_id` that is given, in that order.
pub fn queue_status_query(observer_id: Option<String>, sender_id: Option<String>, session_id: Option<String>) -> (r: Vec<(String, String)>)
    ensures
        params_view(r@) == opt_param("observer_id"@, observer_id) + opt_param("sender_id"@, sender_id) + opt_param(
            "session_id"@,
            session_id,
        ),
{
    let mut q: Vec<(String, String)> = Vec::new();
    assert(params_view(q@) =~= Seq::<(Seq<char>, Seq<char>)>::empty());
    push_opt_param(&mut q, "observer_id", observer_id);
    push_opt_param(&mut q, "sender_id", sender_id);
    push_opt_param(&mut q, "session_id", session_id);
    assert(Seq::<(Seq<char>, Seq<char>)>::empty() + opt_param("observer_id"@, observer_id) =~= opt_param("observer_id"@, observer_id));
    q
}

/// The query parameters of a session's queue status request: the session,
/// then each of `observer_id` and `sender_id` that is given.
pub fn session_queue_status_query(session_id: String, observer_id: Option<String>, sender_id: Option<String>) -> (r: Vec<(String, String)>)
    ensures
        params_view(r@) == seq![("session_id"@, session_id@)] + opt_param("observer_id"@, observer_id) + opt_param(
            "sender_id"@,
            sender_id,
        ),
{
    let mut q: Vec<(String, String)> = Vec::new();
    let ghost sid = session_id@;
    q.push((String::from_str("session_id"), session_id));
    assert(params_view(q@) =~= seq![("session_id"@, sid)]);
    push_opt_param(&mut q, "observer_id", observer_id);
    push_opt_param(&mut q, "sender_id", sender_id);
    q
}

/// The body of a dream scheduling request: an omni dream by `observer` on
/// `observed` (the observer itself when none is given), in the session
/// when one is given.
pub fn schedule_dream_body(observer: &str, session_id: Option<String>, observed: Option<String>) -> (r: Result<ScheduleDreamRequest>)
    ensures
        observer@.len() == 0 <==> r is Err,
        r matches Err(e) ==> (e matches HonchoError::Validation(m) && m@ == "observer must not be empty"@),
        r matches Ok(b) ==> {
            &&& b.observer@ == observer@
            &&& b.dream_type == DreamType::Omni
            &&& b.observed matches Some(o) && o@ == match observed {
                Some(x) => x@,
                None => observer@,
            }
            &&& b.session_id == session_id
        },
{
    if observer.is_empty() {
        return Err(HonchoError::Validation(String::from_str("observer must not be empty")));
    }
    let target = match observed {
        Some(x) => x,
        None => String::from_str(observer),
    };
    Ok(ScheduleDreamRequest { observer: String::from_str(observer), dream_type: DreamType::Omni, observed: Some(target), session_id })
}

} // verus!
