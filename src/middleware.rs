//! The pipeline that wraps every call: latency logging outermost, then authorization of
//! privileged methods against a fixed set of admin identities.
//!
//! The pipeline decides; its host performs. Given a call's method path and caller identity,
//! `Pipeline::on_request` says whether to forward the call or deny it, and `on_response` what
//! to do once the forwarded call returns. The host emits each latency record it is handed.

use std::collections::HashSet;
use vstd::prelude::*;
use vstd::string::StringExecFns;
use crate::text::{parse_u64, unsigned_of};

verus! {

broadcast use vstd::std_specs::hash::group_hash_axioms;

/// Records how long each call took, naming its method.
#[derive(Clone, Copy, Debug, Default)]
pub struct LoggingMiddleware;

/// Lets a privileged method through only for a caller among the admins.
#[derive(Debug)]
pub struct AdminOnlyMiddleware {
    admin_ids: HashSet<u64>,
    privileged: Vec<String>,
}

/// One step that the host of the pipeline performs.
#[derive(Clone, Debug)]
pub enum Action {
    /// Pass the call on to the service.
    Forward,
    /// Answer with `PermissionDenied`; the service is not called.
    Deny,
    /// Emit one latency record for the named method.
    Record(String),
}

pub ghost enum ActionView {
    Forward,
    Deny,
    Record(Seq<char>),
}

impl View for Action {
    type V = ActionView;

    open spec fn view(&self) -> ActionView {
        match self {
            Action::Forward => ActionView::Forward,
            Action::Deny => ActionView::Deny,
            Action::Record(m) => ActionView::Record(m@),
        }
    }
}

pub open spec fn actions_view(actions: Seq<Action>) -> Seq<ActionView> {
    actions.map_values(|a: Action| a@)
}

/// Where a call stands after the pipeline has seen its request.
#[derive(Clone, Copy, Debug, PartialEq, Eq, Structural)]
pub enum Phase {
    /// Passed on; the pipeline waits for the service's answer.
    Dispatched,
    /// Answered by the pipeline itself.
    Completed,
}

/// `path` ends with `suffix`.
pub open spec fn ends_with(path: Seq<char>, suffix: Seq<char>) -> bool {
    path.len() >= suffix.len() && path.subrange(path.len() - suffix.len(), path.len() as int)
        == suffix
}

/// Whether a method path is among the privileged ones, each written as a path suffix.
pub open spec fn privileged_path(privileged: Seq<Seq<char>>, path: Seq<char>) -> bool {
    exists|i: int| 0 <= i < privileged.len() && ends_with(path, #[trigger] privileged[i])
}

/// The caller identity that a request carries: a number, when the field is there.
pub open spec fn caller_of(user_id: Option<Seq<char>>) -> Option<u64> {
    match user_id {
        Some(s) => unsigned_of(s),
        None => None,
    }
}

/// Whether the authorization stage lets a call through.
pub open spec fn admitted(
    privileged: Seq<Seq<char>>,
    admins: Set<u64>,
    path: Seq<char>,
    user_id: Option<Seq<char>>,
) -> bool {
    !privileged_path(privileged, path) || match caller_of(user_id) {
        Some(id) => admins.contains(id),
        None => false,
    }
}

pub open spec fn str_opt_view(s: Option<&str>) -> Option<Seq<char>> {
    match s {
        Some(t) => Some(t@),
        None => None,
    }
}

fn has_suffix(path: &str, suffix: &str) -> (r: bool)
    ensures
        r == ends_with(path@, suffix@),
{
    let n = path.unicode_len();
    let m = suffix.unicode_len();
    if n < m {
        return false;
    }
    let mut i: usize = 0;
    while i < m
        invariant
            i <= m <= n,
            n == path@.len(),
            m == suffix@.len(),
            forall|k: int| 0 <= k < i ==> path@[n - m + k] == suffix@[k],
        decreases m - i,
    {
        if path.get_char(n - m + i) != suffix.get_char(i) {
            assert(path@.subrange(n - m, n as int)[i as int] == path@[n - m + i]);
            return false;
        }
        i = i + 1;
    }
    assert(path@.subrange(n - m, n as int) =~= suffix@);
    true
}

impl AdminOnlyMiddleware {
    pub closed spec fn admins(&self) -> Set<u64> {
        self.admin_ids@
    }

    pub closed spec fn privileged_paths(&self) -> Seq<Seq<char>> {
        self.privileged@.map_values(|p: String| p@)
    }

    /// Guards concert creation for the given admins.
    pub fn new(admin_ids: HashSet<u64>) -> (r: AdminOnlyMiddleware)
        ensures
            r.admins() == admin_ids@,
            r.privileged_paths() == seq!["/CreateConcert"@],
    {
        let mut privileged: Vec<String> = Vec::new();
        privileged.push(String::from_str("/CreateConcert"));
        let r = AdminOnlyMiddleware { admin_ids, privileged };
        assert(r.privileged_paths() =~= seq!["/CreateConcert"@]);
        r
    }

    /// Guards the methods whose paths end with one of `privileged` for the given admins.
    pub fn with_privileged(admin_ids: HashSet<u64>, privileged: Vec<String>) -> (r: AdminOnlyMiddleware)
        ensures
            r.admins() == admin_ids@,
            r.privileged_paths() == privileged@.map_values(|p: String| p@),
    {
        AdminOnlyMiddleware { admin_ids, privileged }
    }

    /// Whether the method at `path` is privileged.
    pub fn is_privileged(&self, path: &str) -> (r: bool)
        ensures
            r == privileged_path(self.privileged_paths(), path@),
    {
        let mut i: usize = 0;
        while i < self.privileged.len()
            invariant
                i <= self.privileged@.len(),
                forall|k: int| 0 <= k < i ==> !ends_with(path@, #[trigger] self.privileged_paths()[k]),
            decreases self.privileged@.len() - i,
        {
            if has_suffix(path, self.privileged[i].as_str()) {
                assert(ends_with(path@, self.privileged_paths()[i as int]));
                return true;
            }
            i = i + 1;
        }
        false
    }

    /// Whether a call to `path` by the caller whose identity field reads `user_id` may proceed.
    pub fn admits(&self, path: &str, user_id: Option<&str>) -> (r: bool)
        ensures
            r == admitted(self.privileged_paths(), self.admins(), path@, str_opt_view(user_id)),
    {
        if !self.is_privileged(path) {
            return true;
        }
        let caller = match user_id {
            Some(s) => parse_u64(s),
            None => None,
        };
        match caller {
            Some(id) => self.admin_ids.contains(&id),
            None => false,
        }
    }
}

impl LoggingMiddleware {
    /// The latency record of a call to `path`.
    pub fn record(&self, path: &str) -> (r: Action)
        ensures
            r@ == ActionView::Record(path@),
    {
        Action::Record(String::from_str(path))
    }
}

/// The logging stage wrapped around the authorization stage.
#[derive(Debug)]
pub struct Pipeline {
    pub logging: LoggingMiddleware,
    pub admin: AdminOnlyMiddleware,
}

/// What the pipeline does on a request: forward it, or deny it and record its latency.
pub open spec fn request_steps(
    privileged: Seq<Seq<char>>,
    admins: Set<u64>,
    path: Seq<char>,
    user_id: Option<Seq<char>>,
) -> (Phase, Seq<ActionView>) {
    if admitted(privileged, admins, path, user_id) {
        (Phase::Dispatched, seq![ActionView::Forward])
    } else {
        (Phase::Completed, seq![ActionView::Deny, ActionView::Record(path)])
    }
}

/// What the pipeline does once a forwarded call has returned, whatever it returned.
pub open spec fn response_steps(path: Seq<char>) -> Seq<ActionView> {
    seq![ActionView::Record(path)]
}

/// Every step of one call, from its request to its answer.
pub open spec fn call_steps(
    privileged: Seq<Seq<char>>,
    admins: Set<u64>,
    path: Seq<char>,
    user_id: Option<Seq<char>>,
) -> Seq<ActionView> {
    let (phase, first) = request_steps(privileged, admins, path, user_id);
    if phase == Phase::Dispatched {
        first + response_steps(path)
    } else {
        first
    }
}

/// The methods named by the latency records among `steps`, in order.
pub open spec fn records(steps: Seq<ActionView>) -> Seq<Seq<char>>
    decreases steps.len(),
{
    if steps.len() == 0 {
        Seq::empty()
    } else {
        let rest = records(steps.drop_last());
        match steps.last() {
            ActionView::Record(m) => rest.push(m),
            _ => rest,
        }
    }
}

impl Pipeline {
    pub fn new(logging: LoggingMiddleware, admin: AdminOnlyMiddleware) -> (r: Pipeline)
        ensures
            r.admin == admin,
    {
        Pipeline { logging, admin }
    }

    /// The steps for a request to `path` from the caller whose identity field reads `user_id`.
    pub fn on_request(&self, path: &str, user_id: Option<&str>) -> (r: (Phase, Vec<Action>))
        ensures
            (r.0, actions_view(r.1@)) == request_steps(
                self.admin.privileged_paths(),
                self.admin.admins(),
                path@,
                str_opt_view(user_id),
            ),
    {
        let mut steps: Vec<Action> = Vec::new();
        if self.admin.admits(path, user_id) {
            steps.push(Action::Forward);
            assert(actions_view(steps@) =~= seq![ActionView::Forward]);
            (Phase::Dispatched, steps)
        } else {
            steps.push(Action::Deny);
            steps.push(self.logging.record(path));
            assert(actions_view(steps@) =~= seq![ActionView::Deny, ActionView::Record(path@)]);
            (Phase::Completed, steps)
        }
    }

    /// The steps once the service has answered a forwarded call to `path`.
    pub fn on_response(&self, path: &str) -> (r: Vec<Action>)
        ensures
            actions_view(r@) == response_steps(path@),
    {
        let mut steps: Vec<Action> = Vec::new();
        steps.push(self.logging.record(path));
        assert(actions_view(steps@) =~= response_steps(path@));
        steps
    }
}

/// A privileged call from a caller without an identity, or with one outside the admins, is
/// denied by the pipeline itself and never forwarded to the service; a call from an admin is
/// forwarded.
pub proof fn lemma_privileged_call_gated(
    privileged: Seq<Seq<char>>,
    admins: Set<u64>,
    path: Seq<char>,
    user_id: Option<Seq<char>>,
)
    requires
        privileged_path(privileged, path),
    ensures
        (caller_of(user_id) is None || !admins.contains(caller_of(user_id)->Some_0)) ==> {
            let steps = request_steps(privileged, admins, path, user_id);
            &&& steps.0 == Phase::Completed
            &&& steps.1[0] == ActionView::Deny
            &&& !steps.1.contains(ActionView::Forward)
            &&& !call_steps(privileged, admins, path, user_id).contains(ActionView::Forward)
        },
        (caller_of(user_id) matches Some(id) && admins.contains(id)) ==> request_steps(
            privileged,
            admins,
            path,
            user_id,
        ) == (Phase::Dispatched, seq![ActionView::Forward]),
{
    let steps = request_steps(privileged, admins, path, user_id);
    if !admitted(privileged, admins, path, user_id) {
        assert(steps.1[0] != ActionView::Forward);
        assert(steps.1[1] != ActionView::Forward);
    }
}

/// Every call, forwarded or denied, leaves exactly one latency record, and it names the call's
/// method.
pub proof fn lemma_one_latency_record(
    privileged: Seq<Seq<char>>,
    admins: Set<u64>,
    path: Seq<char>,
    user_id: Option<Seq<char>>,
)
    ensures
        records(call_steps(privileged, admins, path, user_id)) == seq![path],
{
    let steps = call_steps(privileged, admins, path, user_id);
    let first = seq![ActionView::Forward];
    let denied = seq![ActionView::Deny, ActionView::Record(path)];
    assert(records(Seq::<ActionView>::empty()) == Seq::<Seq<char>>::empty());
    if admitted(privileged, admins, path, user_id) {
        assert(steps =~= seq![ActionView::Forward, ActionView::Record(path)]);
        assert(steps.drop_last() =~= first);
        assert(first.drop_last() =~= Seq::<ActionView>::empty());
        assert(records(first) =~= Seq::<Seq<char>>::empty());
        assert(records(steps) =~= seq![path]);
    } else {
        assert(steps == denied);
        assert(denied.drop_last() =~= seq![ActionView::Deny]);
        assert(seq![ActionView::Deny].drop_last() =~= Seq::<ActionView>::empty());
        assert(records(seq![ActionView::Deny]) =~= Seq::<Seq<char>>::empty());
        assert(records(denied) =~= seq![path]);
    }
}

} // verus!
