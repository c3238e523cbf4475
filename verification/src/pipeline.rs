use vstd::prelude::*;
use vstd::string::StrSliceExecFns;

use crate::data::{Config, MRPayload, MRRequest, ProjectResponse, User};
use crate::error::HttpError;
use crate::http::{
    config_labels_view, build_mr_payload, mr_url, mr_url_view, user_search_url,
    user_search_url_view,
};
use crate::text::{dec_rep, parse_u64, parse_u64_spec};

verus! {

/// How a free-form assignee query is handled: no query means no assignee, a
/// numeric query is taken as the id itself, anything else needs a search.
pub enum AssigneeQuery {
    NoAssignee,
    Direct(u64),
    Search,
}

pub open spec fn classify_assignee_spec(q: Seq<char>) -> AssigneeQuery {
    if parse_u64_spec(q) is Some {
        AssigneeQuery::Direct(parse_u64_spec(q)->0)
    } else if q.len() == 0 {
        AssigneeQuery::NoAssignee
    } else {
        AssigneeQuery::Search
    }
}

/// Classifies the assignee query. A numeric query is trusted as an id without
/// any lookup; only a non-empty, non-numeric query leads to a user search.
pub fn classify_assignee(q: &str) -> (r: AssigneeQuery)
    ensures
        r == classify_assignee_spec(q@),
{
    match parse_u64(q) {
        Some(id) => AssigneeQuery::Direct(id),
        None => {
            if q.unicode_len() == 0 {
                AssigneeQuery::NoAssignee
            } else {
                AssigneeQuery::Search
            }
        },
    }
}

/// Why the pipeline stopped before a merge request came to be.
pub enum PipelineFailure {
    /// The user search itself failed.
    UsersFetch(HttpError),
    /// The query matched no user at all.
    AssigneeNotFound,
    /// The query matched several users; they are reported, never auto-picked.
    AssigneeAmbiguous(Vec<User>),
    /// The project listing failed.
    ProjectsFetch(HttpError),
    /// No project's clone URL equals the local remote URL.
    ProjectNotFound,
    /// The submission request failed.
    Submission(HttpError),
}

/// Disambiguates a user-search result: no user is terminal, exactly one
/// names the assignee, several are reported and never auto-resolved.
pub fn resolve_searched_users(users: Vec<User>) -> (r: Result<u64, PipelineFailure>)
    ensures
        users@.len() == 0 ==> r == Err::<u64, PipelineFailure>(PipelineFailure::AssigneeNotFound),
        users@.len() == 1 ==> r == Ok::<u64, PipelineFailure>(users@[0].id),
        users@.len() > 1 ==> r == Err::<u64, PipelineFailure>(
            PipelineFailure::AssigneeAmbiguous(users),
        ),
{
    if users.len() == 0 {
        Err(PipelineFailure::AssigneeNotFound)
    } else if users.len() == 1 {
        Ok(users[0].id)
    } else {
        Err(PipelineFailure::AssigneeAmbiguous(users))
    }
}

/// The first index at or past `i` whose project's SSH clone URL equals the
/// remote URL.
pub open spec fn first_ssh_match_from(ps: Seq<ProjectResponse>, remote: Seq<char>, i: int) -> Option<
    int,
>
    decreases ps.len() - i,
{
    if i < 0 || i >= ps.len() {
        None
    } else if ps[i].ssh_url_to_repo@ == remote {
        Some(i)
    } else {
        first_ssh_match_from(ps, remote, i + 1)
    }
}

/// The first index at or past `i` whose project's HTTP clone URL equals the
/// remote URL.
pub open spec fn first_http_match_from(ps: Seq<ProjectResponse>, remote: Seq<char>, i: int) -> Option<
    int,
>
    decreases ps.len() - i,
{
    if i < 0 || i >= ps.len() {
        None
    } else if ps[i].http_url_to_repo@ == remote {
        Some(i)
    } else {
        first_http_match_from(ps, remote, i + 1)
    }
}

/// Which project the remote URL belongs to: the first match by SSH URL wins;
/// only when no SSH URL matches does the first match by HTTP URL count.
pub open spec fn match_project_spec(ps: Seq<ProjectResponse>, remote: Seq<char>) -> Option<int> {
    match first_ssh_match_from(ps, remote, 0) {
        Some(i) => Some(i),
        None => first_http_match_from(ps, remote, 0),
    }
}

/// Finds the project whose SSH clone URL equals the local remote URL, falling
/// back to the HTTP clone URL, scanning in listing order.
#[verifier::loop_isolation(false)]
pub fn match_project(remote_url: &String, projects: &Vec<ProjectResponse>) -> (r: Option<usize>)
    ensures
        r matches Some(i) ==> i < projects@.len() && match_project_spec(projects@, remote_url@)
            == Some(i as int),
        r is None ==> match_project_spec(projects@, remote_url@) is None,
{
    let n = projects.len();
    let mut i: usize = 0;
    while i < n
        invariant
            i <= n,
            first_ssh_match_from(projects@, remote_url@, 0) == first_ssh_match_from(
                projects@,
                remote_url@,
                i as int,
            ),
        decreases n - i,
    {
        if projects[i].ssh_url_to_repo == *remote_url {
            return Some(i);
        }
        i = i + 1;
    }
    let mut i: usize = 0;
    while i < n
        invariant
            i <= n,
            first_ssh_match_from(projects@, remote_url@, 0) is None,
            first_http_match_from(projects@, remote_url@, 0) == first_http_match_from(
                projects@,
                remote_url@,
                i as int,
            ),
        decreases n - i,
    {
        if projects[i].http_url_to_repo == *remote_url {
            return Some(i);
        }
        i = i + 1;
    }
    None
}

proof fn lemma_first_ssh_from(ps: Seq<ProjectResponse>, remote: Seq<char>, k: int, i: int)
    requires
        0 <= k <= i < ps.len(),
        ps[i].ssh_url_to_repo@ == remote,
        forall|j: int| k <= j < i ==> #[trigger] ps[j].ssh_url_to_repo@ != remote,
    ensures
        first_ssh_match_from(ps, remote, k) == Some(i),
    decreases i - k,
{
    if k < i {
        lemma_first_ssh_from(ps, remote, k + 1, i);
    }
}

proof fn lemma_no_ssh_from(ps: Seq<ProjectResponse>, remote: Seq<char>, k: int)
    requires
        0 <= k,
        forall|j: int| k <= j < ps.len() ==> #[trigger] ps[j].ssh_url_to_repo@ != remote,
    ensures
        first_ssh_match_from(ps, remote, k) is None,
    decreases ps.len() - k,
{
    if k < ps.len() {
        lemma_no_ssh_from(ps, remote, k + 1);
    }
}

proof fn lemma_first_http_from(ps: Seq<ProjectResponse>, remote: Seq<char>, k: int, i: int)
    requires
        0 <= k <= i < ps.len(),
        ps[i].http_url_to_repo@ == remote,
        forall|j: int| k <= j < i ==> #[trigger] ps[j].http_url_to_repo@ != remote,
    ensures
        first_http_match_from(ps, remote, k) == Some(i),
    decreases i - k,
{
    if k < i {
        lemma_first_http_from(ps, remote, k + 1, i);
    }
}

proof fn lemma_no_http_from(ps: Seq<ProjectResponse>, remote: Seq<char>, k: int)
    requires
        0 <= k,
        forall|j: int| k <= j < ps.len() ==> #[trigger] ps[j].http_url_to_repo@ != remote,
    ensures
        first_http_match_from(ps, remote, k) is None,
    decreases ps.len() - k,
{
    if k < ps.len() {
        lemma_no_http_from(ps, remote, k + 1);
    }
}

/// When the remote URL equals exactly one project's SSH clone URL, that
/// project is the match, whatever the HTTP URLs say.
pub proof fn lemma_unique_ssh_match(ps: Seq<ProjectResponse>, remote: Seq<char>, i: int)
    requires
        0 <= i < ps.len(),
        ps[i].ssh_url_to_repo@ == remote,
        forall|j: int| 0 <= j < ps.len() && j != i ==> #[trigger] ps[j].ssh_url_to_repo@ != remote,
    ensures
        match_project_spec(ps, remote) == Some(i),
{
    lemma_first_ssh_from(ps, remote, 0, i);
}

/// When no SSH clone URL matches, the first project whose HTTP clone URL
/// matches is selected.
pub proof fn lemma_http_fallback(ps: Seq<ProjectResponse>, remote: Seq<char>, i: int)
    requires
        forall|j: int| 0 <= j < ps.len() ==> #[trigger] ps[j].ssh_url_to_repo@ != remote,
        0 <= i < ps.len(),
        ps[i].http_url_to_repo@ == remote,
        forall|j: int| 0 <= j < i ==> #[trigger] ps[j].http_url_to_repo@ != remote,
    ensures
        match_project_spec(ps, remote) == Some(i),
{
    lemma_no_ssh_from(ps, remote, 0);
    lemma_first_http_from(ps, remote, 0, i);
}

/// When neither clone URL of any project matches, there is no match at all.
pub proof fn lemma_no_project_match(ps: Seq<ProjectResponse>, remote: Seq<char>)
    requires
        forall|j: int| 0 <= j < ps.len() ==> #[trigger] ps[j].ssh_url_to_repo@ != remote,
        forall|j: int| 0 <= j < ps.len() ==> #[trigger] ps[j].http_url_to_repo@ != remote,
    ensures
        match_project_spec(ps, remote) is None,
{
    lemma_no_ssh_from(ps, remote, 0);
    lemma_no_http_from(ps, remote, 0);
}

/// Everything the pipeline reads: the configuration and the values the push
/// and the command line already fixed. Never mutated after construction.
pub struct PipelineContext {
    pub config: Config,
    pub remote_url: String,
    pub access_token: String,
    pub title: String,
    pub description: String,
    pub source_branch: String,
    pub target_branch: String,
    pub assignee: String,
}

/// The pipeline's stages, entered in order after a successful push. Every
/// failure is terminal; nothing before submission has a side effect.
pub enum PipelineState {
    Idle,
    AssigneeResolving,
    ProjectMatching { assignee_id: Option<u64> },
    Submitting { assignee_id: Option<u64>, project_id: u64 },
    Succeeded { web_url: String },
    Failed(PipelineFailure),
}

/// What the outside world reports back into the pipeline.
pub enum PipelineEvent {
    PushCompleted,
    UsersFetched(Result<Vec<User>, HttpError>),
    ProjectsFetched(Result<Vec<ProjectResponse>, HttpError>),
    SubmissionFinished(Result<String, HttpError>),
}

/// What the pipeline asks the outside world to do next. `Halt` asks nothing:
/// the state is terminal or the event did not belong to it.
pub enum PipelineAction {
    SearchUsers { url: String },
    FetchProjects,
    Submit { url: String, payload: MRPayload },
    Halt,
}

/// The payload the submitter posts: the project id in decimal, the request's
/// fields verbatim, the configured labels folded, removal of the source
/// branch always requested, squashing never.
pub open spec fn payload_matches(
    p: MRPayload,
    ctx: PipelineContext,
    assignee_id: Option<u64>,
    project: ProjectResponse,
) -> bool {
    &&& p.id@ == dec_rep(project.id as nat)
    &&& p.title@ == ctx.title@
    &&& p.description@ == ctx.description@
    &&& p.source_branch@ == ctx.source_branch@
    &&& p.target_branch@ == ctx.target_branch@
    &&& p.labels@ == config_labels_view(ctx.config.mr_labels)
    &&& p.remove_source_branch == true
    &&& p.squash == false
    &&& p.assignee_id == assignee_id
}

/// The whole transition relation of the pipeline: what the next state and the
/// requested action are for every state and event.
pub open spec fn step_ok(
    ctx: PipelineContext,
    state: PipelineState,
    event: PipelineEvent,
    next: PipelineState,
    action: PipelineAction,
) -> bool {
    match (state, event) {
        (PipelineState::Idle, PipelineEvent::PushCompleted) => match classify_assignee_spec(
            ctx.assignee@,
        ) {
            AssigneeQuery::NoAssignee => next == (PipelineState::ProjectMatching {
                assignee_id: None,
            }) && action == PipelineAction::FetchProjects,
            AssigneeQuery::Direct(id) => next == (PipelineState::ProjectMatching {
                assignee_id: Some(id),
            }) && action == PipelineAction::FetchProjects,
            AssigneeQuery::Search => next == PipelineState::AssigneeResolving && (
            action matches PipelineAction::SearchUsers { url } && url@ == user_search_url_view(
                ctx.config,
                ctx.assignee@,
            )),
        },
        (PipelineState::AssigneeResolving, PipelineEvent::UsersFetched(res)) => match res {
            Err(e) => next == PipelineState::Failed(PipelineFailure::UsersFetch(e)) && action
                == PipelineAction::Halt,
            Ok(users) => {
                if users@.len() == 0 {
                    next == PipelineState::Failed(PipelineFailure::AssigneeNotFound) && action
                        == PipelineAction::Halt
                } else if users@.len() == 1 {
                    next == (PipelineState::ProjectMatching { assignee_id: Some(users@[0].id) })
                        && action == PipelineAction::FetchProjects
                } else {
                    next == PipelineState::Failed(PipelineFailure::AssigneeAmbiguous(users))
                        && action == PipelineAction::Halt
                }
            },
        },
        (
            PipelineState::ProjectMatching { assignee_id },
            PipelineEvent::ProjectsFetched(res),
        ) => match res {
            Err(e) => next == PipelineState::Failed(PipelineFailure::ProjectsFetch(e)) && action
                == PipelineAction::Halt,
            Ok(projects) => match match_project_spec(projects@, ctx.remote_url@) {
                None => next == PipelineState::Failed(PipelineFailure::ProjectNotFound) && action
                    == PipelineAction::Halt,
                Some(i) => next == (PipelineState::Submitting {
                    assignee_id,
                    project_id: projects@[i].id,
                }) && (action matches PipelineAction::Submit { url, payload } && url@
                    == mr_url_view(ctx.config, projects@[i].id) && payload_matches(
                    payload,
                    ctx,
                    assignee_id,
                    projects@[i],
                )),
            },
        },
        (PipelineState::Submitting { .. }, PipelineEvent::SubmissionFinished(res)) => match res {
            Ok(u) => next == (PipelineState::Succeeded { web_url: u }) && action
                == PipelineAction::Halt,
            Err(e) => next == PipelineState::Failed(PipelineFailure::Submission(e)) && action
                == PipelineAction::Halt,
        },
        (s, _) => next == s && action == PipelineAction::Halt,
    }
}

/// Advances the pipeline by one event. The returned action is what the
/// caller is asked to perform before reporting the next event.
pub fn pipeline_step(ctx: &PipelineContext, state: PipelineState, event: PipelineEvent) -> (r: (
    PipelineState,
    PipelineAction,
))
    ensures
        step_ok(*ctx, state, event, r.0, r.1),
{
    match (state, event) {
        (PipelineState::Idle, PipelineEvent::PushCompleted) => {
            match classify_assignee(ctx.assignee.as_str()) {
                AssigneeQuery::NoAssignee => (
                    PipelineState::ProjectMatching { assignee_id: None },
                    PipelineAction::FetchProjects,
                ),
                AssigneeQuery::Direct(id) => (
                    PipelineState::ProjectMatching { assignee_id: Some(id) },
                    PipelineAction::FetchProjects,
                ),
                AssigneeQuery::Search => {
                    let url = user_search_url(&ctx.config, ctx.assignee.as_str());
                    (PipelineState::AssigneeResolving, PipelineAction::SearchUsers { url })
                },
            }
        },
        (PipelineState::AssigneeResolving, PipelineEvent::UsersFetched(res)) => match res {
            Err(e) => (
                PipelineState::Failed(PipelineFailure::UsersFetch(e)),
                PipelineAction::Halt,
            ),
            Ok(users) => match resolve_searched_users(users) {
                Ok(id) => (
                    PipelineState::ProjectMatching { assignee_id: Some(id) },
                    PipelineAction::FetchProjects,
                ),
                Err(f) => (PipelineState::Failed(f), PipelineAction::Halt),
            },
        },
        (
            PipelineState::ProjectMatching { assignee_id },
            PipelineEvent::ProjectsFetched(res),
        ) => match res {
            Err(e) => (
                PipelineState::Failed(PipelineFailure::ProjectsFetch(e)),
                PipelineAction::Halt,
            ),
            Ok(mut projects) => {
                let ghost ps0 = projects@;
                match match_project(&ctx.remote_url, &projects) {
                    None => (
                        PipelineState::Failed(PipelineFailure::ProjectNotFound),
                        PipelineAction::Halt,
                    ),
                    Some(i) => {
                        let project = projects.remove(i);
                        let req = MRRequest {
                            access_token: ctx.access_token.clone(),
                            project,
                            title: ctx.title.clone(),
                            description: ctx.description.clone(),
                            source_branch: ctx.source_branch.clone(),
                            target_branch: ctx.target_branch.clone(),
                            assignee_id,
                        };
                        let payload = build_mr_payload(&req, &ctx.config);
                        let url = mr_url(&ctx.config, req.project.id);
                        (
                            PipelineState::Submitting {
                                assignee_id,
                                project_id: req.project.id,
                            },
                            PipelineAction::Submit { url, payload },
                        )
                    },
                }
            },
        },
        (PipelineState::Submitting { .. }, PipelineEvent::SubmissionFinished(res)) => match res {
            Ok(u) => (PipelineState::Succeeded { web_url: u }, PipelineAction::Halt),
            Err(e) => (
                PipelineState::Failed(PipelineFailure::Submission(e)),
                PipelineAction::Halt,
            ),
        },
        (s, _) => (s, PipelineAction::Halt),
    }
}

/// A numeric assignee query resolves directly to that id: the pipeline never
/// issues a user search for it.
pub proof fn lemma_numeric_query_resolves_directly(
    ctx: PipelineContext,
    next: PipelineState,
    action: PipelineAction,
)
    requires
        parse_u64_spec(ctx.assignee@) is Some,
        step_ok(ctx, PipelineState::Idle, PipelineEvent::PushCompleted, next, action),
    ensures
        !(action is SearchUsers),
        action is FetchProjects,
        next == (PipelineState::ProjectMatching {
            assignee_id: Some(parse_u64_spec(ctx.assignee@)->0),
        }),
{
}

/// An empty assignee query means no assignee: no user search and no id, and
/// the pipeline moves straight on to project matching.
pub proof fn lemma_empty_query_no_assignee(
    ctx: PipelineContext,
    next: PipelineState,
    action: PipelineAction,
)
    requires
        ctx.assignee@.len() == 0,
        step_ok(ctx, PipelineState::Idle, PipelineEvent::PushCompleted, next, action),
    ensures
        action is FetchProjects,
        next == (PipelineState::ProjectMatching { assignee_id: None::<u64> }),
{
    assert(parse_u64_spec(ctx.assignee@) is None);
}

/// The user-search outcome: no user halts as not found, exactly one resolves
/// to that user's id, several halt as ambiguous carrying all candidates.
pub proof fn lemma_user_search_disambiguation(
    ctx: PipelineContext,
    users: Vec<User>,
    next: PipelineState,
    action: PipelineAction,
)
    requires
        step_ok(
            ctx,
            PipelineState::AssigneeResolving,
            PipelineEvent::UsersFetched(Ok(users)),
            next,
            action,
        ),
    ensures
        users@.len() == 0 ==> next == PipelineState::Failed(PipelineFailure::AssigneeNotFound)
            && action == PipelineAction::Halt,
        users@.len() == 1 ==> next == (PipelineState::ProjectMatching {
            assignee_id: Some(users@[0].id),
        }) && action == PipelineAction::FetchProjects,
        users@.len() > 1 ==> next == PipelineState::Failed(
            PipelineFailure::AssigneeAmbiguous(users),
        ) && action == PipelineAction::Halt,
{
}

/// A failed project listing halts the pipeline with that very error, and no
/// submission is ever requested from it.
pub proof fn lemma_fetch_failure_halts(
    ctx: PipelineContext,
    assignee_id: Option<u64>,
    e: HttpError,
    next: PipelineState,
    action: PipelineAction,
)
    requires
        step_ok(
            ctx,
            PipelineState::ProjectMatching { assignee_id },
            PipelineEvent::ProjectsFetched(Err(e)),
            next,
            action,
        ),
    ensures
        next == PipelineState::Failed(PipelineFailure::ProjectsFetch(e)),
        action == PipelineAction::Halt,
        !(action is Submit),
{
}

/// A failed pipeline is terminal: no later event moves it or makes it act.
pub proof fn lemma_failed_is_terminal(
    ctx: PipelineContext,
    f: PipelineFailure,
    event: PipelineEvent,
    next: PipelineState,
    action: PipelineAction,
)
    requires
        step_ok(ctx, PipelineState::Failed(f), event, next, action),
    ensures
        next == PipelineState::Failed(f),
        action == PipelineAction::Halt,
{
}

} // verus!
