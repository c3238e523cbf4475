use push_and_mr::data::{Config, ProjectResponse, User};
use push_and_mr::error::HttpError;
use push_and_mr::git::{current_branch_from_entries, use_ssh_credentials, BranchEntry, BranchName};
use push_and_mr::pipeline::{
    classify_assignee, match_project, pipeline_step, resolve_searched_users, AssigneeQuery,
    PipelineAction, PipelineContext, PipelineEvent, PipelineFailure, PipelineState,
};

fn project(id: u64, name: &str, ssh: &str, http: &str) -> ProjectResponse {
    ProjectResponse {
        id,
        name: String::from(name),
        ssh_url_to_repo: String::from(ssh),
        http_url_to_repo: String::from(http),
    }
}

fn user(id: u64, name: &str, username: &str) -> User {
    User { id, name: String::from(name), username: String::from(username) }
}

fn acme_context(assignee: &str) -> PipelineContext {
    PipelineContext {
        config: Config {
            group: Some(String::from("acme")),
            user: None,
            password: None,
            apikey: Some(String::from("token")),
            ssh_key_file: None,
            ssh_passphrase: None,
            mr_labels: None,
            host: None,
        },
        remote_url: String::from("git@gitlab.com:acme/widgets.git"),
        access_token: String::from("token"),
        title: String::from("A title"),
        description: String::from(""),
        source_branch: String::from("feature"),
        target_branch: String::from("master"),
        assignee: String::from(assignee),
    }
}

#[test]
fn numeric_query_resolves_directly() {
    assert!(matches!(classify_assignee("123"), AssigneeQuery::Direct(123)));
    let ctx = acme_context("123");
    let (next, action) = pipeline_step(&ctx, PipelineState::Idle, PipelineEvent::PushCompleted);
    assert!(matches!(action, PipelineAction::FetchProjects));
    assert!(matches!(next, PipelineState::ProjectMatching { assignee_id: Some(123) }));
}

#[test]
fn empty_query_means_no_assignee() {
    assert!(matches!(classify_assignee(""), AssigneeQuery::NoAssignee));
    let ctx = acme_context("");
    let (next, action) = pipeline_step(&ctx, PipelineState::Idle, PipelineEvent::PushCompleted);
    assert!(matches!(action, PipelineAction::FetchProjects));
    assert!(matches!(next, PipelineState::ProjectMatching { assignee_id: None }));
}

#[test]
fn textual_query_searches_users() {
    assert!(matches!(classify_assignee("jane"), AssigneeQuery::Search));
    let ctx = acme_context("jane");
    let (next, action) = pipeline_step(&ctx, PipelineState::Idle, PipelineEvent::PushCompleted);
    assert!(matches!(next, PipelineState::AssigneeResolving));
    match action {
        PipelineAction::SearchUsers { url } => {
            assert_eq!(url, "https://gitlab.com/api/v4/users?search=jane");
        },
        _ => panic!("expected a user search"),
    }
}

#[test]
fn no_user_found_halts() {
    assert!(matches!(
        resolve_searched_users(vec![]),
        Err(PipelineFailure::AssigneeNotFound)
    ));
    let ctx = acme_context("jane");
    let (next, action) = pipeline_step(
        &ctx,
        PipelineState::AssigneeResolving,
        PipelineEvent::UsersFetched(Ok(vec![])),
    );
    assert!(matches!(action, PipelineAction::Halt));
    assert!(matches!(next, PipelineState::Failed(PipelineFailure::AssigneeNotFound)));
}

#[test]
fn one_user_names_the_assignee() {
    assert!(matches!(resolve_searched_users(vec![user(9, "Jane", "jane")]), Ok(9)));
    let ctx = acme_context("jane");
    let (next, action) = pipeline_step(
        &ctx,
        PipelineState::AssigneeResolving,
        PipelineEvent::UsersFetched(Ok(vec![user(9, "Jane", "jane")])),
    );
    assert!(matches!(action, PipelineAction::FetchProjects));
    assert!(matches!(next, PipelineState::ProjectMatching { assignee_id: Some(9) }));
}

#[test]
fn several_users_are_ambiguous_and_all_reported() {
    let candidates = vec![user(9, "Jane A", "jane.a"), user(11, "Jane B", "jane.b")];
    match resolve_searched_users(candidates) {
        Err(PipelineFailure::AssigneeAmbiguous(all)) => {
            assert_eq!(all.len(), 2);
            assert_eq!(all[0].id, 9);
            assert_eq!(all[0].username, "jane.a");
            assert_eq!(all[1].id, 11);
            assert_eq!(all[1].username, "jane.b");
        },
        _ => panic!("expected the ambiguity report"),
    }
}

#[test]
fn ssh_url_match_selects_the_project() {
    let remote = String::from("git@gitlab.com:acme/widgets.git");
    let projects = vec![
        project(1, "gears", "git@gitlab.com:acme/gears.git", "https://gitlab.com/acme/gears.git"),
        project(2, "widgets", "git@gitlab.com:acme/widgets.git", "https://gitlab.com/acme/widgets.git"),
    ];
    assert_eq!(match_project(&remote, &projects), Some(1));
}

#[test]
fn ssh_match_wins_over_earlier_http_match() {
    let remote = String::from("https://gitlab.com/acme/widgets.git");
    let projects = vec![
        project(1, "mirror", "git@gitlab.com:acme/mirror.git", "https://gitlab.com/acme/widgets.git"),
        project(2, "widgets", "https://gitlab.com/acme/widgets.git", "x"),
    ];
    assert_eq!(match_project(&remote, &projects), Some(1));
}

#[test]
fn http_url_is_the_fallback() {
    let remote = String::from("https://gitlab.com/acme/widgets.git");
    let projects = vec![
        project(1, "gears", "git@gitlab.com:acme/gears.git", "https://gitlab.com/acme/gears.git"),
        project(2, "widgets", "git@gitlab.com:acme/widgets.git", "https://gitlab.com/acme/widgets-mirror.git"),
        project(3, "copy", "y", "https://gitlab.com/acme/widgets.git"),
    ];
    assert_eq!(match_project(&remote, &projects), Some(2));
}

#[test]
fn no_url_match_means_no_project() {
    let remote = String::from("git@elsewhere.example:acme/widgets.git");
    let projects = vec![
        project(1, "gears", "git@gitlab.com:acme/gears.git", "https://gitlab.com/acme/gears.git"),
    ];
    assert_eq!(match_project(&remote, &projects), None);
    let ctx = acme_context("");
    let (next, action) = pipeline_step(
        &ctx,
        PipelineState::ProjectMatching { assignee_id: None },
        PipelineEvent::ProjectsFetched(Ok(projects)),
    );
    assert!(matches!(action, PipelineAction::Halt));
    assert!(matches!(next, PipelineState::Failed(PipelineFailure::ProjectNotFound)));
}

#[test]
fn matched_project_is_submitted_end_to_end() {
    let ctx = acme_context("");
    let projects = vec![project(
        42,
        "widgets",
        "git@gitlab.com:acme/widgets.git",
        "https://gitlab.com/acme/widgets.git",
    )];
    let (next, action) = pipeline_step(
        &ctx,
        PipelineState::ProjectMatching { assignee_id: None },
        PipelineEvent::ProjectsFetched(Ok(projects)),
    );
    assert!(matches!(
        next,
        PipelineState::Submitting { assignee_id: None, project_id: 42 }
    ));
    match action {
        PipelineAction::Submit { url, payload } => {
            assert_eq!(url, "https://gitlab.com/api/v4/projects/42/merge_requests");
            assert_eq!(payload.id, "42");
            assert_eq!(payload.title, "A title");
            assert_eq!(payload.source_branch, "feature");
            assert_eq!(payload.target_branch, "master");
            assert!(payload.remove_source_branch);
            assert!(!payload.squash);
            assert_eq!(payload.assignee_id, None);
        },
        _ => panic!("expected a submission"),
    }
    let created = String::from("https://gitlab.com/acme/widgets/-/merge_requests/42");
    let (done, last) = pipeline_step(
        &ctx,
        PipelineState::Submitting { assignee_id: None, project_id: 42 },
        PipelineEvent::SubmissionFinished(Ok(created)),
    );
    assert!(matches!(last, PipelineAction::Halt));
    match done {
        PipelineState::Succeeded { web_url } => {
            assert_eq!(web_url, "https://gitlab.com/acme/widgets/-/merge_requests/42");
        },
        _ => panic!("expected success"),
    }
}

#[test]
fn unauthorized_project_list_halts_without_submitting() {
    let ctx = acme_context("");
    let (next, action) = pipeline_step(
        &ctx,
        PipelineState::ProjectMatching { assignee_id: None },
        PipelineEvent::ProjectsFetched(Err(HttpError::Unsuccessful(401))),
    );
    assert!(matches!(action, PipelineAction::Halt));
    assert!(matches!(
        next,
        PipelineState::Failed(PipelineFailure::ProjectsFetch(HttpError::Unsuccessful(401)))
    ));
    // the failed state is terminal: later events neither move it nor act
    let (again, act2) = pipeline_step(
        &ctx,
        next,
        PipelineEvent::SubmissionFinished(Ok(String::from("never"))),
    );
    assert!(matches!(act2, PipelineAction::Halt));
    assert!(matches!(
        again,
        PipelineState::Failed(PipelineFailure::ProjectsFetch(HttpError::Unsuccessful(401)))
    ));
}

#[test]
fn current_branch_is_the_named_head() {
    let entries = vec![
        BranchEntry::Branch { is_head: false, name: BranchName::Named(String::from("other")) },
        BranchEntry::Branch { is_head: true, name: BranchName::Named(String::from("feature")) },
    ];
    assert_eq!(current_branch_from_entries(entries).unwrap(), "feature");
}

#[test]
fn no_head_branch_is_an_error() {
    let entries = vec![BranchEntry::Branch {
        is_head: false,
        name: BranchName::Named(String::from("other")),
    }];
    match current_branch_from_entries(entries) {
        Err(e) => assert_eq!(e.description(), "git error"),
        _ => panic!("expected the not-found error"),
    }
    assert!(current_branch_from_entries(vec![]).is_err());
}

#[test]
fn unreadable_entry_resets_the_walk() {
    let entries = vec![
        BranchEntry::Branch { is_head: true, name: BranchName::Named(String::from("feature")) },
        BranchEntry::Unreadable,
    ];
    assert!(current_branch_from_entries(entries).is_err());
}

#[test]
fn credential_mode_follows_the_password() {
    let mut config = Config {
        group: Some(String::from("acme")),
        user: None,
        password: None,
        apikey: None,
        ssh_key_file: None,
        ssh_passphrase: None,
        mr_labels: None,
        host: None,
    };
    assert!(use_ssh_credentials(&config));
    config.password = Some(String::from("p"));
    assert!(!use_ssh_credentials(&config));
}
