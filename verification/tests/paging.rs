use push_and_mr::data::{Config, ProjectResponse};
use push_and_mr::error::HttpError;
use push_and_mr::http::{
    after_first_page, collect_pages, parse_total_pages, projects_from_pages, status_is_success,
    FirstPageOutcome,
};

fn group_config() -> Config {
    Config {
        group: Some(String::from("acme")),
        user: None,
        password: None,
        apikey: None,
        ssh_key_file: None,
        ssh_passphrase: None,
        mr_labels: None,
        host: None,
    }
}

fn project(id: u64, name: &str) -> ProjectResponse {
    ProjectResponse {
        id,
        name: String::from(name),
        ssh_url_to_repo: String::new(),
        http_url_to_repo: String::new(),
    }
}

#[test]
fn success_statuses() {
    assert!(status_is_success(200));
    assert!(status_is_success(201));
    assert!(status_is_success(299));
    assert!(!status_is_success(199));
    assert!(!status_is_success(300));
    assert!(!status_is_success(404));
}

#[test]
fn header_parsing_defaults_to_zero() {
    assert_eq!(parse_total_pages(None), 0);
    assert_eq!(parse_total_pages(Some("")), 0);
    assert_eq!(parse_total_pages(Some("abc")), 0);
    assert_eq!(parse_total_pages(Some("4x")), 0);
    assert_eq!(parse_total_pages(Some("5")), 5);
    assert_eq!(parse_total_pages(Some("-2")), -2);
}

#[test]
fn single_page_issues_no_more_requests() {
    let config = group_config();
    assert!(matches!(
        after_first_page(&config, "projects", 20, 200, Some("1")),
        FirstPageOutcome::Single
    ));
    assert!(matches!(
        after_first_page(&config, "projects", 20, 200, Some("0")),
        FirstPageOutcome::Single
    ));
    assert!(matches!(
        after_first_page(&config, "projects", 20, 200, Some("-3")),
        FirstPageOutcome::Single
    ));
}

#[test]
fn absent_or_malformed_header_means_single_page() {
    let config = group_config();
    assert!(matches!(
        after_first_page(&config, "projects", 20, 200, None),
        FirstPageOutcome::Single
    ));
    assert!(matches!(
        after_first_page(&config, "projects", 20, 200, Some("soon")),
        FirstPageOutcome::Single
    ));
}

#[test]
fn four_pages_fan_out_over_three_urls() {
    let config = group_config();
    match after_first_page(&config, "projects", 20, 200, Some("4")) {
        FirstPageOutcome::Fanout(urls) => {
            assert_eq!(urls.len(), 3);
            assert_eq!(urls[0], "https://gitlab.com/api/v4/groups/acme/projects?per_page=20&page=2");
            assert_eq!(urls[1], "https://gitlab.com/api/v4/groups/acme/projects?per_page=20&page=3");
            assert_eq!(urls[2], "https://gitlab.com/api/v4/groups/acme/projects?per_page=20&page=4");
        },
        _ => panic!("expected a fan-out over the remaining pages"),
    }
}

#[test]
fn failed_first_page_fails_the_fetch() {
    let config = group_config();
    assert!(matches!(
        after_first_page(&config, "projects", 20, 401, Some("4")),
        FirstPageOutcome::Fail(HttpError::Unsuccessful(401))
    ));
}

#[test]
fn unscoped_fetch_fails_with_config() {
    let mut config = group_config();
    config.group = None;
    assert!(matches!(
        after_first_page(&config, "projects", 20, 200, Some("4")),
        FirstPageOutcome::Fail(HttpError::Config)
    ));
}

#[test]
fn joined_pages_keep_page_one_first() {
    let first = vec![1u8];
    let rest: Vec<Result<Vec<u8>, HttpError>> = vec![Ok(vec![2u8]), Ok(vec![3u8])];
    let pages = collect_pages(first, rest).unwrap();
    assert_eq!(pages, vec![vec![1u8], vec![2u8], vec![3u8]]);
}

#[test]
fn one_failed_page_fails_the_whole_batch() {
    let first = vec![1u8];
    let rest: Vec<Result<Vec<u8>, HttpError>> =
        vec![Ok(vec![2u8]), Err(HttpError::Unsuccessful(404)), Ok(vec![4u8])];
    let r = collect_pages(first, rest);
    assert!(matches!(r, Err(HttpError::Unsuccessful(500))));
}

#[test]
fn decoded_pages_concatenate_in_order() {
    let decoded: Vec<Result<Vec<ProjectResponse>, String>> = vec![
        Ok(vec![project(1, "a"), project(2, "b")]),
        Ok(vec![]),
        Ok(vec![project(3, "c")]),
    ];
    let all = projects_from_pages(decoded).unwrap();
    let ids: Vec<u64> = all.iter().map(|p| p.id).collect();
    assert_eq!(ids, vec![1, 2, 3]);
}

#[test]
fn first_decode_failure_wins() {
    let decoded: Vec<Result<Vec<ProjectResponse>, String>> = vec![
        Ok(vec![project(1, "a")]),
        Err(String::from("bad page two")),
        Err(String::from("bad page three")),
    ];
    match projects_from_pages(decoded) {
        Err(HttpError::Json(m)) => assert_eq!(m, "bad page two"),
        _ => panic!("expected the first decode failure"),
    }
}
