use vstd::prelude::*;

verus! {

/// A group record from the project host: numeric id and display name.
pub struct GroupResponse {
    pub id: u64,
    pub name: String,
}

/// A project record from the host. Identity for matching against the local
/// remote is either clone URL, compared by exact string equality.
pub struct ProjectResponse {
    pub id: u64,
    pub name: String,
    pub ssh_url_to_repo: String,
    pub http_url_to_repo: String,
}

/// A merge-request record as the host reports it.
pub struct MergeRequestResponse {
    pub id: u64,
    pub title: String,
    pub author: Author,
}

/// The author part of a merge-request record.
pub struct Author {
    pub id: u64,
    pub name: String,
    pub username: String,
}

/// A user record, consumed only for assignee disambiguation.
pub struct User {
    pub id: u64,
    pub name: String,
    pub username: String,
}

/// The single field read from a merge-request creation response.
pub struct MRResponse {
    pub web_url: String,
}

/// The creation payload that is posted to open a merge request.
pub struct MRPayload {
    pub id: String,
    pub title: String,
    pub description: String,
    pub source_branch: String,
    pub target_branch: String,
    pub labels: String,
    pub remove_source_branch: bool,
    pub squash: bool,
    pub assignee_id: Option<u64>,
}

/// The process-wide configuration, loaded once and read-only thereafter.
pub struct Config {
    pub group: Option<String>,
    pub user: Option<String>,
    pub password: Option<String>,
    pub apikey: Option<String>,
    pub ssh_key_file: Option<String>,
    pub ssh_passphrase: Option<String>,
    pub mr_labels: Option<Vec<String>>,
    pub host: Option<String>,
}

/// Everything a merge-request submission needs, gathered by the pipeline.
pub struct MRRequest {
    pub access_token: String,
    pub project: ProjectResponse,
    pub title: String,
    pub description: String,
    pub source_branch: String,
    pub target_branch: String,
    pub assignee_id: Option<u64>,
}

impl Clone for ProjectResponse {
    fn clone(&self) -> (r: Self)
        ensures
            r == *self,
    {
        let r = ProjectResponse {
            id: self.id,
            name: self.name.clone(),
            ssh_url_to_repo: self.ssh_url_to_repo.clone(),
            http_url_to_repo: self.http_url_to_repo.clone(),
        };
        r
    }
}

impl Clone for User {
    fn clone(&self) -> (r: Self)
        ensures
            r == *self,
    {
        let r = User { id: self.id, name: self.name.clone(), username: self.username.clone() };
        r
    }
}

} // verus!
