use vstd::prelude::*;
use vstd::string::StringExecFns;

use crate::data::{Config, MRPayload, MRRequest, MRResponse, ProjectResponse, User};
use crate::error::HttpError;
use crate::text::{dec_rep, parse_i32_spec, u64_to_string, parse_i32};

verus! {

/// The host that is queried when the configuration names none.
pub open spec fn default_host() -> Seq<char> {
    "https://gitlab.com"@
}

/// The host that requests go to: the configured override, or the default.
pub open spec fn host_view(c: Config) -> Seq<char> {
    match c.host {
        Some(h) => h@,
        None => default_host(),
    }
}

/// A listing can be scoped by a group or by a user; one of the two must be
/// configured.
pub open spec fn has_scope(c: Config) -> bool {
    c.group is Some || c.user is Some
}

/// The URL of the first page of a scoped resource listing. The group scope
/// wins when both a group and a user are configured.
pub open spec fn list_url_view(c: Config, domain: Seq<char>, per_page: u64) -> Seq<char> {
    if c.group is Some {
        host_view(c) + "/api/v4/groups/"@ + c.group->0@ + "/"@ + domain + "?per_page="@
            + dec_rep(per_page as nat)
    } else {
        host_view(c) + "/api/v4/users/"@ + c.user->0@ + "/"@ + domain + "?per_page="@
            + dec_rep(per_page as nat)
    }
}

/// The URL of one later page of the same listing.
pub open spec fn page_url_view(c: Config, domain: Seq<char>, per_page: u64, page: u64) -> Seq<
    char,
> {
    list_url_view(c, domain, per_page) + "&page="@ + dec_rep(page as nat)
}

/// The URL of the user-search endpoint for a free-form query.
pub open spec fn user_search_url_view(c: Config, query: Seq<char>) -> Seq<char> {
    host_view(c) + "/api/v4/users?search="@ + query
}

/// The URL that a merge request for the given project is posted to.
pub open spec fn mr_url_view(c: Config, project_id: u64) -> Seq<char> {
    host_view(c) + "/api/v4/projects/"@ + dec_rep(project_id as nat) + "/merge_requests"@
}

/// An HTTP status code counts as success exactly when it lies in the 2xx
/// range.
pub fn status_is_success(status: u16) -> (r: bool)
    ensures
        r == (200 <= status && status < 300),
{
    200 <= status && status < 300
}

fn host_str(config: &Config) -> (h: &str)
    ensures
        h@ == host_view(*config),
{
    match &config.host {
        Some(h) => h.as_str(),
        None => "https://gitlab.com",
    }
}

fn build_list_url(host: &str, scope: &str, name: &str, domain: &str, per_page: u64) -> (r: String)
    ensures
        r@ == host@ + scope@ + name@ + "/"@ + domain@ + "?per_page="@ + dec_rep(per_page as nat),
{
    let mut url = host.to_owned();
    url.append(scope);
    url.append(name);
    url.append("/");
    url.append(domain);
    url.append("?per_page=");
    let pp = u64_to_string(per_page);
    url.append(pp.as_str());
    proof {
        assert(url@ =~= host@ + scope@ + name@ + "/"@ + domain@ + "?per_page="@ + dec_rep(
            per_page as nat,
        ));
    }
    url
}

/// The URL that the first, page-count-discovering request goes to. Fails with
/// the configuration error when neither a group nor a user is set.
pub fn first_page_url(config: &Config, domain: &str, per_page: u64) -> (r: Result<
    String,
    HttpError,
>)
    ensures
        r is Ok <==> has_scope(*config),
        r matches Ok(u) ==> u@ == list_url_view(*config, domain@, per_page),
        r matches Err(e) ==> e == HttpError::Config,
{
    let host = host_str(config);
    match &config.group {
        Some(g) => Ok(build_list_url(host, "/api/v4/groups/", g.as_str(), domain, per_page)),
        None => match &config.user {
            Some(u) => Ok(build_list_url(host, "/api/v4/users/", u.as_str(), domain, per_page)),
            None => Err(HttpError::Config),
        },
    }
}

/// The URL of one page past the first.
pub fn page_url(config: &Config, domain: &str, per_page: u64, page: u64) -> (r: Result<
    String,
    HttpError,
>)
    ensures
        r is Ok <==> has_scope(*config),
        r matches Ok(u) ==> u@ == page_url_view(*config, domain@, per_page, page),
        r matches Err(e) ==> e == HttpError::Config,
{
    let base = first_page_url(config, domain, per_page)?;
    let mut url = base;
    url.append("&page=");
    let p = u64_to_string(page);
    url.append(p.as_str());
    proof {
        assert(url@ =~= page_url_view(*config, domain@, per_page, page));
    }
    Ok(url)
}

/// The URL that a user search for `query` goes to.
pub fn user_search_url(config: &Config, query: &str) -> (r: String)
    ensures
        r@ == user_search_url_view(*config, query@),
{
    let host = host_str(config);
    let mut url = host.to_owned();
    url.append("/api/v4/users?search=");
    url.append(query);
    proof {
        assert(url@ =~= user_search_url_view(*config, query@));
    }
    url
}

/// The URL that the merge-request payload is posted to.
pub fn mr_url(config: &Config, project_id: u64) -> (r: String)
    ensures
        r@ == mr_url_view(*config, project_id),
{
    let host = host_str(config);
    let mut url = host.to_owned();
    url.append("/api/v4/projects/");
    let id = u64_to_string(project_id);
    url.append(id.as_str());
    url.append("/merge_requests");
    proof {
        assert(url@ =~= mr_url_view(*config, project_id));
    }
    url
}

/// The view of an optional header value.
pub open spec fn opt_str_view(h: Option<&str>) -> Option<Seq<char>> {
    match h {
        Some(s) => Some(s@),
        None => None,
    }
}

/// The total page count that a response header stands for: its numeric value,
/// or zero when the header is absent or not a number. A malformed header never
/// fails the fetch.
pub open spec fn total_pages_view(header: Option<Seq<char>>) -> int {
    match header {
        None => 0,
        Some(h) => match parse_i32_spec(h) {
            Some(v) => v as int,
            None => 0,
        },
    }
}

/// Reads the total page count out of the pagination response header.
pub fn parse_total_pages(header: Option<&str>) -> (r: i32)
    ensures
        r == total_pages_view(opt_str_view(header)),
{
    match header {
        None => 0,
        Some(h) => match parse_i32(h) {
            Some(v) => v,
            None => 0,
        },
    }
}

/// How many requests follow the first one: one per page past the first.
pub open spec fn fanout_count(total: int) -> int {
    if total <= 1 {
        0
    } else {
        total - 1
    }
}

/// What the paginated fetcher does once the first page has answered.
pub enum FirstPageOutcome {
    /// The fetch fails as a whole.
    Fail(HttpError),
    /// The first page is the only one; its body is the whole result.
    Single,
    /// These URLs are fetched concurrently and joined behind the first body.
    Fanout(Vec<String>),
}

/// Decides, from the first page's status and pagination header, what the
/// fetch does next: fail, stop at the single page, or fan out over the
/// remaining pages.
pub fn after_first_page(
    config: &Config,
    domain: &str,
    per_page: u64,
    status: u16,
    header: Option<&str>,
) -> (r: FirstPageOutcome)
    ensures
        !(200 <= status && status < 300) ==> r == FirstPageOutcome::Fail(
            HttpError::Unsuccessful(status),
        ),
        200 <= status && status < 300 && !has_scope(*config) ==> r == FirstPageOutcome::Fail(
            HttpError::Config,
        ),
        200 <= status && status < 300 && has_scope(*config) && total_pages_view(
            opt_str_view(header),
        ) <= 1 ==> r == FirstPageOutcome::Single,
        200 <= status && status < 300 && has_scope(*config) && total_pages_view(
            opt_str_view(header),
        ) > 1 ==> (r matches FirstPageOutcome::Fanout(urls) && urls@.len() == fanout_count(
            total_pages_view(opt_str_view(header)),
        ) && (forall|i: int|
            0 <= i < urls@.len() ==> #[trigger] urls@[i]@ == page_url_view(
                *config,
                domain@,
                per_page,
                (i + 2) as u64,
            ))),
{
    if !status_is_success(status) {
        return FirstPageOutcome::Fail(HttpError::Unsuccessful(status));
    }
    if config.group.is_none() && config.user.is_none() {
        return FirstPageOutcome::Fail(HttpError::Config);
    }
    let total = parse_total_pages(header);
    if total <= 1 {
        return FirstPageOutcome::Single;
    }
    let mut urls: Vec<String> = Vec::new();
    let mut page: i64 = 2;
    while page <= total as i64
        invariant
            2 <= page <= total as i64 + 1,
            total == total_pages_view(opt_str_view(header)),
            total > 1,
            has_scope(*config),
            urls@.len() == page - 2,
            forall|i: int|
                0 <= i < urls@.len() ==> #[trigger] urls@[i]@ == page_url_view(
                    *config,
                    domain@,
                    per_page,
                    (i + 2) as u64,
                ),
        decreases total as i64 + 1 - page,
    {
        match page_url(config, domain, per_page, page as u64) {
            Ok(u) => urls.push(u),
            Err(e) => {
                return FirstPageOutcome::Fail(e);
            },
        }
        page = page + 1;
    }
    FirstPageOutcome::Fanout(urls)
}

/// Joins the fan-out results behind the first page's body, keeping pages in
/// page order. Any failed page fails the whole fetch with the generic
/// internal-server-error sentinel: the page's own failure cause is discarded.
#[verifier::loop_isolation(false)]
pub fn collect_pages(first: Vec<u8>, rest: Vec<Result<Vec<u8>, HttpError>>) -> (r: Result<
    Vec<Vec<u8>>,
    HttpError,
>)
    ensures
        (forall|i: int| #![trigger rest@[i]] 0 <= i < rest@.len() ==> rest@[i] is Ok) ==> (
        r matches Ok(pages) && pages@.len() == 1 + rest@.len() && pages@[0] == first && (forall|
            i: int,
        |
            #![trigger rest@[i]]
            0 <= i < rest@.len() ==> pages@[i + 1] == rest@[i]->Ok_0)),
        (exists|i: int| #![trigger rest@[i]] 0 <= i < rest@.len() && rest@[i] is Err) ==> r
            == Err::<Vec<Vec<u8>>, HttpError>(HttpError::Unsuccessful(500)),
{
    let ghost orig = rest@;
    let mut remaining = rest;
    let count = remaining.len();
    proof {
        assert(orig.len() == count as nat);
    }
    let mut pages: Vec<Vec<u8>> = Vec::new();
    pages.push(first);
    let mut k: usize = 0;
    while remaining.len() > 0
        invariant
            orig.len() == count as nat,
            orig.len() == k + remaining@.len(),
            remaining@ == orig.subrange(k as int, orig.len() as int),
            forall|i: int| #![trigger orig[i]] 0 <= i < k ==> orig[i] is Ok,
            pages@.len() == k + 1,
            pages@[0] == first,
            forall|i: int| #![trigger orig[i]] 0 <= i < k ==> pages@[i + 1] == orig[i]->Ok_0,
        decreases remaining@.len(),
    {
        let x = remaining.remove(0);
        proof {
            assert(x == orig[k as int]);
            assert(remaining@ =~= orig.subrange(k + 1, orig.len() as int));
        }
        match x {
            Ok(b) => {
                pages.push(b);
            },
            Err(_) => {
                proof {
                    assert(0 <= k < orig.len() && orig[k as int] is Err);
                    assert(!(forall|i: int|
                        #![trigger orig[i]]
                        0 <= i < orig.len() ==> orig[i] is Ok));
                }
                return Err(HttpError::Unsuccessful(500));
            },
        }
        k = k + 1;
    }
    Ok(pages)
}

/// The decoded pages, concatenated in page order.
pub open spec fn pages_flat_view(decoded: Seq<Vec<ProjectResponse>>) -> Seq<ProjectResponse> {
    decoded.map_values(|p: Vec<ProjectResponse>| p@).flatten()
}

/// Concatenates the per-page project records, page one first. A page that
/// failed to decode fails the whole listing with the first decode failure.
#[verifier::loop_isolation(false)]
pub fn projects_from_pages(decoded: Vec<Result<Vec<ProjectResponse>, String>>) -> (r: Result<
    Vec<ProjectResponse>,
    HttpError,
>)
    ensures
        (forall|i: int| #![trigger decoded@[i]] 0 <= i < decoded@.len() ==> decoded@[i] is Ok)
            <==> r is Ok,
        r matches Ok(ps) ==> ps@ == pages_flat_view(
            Seq::new(decoded@.len(), |i: int| decoded@[i]->Ok_0),
        ),
        r matches Err(e) ==> (exists|i: int|
            #![trigger decoded@[i]]
            0 <= i < decoded@.len() && decoded@[i] is Err && (forall|j: int|
                #![trigger decoded@[j]]
                0 <= j < i ==> decoded@[j] is Ok) && e == HttpError::Json(decoded@[i]->Err_0)),
{
    let ghost orig = decoded@;
    let mut remaining = decoded;
    let count = remaining.len();
    proof {
        assert(orig.len() == count as nat);
    }
    let mut out: Vec<ProjectResponse> = Vec::new();
    let mut k: usize = 0;
    while remaining.len() > 0
        invariant
            orig.len() == count as nat,
            orig.len() == k + remaining@.len(),
            remaining@ == orig.subrange(k as int, orig.len() as int),
            forall|i: int| #![trigger orig[i]] 0 <= i < k ==> orig[i] is Ok,
            out@ == pages_flat_view(Seq::new(k as nat, |i: int| orig[i]->Ok_0)),
        decreases remaining@.len(),
    {
        let x = remaining.remove(0);
        proof {
            assert(x == orig[k as int]);
            assert(remaining@ =~= orig.subrange(k + 1, orig.len() as int));
        }
        match x {
            Ok(mut page) => {
                let ghost page_view = page@;
                out.append(&mut page);
                proof {
                    let prev = Seq::new(k as nat, |i: int| orig[i]->Ok_0).map_values(
                        |p: Vec<ProjectResponse>| p@,
                    );
                    let now = Seq::new((k + 1) as nat, |i: int| orig[i]->Ok_0).map_values(
                        |p: Vec<ProjectResponse>| p@,
                    );
                    assert(now =~= prev.push(page_view));
                    prev.lemma_flatten_push(page_view);
                    assert(out@ =~= now.flatten());
                }
            },
            Err(m) => {
                proof {
                    assert(0 <= k < orig.len() && orig[k as int] is Err);
                    assert(!(forall|i: int|
                        #![trigger orig[i]]
                        0 <= i < orig.len() ==> orig[i] is Ok));
                    assert(exists|i: int|
                        #![trigger orig[i]]
                        0 <= i < orig.len() && orig[i] is Err && (forall|j: int|
                            #![trigger orig[j]]
                            0 <= j < i ==> orig[j] is Ok) && HttpError::Json(m)
                            == HttpError::Json(orig[i]->Err_0));
                }
                return Err(HttpError::Json(m));
            },
        }
        k = k + 1;
    }
    proof {
        assert(Seq::new(orig.len(), |i: int| orig[i]->Ok_0) =~= Seq::new(
            k as nat,
            |i: int| orig[i]->Ok_0,
        ));
    }
    Ok(out)
}

/// The label list folded into one string with a uniform `", "` separator
/// before every label, the first included: the leading separator artifact is
/// part of the format and is kept.
pub open spec fn labels_view(ls: Seq<Seq<char>>) -> Seq<char>
    decreases ls.len(),
{
    if ls.len() == 0 {
        Seq::empty()
    } else {
        labels_view(ls.drop_last()) + ", "@ + ls.last()
    }
}

/// The label string for a configured label list; no list means no labels.
pub open spec fn config_labels_view(mr_labels: Option<Vec<String>>) -> Seq<char> {
    match mr_labels {
        Some(v) => labels_view(v@.map_values(|s: String| s@)),
        None => Seq::empty(),
    }
}

/// Folds the configured labels into the payload's label string.
pub fn build_labels(mr_labels: &Option<Vec<String>>) -> (r: String)
    ensures
        r@ == config_labels_view(*mr_labels),
{
    let mut s = String::new();
    match mr_labels {
        None => s,
        Some(v) => {
            let ghost m = v@.map_values(|x: String| x@);
            let mut i: usize = 0;
            while i < v.len()
                invariant
                    i <= v.len(),
                    m == v@.map_values(|x: String| x@),
                    s@ == labels_view(m.subrange(0, i as int)),
                decreases v.len() - i,
            {
                s.append(", ");
                s.append(v[i].as_str());
                proof {
                    let prev = m.subrange(0, i as int);
                    let now = m.subrange(0, i + 1);
                    assert(now.drop_last() =~= prev);
                    assert(now.last() == m[i as int]);
                    assert(s@ =~= labels_view(now));
                }
                i = i + 1;
            }
            proof {
                assert(m.subrange(0, v@.len() as int) =~= m);
            }
            s
        },
    }
}

/// Assembles the creation payload: the project id rendered in decimal, the
/// request's fields carried over, the configured labels folded into one
/// string, removal of the source branch always requested, squashing never.
pub fn build_mr_payload(payload: &MRRequest, config: &Config) -> (p: MRPayload)
    ensures
        p.id@ == dec_rep(payload.project.id as nat),
        p.title@ == payload.title@,
        p.description@ == payload.description@,
        p.source_branch@ == payload.source_branch@,
        p.target_branch@ == payload.target_branch@,
        p.labels@ == config_labels_view(config.mr_labels),
        p.remove_source_branch == true,
        p.squash == false,
        p.assignee_id == payload.assignee_id,
{
    let labels = build_labels(&config.mr_labels);
    MRPayload {
        id: u64_to_string(payload.project.id),
        title: payload.title.clone(),
        description: payload.description.clone(),
        source_branch: payload.source_branch.clone(),
        target_branch: payload.target_branch.clone(),
        labels,
        remove_source_branch: true,
        squash: false,
        assignee_id: payload.assignee_id,
    }
}

/// Turns the submission response into the created merge request's web URL.
/// A status outside 2xx fails with that status; a body that did not decode
/// fails as a decode error carrying the decoder's message.
pub fn submission_result(status: u16, decoded: Result<MRResponse, String>) -> (r: Result<
    String,
    HttpError,
>)
    ensures
        !(200 <= status && status < 300) ==> r == Err::<String, HttpError>(
            HttpError::Unsuccessful(status),
        ),
        200 <= status && status < 300 && decoded is Ok ==> (r matches Ok(u) && u
            == decoded->Ok_0.web_url),
        200 <= status && status < 300 && decoded is Err ==> r == Err::<String, HttpError>(
            HttpError::Json(decoded->Err_0),
        ),
{
    if !status_is_success(status) {
        return Err(HttpError::Unsuccessful(status));
    }
    match decoded {
        Ok(m) => Ok(m.web_url),
        Err(e) => Err(HttpError::Json(e)),
    }
}

/// Turns the user-search response into the matching user records.
pub fn users_result(status: u16, decoded: Result<Vec<User>, String>) -> (r: Result<
    Vec<User>,
    HttpError,
>)
    ensures
        !(200 <= status && status < 300) ==> r == Err::<Vec<User>, HttpError>(
            HttpError::Unsuccessful(status),
        ),
        200 <= status && status < 300 && decoded is Ok ==> (r matches Ok(u) && u
            == decoded->Ok_0),
        200 <= status && status < 300 && decoded is Err ==> r == Err::<Vec<User>, HttpError>(
            HttpError::Json(decoded->Err_0),
        ),
{
    if !status_is_success(status) {
        return Err(HttpError::Unsuccessful(status));
    }
    match decoded {
        Ok(u) => Ok(u),
        Err(e) => Err(HttpError::Json(e)),
    }
}

/// With a total of `total` pages, the fetch issues exactly one request when
/// `total <= 1`, and exactly `1 + (total - 1)` requests otherwise: the
/// page-count-discovering first request, then one per remaining page.
pub proof fn lemma_request_count(total: int)
    ensures
        total <= 1 ==> 1 + fanout_count(total) == 1,
        total > 1 ==> 1 + fanout_count(total) == 1 + (total - 1),
{
}

/// A missing or non-numeric total-pages header behaves exactly like a total
/// of zero pages: the fetch stays at the single first page and never fails on
/// that account.
pub proof fn lemma_header_default_single_page(header: Option<Seq<char>>)
    requires
        header is None || parse_i32_spec(header->0) is None,
    ensures
        total_pages_view(header) == 0,
        fanout_count(total_pages_view(header)) == 0,
{
}

} // verus!
