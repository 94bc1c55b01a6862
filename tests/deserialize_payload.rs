use gravity::{
    dispatch, handle_request, DecodeError, EventKind, Payload, Timestamp, WebhookConfig, WebhookError,
    WebhookRequest,
};
use hmac::Mac;

fn text(s: &str) -> String {
    format!("\"{}\"", s)
}

fn number(n: i64) -> String {
    n.to_string()
}

fn boolean(b: bool) -> String {
    b.to_string()
}

fn null() -> String {
    "null".to_string()
}

fn array(items: Vec<String>) -> String {
    format!("[{}]", items.join(","))
}

fn object(members: Vec<(String, String)>) -> String {
    let parts: Vec<String> = members.iter().map(|(k, v)| format!("\"{}\":{}", k, v)).collect();
    format!("{{{}}}", parts.join(","))
}

fn with(mut members: Vec<(String, String)>, key: &str, value: String) -> Vec<(String, String)> {
    match members.iter_mut().find(|(k, _)| k == key) {
        Some(m) => m.1 = value,
        None => members.push((key.to_string(), value)),
    }
    members
}

fn without(members: Vec<(String, String)>, key: &str) -> Vec<(String, String)> {
    members.into_iter().filter(|(k, _)| k != key).collect()
}

fn sign(secret: &[u8], body: &[u8]) -> Vec<u8> {
    let mut mac = hmac::Hmac::<sha2::Sha256>::new_from_slice(secret).unwrap();
    mac.update(body);
    format!("sha256={}", hex::encode(mac.finalize().into_bytes())).into_bytes()
}

fn post(event: &str, body: String, signature: Option<Vec<u8>>) -> WebhookRequest {
    WebhookRequest {
        method: "POST".to_string(),
        path: "/webhooks".to_string(),
        content_type: Some("application/json".to_string()),
        event: Some(event.to_string()),
        signature,
        body: body.into_bytes(),
    }
}

fn actor_members() -> Vec<(String, String)> {
    vec![
        ("login".to_string(), text("login-value")),
        ("id".to_string(), number(1)),
        ("node_id".to_string(), text("node_id-value")),
        ("avatar_url".to_string(), text("avatar_url-value")),
        ("gravatar_id".to_string(), text("gravatar_id-value")),
        ("url".to_string(), text("url-value")),
        ("html_url".to_string(), text("html_url-value")),
        ("followers_url".to_string(), text("followers_url-value")),
        ("following_url".to_string(), text("following_url-value")),
        ("gists_url".to_string(), text("gists_url-value")),
        ("starred_url".to_string(), text("starred_url-value")),
        ("subscriptions_url".to_string(), text("subscriptions_url-value")),
        ("organizations_url".to_string(), text("organizations_url-value")),
        ("repos_url".to_string(), text("repos_url-value")),
        ("events_url".to_string(), text("events_url-value")),
        ("received_events_url".to_string(), text("received_events_url-value")),
        ("type".to_string(), text("type-value")),
        ("site_admin".to_string(), boolean(false)),
    ]
}

fn repository_members() -> Vec<(String, String)> {
    vec![
        ("id".to_string(), number(1)),
        ("node_id".to_string(), text("node_id-value")),
        ("name".to_string(), text("name-value")),
        ("full_name".to_string(), text("full_name-value")),
        ("owner".to_string(), object(actor_members())),
        ("private".to_string(), boolean(false)),
        ("html_url".to_string(), text("html_url-value")),
        ("description".to_string(), null()),
        ("fork".to_string(), boolean(false)),
        ("url".to_string(), text("url-value")),
        ("forks_url".to_string(), text("forks_url-value")),
        ("keys_url".to_string(), text("keys_url-value")),
        ("collaborators_url".to_string(), text("collaborators_url-value")),
        ("teams_url".to_string(), text("teams_url-value")),
        ("hooks_url".to_string(), text("hooks_url-value")),
        ("issue_events_url".to_string(), text("issue_events_url-value")),
        ("events_url".to_string(), text("events_url-value")),
        ("assignees_url".to_string(), text("assignees_url-value")),
        ("branches_url".to_string(), text("branches_url-value")),
        ("tags_url".to_string(), text("tags_url-value")),
        ("blobs_url".to_string(), text("blobs_url-value")),
        ("git_tags_url".to_string(), text("git_tags_url-value")),
        ("git_refs_url".to_string(), text("git_refs_url-value")),
        ("trees_url".to_string(), text("trees_url-value")),
        ("statuses_url".to_string(), text("statuses_url-value")),
        ("languages_url".to_string(), text("languages_url-value")),
        ("stargazers_url".to_string(), text("stargazers_url-value")),
        ("contributors_url".to_string(), text("contributors_url-value")),
        ("subscribers_url".to_string(), text("subscribers_url-value")),
        ("subscription_url".to_string(), text("subscription_url-value")),
        ("commits_url".to_string(), text("commits_url-value")),
        ("git_commits_url".to_string(), text("git_commits_url-value")),
        ("comments_url".to_string(), text("comments_url-value")),
        ("issue_comment_url".to_string(), text("issue_comment_url-value")),
        ("contents_url".to_string(), text("contents_url-value")),
        ("compare_url".to_string(), text("compare_url-value")),
        ("merges_url".to_string(), text("merges_url-value")),
        ("archive_url".to_string(), text("archive_url-value")),
        ("downloads_url".to_string(), text("downloads_url-value")),
        ("issues_url".to_string(), text("issues_url-value")),
        ("pulls_url".to_string(), text("pulls_url-value")),
        ("milestones_url".to_string(), text("milestones_url-value")),
        ("notifications_url".to_string(), text("notifications_url-value")),
        ("labels_url".to_string(), text("labels_url-value")),
        ("releases_url".to_string(), text("releases_url-value")),
        ("created_at".to_string(), text("2023-07-22T04:26:40Z")),
        ("updated_at".to_string(), text("2023-07-22T04:26:40Z")),
        ("pushed_at".to_string(), text("2023-07-22T04:26:40Z")),
        ("git_url".to_string(), text("git_url-value")),
        ("ssh_url".to_string(), text("ssh_url-value")),
        ("clone_url".to_string(), text("clone_url-value")),
        ("svn_url".to_string(), text("svn_url-value")),
        ("homepage".to_string(), null()),
        ("size".to_string(), number(1)),
        ("stargazers_count".to_string(), number(1)),
        ("watchers_count".to_string(), number(1)),
        ("language".to_string(), null()),
        ("has_issues".to_string(), boolean(false)),
        ("has_downloads".to_string(), boolean(false)),
        ("has_wiki".to_string(), boolean(false)),
        ("has_pages".to_string(), boolean(false)),
        ("forks_count".to_string(), number(1)),
        ("mirror_url".to_string(), null()),
        ("open_issues_count".to_string(), number(1)),
        ("forks".to_string(), number(1)),
        ("open_issues".to_string(), number(1)),
        ("watchers".to_string(), number(1)),
        ("default_branch".to_string(), text("default_branch-value")),
    ]
}

fn issue_members() -> Vec<(String, String)> {
    vec![
        ("url".to_string(), text("url-value")),
        ("labels_url".to_string(), text("labels_url-value")),
        ("comments_url".to_string(), text("comments_url-value")),
        ("events_url".to_string(), text("events_url-value")),
        ("html_url".to_string(), text("html_url-value")),
        ("id".to_string(), number(1)),
        ("node_id".to_string(), text("node_id-value")),
        ("number".to_string(), number(1)),
        ("title".to_string(), text("title-value")),
        ("user".to_string(), object(actor_members())),
        ("labels".to_string(), null()),
        ("state".to_string(), null()),
        ("locked".to_string(), null()),
        ("assignee".to_string(), null()),
        ("assignees".to_string(), array(Vec::new())),
        ("milestone".to_string(), null()),
        ("comments".to_string(), number(1)),
        ("created_at".to_string(), text("2023-07-22T04:26:40Z")),
        ("updated_at".to_string(), text("2023-07-22T04:26:40Z")),
        ("closed_at".to_string(), null()),
        ("body".to_string(), null()),
    ]
}

fn milestone_members() -> Vec<(String, String)> {
    vec![
        ("url".to_string(), text("url-value")),
        ("html_url".to_string(), text("html_url-value")),
        ("labels_url".to_string(), text("labels_url-value")),
        ("id".to_string(), number(1)),
        ("node_id".to_string(), text("node_id-value")),
        ("number".to_string(), number(1)),
        ("state".to_string(), text("state-value")),
        ("title".to_string(), text("title-value")),
        ("description".to_string(), text("description-value")),
        ("creator".to_string(), object(actor_members())),
        ("open_issues".to_string(), number(1)),
        ("closed_issues".to_string(), number(1)),
        ("created_at".to_string(), text("2023-07-22T04:26:40Z")),
        ("updated_at".to_string(), text("2023-07-22T04:26:40Z")),
        ("closed_at".to_string(), null()),
        ("due_on".to_string(), text("2023-07-22T04:26:40Z")),
    ]
}

fn label_members() -> Vec<(String, String)> {
    vec![
        ("id".to_string(), number(1)),
        ("node_id".to_string(), text("node_id-value")),
        ("description".to_string(), text("description-value")),
        ("url".to_string(), text("url-value")),
        ("name".to_string(), text("name-value")),
        ("color".to_string(), text("color-value")),
        ("default".to_string(), boolean(false)),
    ]
}

fn issue_comment_members() -> Vec<(String, String)> {
    vec![
        ("url".to_string(), text("url-value")),
        ("html_url".to_string(), text("html_url-value")),
        ("issue_url".to_string(), text("issue_url-value")),
        ("id".to_string(), number(1)),
        ("node_id".to_string(), text("node_id-value")),
        ("user".to_string(), object(actor_members())),
        ("created_at".to_string(), text("2023-07-22T04:26:40Z")),
        ("updated_at".to_string(), text("2023-07-22T04:26:40Z")),
        ("body".to_string(), text("body-value")),
        ("author_association".to_string(), text("author_association-value")),
    ]
}

fn pull_request_review_comment_members() -> Vec<(String, String)> {
    vec![
        ("url".to_string(), text("url-value")),
        ("html_url".to_string(), text("html_url-value")),
        ("pull_request_url".to_string(), text("pull_request_url-value")),
        ("diff_hunk".to_string(), text("diff_hunk-value")),
        ("path".to_string(), text("path-value")),
        ("id".to_string(), number(1)),
        ("node_id".to_string(), text("node_id-value")),
        ("user".to_string(), object(actor_members())),
        ("created_at".to_string(), text("2023-07-22T04:26:40Z")),
        ("updated_at".to_string(), text("2023-07-22T04:26:40Z")),
        ("body".to_string(), text("body-value")),
        ("author_association".to_string(), text("author_association-value")),
        ("position".to_string(), number(1)),
        ("original_position".to_string(), number(1)),
        ("commit_id".to_string(), text("commit_id-value")),
        ("original_commit_id".to_string(), text("original_commit_id-value")),
        ("_links".to_string(), object(review_comment_links_members())),
    ]
}

fn commit_comment_members() -> Vec<(String, String)> {
    vec![
        ("url".to_string(), text("url-value")),
        ("html_url".to_string(), text("html_url-value")),
        ("id".to_string(), number(1)),
        ("node_id".to_string(), text("node_id-value")),
        ("user".to_string(), object(actor_members())),
        ("created_at".to_string(), text("2023-07-22T04:26:40Z")),
        ("updated_at".to_string(), text("2023-07-22T04:26:40Z")),
        ("body".to_string(), text("body-value")),
        ("author_association".to_string(), text("author_association-value")),
        ("position".to_string(), null()),
        ("line".to_string(), null()),
        ("path".to_string(), null()),
        ("commit_id".to_string(), text("commit_id-value")),
    ]
}

fn label_changes_members() -> Vec<(String, String)> {
    vec![
        ("name".to_string(), null()),
        ("color".to_string(), null()),
    ]
}

fn issue_changes_members() -> Vec<(String, String)> {
    vec![
        ("title".to_string(), null()),
        ("body".to_string(), null()),
    ]
}

fn changed_from_members() -> Vec<(String, String)> {
    vec![
        ("from".to_string(), text("from-value")),
    ]
}

fn team_members() -> Vec<(String, String)> {
    vec![
        ("name".to_string(), text("name-value")),
        ("id".to_string(), number(1)),
        ("node_id".to_string(), null()),
        ("deleted".to_string(), null()),
        ("slug".to_string(), null()),
        ("description".to_string(), null()),
        ("privacy".to_string(), null()),
        ("url".to_string(), null()),
        ("html_url".to_string(), null()),
        ("members_url".to_string(), null()),
        ("repositories_url".to_string(), null()),
        ("permission".to_string(), null()),
    ]
}

fn installation_id_members() -> Vec<(String, String)> {
    vec![
        ("id".to_string(), number(1)),
        ("node_id".to_string(), text("node_id-value")),
    ]
}

fn pull_request_members() -> Vec<(String, String)> {
    vec![
        ("url".to_string(), text("url-value")),
        ("id".to_string(), number(1)),
        ("node_id".to_string(), text("node_id-value")),
        ("html_url".to_string(), text("html_url-value")),
        ("diff_url".to_string(), text("diff_url-value")),
        ("patch_url".to_string(), text("patch_url-value")),
        ("issue_url".to_string(), text("issue_url-value")),
        ("number".to_string(), number(1)),
        ("state".to_string(), text("state-value")),
        ("locked".to_string(), boolean(false)),
        ("title".to_string(), text("title-value")),
        ("user".to_string(), object(actor_members())),
        ("body".to_string(), null()),
        ("created_at".to_string(), text("2023-07-22T04:26:40Z")),
        ("updated_at".to_string(), text("2023-07-22T04:26:40Z")),
        ("closed_at".to_string(), null()),
        ("merged_at".to_string(), null()),
        ("merge_commit_sha".to_string(), null()),
        ("assignee".to_string(), null()),
        ("assignees".to_string(), array(Vec::new())),
        ("milestone".to_string(), null()),
        ("draft".to_string(), null()),
        ("commits_url".to_string(), text("commits_url-value")),
        ("review_comments_url".to_string(), text("review_comments_url-value")),
        ("review_comment_url".to_string(), text("review_comment_url-value")),
        ("comments_url".to_string(), text("comments_url-value")),
        ("statuses_url".to_string(), text("statuses_url-value")),
        ("requested_reviewers".to_string(), array(Vec::new())),
        ("labels".to_string(), array(Vec::new())),
        ("head".to_string(), object(ref_members())),
        ("base".to_string(), object(ref_members())),
        ("_links".to_string(), object(pull_request_links_members())),
        ("merged".to_string(), null()),
        ("mergeable".to_string(), null()),
        ("mergeable_state".to_string(), null()),
        ("merged_by".to_string(), null()),
        ("comments".to_string(), null()),
        ("review_comments".to_string(), null()),
        ("commits".to_string(), null()),
        ("additions".to_string(), null()),
        ("deletions".to_string(), null()),
        ("changed_files".to_string(), null()),
    ]
}

fn link_members() -> Vec<(String, String)> {
    vec![
        ("href".to_string(), text("href-value")),
    ]
}

fn pull_request_links_members() -> Vec<(String, String)> {
    vec![
        ("self".to_string(), object(link_members())),
        ("html".to_string(), object(link_members())),
        ("issue".to_string(), object(link_members())),
        ("comments".to_string(), object(link_members())),
        ("review_comments".to_string(), object(link_members())),
        ("review_comment".to_string(), object(link_members())),
        ("commits".to_string(), object(link_members())),
        ("statuses".to_string(), object(link_members())),
    ]
}

fn review_links_members() -> Vec<(String, String)> {
    vec![
        ("html".to_string(), object(link_members())),
        ("pull_request".to_string(), object(link_members())),
    ]
}

fn review_comment_links_members() -> Vec<(String, String)> {
    vec![
        ("self".to_string(), object(link_members())),
        ("html".to_string(), object(link_members())),
        ("pull_request".to_string(), object(link_members())),
    ]
}

fn ref_members() -> Vec<(String, String)> {
    vec![
        ("label".to_string(), text("label-value")),
        ("ref".to_string(), text("ref-value")),
        ("sha".to_string(), text("sha-value")),
        ("user".to_string(), object(actor_members())),
        ("repo".to_string(), object(repository_members())),
    ]
}

fn review_members() -> Vec<(String, String)> {
    vec![
        ("id".to_string(), number(1)),
        ("node_id".to_string(), text("node_id-value")),
        ("author_association".to_string(), text("author_association-value")),
        ("user".to_string(), object(actor_members())),
        ("body".to_string(), null()),
        ("commit_id".to_string(), text("commit_id-value")),
        ("submitted_at".to_string(), text("2023-07-22T04:26:40Z")),
        ("state".to_string(), text("state-value")),
        ("html_url".to_string(), text("html_url-value")),
        ("pull_request_url".to_string(), text("pull_request_url-value")),
        ("_links".to_string(), object(review_links_members())),
    ]
}

fn check_run_members() -> Vec<(String, String)> {
    vec![
        ("id".to_string(), number(1)),
        ("node_id".to_string(), null()),
        ("name".to_string(), text("name-value")),
        ("head_sha".to_string(), text("head_sha-value")),
        ("status".to_string(), text("status-value")),
        ("conclusion".to_string(), null()),
        ("url".to_string(), text("url-value")),
        ("html_url".to_string(), text("html_url-value")),
        ("started_at".to_string(), text("started_at-value")),
        ("completed_at".to_string(), null()),
        ("output".to_string(), object(check_run_output_members())),
        ("check_suite".to_string(), object(check_suite_members())),
        ("app".to_string(), object(app_members())),
        ("pull_requests".to_string(), array(Vec::new())),
    ]
}

fn check_run_output_members() -> Vec<(String, String)> {
    vec![
        ("title".to_string(), null()),
        ("summary".to_string(), null()),
        ("text".to_string(), null()),
        ("annotations_count".to_string(), number(1)),
        ("annotations_url".to_string(), text("annotations_url-value")),
    ]
}

fn check_suite_members() -> Vec<(String, String)> {
    vec![
        ("id".to_string(), number(1)),
        ("head_branch".to_string(), text("head_branch-value")),
        ("head_sha".to_string(), text("head_sha-value")),
        ("status".to_string(), text("status-value")),
        ("conclusion".to_string(), null()),
        ("url".to_string(), text("url-value")),
        ("before".to_string(), text("before-value")),
        ("after".to_string(), text("after-value")),
        ("pull_requests".to_string(), array(Vec::new())),
        ("app".to_string(), object(app_members())),
        ("created_at".to_string(), text("2023-07-22T04:26:40Z")),
        ("updated_at".to_string(), text("2023-07-22T04:26:40Z")),
    ]
}

fn app_members() -> Vec<(String, String)> {
    vec![
        ("id".to_string(), number(1)),
        ("node_id".to_string(), text("node_id-value")),
        ("owner".to_string(), object(actor_members())),
        ("name".to_string(), text("name-value")),
        ("description".to_string(), null()),
        ("external_url".to_string(), text("external_url-value")),
        ("html_url".to_string(), text("html_url-value")),
        ("created_at".to_string(), text("created_at-value")),
        ("updated_at".to_string(), text("updated_at-value")),
    ]
}

fn check_run_pull_request_members() -> Vec<(String, String)> {
    vec![
        ("id".to_string(), number(1)),
        ("url".to_string(), text("url-value")),
        ("number".to_string(), number(1)),
        ("head".to_string(), object(check_run_pull_request_ref_members())),
        ("base".to_string(), object(check_run_pull_request_ref_members())),
    ]
}

fn check_run_pull_request_ref_members() -> Vec<(String, String)> {
    vec![
        ("ref".to_string(), text("ref-value")),
        ("sha".to_string(), text("sha-value")),
        ("repo".to_string(), object(repo_ref_members())),
    ]
}

fn repo_ref_members() -> Vec<(String, String)> {
    vec![
        ("id".to_string(), number(1)),
        ("url".to_string(), text("url-value")),
        ("name".to_string(), text("name-value")),
    ]
}

fn page_members() -> Vec<(String, String)> {
    vec![
        ("page_name".to_string(), text("page_name-value")),
        ("title".to_string(), text("title-value")),
        ("summary".to_string(), null()),
        ("action".to_string(), text("action-value")),
        ("sha".to_string(), text("sha-value")),
        ("html_url".to_string(), text("html_url-value")),
    ]
}

fn organization_members() -> Vec<(String, String)> {
    vec![
        ("login".to_string(), text("login-value")),
        ("id".to_string(), number(1)),
        ("node_id".to_string(), text("node_id-value")),
        ("url".to_string(), text("url-value")),
        ("repos_url".to_string(), text("repos_url-value")),
        ("events_url".to_string(), text("events_url-value")),
        ("hooks_url".to_string(), text("hooks_url-value")),
        ("issues_url".to_string(), text("issues_url-value")),
        ("members_url".to_string(), text("members_url-value")),
        ("public_members_url".to_string(), text("public_members_url-value")),
        ("avatar_url".to_string(), text("avatar_url-value")),
        ("description".to_string(), text("description-value")),
    ]
}

fn deploy_key_members() -> Vec<(String, String)> {
    vec![
        ("id".to_string(), number(1)),
        ("key".to_string(), text("key-value")),
        ("url".to_string(), text("url-value")),
        ("title".to_string(), text("title-value")),
        ("verified".to_string(), boolean(false)),
        ("created_at".to_string(), text("2023-07-22T04:26:40Z")),
        ("read_only".to_string(), boolean(false)),
    ]
}

fn deployment_members() -> Vec<(String, String)> {
    vec![
        ("url".to_string(), text("url-value")),
        ("id".to_string(), number(1)),
        ("node_id".to_string(), text("node_id-value")),
        ("sha".to_string(), text("sha-value")),
        ("ref".to_string(), text("ref-value")),
        ("task".to_string(), text("task-value")),
        ("payload".to_string(), object(Vec::new())),
        ("original_environment".to_string(), text("original_environment-value")),
        ("environment".to_string(), text("environment-value")),
        ("transient_environment".to_string(), null()),
        ("production_environment".to_string(), null()),
        ("description".to_string(), null()),
        ("creator".to_string(), object(actor_members())),
        ("created_at".to_string(), text("2023-07-22T04:26:40Z")),
        ("updated_at".to_string(), text("2023-07-22T04:26:40Z")),
        ("statuses_url".to_string(), text("statuses_url-value")),
        ("repository_url".to_string(), text("repository_url-value")),
    ]
}

fn deployment_status_members() -> Vec<(String, String)> {
    vec![
        ("url".to_string(), text("url-value")),
        ("id".to_string(), number(1)),
        ("node_id".to_string(), text("node_id-value")),
        ("state".to_string(), text("state-value")),
        ("creator".to_string(), object(actor_members())),
        ("created_at".to_string(), text("2023-07-22T04:26:40Z")),
        ("updated_at".to_string(), text("2023-07-22T04:26:40Z")),
        ("description".to_string(), text("description-value")),
        ("environment".to_string(), text("environment-value")),
        ("environment_url".to_string(), null()),
        ("log_url".to_string(), null()),
        ("target_url".to_string(), text("target_url-value")),
        ("deployment_url".to_string(), text("deployment_url-value")),
        ("repository_url".to_string(), text("repository_url-value")),
    ]
}

fn installation_members() -> Vec<(String, String)> {
    vec![
        ("id".to_string(), number(1)),
        ("account".to_string(), object(actor_members())),
        ("repository_selection".to_string(), text("repository_selection-value")),
        ("access_tokens_url".to_string(), text("access_tokens_url-value")),
        ("repositories_url".to_string(), text("repositories_url-value")),
        ("html_url".to_string(), text("html_url-value")),
        ("app_id".to_string(), number(1)),
        ("target_id".to_string(), number(1)),
        ("target_type".to_string(), text("target_type-value")),
        ("permissions".to_string(), object(installation_permissions_members())),
        ("events".to_string(), array(Vec::new())),
        ("single_file_name".to_string(), null()),
    ]
}

fn installation_permissions_members() -> Vec<(String, String)> {
    vec![
        ("actions".to_string(), null()),
        ("administration".to_string(), null()),
        ("checks".to_string(), null()),
        ("content_references".to_string(), null()),
        ("contents".to_string(), null()),
        ("deployments".to_string(), null()),
        ("discussions".to_string(), null()),
        ("emails".to_string(), null()),
        ("environments".to_string(), null()),
        ("issues".to_string(), null()),
        ("members".to_string(), null()),
        ("metadata".to_string(), null()),
        ("organization_administration".to_string(), null()),
        ("organization_events".to_string(), null()),
        ("organization_hooks".to_string(), null()),
        ("organization_packages".to_string(), null()),
        ("organization_plan".to_string(), null()),
        ("organization_projects".to_string(), null()),
        ("organization_secrets".to_string(), null()),
        ("organization_self_hosted_runners".to_string(), null()),
        ("organization_user_blocking".to_string(), null()),
        ("packages".to_string(), null()),
        ("pages".to_string(), null()),
        ("pull_requests".to_string(), null()),
        ("repository_hooks".to_string(), null()),
        ("repository_projects".to_string(), null()),
        ("secret_scanning_alerts".to_string(), null()),
        ("secrets".to_string(), null()),
        ("security_events".to_string(), null()),
        ("security_scanning_alert".to_string(), null()),
        ("single_file".to_string(), null()),
        ("statuses".to_string(), null()),
        ("team_discussions".to_string(), null()),
        ("vulnerability_alerts".to_string(), null()),
        ("workflows".to_string(), null()),
    ]
}

fn installation_repository_members() -> Vec<(String, String)> {
    vec![
        ("id".to_string(), number(1)),
        ("node_id".to_string(), text("node_id-value")),
        ("name".to_string(), text("name-value")),
        ("full_name".to_string(), text("full_name-value")),
        ("private".to_string(), boolean(false)),
    ]
}

fn hook_members() -> Vec<(String, String)> {
    vec![
        ("id".to_string(), number(1)),
        ("type".to_string(), text("type-value")),
        ("name".to_string(), text("name-value")),
        ("active".to_string(), boolean(false)),
        ("created_at".to_string(), text("2023-07-22T04:26:40Z")),
        ("updated_at".to_string(), text("2023-07-22T04:26:40Z")),
        ("events".to_string(), array(Vec::new())),
        ("config".to_string(), object(hook_config_members())),
    ]
}

fn hook_config_members() -> Vec<(String, String)> {
    vec![
        ("content_type".to_string(), text("content_type-value")),
        ("insecure_ssl".to_string(), text("insecure_ssl-value")),
        ("url".to_string(), text("url-value")),
        ("secret".to_string(), text("secret-value")),
    ]
}

fn invitation_members() -> Vec<(String, String)> {
    vec![
        ("id".to_string(), number(1)),
        ("node_id".to_string(), text("node_id-value")),
        ("login".to_string(), text("login-value")),
        ("email".to_string(), null()),
        ("role".to_string(), text("role-value")),
        ("inviter".to_string(), object(actor_members())),
        ("team_count".to_string(), number(1)),
        ("invitation_teams_url".to_string(), text("invitation_teams_url-value")),
    ]
}

fn membership_members() -> Vec<(String, String)> {
    vec![
        ("url".to_string(), text("url-value")),
        ("state".to_string(), text("state-value")),
        ("role".to_string(), text("role-value")),
        ("organization_url".to_string(), text("organization_url-value")),
        ("user".to_string(), object(actor_members())),
    ]
}

fn page_build_members() -> Vec<(String, String)> {
    vec![
        ("url".to_string(), text("url-value")),
        ("status".to_string(), text("status-value")),
        ("error".to_string(), object(page_build_error_members())),
        ("pusher".to_string(), object(actor_members())),
        ("commit".to_string(), null()),
        ("duration".to_string(), number(1)),
        ("created_at".to_string(), text("2023-07-22T04:26:40Z")),
        ("updated_at".to_string(), text("2023-07-22T04:26:40Z")),
    ]
}

fn page_build_error_members() -> Vec<(String, String)> {
    vec![
        ("message".to_string(), null()),
    ]
}

fn project_card_changes_members() -> Vec<(String, String)> {
    vec![
        ("note".to_string(), null()),
    ]
}

fn project_card_members() -> Vec<(String, String)> {
    vec![
        ("url".to_string(), text("url-value")),
        ("project_url".to_string(), text("project_url-value")),
        ("column_url".to_string(), text("column_url-value")),
        ("column_id".to_string(), number(1)),
        ("id".to_string(), number(1)),
        ("node_id".to_string(), text("node_id-value")),
        ("note".to_string(), null()),
        ("archived".to_string(), boolean(false)),
        ("creator".to_string(), object(actor_members())),
        ("created_at".to_string(), text("2023-07-22T04:26:40Z")),
        ("updated_at".to_string(), text("2023-07-22T04:26:40Z")),
        ("content_url".to_string(), null()),
    ]
}

fn project_column_changes_members() -> Vec<(String, String)> {
    vec![
        ("name".to_string(), null()),
    ]
}

fn project_column_members() -> Vec<(String, String)> {
    vec![
        ("url".to_string(), text("url-value")),
        ("project_url".to_string(), text("project_url-value")),
        ("cards_url".to_string(), text("cards_url-value")),
        ("id".to_string(), number(1)),
        ("node_id".to_string(), text("node_id-value")),
        ("name".to_string(), text("name-value")),
        ("created_at".to_string(), text("2023-07-22T04:26:40Z")),
        ("updated_at".to_string(), text("2023-07-22T04:26:40Z")),
    ]
}

fn project_changes_members() -> Vec<(String, String)> {
    vec![
        ("name".to_string(), null()),
        ("body".to_string(), null()),
    ]
}

fn project_members() -> Vec<(String, String)> {
    vec![
        ("owner_url".to_string(), text("owner_url-value")),
        ("url".to_string(), text("url-value")),
        ("html_url".to_string(), text("html_url-value")),
        ("columns_url".to_string(), text("columns_url-value")),
        ("id".to_string(), number(1)),
        ("node_id".to_string(), text("node_id-value")),
        ("name".to_string(), text("name-value")),
        ("body".to_string(), null()),
        ("number".to_string(), number(1)),
        ("state".to_string(), text("state-value")),
        ("creator".to_string(), object(actor_members())),
        ("created_at".to_string(), text("2023-07-22T04:26:40Z")),
        ("updated_at".to_string(), text("2023-07-22T04:26:40Z")),
    ]
}

fn pusher_members() -> Vec<(String, String)> {
    vec![
        ("name".to_string(), text("name-value")),
        ("email".to_string(), null()),
    ]
}

fn commit_user_members() -> Vec<(String, String)> {
    vec![
        ("name".to_string(), text("name-value")),
        ("email".to_string(), null()),
        ("username".to_string(), null()),
    ]
}

fn commit_members() -> Vec<(String, String)> {
    vec![
        ("id".to_string(), text("id-value")),
        ("tree_id".to_string(), text("tree_id-value")),
        ("distinct".to_string(), boolean(false)),
        ("message".to_string(), text("message-value")),
        ("timestamp".to_string(), text("2023-07-22T04:26:40Z")),
        ("url".to_string(), text("url-value")),
        ("author".to_string(), object(commit_user_members())),
        ("committer".to_string(), object(commit_user_members())),
        ("added".to_string(), array(Vec::new())),
        ("removed".to_string(), array(Vec::new())),
        ("modified".to_string(), array(Vec::new())),
    ]
}

fn release_members() -> Vec<(String, String)> {
    vec![
        ("url".to_string(), text("url-value")),
        ("assets_url".to_string(), text("assets_url-value")),
        ("upload_url".to_string(), text("upload_url-value")),
        ("html_url".to_string(), text("html_url-value")),
        ("id".to_string(), number(1)),
        ("node_id".to_string(), text("node_id-value")),
        ("tag_name".to_string(), text("tag_name-value")),
        ("target_commitish".to_string(), text("target_commitish-value")),
        ("name".to_string(), null()),
        ("draft".to_string(), boolean(false)),
        ("author".to_string(), object(actor_members())),
        ("prerelease".to_string(), boolean(false)),
        ("created_at".to_string(), text("2023-07-22T04:26:40Z")),
        ("published_at".to_string(), null()),
        ("assets".to_string(), array(Vec::new())),
        ("tarball_url".to_string(), null()),
        ("zipball_url".to_string(), null()),
        ("body".to_string(), null()),
    ]
}

fn repository_vulnerability_alert_members() -> Vec<(String, String)> {
    vec![
        ("id".to_string(), number(1)),
        ("affected_range".to_string(), text("affected_range-value")),
        ("affected_package_name".to_string(), text("affected_package_name-value")),
        ("external_reference".to_string(), text("external_reference-value")),
        ("external_identifier".to_string(), text("external_identifier-value")),
        ("fixed_in".to_string(), null()),
        ("dismisser".to_string(), null()),
        ("dismiss_reason".to_string(), null()),
        ("dismissed_at".to_string(), null()),
    ]
}

fn status_branch_commit_members() -> Vec<(String, String)> {
    vec![
        ("sha".to_string(), text("sha-value")),
        ("url".to_string(), text("url-value")),
    ]
}

fn status_branch_members() -> Vec<(String, String)> {
    vec![
        ("name".to_string(), text("name-value")),
        ("commit".to_string(), object(status_branch_commit_members())),
        ("protected".to_string(), boolean(false)),
    ]
}

fn check_run_event_members() -> Vec<(String, String)> {
    vec![
        ("action".to_string(), text("action-value")),
        ("check_run".to_string(), object(check_run_members())),
        ("repository".to_string(), object(repository_members())),
        ("installation".to_string(), null()),
        ("sender".to_string(), object(actor_members())),
    ]
}

fn check_suite_event_members() -> Vec<(String, String)> {
    vec![
        ("action".to_string(), text("action-value")),
        ("check_suite".to_string(), object(check_suite_members())),
        ("repository".to_string(), object(repository_members())),
        ("installation".to_string(), null()),
        ("sender".to_string(), object(actor_members())),
    ]
}

fn commit_comment_event_members() -> Vec<(String, String)> {
    vec![
        ("action".to_string(), text("action-value")),
        ("comment".to_string(), object(commit_comment_members())),
        ("repository".to_string(), object(repository_members())),
        ("sender".to_string(), object(actor_members())),
    ]
}

fn create_event_members() -> Vec<(String, String)> {
    vec![
        ("ref".to_string(), text("ref-value")),
        ("ref_type".to_string(), text("ref_type-value")),
        ("master_branch".to_string(), text("master_branch-value")),
        ("description".to_string(), null()),
        ("pusher_type".to_string(), text("pusher_type-value")),
        ("repository".to_string(), object(repository_members())),
        ("sender".to_string(), object(actor_members())),
    ]
}

fn delete_event_members() -> Vec<(String, String)> {
    vec![
        ("ref".to_string(), text("ref-value")),
        ("ref_type".to_string(), text("ref_type-value")),
        ("pusher_type".to_string(), text("pusher_type-value")),
        ("repository".to_string(), object(repository_members())),
        ("sender".to_string(), object(actor_members())),
    ]
}

fn deploy_key_event_members() -> Vec<(String, String)> {
    vec![
        ("action".to_string(), text("action-value")),
        ("key".to_string(), object(deploy_key_members())),
        ("repository".to_string(), object(repository_members())),
        ("sender".to_string(), object(actor_members())),
    ]
}

fn deployment_event_members() -> Vec<(String, String)> {
    vec![
        ("deployment".to_string(), object(deployment_members())),
        ("repository".to_string(), object(repository_members())),
        ("sender".to_string(), object(actor_members())),
    ]
}

fn deployment_status_event_members() -> Vec<(String, String)> {
    vec![
        ("deployment_status".to_string(), object(deployment_status_members())),
        ("deployment".to_string(), object(deployment_members())),
        ("repository".to_string(), object(repository_members())),
        ("sender".to_string(), object(actor_members())),
    ]
}

fn fork_event_members() -> Vec<(String, String)> {
    vec![
        ("forkee".to_string(), object(repository_members())),
        ("repository".to_string(), object(repository_members())),
        ("sender".to_string(), object(actor_members())),
    ]
}

fn gollum_event_members() -> Vec<(String, String)> {
    vec![
        ("pages".to_string(), array(Vec::new())),
        ("repository".to_string(), object(repository_members())),
        ("sender".to_string(), object(actor_members())),
    ]
}

fn installation_event_members() -> Vec<(String, String)> {
    vec![
        ("action".to_string(), text("action-value")),
        ("installation".to_string(), object(installation_members())),
        ("repositories".to_string(), null()),
        ("sender".to_string(), object(actor_members())),
    ]
}

fn installation_repositories_event_members() -> Vec<(String, String)> {
    vec![
        ("action".to_string(), text("action-value")),
        ("installation".to_string(), object(installation_members())),
        ("repositories_added".to_string(), array(Vec::new())),
        ("repositories_removed".to_string(), array(Vec::new())),
        ("requester".to_string(), null()),
        ("sender".to_string(), object(actor_members())),
    ]
}

fn issues_event_members() -> Vec<(String, String)> {
    vec![
        ("action".to_string(), text("action-value")),
        ("issue".to_string(), object(issue_members())),
        ("changes".to_string(), null()),
        ("repository".to_string(), object(repository_members())),
        ("sender".to_string(), object(actor_members())),
    ]
}

fn issue_comment_event_members() -> Vec<(String, String)> {
    vec![
        ("action".to_string(), text("action-value")),
        ("issue".to_string(), object(issue_members())),
        ("comment".to_string(), object(issue_comment_members())),
        ("changes".to_string(), null()),
        ("repository".to_string(), object(repository_members())),
        ("sender".to_string(), object(actor_members())),
    ]
}

fn label_event_members() -> Vec<(String, String)> {
    vec![
        ("action".to_string(), text("action-value")),
        ("label".to_string(), object(label_members())),
        ("changes".to_string(), null()),
        ("repository".to_string(), object(repository_members())),
        ("organization".to_string(), null()),
        ("sender".to_string(), object(actor_members())),
    ]
}

fn member_event_members() -> Vec<(String, String)> {
    vec![
        ("action".to_string(), text("action-value")),
        ("member".to_string(), object(actor_members())),
        ("repository".to_string(), object(repository_members())),
        ("sender".to_string(), object(actor_members())),
    ]
}

fn membership_event_members() -> Vec<(String, String)> {
    vec![
        ("action".to_string(), text("action-value")),
        ("scope".to_string(), text("scope-value")),
        ("member".to_string(), object(actor_members())),
        ("organization".to_string(), object(organization_members())),
        ("team".to_string(), object(team_members())),
        ("sender".to_string(), object(actor_members())),
    ]
}

fn meta_event_members() -> Vec<(String, String)> {
    vec![
        ("action".to_string(), text("action-value")),
        ("hook_id".to_string(), number(1)),
        ("hook".to_string(), object(hook_members())),
        ("repository".to_string(), object(repository_members())),
        ("sender".to_string(), object(actor_members())),
    ]
}

fn milestone_event_members() -> Vec<(String, String)> {
    vec![
        ("action".to_string(), text("action-value")),
        ("milestone".to_string(), object(milestone_members())),
        ("repository".to_string(), object(repository_members())),
        ("organization".to_string(), null()),
        ("sender".to_string(), object(actor_members())),
    ]
}

fn organization_event_members() -> Vec<(String, String)> {
    vec![
        ("action".to_string(), text("action-value")),
        ("membership".to_string(), null()),
        ("invitation".to_string(), null()),
        ("organization".to_string(), object(organization_members())),
        ("sender".to_string(), object(actor_members())),
    ]
}

fn org_block_event_members() -> Vec<(String, String)> {
    vec![
        ("action".to_string(), text("action-value")),
        ("blocked_user".to_string(), object(actor_members())),
        ("organization".to_string(), object(organization_members())),
        ("sender".to_string(), object(actor_members())),
    ]
}

fn page_build_event_members() -> Vec<(String, String)> {
    vec![
        ("id".to_string(), number(1)),
        ("build".to_string(), object(page_build_members())),
        ("repository".to_string(), object(repository_members())),
        ("organization".to_string(), null()),
        ("sender".to_string(), object(actor_members())),
    ]
}

fn ping_event_members() -> Vec<(String, String)> {
    vec![
        ("zen".to_string(), text("zen-value")),
        ("hook_id".to_string(), number(1)),
        ("hook".to_string(), object(hook_members())),
        ("repository".to_string(), null()),
        ("organization".to_string(), null()),
        ("sender".to_string(), object(actor_members())),
    ]
}

fn project_card_event_members() -> Vec<(String, String)> {
    vec![
        ("action".to_string(), text("action-value")),
        ("changes".to_string(), null()),
        ("project_card".to_string(), object(project_card_members())),
        ("repository".to_string(), null()),
        ("organization".to_string(), null()),
        ("sender".to_string(), object(actor_members())),
    ]
}

fn project_column_event_members() -> Vec<(String, String)> {
    vec![
        ("action".to_string(), text("action-value")),
        ("changes".to_string(), null()),
        ("project_column".to_string(), object(project_column_members())),
        ("repository".to_string(), null()),
        ("organization".to_string(), null()),
        ("sender".to_string(), object(actor_members())),
    ]
}

fn project_event_members() -> Vec<(String, String)> {
    vec![
        ("action".to_string(), text("action-value")),
        ("changes".to_string(), null()),
        ("project".to_string(), object(project_members())),
        ("repository".to_string(), object(repository_members())),
        ("organization".to_string(), null()),
        ("sender".to_string(), object(actor_members())),
    ]
}

fn public_event_members() -> Vec<(String, String)> {
    vec![
        ("repository".to_string(), object(repository_members())),
        ("sender".to_string(), object(actor_members())),
    ]
}

fn pull_request_event_members() -> Vec<(String, String)> {
    vec![
        ("action".to_string(), text("action-value")),
        ("number".to_string(), number(1)),
        ("pull_request".to_string(), object(pull_request_members())),
        ("label".to_string(), null()),
        ("repository".to_string(), object(repository_members())),
        ("sender".to_string(), object(actor_members())),
        ("changes".to_string(), null()),
        ("assignee".to_string(), null()),
        ("requested_reviewer".to_string(), null()),
        ("requested_team".to_string(), null()),
        ("installation".to_string(), null()),
    ]
}

fn pull_request_review_event_members() -> Vec<(String, String)> {
    vec![
        ("action".to_string(), text("action-value")),
        ("review".to_string(), object(review_members())),
        ("pull_request".to_string(), object(pull_request_members())),
        ("repository".to_string(), object(repository_members())),
        ("sender".to_string(), object(actor_members())),
        ("installation".to_string(), object(installation_id_members())),
    ]
}

fn pull_request_review_comment_event_members() -> Vec<(String, String)> {
    vec![
        ("action".to_string(), text("action-value")),
        ("comment".to_string(), object(pull_request_review_comment_members())),
        ("pull_request".to_string(), object(pull_request_members())),
        ("repository".to_string(), object(repository_members())),
        ("sender".to_string(), object(actor_members())),
        ("installation".to_string(), object(installation_id_members())),
    ]
}

fn push_event_members() -> Vec<(String, String)> {
    vec![
        ("ref".to_string(), text("ref-value")),
        ("before".to_string(), text("before-value")),
        ("after".to_string(), text("after-value")),
        ("created".to_string(), boolean(false)),
        ("deleted".to_string(), boolean(false)),
        ("forced".to_string(), boolean(false)),
        ("base_ref".to_string(), null()),
        ("compare".to_string(), text("compare-value")),
        ("repository".to_string(), object(repository_members())),
        ("pusher".to_string(), object(pusher_members())),
        ("sender".to_string(), object(actor_members())),
        ("commits".to_string(), array(Vec::new())),
        ("head_commit".to_string(), null()),
    ]
}

fn release_event_members() -> Vec<(String, String)> {
    vec![
        ("action".to_string(), text("action-value")),
        ("release".to_string(), object(release_members())),
        ("repository".to_string(), object(repository_members())),
        ("sender".to_string(), object(actor_members())),
    ]
}

fn repository_event_members() -> Vec<(String, String)> {
    vec![
        ("action".to_string(), text("action-value")),
        ("repository".to_string(), object(repository_members())),
        ("organization".to_string(), null()),
        ("sender".to_string(), object(actor_members())),
    ]
}

fn repository_vulnerability_alert_event_members() -> Vec<(String, String)> {
    vec![
        ("action".to_string(), text("action-value")),
        ("alert".to_string(), object(repository_vulnerability_alert_members())),
        ("repository".to_string(), object(repository_members())),
        ("organization".to_string(), null()),
        ("sender".to_string(), object(actor_members())),
    ]
}

fn star_event_members() -> Vec<(String, String)> {
    vec![
        ("action".to_string(), text("action-value")),
        ("starred_at".to_string(), null()),
        ("repository".to_string(), object(repository_members())),
        ("sender".to_string(), object(actor_members())),
    ]
}

fn status_event_members() -> Vec<(String, String)> {
    vec![
        ("id".to_string(), number(1)),
        ("sha".to_string(), text("sha-value")),
        ("name".to_string(), text("name-value")),
        ("avatar_url".to_string(), null()),
        ("target_url".to_string(), null()),
        ("context".to_string(), text("context-value")),
        ("description".to_string(), null()),
        ("state".to_string(), text("state-value")),
        ("created_at".to_string(), text("2023-07-22T04:26:40Z")),
        ("updated_at".to_string(), text("2023-07-22T04:26:40Z")),
        ("repository".to_string(), object(repository_members())),
        ("sender".to_string(), object(actor_members())),
        ("organization".to_string(), null()),
        ("branches".to_string(), array(Vec::new())),
    ]
}

fn team_add_event_members() -> Vec<(String, String)> {
    vec![
        ("team".to_string(), object(team_members())),
        ("repository".to_string(), object(repository_members())),
        ("organization".to_string(), object(organization_members())),
        ("sender".to_string(), object(actor_members())),
    ]
}

fn team_event_members() -> Vec<(String, String)> {
    vec![
        ("action".to_string(), text("action-value")),
        ("team".to_string(), object(team_members())),
        ("organization".to_string(), object(organization_members())),
        ("sender".to_string(), object(actor_members())),
    ]
}

fn watch_event_members() -> Vec<(String, String)> {
    vec![
        ("action".to_string(), text("action-value")),
        ("repository".to_string(), object(repository_members())),
        ("sender".to_string(), object(actor_members())),
    ]
}

fn workflow_dispatch_event_members() -> Vec<(String, String)> {
    vec![
        ("ref".to_string(), text("ref-value")),
        ("repository".to_string(), object(repository_members())),
        ("sender".to_string(), object(actor_members())),
        ("organization".to_string(), null()),
        ("workflow".to_string(), text("workflow-value")),
        ("inputs".to_string(), object(Vec::new())),
    ]
}

fn decode_issues(body: String) -> Box<gravity::IssuesEvent> {
    match dispatch("issues", body.as_bytes()) {
        Ok(Payload::IssuesEvent(e)) => e,
        other => panic!("unexpected outcome: {:?}", other),
    }
}

fn decode_issue_comment(body: String) -> Box<gravity::IssueCommentEvent> {
    match dispatch("issue_comment", body.as_bytes()) {
        Ok(Payload::IssueCommentEvent(e)) => e,
        other => panic!("unexpected outcome: {:?}", other),
    }
}

fn decode_star(body: String) -> Box<gravity::StarEvent> {
    match dispatch("star", body.as_bytes()) {
        Ok(Payload::StarEvent(e)) => e,
        other => panic!("unexpected outcome: {:?}", other),
    }
}

fn changed_title() -> String {
    object(vec![("title".to_string(), object(vec![("from".to_string(), text("old title"))]))])
}

#[test]
fn test_issues_closed() {
    let payload = decode_issues(object(with(issues_event_members(), "action", text("closed"))));
    assert_eq!("closed", payload.action);
}

#[test]
fn test_issues_edited() {
    let members = with(issues_event_members(), "action", text("edited"));
    let payload = decode_issues(object(with(members, "changes", changed_title())));
    assert_eq!("edited", payload.action);
    assert!(payload.changes.is_some());
    assert_eq!("old title", payload.changes.as_ref().unwrap().title.as_ref().unwrap().from);
}

#[test]
fn test_issue_comment_edited() {
    let members = with(issue_comment_event_members(), "action", text("edited"));
    let payload = decode_issue_comment(object(with(members, "changes", changed_title())));
    assert_eq!("edited", payload.action);
    assert!(payload.changes.is_some());
}

#[test]
fn test_issue_comment_created() {
    let payload = decode_issue_comment(object(with(issue_comment_event_members(), "action", text("created"))));
    assert_eq!("created", payload.action);
}

#[test]
fn test_issue_comment_deleted() {
    let payload = decode_issue_comment(object(with(issue_comment_event_members(), "action", text("deleted"))));
    assert_eq!("deleted", payload.action);
}

#[test]
fn test_star_created() {
    let members = with(star_event_members(), "action", text("created"));
    let payload = decode_star(object(with(members, "starred_at", text("2023-07-22T04:26:40Z"))));
    assert_eq!("created", payload.action);
    assert_eq!(Some(1_690_000_000), payload.starred_at.map(|t| t.seconds));
}

#[test]
fn test_star_deleted() {
    let payload = decode_star(object(with(star_event_members(), "action", text("deleted"))));
    assert_eq!("deleted", payload.action);
    assert_eq!(None, payload.starred_at);
}

fn samples() -> Vec<(&'static str, EventKind, String)> {
    vec![
        ("check_run", EventKind::CheckRun, object(check_run_event_members())),
        ("check_suite", EventKind::CheckSuite, object(check_suite_event_members())),
        ("commit_comment", EventKind::CommitComment, object(commit_comment_event_members())),
        ("create", EventKind::Create, object(create_event_members())),
        ("delete", EventKind::Delete, object(delete_event_members())),
        ("deploy_key", EventKind::DeployKey, object(deploy_key_event_members())),
        ("deployment", EventKind::Deployment, object(deployment_event_members())),
        ("deployment_status", EventKind::DeploymentStatus, object(deployment_status_event_members())),
        ("fork", EventKind::Fork, object(fork_event_members())),
        ("gollum", EventKind::Gollum, object(gollum_event_members())),
        ("installation", EventKind::Installation, object(installation_event_members())),
        ("installation_repositories", EventKind::InstallationRepositories, object(installation_repositories_event_members())),
        ("issues", EventKind::Issues, object(issues_event_members())),
        ("issue_comment", EventKind::IssueComment, object(issue_comment_event_members())),
        ("label", EventKind::Label, object(label_event_members())),
        ("member", EventKind::Member, object(member_event_members())),
        ("membership", EventKind::Membership, object(membership_event_members())),
        ("meta", EventKind::Meta, object(meta_event_members())),
        ("milestone", EventKind::Milestone, object(milestone_event_members())),
        ("organization", EventKind::Organization, object(organization_event_members())),
        ("org_block", EventKind::OrgBlock, object(org_block_event_members())),
        ("page_build", EventKind::PageBuild, object(page_build_event_members())),
        ("ping", EventKind::Ping, object(ping_event_members())),
        ("project_card", EventKind::ProjectCard, object(project_card_event_members())),
        ("project_column", EventKind::ProjectColumn, object(project_column_event_members())),
        ("project", EventKind::Project, object(project_event_members())),
        ("public", EventKind::Public, object(public_event_members())),
        ("pull_request", EventKind::PullRequest, object(pull_request_event_members())),
        ("pull_request_review", EventKind::PullRequestReview, object(pull_request_review_event_members())),
        ("pull_request_review_comment", EventKind::PullRequestReviewComment, object(pull_request_review_comment_event_members())),
        ("push", EventKind::Push, object(push_event_members())),
        ("release", EventKind::Release, object(release_event_members())),
        ("repository", EventKind::Repository, object(repository_event_members())),
        ("repository_vulnerability_alert", EventKind::RepositoryVulnerabilityAlert, object(repository_vulnerability_alert_event_members())),
        ("star", EventKind::Star, object(star_event_members())),
        ("status", EventKind::Status, object(status_event_members())),
        ("team_add", EventKind::TeamAdd, object(team_add_event_members())),
        ("team", EventKind::Team, object(team_event_members())),
        ("watch", EventKind::Watch, object(watch_event_members())),
        ("workflow_dispatch", EventKind::WorkflowDispatch, object(workflow_dispatch_event_members())),
    ]
}

#[test]
fn test_specification() {
    for (tag, kind, body) in samples() {
        assert_eq!(Some(kind), Payload::convertor(tag), "tag {}", tag);
        match dispatch(tag, body.as_bytes()) {
            Ok(payload) => assert_eq!(kind, payload.kind(), "tag {}", tag),
            Err(e) => panic!("cannot decode a {} sample: {:?}", tag, e),
        }
    }
}

#[test]
fn decoded_fields_equal_the_sample() {
    let sender = with(actor_members(), "login", text("octocat"));
    let sender = with(sender, "id", number(583231));
    let members = with(watch_event_members(), "action", text("started"));
    let body = object(with(members, "sender", object(sender)));
    match dispatch("watch", body.as_bytes()) {
        Ok(Payload::WatchEvent(e)) => {
            assert_eq!("started", e.action);
            assert_eq!("octocat", e.sender.login);
            assert_eq!(583231, e.sender.id);
            assert_eq!("type-value", e.sender.typ);
            assert!(!e.sender.site_admin);
            assert_eq!("full_name-value", e.repository.full_name);
            assert_eq!(1_690_000_000, e.repository.created_at.seconds);
            assert_eq!(None, e.repository.description);
        },
        other => panic!("unexpected outcome: {:?}", other),
    }
}

#[test]
fn optional_member_present_null_or_absent() {
    let present = with(repository_members(), "description", text("a repository"));
    let present = object(with(watch_event_members(), "repository", object(present)));
    let null = object(watch_event_members());
    let absent = object(with(watch_event_members(), "repository", object(without(repository_members(), "description"))));
    let descriptions: Vec<Option<String>> = [present, null, absent]
        .iter()
        .map(|body| match dispatch("watch", body.as_bytes()) {
            Ok(Payload::WatchEvent(e)) => e.repository.description,
            other => panic!("unexpected outcome: {:?}", other),
        })
        .collect();
    assert_eq!(vec![Some("a repository".to_string()), None, None], descriptions);
}

#[test]
fn unknown_tag_is_unsupported_without_decoding() {
    for body in ["not json at all", "{}"] {
        let r = dispatch("issues_comment", body.as_bytes());
        assert_eq!(Err(WebhookError::UnsupportedEvent("issues_comment".to_string())), r.map(|_| ()));
    }
    assert_eq!(None, Payload::convertor("Issues"));
    assert_eq!(None, Payload::convertor("issue"));
    assert_eq!(None, Payload::convertor(""));
    let e = dispatch("pushes", b"{}").unwrap_err();
    assert_eq!(501, e.status());
    assert_eq!("UNSUPPORTED EVENT (GOT: pushes)\n", e.message());
}

#[test]
fn malformed_body_is_a_decode_error() {
    let e = dispatch("issues", b"{\"action\": ").unwrap_err();
    assert_eq!(WebhookError::PayloadDecode(DecodeError::Syntax), e);
    assert_eq!(500, e.status());
    let e = dispatch("issues", b"[1, 2]").unwrap_err();
    assert_eq!(WebhookError::PayloadDecode(DecodeError::Mismatch), e);
    assert_eq!("FAILED CONVERT PAYLOAD (MSG: the body is not a JSON object)\n", e.message());
    let body = object(without(issues_event_members(), "sender"));
    let e = dispatch("issues", body.as_bytes()).unwrap_err();
    assert_eq!(WebhookError::PayloadDecode(DecodeError::Missing("sender".to_string())), e);
    let body = object(with(issues_event_members(), "action", number(3)));
    let e = dispatch("issues", body.as_bytes()).unwrap_err();
    assert_eq!(WebhookError::PayloadDecode(DecodeError::Invalid("action".to_string())), e);
    let repo = with(repository_members(), "created_at", text("yesterday"));
    let body = object(with(issues_event_members(), "repository", object(repo)));
    let e = dispatch("issues", body.as_bytes()).unwrap_err();
    assert_eq!(WebhookError::PayloadDecode(DecodeError::Invalid("created_at".to_string())), e);
}

#[test]
fn star_timestamp_forms() {
    let at = |v: String| decode_star(object(with(star_event_members(), "starred_at", v))).starred_at;
    let from_int = at(number(1_690_000_000)).unwrap();
    let from_text = at(text("2023-07-22T04:26:40Z")).unwrap();
    assert_eq!(from_int, from_text);
    assert_eq!(Some("2023-07-22T04:26:40Z".to_string()), from_int.to_rfc3339());
    assert_eq!(at(text("2023-07-22T06:26:40+02:00")), Some(from_int));
    assert_eq!(None, at(null()));
    assert_eq!(None, decode_star(object(without(star_event_members(), "starred_at"))).starred_at);
    let body = object(with(star_event_members(), "starred_at", number(253_402_300_800)));
    assert!(dispatch("star", body.as_bytes()).is_err());
    let body = object(with(star_event_members(), "starred_at", boolean(true)));
    assert!(dispatch("star", body.as_bytes()).is_err());
}

#[test]
fn scenario_issues_without_secret() {
    let config = WebhookConfig::new(None);
    let body = object(with(issues_event_members(), "action", text("opened")));
    match handle_request(&config, &post("issues", body, None)) {
        Ok(Payload::IssuesEvent(e)) => assert_eq!("opened", e.action),
        other => panic!("unexpected outcome: {:?}", other),
    }
}

#[test]
fn scenario_star_with_signature() {
    let secret = b"It's a Secret to Everybody".to_vec();
    let config = WebhookConfig::new(Some(secret.clone()));
    let members = with(star_event_members(), "action", text("created"));
    let body = object(with(members, "starred_at", number(1_690_000_000)));
    let signature = sign(&secret, body.as_bytes());
    match handle_request(&config, &post("star", body, Some(signature))) {
        Ok(Payload::StarEvent(e)) => {
            let t = e.starred_at.unwrap();
            assert_eq!(Timestamp { seconds: 1_690_000_000, nanos: 0 }, t);
            assert_eq!(Some("2023-07-22T04:26:40Z".to_string()), t.to_rfc3339());
        },
        other => panic!("unexpected outcome: {:?}", other),
    }
}

#[test]
fn scenario_signature_omitted() {
    let config = WebhookConfig::new(Some(b"secret".to_vec()));
    let e = handle_request(&config, &post("issues", "not json".to_string(), None)).unwrap_err();
    assert_eq!(WebhookError::SignatureMismatch(None), e);
    assert_eq!(400, e.status());
}

#[test]
fn scenario_wrong_signature_rejected_before_decoding() {
    let secret = b"secret".to_vec();
    let config = WebhookConfig::new(Some(secret.clone()));
    let body = object(issues_event_members());
    let mut signature = sign(&secret, body.as_bytes());
    let last = signature.len() - 1;
    signature[last] = if signature[last] == b'0' { b'1' } else { b'0' };
    let e = handle_request(&config, &post("issues", body.clone(), Some(signature.clone()))).unwrap_err();
    assert_eq!(WebhookError::SignatureMismatch(Some(signature)), e);
    let good = sign(&secret, body.as_bytes());
    let e = handle_request(&config, &post("issues", "{}".to_string(), Some(good))).unwrap_err();
    assert!(matches!(e, WebhookError::SignatureMismatch(_)));
}

#[test]
fn scenario_get_is_rejected_first() {
    let config = WebhookConfig::new(None);
    let mut req = post("issues", "{}".to_string(), None);
    req.method = "GET".to_string();
    req.path = "/elsewhere".to_string();
    req.content_type = None;
    let e = handle_request(&config, &req).unwrap_err();
    assert_eq!(WebhookError::MethodNotAllowed("GET".to_string()), e);
    assert_eq!(400, e.status());
    assert_eq!("ONLY ACCEPT POST (GOT: GET)\n", e.message());
    let error = e.to_error();
    assert_eq!(400, error.code());
    assert_eq!("ONLY ACCEPT POST (GOT: GET)\n", error.message());
}

#[test]
fn timestamp_members_take_either_form() {
    let repo = with(repository_members(), "pushed_at", number(1_690_000_000));
    let repo = with(repo, "updated_at", text("2023-07-22T04:26:40Z"));
    let body = object(with(watch_event_members(), "repository", object(repo)));
    match dispatch("watch", body.as_bytes()) {
        Ok(Payload::WatchEvent(e)) => {
            assert_eq!(e.repository.pushed_at, e.repository.updated_at);
            assert_eq!(Timestamp { seconds: 1_690_000_000, nanos: 0 }, e.repository.pushed_at);
        },
        other => panic!("unexpected outcome: {:?}", other),
    }
}

#[test]
fn decode_error_names_the_member_at_fault() {
    let issue = with(issue_members(), "assignees", array(vec![object(without(actor_members(), "login"))]));
    let body = object(with(issues_event_members(), "issue", object(issue)));
    let e = dispatch("issues", body.as_bytes()).unwrap_err();
    assert_eq!(WebhookError::PayloadDecode(DecodeError::Invalid("assignees".to_string())), e);
    let repo = without(repository_members(), "name");
    let body = object(with(issues_event_members(), "repository", object(repo)));
    let e = dispatch("issues", body.as_bytes()).unwrap_err();
    assert_eq!(WebhookError::PayloadDecode(DecodeError::Missing("name".to_string())), e);
    let body = object(with(issues_event_members(), "repository", text("not a repository")));
    let e = dispatch("issues", body.as_bytes()).unwrap_err();
    assert_eq!(WebhookError::PayloadDecode(DecodeError::Invalid("repository".to_string())), e);
    assert_eq!("FAILED CONVERT PAYLOAD (MSG: invalid value for member `repository`)\n", e.message());
}
