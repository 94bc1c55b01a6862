use vstd::prelude::*;

use crate::decode::{has, holds, may_have, may_hold, optional, required, DecodeError, Record};
use crate::json::{Json, JsonView};
use crate::timestamp::Timestamp;

verus! {

/// A user, organization or bot account as events name it.
#[derive(Debug)]
pub struct Actor {
    pub login: String,
    pub id: i64,
    pub node_id: String,
    pub avatar_url: String,
    pub gravatar_id: String,
    pub url: String,
    pub html_url: String,
    pub followers_url: String,
    pub following_url: String,
    pub gists_url: String,
    pub starred_url: String,
    pub subscriptions_url: String,
    pub organizations_url: String,
    pub repos_url: String,
    pub events_url: String,
    pub received_events_url: String,
    pub typ: String,
    pub site_admin: bool,
}

impl Record for Actor {
    open spec fn accepts(j: JsonView) -> bool {
        &&& j is Object
        &&& has::<String>(j, "login"@)
        &&& has::<i64>(j, "id"@)
        &&& has::<String>(j, "node_id"@)
        &&& has::<String>(j, "avatar_url"@)
        &&& has::<String>(j, "gravatar_id"@)
        &&& has::<String>(j, "url"@)
        &&& has::<String>(j, "html_url"@)
        &&& has::<String>(j, "followers_url"@)
        &&& has::<String>(j, "following_url"@)
        &&& has::<String>(j, "gists_url"@)
        &&& has::<String>(j, "starred_url"@)
        &&& has::<String>(j, "subscriptions_url"@)
        &&& has::<String>(j, "organizations_url"@)
        &&& has::<String>(j, "repos_url"@)
        &&& has::<String>(j, "events_url"@)
        &&& has::<String>(j, "received_events_url"@)
        &&& has::<String>(j, "type"@)
        &&& has::<bool>(j, "site_admin"@)
    }

    open spec fn describes(&self, j: JsonView) -> bool {
        &&& holds(j, "login"@, self.login)
        &&& holds(j, "id"@, self.id)
        &&& holds(j, "node_id"@, self.node_id)
        &&& holds(j, "avatar_url"@, self.avatar_url)
        &&& holds(j, "gravatar_id"@, self.gravatar_id)
        &&& holds(j, "url"@, self.url)
        &&& holds(j, "html_url"@, self.html_url)
        &&& holds(j, "followers_url"@, self.followers_url)
        &&& holds(j, "following_url"@, self.following_url)
        &&& holds(j, "gists_url"@, self.gists_url)
        &&& holds(j, "starred_url"@, self.starred_url)
        &&& holds(j, "subscriptions_url"@, self.subscriptions_url)
        &&& holds(j, "organizations_url"@, self.organizations_url)
        &&& holds(j, "repos_url"@, self.repos_url)
        &&& holds(j, "events_url"@, self.events_url)
        &&& holds(j, "received_events_url"@, self.received_events_url)
        &&& holds(j, "type"@, self.typ)
        &&& holds(j, "site_admin"@, self.site_admin)
    }

    open spec fn mismatch(j: JsonView) -> bool {
        !(j is Object)
    }

    fn from_json(j: &Json) -> (r: Result<Actor, DecodeError>) {
        if !j.is_object() {
            return Err(DecodeError::Mismatch);
        }
        let login = required(j, "login")?;
        let id = required(j, "id")?;
        let node_id = required(j, "node_id")?;
        let avatar_url = required(j, "avatar_url")?;
        let gravatar_id = required(j, "gravatar_id")?;
        let url = required(j, "url")?;
        let html_url = required(j, "html_url")?;
        let followers_url = required(j, "followers_url")?;
        let following_url = required(j, "following_url")?;
        let gists_url = required(j, "gists_url")?;
        let starred_url = required(j, "starred_url")?;
        let subscriptions_url = required(j, "subscriptions_url")?;
        let organizations_url = required(j, "organizations_url")?;
        let repos_url = required(j, "repos_url")?;
        let events_url = required(j, "events_url")?;
        let received_events_url = required(j, "received_events_url")?;
        let typ = required(j, "type")?;
        let site_admin = required(j, "site_admin")?;
        Ok(Actor {
            login,
            id,
            node_id,
            avatar_url,
            gravatar_id,
            url,
            html_url,
            followers_url,
            following_url,
            gists_url,
            starred_url,
            subscriptions_url,
            organizations_url,
            repos_url,
            events_url,
            received_events_url,
            typ,
            site_admin,
        })
    }
}

/// A repository, with its settings, counters and API links.
#[derive(Debug)]
pub struct Repository {
    pub id: i64,
    pub node_id: String,
    pub name: String,
    pub full_name: String,
    pub owner: Actor,
    pub private: bool,
    pub html_url: String,
    pub description: Option<String>,
    pub fork: bool,
    pub url: String,
    pub forks_url: String,
    pub keys_url: String,
    pub collaborators_url: String,
    pub teams_url: String,
    pub hooks_url: String,
    pub issue_events_url: String,
    pub events_url: String,
    pub assignees_url: String,
    pub branches_url: String,
    pub tags_url: String,
    pub blobs_url: String,
    pub git_tags_url: String,
    pub git_refs_url: String,
    pub trees_url: String,
    pub statuses_url: String,
    pub languages_url: String,
    pub stargazers_url: String,
    pub contributors_url: String,
    pub subscribers_url: String,
    pub subscription_url: String,
    pub commits_url: String,
    pub git_commits_url: String,
    pub comments_url: String,
    pub issue_comment_url: String,
    pub contents_url: String,
    pub compare_url: String,
    pub merges_url: String,
    pub archive_url: String,
    pub downloads_url: String,
    pub issues_url: String,
    pub pulls_url: String,
    pub milestones_url: String,
    pub notifications_url: String,
    pub labels_url: String,
    pub releases_url: String,
    pub created_at: Timestamp,
    pub updated_at: Timestamp,
    pub pushed_at: Timestamp,
    pub git_url: String,
    pub ssh_url: String,
    pub clone_url: String,
    pub svn_url: String,
    pub homepage: Option<String>,
    pub size: i64,
    pub stargazers_count: i64,
    pub watchers_count: i64,
    pub language: Option<String>,
    pub has_issues: bool,
    pub has_downloads: bool,
    pub has_wiki: bool,
    pub has_pages: bool,
    pub forks_count: i64,
    pub mirror_url: Option<String>,
    pub open_issues_count: i64,
    pub forks: i64,
    pub open_issues: i64,
    pub watchers: i64,
    pub default_branch: String,
}

impl Record for Repository {
    open spec fn accepts(j: JsonView) -> bool {
        &&& j is Object
        &&& has::<i64>(j, "id"@)
        &&& has::<String>(j, "node_id"@)
        &&& has::<String>(j, "name"@)
        &&& has::<String>(j, "full_name"@)
        &&& has::<Actor>(j, "owner"@)
        &&& has::<bool>(j, "private"@)
        &&& has::<String>(j, "html_url"@)
        &&& may_have::<String>(j, "description"@)
        &&& has::<bool>(j, "fork"@)
        &&& has::<String>(j, "url"@)
        &&& has::<String>(j, "forks_url"@)
        &&& has::<String>(j, "keys_url"@)
        &&& has::<String>(j, "collaborators_url"@)
        &&& has::<String>(j, "teams_url"@)
        &&& has::<String>(j, "hooks_url"@)
        &&& has::<String>(j, "issue_events_url"@)
        &&& has::<String>(j, "events_url"@)
        &&& has::<String>(j, "assignees_url"@)
        &&& has::<String>(j, "branches_url"@)
        &&& has::<String>(j, "tags_url"@)
        &&& has::<String>(j, "blobs_url"@)
        &&& has::<String>(j, "git_tags_url"@)
        &&& has::<String>(j, "git_refs_url"@)
        &&& has::<String>(j, "trees_url"@)
        &&& has::<String>(j, "statuses_url"@)
        &&& has::<String>(j, "languages_url"@)
        &&& has::<String>(j, "stargazers_url"@)
        &&& has::<String>(j, "contributors_url"@)
        &&& has::<String>(j, "subscribers_url"@)
        &&& has::<String>(j, "subscription_url"@)
        &&& has::<String>(j, "commits_url"@)
        &&& has::<String>(j, "git_commits_url"@)
        &&& has::<String>(j, "comments_url"@)
        &&& has::<String>(j, "issue_comment_url"@)
        &&& has::<String>(j, "contents_url"@)
        &&& has::<String>(j, "compare_url"@)
        &&& has::<String>(j, "merges_url"@)
        &&& has::<String>(j, "archive_url"@)
        &&& has::<String>(j, "downloads_url"@)
        &&& has::<String>(j, "issues_url"@)
        &&& has::<String>(j, "pulls_url"@)
        &&& has::<String>(j, "milestones_url"@)
        &&& has::<String>(j, "notifications_url"@)
        &&& has::<String>(j, "labels_url"@)
        &&& has::<String>(j, "releases_url"@)
        &&& has::<Timestamp>(j, "created_at"@)
        &&& has::<Timestamp>(j, "updated_at"@)
        &&& has::<Timestamp>(j, "pushed_at"@)
        &&& has::<String>(j, "git_url"@)
        &&& has::<String>(j, "ssh_url"@)
        &&& has::<String>(j, "clone_url"@)
        &&& has::<String>(j, "svn_url"@)
        &&& may_have::<String>(j, "homepage"@)
        &&& has::<i64>(j, "size"@)
        &&& has::<i64>(j, "stargazers_count"@)
        &&& has::<i64>(j, "watchers_count"@)
        &&& may_have::<String>(j, "language"@)
        &&& has::<bool>(j, "has_issues"@)
        &&& has::<bool>(j, "has_downloads"@)
        &&& has::<bool>(j, "has_wiki"@)
        &&& has::<bool>(j, "has_pages"@)
        &&& has::<i64>(j, "forks_count"@)
        &&& may_have::<String>(j, "mirror_url"@)
        &&& has::<i64>(j, "open_issues_count"@)
        &&& has::<i64>(j, "forks"@)
        &&& has::<i64>(j, "open_issues"@)
        &&& has::<i64>(j, "watchers"@)
        &&& has::<String>(j, "default_branch"@)
    }

    open spec fn describes(&self, j: JsonView) -> bool {
        &&& holds(j, "id"@, self.id)
        &&& holds(j, "node_id"@, self.node_id)
        &&& holds(j, "name"@, self.name)
        &&& holds(j, "full_name"@, self.full_name)
        &&& holds(j, "owner"@, self.owner)
        &&& holds(j, "private"@, self.private)
        &&& holds(j, "html_url"@, self.html_url)
        &&& may_hold(j, "description"@, self.description)
        &&& holds(j, "fork"@, self.fork)
        &&& holds(j, "url"@, self.url)
        &&& holds(j, "forks_url"@, self.forks_url)
        &&& holds(j, "keys_url"@, self.keys_url)
        &&& holds(j, "collaborators_url"@, self.collaborators_url)
        &&& holds(j, "teams_url"@, self.teams_url)
        &&& holds(j, "hooks_url"@, self.hooks_url)
        &&& holds(j, "issue_events_url"@, self.issue_events_url)
        &&& holds(j, "events_url"@, self.events_url)
        &&& holds(j, "assignees_url"@, self.assignees_url)
        &&& holds(j, "branches_url"@, self.branches_url)
        &&& holds(j, "tags_url"@, self.tags_url)
        &&& holds(j, "blobs_url"@, self.blobs_url)
        &&& holds(j, "git_tags_url"@, self.git_tags_url)
        &&& holds(j, "git_refs_url"@, self.git_refs_url)
        &&& holds(j, "trees_url"@, self.trees_url)
        &&& holds(j, "statuses_url"@, self.statuses_url)
        &&& holds(j, "languages_url"@, self.languages_url)
        &&& holds(j, "stargazers_url"@, self.stargazers_url)
        &&& holds(j, "contributors_url"@, self.contributors_url)
        &&& holds(j, "subscribers_url"@, self.subscribers_url)
        &&& holds(j, "subscription_url"@, self.subscription_url)
        &&& holds(j, "commits_url"@, self.commits_url)
        &&& holds(j, "git_commits_url"@, self.git_commits_url)
        &&& holds(j, "comments_url"@, self.comments_url)
        &&& holds(j, "issue_comment_url"@, self.issue_comment_url)
        &&& holds(j, "contents_url"@, self.contents_url)
        &&& holds(j, "compare_url"@, self.compare_url)
        &&& holds(j, "merges_url"@, self.merges_url)
        &&& holds(j, "archive_url"@, self.archive_url)
        &&& holds(j, "downloads_url"@, self.downloads_url)
        &&& holds(j, "issues_url"@, self.issues_url)
        &&& holds(j, "pulls_url"@, self.pulls_url)
        &&& holds(j, "milestones_url"@, self.milestones_url)
        &&& holds(j, "notifications_url"@, self.notifications_url)
        &&& holds(j, "labels_url"@, self.labels_url)
        &&& holds(j, "releases_url"@, self.releases_url)
        &&& holds(j, "created_at"@, self.created_at)
        &&& holds(j, "updated_at"@, self.updated_at)
        &&& holds(j, "pushed_at"@, self.pushed_at)
        &&& holds(j, "git_url"@, self.git_url)
        &&& holds(j, "ssh_url"@, self.ssh_url)
        &&& holds(j, "clone_url"@, self.clone_url)
        &&& holds(j, "svn_url"@, self.svn_url)
        &&& may_hold(j, "homepage"@, self.homepage)
        &&& holds(j, "size"@, self.size)
        &&& holds(j, "stargazers_count"@, self.stargazers_count)
        &&& holds(j, "watchers_count"@, self.watchers_count)
        &&& may_hold(j, "language"@, self.language)
        &&& holds(j, "has_issues"@, self.has_issues)
        &&& holds(j, "has_downloads"@, self.has_downloads)
        &&& holds(j, "has_wiki"@, self.has_wiki)
        &&& holds(j, "has_pages"@, self.has_pages)
        &&& holds(j, "forks_count"@, self.forks_count)
        &&& may_hold(j, "mirror_url"@, self.mirror_url)
        &&& holds(j, "open_issues_count"@, self.open_issues_count)
        &&& holds(j, "forks"@, self.forks)
        &&& holds(j, "open_issues"@, self.open_issues)
        &&& holds(j, "watchers"@, self.watchers)
        &&& holds(j, "default_branch"@, self.default_branch)
    }

    open spec fn mismatch(j: JsonView) -> bool {
        !(j is Object)
    }

    fn from_json(j: &Json) -> (r: Result<Repository, DecodeError>) {
        if !j.is_object() {
            return Err(DecodeError::Mismatch);
        }
        let id = required(j, "id")?;
        let node_id = required(j, "node_id")?;
        let name = required(j, "name")?;
        let full_name = required(j, "full_name")?;
        let owner = required(j, "owner")?;
        let private = required(j, "private")?;
        let html_url = required(j, "html_url")?;
        let description = optional(j, "description")?;
        let fork = required(j, "fork")?;
        let url = required(j, "url")?;
        let forks_url = required(j, "forks_url")?;
        let keys_url = required(j, "keys_url")?;
        let collaborators_url = required(j, "collaborators_url")?;
        let teams_url = required(j, "teams_url")?;
        let hooks_url = required(j, "hooks_url")?;
        let issue_events_url = required(j, "issue_events_url")?;
        let events_url = required(j, "events_url")?;
        let assignees_url = required(j, "assignees_url")?;
        let branches_url = required(j, "branches_url")?;
        let tags_url = required(j, "tags_url")?;
        let blobs_url = required(j, "blobs_url")?;
        let git_tags_url = required(j, "git_tags_url")?;
        let git_refs_url = required(j, "git_refs_url")?;
        let trees_url = required(j, "trees_url")?;
        let statuses_url = required(j, "statuses_url")?;
        let languages_url = required(j, "languages_url")?;
        let stargazers_url = required(j, "stargazers_url")?;
        let contributors_url = required(j, "contributors_url")?;
        let subscribers_url = required(j, "subscribers_url")?;
        let subscription_url = required(j, "subscription_url")?;
        let commits_url = required(j, "commits_url")?;
        let git_commits_url = required(j, "git_commits_url")?;
        let comments_url = required(j, "comments_url")?;
        let issue_comment_url = required(j, "issue_comment_url")?;
        let contents_url = required(j, "contents_url")?;
        let compare_url = required(j, "compare_url")?;
        let merges_url = required(j, "merges_url")?;
        let archive_url = required(j, "archive_url")?;
        let downloads_url = required(j, "downloads_url")?;
        let issues_url = required(j, "issues_url")?;
        let pulls_url = required(j, "pulls_url")?;
        let milestones_url = required(j, "milestones_url")?;
        let notifications_url = required(j, "notifications_url")?;
        let labels_url = required(j, "labels_url")?;
        let releases_url = required(j, "releases_url")?;
        let created_at = required(j, "created_at")?;
        let updated_at = required(j, "updated_at")?;
        let pushed_at = required(j, "pushed_at")?;
        let git_url = required(j, "git_url")?;
        let ssh_url = required(j, "ssh_url")?;
        let clone_url = required(j, "clone_url")?;
        let svn_url = required(j, "svn_url")?;
        let homepage = optional(j, "homepage")?;
        let size = required(j, "size")?;
        let stargazers_count = required(j, "stargazers_count")?;
        let watchers_count = required(j, "watchers_count")?;
        let language = optional(j, "language")?;
        let has_issues = required(j, "has_issues")?;
        let has_downloads = required(j, "has_downloads")?;
        let has_wiki = required(j, "has_wiki")?;
        let has_pages = required(j, "has_pages")?;
        let forks_count = required(j, "forks_count")?;
        let mirror_url = optional(j, "mirror_url")?;
        let open_issues_count = required(j, "open_issues_count")?;
        let forks = required(j, "forks")?;
        let open_issues = required(j, "open_issues")?;
        let watchers = required(j, "watchers")?;
        let default_branch = required(j, "default_branch")?;
        Ok(Repository {
            id,
            node_id,
            name,
            full_name,
            owner,
            private,
            html_url,
            description,
            fork,
            url,
            forks_url,
            keys_url,
            collaborators_url,
            teams_url,
            hooks_url,
            issue_events_url,
            events_url,
            assignees_url,
            branches_url,
            tags_url,
            blobs_url,
            git_tags_url,
            git_refs_url,
            trees_url,
            statuses_url,
            languages_url,
            stargazers_url,
            contributors_url,
            subscribers_url,
            subscription_url,
            commits_url,
            git_commits_url,
            comments_url,
            issue_comment_url,
            contents_url,
            compare_url,
            merges_url,
            archive_url,
            downloads_url,
            issues_url,
            pulls_url,
            milestones_url,
            notifications_url,
            labels_url,
            releases_url,
            created_at,
            updated_at,
            pushed_at,
            git_url,
            ssh_url,
            clone_url,
            svn_url,
            homepage,
            size,
            stargazers_count,
            watchers_count,
            language,
            has_issues,
            has_downloads,
            has_wiki,
            has_pages,
            forks_count,
            mirror_url,
            open_issues_count,
            forks,
            open_issues,
            watchers,
            default_branch,
        })
    }
}

/// An issue, or the issue side of a pull request.
#[derive(Debug)]
pub struct Issue {
    pub url: String,
    pub labels_url: String,
    pub comments_url: String,
    pub events_url: String,
    pub html_url: String,
    pub id: i64,
    pub node_id: String,
    pub number: i64,
    pub title: String,
    pub user: Actor,
    pub labels: Option<Vec<Label>>,
    pub state: Option<String>,
    pub locked: Option<bool>,
    pub assignee: Option<Actor>,
    pub assignees: Vec<Actor>,
    pub milestone: Option<Milestone>,
    pub comments: i64,
    pub created_at: Timestamp,
    pub updated_at: Timestamp,
    pub closed_at: Option<Timestamp>,
    pub body: Option<String>,
}

impl Record for Issue {
    open spec fn accepts(j: JsonView) -> bool {
        &&& j is Object
        &&& has::<String>(j, "url"@)
        &&& has::<String>(j, "labels_url"@)
        &&& has::<String>(j, "comments_url"@)
        &&& has::<String>(j, "events_url"@)
        &&& has::<String>(j, "html_url"@)
        &&& has::<i64>(j, "id"@)
        &&& has::<String>(j, "node_id"@)
        &&& has::<i64>(j, "number"@)
        &&& has::<String>(j, "title"@)
        &&& has::<Actor>(j, "user"@)
        &&& may_have::<Vec<Label>>(j, "labels"@)
        &&& may_have::<String>(j, "state"@)
        &&& may_have::<bool>(j, "locked"@)
        &&& may_have::<Actor>(j, "assignee"@)
        &&& has::<Vec<Actor>>(j, "assignees"@)
        &&& may_have::<Milestone>(j, "milestone"@)
        &&& has::<i64>(j, "comments"@)
        &&& has::<Timestamp>(j, "created_at"@)
        &&& has::<Timestamp>(j, "updated_at"@)
        &&& may_have::<Timestamp>(j, "closed_at"@)
        &&& may_have::<String>(j, "body"@)
    }

    open spec fn describes(&self, j: JsonView) -> bool {
        &&& holds(j, "url"@, self.url)
        &&& holds(j, "labels_url"@, self.labels_url)
        &&& holds(j, "comments_url"@, self.comments_url)
        &&& holds(j, "events_url"@, self.events_url)
        &&& holds(j, "html_url"@, self.html_url)
        &&& holds(j, "id"@, self.id)
        &&& holds(j, "node_id"@, self.node_id)
        &&& holds(j, "number"@, self.number)
        &&& holds(j, "title"@, self.title)
        &&& holds(j, "user"@, self.user)
        &&& may_hold(j, "labels"@, self.labels)
        &&& may_hold(j, "state"@, self.state)
        &&& may_hold(j, "locked"@, self.locked)
        &&& may_hold(j, "assignee"@, self.assignee)
        &&& holds(j, "assignees"@, self.assignees)
        &&& may_hold(j, "milestone"@, self.milestone)
        &&& holds(j, "comments"@, self.comments)
        &&& holds(j, "created_at"@, self.created_at)
        &&& holds(j, "updated_at"@, self.updated_at)
        &&& may_hold(j, "closed_at"@, self.closed_at)
        &&& may_hold(j, "body"@, self.body)
    }

    open spec fn mismatch(j: JsonView) -> bool {
        !(j is Object)
    }

    fn from_json(j: &Json) -> (r: Result<Issue, DecodeError>) {
        if !j.is_object() {
            return Err(DecodeError::Mismatch);
        }
        let url = required(j, "url")?;
        let labels_url = required(j, "labels_url")?;
        let comments_url = required(j, "comments_url")?;
        let events_url = required(j, "events_url")?;
        let html_url = required(j, "html_url")?;
        let id = required(j, "id")?;
        let node_id = required(j, "node_id")?;
        let number = required(j, "number")?;
        let title = required(j, "title")?;
        let user = required(j, "user")?;
        let labels = optional(j, "labels")?;
        let state = optional(j, "state")?;
        let locked = optional(j, "locked")?;
        let assignee = optional(j, "assignee")?;
        let assignees = required(j, "assignees")?;
        let milestone = optional(j, "milestone")?;
        let comments = required(j, "comments")?;
        let created_at = required(j, "created_at")?;
        let updated_at = required(j, "updated_at")?;
        let closed_at = optional(j, "closed_at")?;
        let body = optional(j, "body")?;
        Ok(Issue {
            url,
            labels_url,
            comments_url,
            events_url,
            html_url,
            id,
            node_id,
            number,
            title,
            user,
            labels,
            state,
            locked,
            assignee,
            assignees,
            milestone,
            comments,
            created_at,
            updated_at,
            closed_at,
            body,
        })
    }
}

/// A milestone that groups issues and pull requests.
#[derive(Debug)]
pub struct Milestone {
    pub url: String,
    pub html_url: String,
    pub labels_url: String,
    pub id: i64,
    pub node_id: String,
    pub number: i64,
    pub state: String,
    pub title: String,
    pub description: String,
    pub creator: Actor,
    pub open_issues: i64,
    pub closed_issues: i64,
    pub created_at: Timestamp,
    pub updated_at: Timestamp,
    pub closed_at: Option<Timestamp>,
    pub due_on: Timestamp,
}

impl Record for Milestone {
    open spec fn accepts(j: JsonView) -> bool {
        &&& j is Object
        &&& has::<String>(j, "url"@)
        &&& has::<String>(j, "html_url"@)
        &&& has::<String>(j, "labels_url"@)
        &&& has::<i64>(j, "id"@)
        &&& has::<String>(j, "node_id"@)
        &&& has::<i64>(j, "number"@)
        &&& has::<String>(j, "state"@)
        &&& has::<String>(j, "title"@)
        &&& has::<String>(j, "description"@)
        &&& has::<Actor>(j, "creator"@)
        &&& has::<i64>(j, "open_issues"@)
        &&& has::<i64>(j, "closed_issues"@)
        &&& has::<Timestamp>(j, "created_at"@)
        &&& has::<Timestamp>(j, "updated_at"@)
        &&& may_have::<Timestamp>(j, "closed_at"@)
        &&& has::<Timestamp>(j, "due_on"@)
    }

    open spec fn describes(&self, j: JsonView) -> bool {
        &&& holds(j, "url"@, self.url)
        &&& holds(j, "html_url"@, self.html_url)
        &&& holds(j, "labels_url"@, self.labels_url)
        &&& holds(j, "id"@, self.id)
        &&& holds(j, "node_id"@, self.node_id)
        &&& holds(j, "number"@, self.number)
        &&& holds(j, "state"@, self.state)
        &&& holds(j, "title"@, self.title)
        &&& holds(j, "description"@, self.description)
        &&& holds(j, "creator"@, self.creator)
        &&& holds(j, "open_issues"@, self.open_issues)
        &&& holds(j, "closed_issues"@, self.closed_issues)
        &&& holds(j, "created_at"@, self.created_at)
        &&& holds(j, "updated_at"@, self.updated_at)
        &&& may_hold(j, "closed_at"@, self.closed_at)
        &&& holds(j, "due_on"@, self.due_on)
    }

    open spec fn mismatch(j: JsonView) -> bool {
        !(j is Object)
    }

    fn from_json(j: &Json) -> (r: Result<Milestone, DecodeError>) {
        if !j.is_object() {
            return Err(DecodeError::Mismatch);
        }
        let url = required(j, "url")?;
        let html_url = required(j, "html_url")?;
        let labels_url = required(j, "labels_url")?;
        let id = required(j, "id")?;
        let node_id = required(j, "node_id")?;
        let number = required(j, "number")?;
        let state = required(j, "state")?;
        let title = required(j, "title")?;
        let description = required(j, "description")?;
        let creator = required(j, "creator")?;
        let open_issues = required(j, "open_issues")?;
        let closed_issues = required(j, "closed_issues")?;
        let created_at = required(j, "created_at")?;
        let updated_at = required(j, "updated_at")?;
        let closed_at = optional(j, "closed_at")?;
        let due_on = required(j, "due_on")?;
        Ok(Milestone {
            url,
            html_url,
            labels_url,
            id,
            node_id,
            number,
            state,
            title,
            description,
            creator,
            open_issues,
            closed_issues,
            created_at,
            updated_at,
            closed_at,
            due_on,
        })
    }
}

/// A label that can be put on issues and pull requests.
#[derive(Debug)]
pub struct Label {
    pub id: i64,
    pub node_id: String,
    pub description: String,
    pub url: String,
    pub name: String,
    pub color: String,
    pub default: bool,
}

impl Record for Label {
    open spec fn accepts(j: JsonView) -> bool {
        &&& j is Object
        &&& has::<i64>(j, "id"@)
        &&& has::<String>(j, "node_id"@)
        &&& has::<String>(j, "description"@)
        &&& has::<String>(j, "url"@)
        &&& has::<String>(j, "name"@)
        &&& has::<String>(j, "color"@)
        &&& has::<bool>(j, "default"@)
    }

    open spec fn describes(&self, j: JsonView) -> bool {
        &&& holds(j, "id"@, self.id)
        &&& holds(j, "node_id"@, self.node_id)
        &&& holds(j, "description"@, self.description)
        &&& holds(j, "url"@, self.url)
        &&& holds(j, "name"@, self.name)
        &&& holds(j, "color"@, self.color)
        &&& holds(j, "default"@, self.default)
    }

    open spec fn mismatch(j: JsonView) -> bool {
        !(j is Object)
    }

    fn from_json(j: &Json) -> (r: Result<Label, DecodeError>) {
        if !j.is_object() {
            return Err(DecodeError::Mismatch);
        }
        let id = required(j, "id")?;
        let node_id = required(j, "node_id")?;
        let description = required(j, "description")?;
        let url = required(j, "url")?;
        let name = required(j, "name")?;
        let color = required(j, "color")?;
        let default = required(j, "default")?;
        Ok(Label {
            id,
            node_id,
            description,
            url,
            name,
            color,
            default,
        })
    }
}

/// A comment on an issue or a pull request.
#[derive(Debug)]
pub struct IssueComment {
    pub url: String,
    pub html_url: String,
    pub issue_url: String,
    pub id: i64,
    pub node_id: String,
    pub user: Actor,
    pub created_at: Timestamp,
    pub updated_at: Timestamp,
    pub body: String,
    pub author_association: String,
}

impl Record for IssueComment {
    open spec fn accepts(j: JsonView) -> bool {
        &&& j is Object
        &&& has::<String>(j, "url"@)
        &&& has::<String>(j, "html_url"@)
        &&& has::<String>(j, "issue_url"@)
        &&& has::<i64>(j, "id"@)
        &&& has::<String>(j, "node_id"@)
        &&& has::<Actor>(j, "user"@)
        &&& has::<Timestamp>(j, "created_at"@)
        &&& has::<Timestamp>(j, "updated_at"@)
        &&& has::<String>(j, "body"@)
        &&& has::<String>(j, "author_association"@)
    }

    open spec fn describes(&self, j: JsonView) -> bool {
        &&& holds(j, "url"@, self.url)
        &&& holds(j, "html_url"@, self.html_url)
        &&& holds(j, "issue_url"@, self.issue_url)
        &&& holds(j, "id"@, self.id)
        &&& holds(j, "node_id"@, self.node_id)
        &&& holds(j, "user"@, self.user)
        &&& holds(j, "created_at"@, self.created_at)
        &&& holds(j, "updated_at"@, self.updated_at)
        &&& holds(j, "body"@, self.body)
        &&& holds(j, "author_association"@, self.author_association)
    }

    open spec fn mismatch(j: JsonView) -> bool {
        !(j is Object)
    }

    fn from_json(j: &Json) -> (r: Result<IssueComment, DecodeError>) {
        if !j.is_object() {
            return Err(DecodeError::Mismatch);
        }
        let url = required(j, "url")?;
        let html_url = required(j, "html_url")?;
        let issue_url = required(j, "issue_url")?;
        let id = required(j, "id")?;
        let node_id = required(j, "node_id")?;
        let user = required(j, "user")?;
        let created_at = required(j, "created_at")?;
        let updated_at = required(j, "updated_at")?;
        let body = required(j, "body")?;
        let author_association = required(j, "author_association")?;
        Ok(IssueComment {
            url,
            html_url,
            issue_url,
            id,
            node_id,
            user,
            created_at,
            updated_at,
            body,
            author_association,
        })
    }
}

/// A comment on the diff of a pull request.
#[derive(Debug)]
pub struct PullRequestReviewComment {
    pub url: String,
    pub html_url: String,
    pub pull_request_url: String,
    pub diff_hunk: String,
    pub path: String,
    pub id: i64,
    pub node_id: String,
    pub user: Actor,
    pub created_at: Timestamp,
    pub updated_at: Timestamp,
    pub body: String,
    pub author_association: String,
    pub position: i64,
    pub original_position: i64,
    pub commit_id: String,
    pub original_commit_id: String,
    pub _links: ReviewCommentLinks,
}

impl Record for PullRequestReviewComment {
    open spec fn accepts(j: JsonView) -> bool {
        &&& j is Object
        &&& has::<String>(j, "url"@)
        &&& has::<String>(j, "html_url"@)
        &&& has::<String>(j, "pull_request_url"@)
        &&& has::<String>(j, "diff_hunk"@)
        &&& has::<String>(j, "path"@)
        &&& has::<i64>(j, "id"@)
        &&& has::<String>(j, "node_id"@)
        &&& has::<Actor>(j, "user"@)
        &&& has::<Timestamp>(j, "created_at"@)
        &&& has::<Timestamp>(j, "updated_at"@)
        &&& has::<String>(j, "body"@)
        &&& has::<String>(j, "author_association"@)
        &&& has::<i64>(j, "position"@)
        &&& has::<i64>(j, "original_position"@)
        &&& has::<String>(j, "commit_id"@)
        &&& has::<String>(j, "original_commit_id"@)
        &&& has::<ReviewCommentLinks>(j, "_links"@)
    }

    open spec fn describes(&self, j: JsonView) -> bool {
        &&& holds(j, "url"@, self.url)
        &&& holds(j, "html_url"@, self.html_url)
        &&& holds(j, "pull_request_url"@, self.pull_request_url)
        &&& holds(j, "diff_hunk"@, self.diff_hunk)
        &&& holds(j, "path"@, self.path)
        &&& holds(j, "id"@, self.id)
        &&& holds(j, "node_id"@, self.node_id)
        &&& holds(j, "user"@, self.user)
        &&& holds(j, "created_at"@, self.created_at)
        &&& holds(j, "updated_at"@, self.updated_at)
        &&& holds(j, "body"@, self.body)
        &&& holds(j, "author_association"@, self.author_association)
        &&& holds(j, "position"@, self.position)
        &&& holds(j, "original_position"@, self.original_position)
        &&& holds(j, "commit_id"@, self.commit_id)
        &&& holds(j, "original_commit_id"@, self.original_commit_id)
        &&& holds(j, "_links"@, self._links)
    }

    open spec fn mismatch(j: JsonView) -> bool {
        !(j is Object)
    }

    fn from_json(j: &Json) -> (r: Result<PullRequestReviewComment, DecodeError>) {
        if !j.is_object() {
            return Err(DecodeError::Mismatch);
        }
        let url = required(j, "url")?;
        let html_url = required(j, "html_url")?;
        let pull_request_url = required(j, "pull_request_url")?;
        let diff_hunk = required(j, "diff_hunk")?;
        let path = required(j, "path")?;
        let id = required(j, "id")?;
        let node_id = required(j, "node_id")?;
        let user = required(j, "user")?;
        let created_at = required(j, "created_at")?;
        let updated_at = required(j, "updated_at")?;
        let body = required(j, "body")?;
        let author_association = required(j, "author_association")?;
        let position = required(j, "position")?;
        let original_position = required(j, "original_position")?;
        let commit_id = required(j, "commit_id")?;
        let original_commit_id = required(j, "original_commit_id")?;
        let _links = required(j, "_links")?;
        Ok(PullRequestReviewComment {
            url,
            html_url,
            pull_request_url,
            diff_hunk,
            path,
            id,
            node_id,
            user,
            created_at,
            updated_at,
            body,
            author_association,
            position,
            original_position,
            commit_id,
            original_commit_id,
            _links,
        })
    }
}

/// A comment on a commit.
#[derive(Debug)]
pub struct CommitComment {
    pub url: String,
    pub html_url: String,
    pub id: i64,
    pub node_id: String,
    pub user: Actor,
    pub created_at: Timestamp,
    pub updated_at: Timestamp,
    pub body: String,
    pub author_association: String,
    pub position: Option<i64>,
    pub line: Option<i64>,
    pub path: Option<String>,
    pub commit_id: String,
}

impl Record for CommitComment {
    open spec fn accepts(j: JsonView) -> bool {
        &&& j is Object
        &&& has::<String>(j, "url"@)
        &&& has::<String>(j, "html_url"@)
        &&& has::<i64>(j, "id"@)
        &&& has::<String>(j, "node_id"@)
        &&& has::<Actor>(j, "user"@)
        &&& has::<Timestamp>(j, "created_at"@)
        &&& has::<Timestamp>(j, "updated_at"@)
        &&& has::<String>(j, "body"@)
        &&& has::<String>(j, "author_association"@)
        &&& may_have::<i64>(j, "position"@)
        &&& may_have::<i64>(j, "line"@)
        &&& may_have::<String>(j, "path"@)
        &&& has::<String>(j, "commit_id"@)
    }

    open spec fn describes(&self, j: JsonView) -> bool {
        &&& holds(j, "url"@, self.url)
        &&& holds(j, "html_url"@, self.html_url)
        &&& holds(j, "id"@, self.id)
        &&& holds(j, "node_id"@, self.node_id)
        &&& holds(j, "user"@, self.user)
        &&& holds(j, "created_at"@, self.created_at)
        &&& holds(j, "updated_at"@, self.updated_at)
        &&& holds(j, "body"@, self.body)
        &&& holds(j, "author_association"@, self.author_association)
        &&& may_hold(j, "position"@, self.position)
        &&& may_hold(j, "line"@, self.line)
        &&& may_hold(j, "path"@, self.path)
        &&& holds(j, "commit_id"@, self.commit_id)
    }

    open spec fn mismatch(j: JsonView) -> bool {
        !(j is Object)
    }

    fn from_json(j: &Json) -> (r: Result<CommitComment, DecodeError>) {
        if !j.is_object() {
            return Err(DecodeError::Mismatch);
        }
        let url = required(j, "url")?;
        let html_url = required(j, "html_url")?;
        let id = required(j, "id")?;
        let node_id = required(j, "node_id")?;
        let user = required(j, "user")?;
        let created_at = required(j, "created_at")?;
        let updated_at = required(j, "updated_at")?;
        let body = required(j, "body")?;
        let author_association = required(j, "author_association")?;
        let position = optional(j, "position")?;
        let line = optional(j, "line")?;
        let path = optional(j, "path")?;
        let commit_id = required(j, "commit_id")?;
        Ok(CommitComment {
            url,
            html_url,
            id,
            node_id,
            user,
            created_at,
            updated_at,
            body,
            author_association,
            position,
            line,
            path,
            commit_id,
        })
    }
}

/// The earlier values of a label that was edited.
#[derive(Debug)]
pub struct LabelChanges {
    pub name: Option<ChangedFrom>,
    pub color: Option<ChangedFrom>,
}

impl Record for LabelChanges {
    open spec fn accepts(j: JsonView) -> bool {
        &&& j is Object
        &&& may_have::<ChangedFrom>(j, "name"@)
        &&& may_have::<ChangedFrom>(j, "color"@)
    }

    open spec fn describes(&self, j: JsonView) -> bool {
        &&& may_hold(j, "name"@, self.name)
        &&& may_hold(j, "color"@, self.color)
    }

    open spec fn mismatch(j: JsonView) -> bool {
        !(j is Object)
    }

    fn from_json(j: &Json) -> (r: Result<LabelChanges, DecodeError>) {
        if !j.is_object() {
            return Err(DecodeError::Mismatch);
        }
        let name = optional(j, "name")?;
        let color = optional(j, "color")?;
        Ok(LabelChanges {
            name,
            color,
        })
    }
}

/// The earlier title and body of an issue that was edited.
#[derive(Debug)]
pub struct IssueChanges {
    pub title: Option<ChangedFrom>,
    pub body: Option<ChangedFrom>,
}

impl Record for IssueChanges {
    open spec fn accepts(j: JsonView) -> bool {
        &&& j is Object
        &&& may_have::<ChangedFrom>(j, "title"@)
        &&& may_have::<ChangedFrom>(j, "body"@)
    }

    open spec fn describes(&self, j: JsonView) -> bool {
        &&& may_hold(j, "title"@, self.title)
        &&& may_hold(j, "body"@, self.body)
    }

    open spec fn mismatch(j: JsonView) -> bool {
        !(j is Object)
    }

    fn from_json(j: &Json) -> (r: Result<IssueChanges, DecodeError>) {
        if !j.is_object() {
            return Err(DecodeError::Mismatch);
        }
        let title = optional(j, "title")?;
        let body = optional(j, "body")?;
        Ok(IssueChanges {
            title,
            body,
        })
    }
}

/// The value that a field held before an edit.
#[derive(Debug)]
pub struct ChangedFrom {
    pub from: String,
}

impl Record for ChangedFrom {
    open spec fn accepts(j: JsonView) -> bool {
        &&& j is Object
        &&& has::<String>(j, "from"@)
    }

    open spec fn describes(&self, j: JsonView) -> bool {
        &&& holds(j, "from"@, self.from)
    }

    open spec fn mismatch(j: JsonView) -> bool {
        !(j is Object)
    }

    fn from_json(j: &Json) -> (r: Result<ChangedFrom, DecodeError>) {
        if !j.is_object() {
            return Err(DecodeError::Mismatch);
        }
        let from = required(j, "from")?;
        Ok(ChangedFrom {
            from,
        })
    }
}

/// A team of an organization.
#[derive(Debug)]
pub struct Team {
    pub name: String,
    pub id: i64,
    pub node_id: Option<String>,
    pub deleted: Option<bool>,
    pub slug: Option<String>,
    pub description: Option<String>,
    pub privacy: Option<String>,
    pub url: Option<String>,
    pub html_url: Option<String>,
    pub members_url: Option<String>,
    pub repositories_url: Option<String>,
    pub permission: Option<String>,
}

impl Record for Team {
    open spec fn accepts(j: JsonView) -> bool {
        &&& j is Object
        &&& has::<String>(j, "name"@)
        &&& has::<i64>(j, "id"@)
        &&& may_have::<String>(j, "node_id"@)
        &&& may_have::<bool>(j, "deleted"@)
        &&& may_have::<String>(j, "slug"@)
        &&& may_have::<String>(j, "description"@)
        &&& may_have::<String>(j, "privacy"@)
        &&& may_have::<String>(j, "url"@)
        &&& may_have::<String>(j, "html_url"@)
        &&& may_have::<String>(j, "members_url"@)
        &&& may_have::<String>(j, "repositories_url"@)
        &&& may_have::<String>(j, "permission"@)
    }

    open spec fn describes(&self, j: JsonView) -> bool {
        &&& holds(j, "name"@, self.name)
        &&& holds(j, "id"@, self.id)
        &&& may_hold(j, "node_id"@, self.node_id)
        &&& may_hold(j, "deleted"@, self.deleted)
        &&& may_hold(j, "slug"@, self.slug)
        &&& may_hold(j, "description"@, self.description)
        &&& may_hold(j, "privacy"@, self.privacy)
        &&& may_hold(j, "url"@, self.url)
        &&& may_hold(j, "html_url"@, self.html_url)
        &&& may_hold(j, "members_url"@, self.members_url)
        &&& may_hold(j, "repositories_url"@, self.repositories_url)
        &&& may_hold(j, "permission"@, self.permission)
    }

    open spec fn mismatch(j: JsonView) -> bool {
        !(j is Object)
    }

    fn from_json(j: &Json) -> (r: Result<Team, DecodeError>) {
        if !j.is_object() {
            return Err(DecodeError::Mismatch);
        }
        let name = required(j, "name")?;
        let id = required(j, "id")?;
        let node_id = optional(j, "node_id")?;
        let deleted = optional(j, "deleted")?;
        let slug = optional(j, "slug")?;
        let description = optional(j, "description")?;
        let privacy = optional(j, "privacy")?;
        let url = optional(j, "url")?;
        let html_url = optional(j, "html_url")?;
        let members_url = optional(j, "members_url")?;
        let repositories_url = optional(j, "repositories_url")?;
        let permission = optional(j, "permission")?;
        Ok(Team {
            name,
            id,
            node_id,
            deleted,
            slug,
            description,
            privacy,
            url,
            html_url,
            members_url,
            repositories_url,
            permission,
        })
    }
}

/// The identity of the app installation that an event was delivered for.
#[derive(Debug)]
pub struct InstallationId {
    pub id: i64,
    pub node_id: String,
}

impl Record for InstallationId {
    open spec fn accepts(j: JsonView) -> bool {
        &&& j is Object
        &&& has::<i64>(j, "id"@)
        &&& has::<String>(j, "node_id"@)
    }

    open spec fn describes(&self, j: JsonView) -> bool {
        &&& holds(j, "id"@, self.id)
        &&& holds(j, "node_id"@, self.node_id)
    }

    open spec fn mismatch(j: JsonView) -> bool {
        !(j is Object)
    }

    fn from_json(j: &Json) -> (r: Result<InstallationId, DecodeError>) {
        if !j.is_object() {
            return Err(DecodeError::Mismatch);
        }
        let id = required(j, "id")?;
        let node_id = required(j, "node_id")?;
        Ok(InstallationId {
            id,
            node_id,
        })
    }
}

/// A pull request, with its branches, counters and links.
#[derive(Debug)]
pub struct PullRequest {
    pub url: String,
    pub id: i64,
    pub node_id: String,
    pub html_url: String,
    pub diff_url: String,
    pub patch_url: String,
    pub issue_url: String,
    pub number: i64,
    pub state: String,
    pub locked: bool,
    pub title: String,
    pub user: Actor,
    pub body: Option<String>,
    pub created_at: Timestamp,
    pub updated_at: Timestamp,
    pub closed_at: Option<Timestamp>,
    pub merged_at: Option<Timestamp>,
    pub merge_commit_sha: Option<String>,
    pub assignee: Option<Actor>,
    pub assignees: Vec<Actor>,
    pub milestone: Option<Milestone>,
    pub draft: Option<bool>,
    pub commits_url: String,
    pub review_comments_url: String,
    pub review_comment_url: String,
    pub comments_url: String,
    pub statuses_url: String,
    pub requested_reviewers: Vec<Actor>,
    pub labels: Vec<Label>,
    pub head: Ref,
    pub base: Ref,
    pub _links: PullRequestLinks,
    pub merged: Option<bool>,
    pub mergeable: Option<bool>,
    pub mergeable_state: Option<String>,
    pub merged_by: Option<Actor>,
    pub comments: Option<i64>,
    pub review_comments: Option<i64>,
    pub commits: Option<i64>,
    pub additions: Option<i64>,
    pub deletions: Option<i64>,
    pub changed_files: Option<i64>,
}

impl Record for PullRequest {
    open spec fn accepts(j: JsonView) -> bool {
        &&& j is Object
        &&& has::<String>(j, "url"@)
        &&& has::<i64>(j, "id"@)
        &&& has::<String>(j, "node_id"@)
        &&& has::<String>(j, "html_url"@)
        &&& has::<String>(j, "diff_url"@)
        &&& has::<String>(j, "patch_url"@)
        &&& has::<String>(j, "issue_url"@)
        &&& has::<i64>(j, "number"@)
        &&& has::<String>(j, "state"@)
        &&& has::<bool>(j, "locked"@)
        &&& has::<String>(j, "title"@)
        &&& has::<Actor>(j, "user"@)
        &&& may_have::<String>(j, "body"@)
        &&& has::<Timestamp>(j, "created_at"@)
        &&& has::<Timestamp>(j, "updated_at"@)
        &&& may_have::<Timestamp>(j, "closed_at"@)
        &&& may_have::<Timestamp>(j, "merged_at"@)
        &&& may_have::<String>(j, "merge_commit_sha"@)
        &&& may_have::<Actor>(j, "assignee"@)
        &&& has::<Vec<Actor>>(j, "assignees"@)
        &&& may_have::<Milestone>(j, "milestone"@)
        &&& may_have::<bool>(j, "draft"@)
        &&& has::<String>(j, "commits_url"@)
        &&& has::<String>(j, "review_comments_url"@)
        &&& has::<String>(j, "review_comment_url"@)
        &&& has::<String>(j, "comments_url"@)
        &&& has::<String>(j, "statuses_url"@)
        &&& has::<Vec<Actor>>(j, "requested_reviewers"@)
        &&& has::<Vec<Label>>(j, "labels"@)
        &&& has::<Ref>(j, "head"@)
        &&& has::<Ref>(j, "base"@)
        &&& has::<PullRequestLinks>(j, "_links"@)
        &&& may_have::<bool>(j, "merged"@)
        &&& may_have::<bool>(j, "mergeable"@)
        &&& may_have::<String>(j, "mergeable_state"@)
        &&& may_have::<Actor>(j, "merged_by"@)
        &&& may_have::<i64>(j, "comments"@)
        &&& may_have::<i64>(j, "review_comments"@)
        &&& may_have::<i64>(j, "commits"@)
        &&& may_have::<i64>(j, "additions"@)
        &&& may_have::<i64>(j, "deletions"@)
        &&& may_have::<i64>(j, "changed_files"@)
    }

    open spec fn describes(&self, j: JsonView) -> bool {
        &&& holds(j, "url"@, self.url)
        &&& holds(j, "id"@, self.id)
        &&& holds(j, "node_id"@, self.node_id)
        &&& holds(j, "html_url"@, self.html_url)
        &&& holds(j, "diff_url"@, self.diff_url)
        &&& holds(j, "patch_url"@, self.patch_url)
        &&& holds(j, "issue_url"@, self.issue_url)
        &&& holds(j, "number"@, self.number)
        &&& holds(j, "state"@, self.state)
        &&& holds(j, "locked"@, self.locked)
        &&& holds(j, "title"@, self.title)
        &&& holds(j, "user"@, self.user)
        &&& may_hold(j, "body"@, self.body)
        &&& holds(j, "created_at"@, self.created_at)
        &&& holds(j, "updated_at"@, self.updated_at)
        &&& may_hold(j, "closed_at"@, self.closed_at)
        &&& may_hold(j, "merged_at"@, self.merged_at)
        &&& may_hold(j, "merge_commit_sha"@, self.merge_commit_sha)
        &&& may_hold(j, "assignee"@, self.assignee)
        &&& holds(j, "assignees"@, self.assignees)
        &&& may_hold(j, "milestone"@, self.milestone)
        &&& may_hold(j, "draft"@, self.draft)
        &&& holds(j, "commits_url"@, self.commits_url)
        &&& holds(j, "review_comments_url"@, self.review_comments_url)
        &&& holds(j, "review_comment_url"@, self.review_comment_url)
        &&& holds(j, "comments_url"@, self.comments_url)
        &&& holds(j, "statuses_url"@, self.statuses_url)
        &&& holds(j, "requested_reviewers"@, self.requested_reviewers)
        &&& holds(j, "labels"@, self.labels)
        &&& holds(j, "head"@, self.head)
        &&& holds(j, "base"@, self.base)
        &&& holds(j, "_links"@, self._links)
        &&& may_hold(j, "merged"@, self.merged)
        &&& may_hold(j, "mergeable"@, self.mergeable)
        &&& may_hold(j, "mergeable_state"@, self.mergeable_state)
        &&& may_hold(j, "merged_by"@, self.merged_by)
        &&& may_hold(j, "comments"@, self.comments)
        &&& may_hold(j, "review_comments"@, self.review_comments)
        &&& may_hold(j, "commits"@, self.commits)
        &&& may_hold(j, "additions"@, self.additions)
        &&& may_hold(j, "deletions"@, self.deletions)
        &&& may_hold(j, "changed_files"@, self.changed_files)
    }

    open spec fn mismatch(j: JsonView) -> bool {
        !(j is Object)
    }

    fn from_json(j: &Json) -> (r: Result<PullRequest, DecodeError>) {
        if !j.is_object() {
            return Err(DecodeError::Mismatch);
        }
        let url = required(j, "url")?;
        let id = required(j, "id")?;
        let node_id = required(j, "node_id")?;
        let html_url = required(j, "html_url")?;
        let diff_url = required(j, "diff_url")?;
        let patch_url = required(j, "patch_url")?;
        let issue_url = required(j, "issue_url")?;
        let number = required(j, "number")?;
        let state = required(j, "state")?;
        let locked = required(j, "locked")?;
        let title = required(j, "title")?;
        let user = required(j, "user")?;
        let body = optional(j, "body")?;
        let created_at = required(j, "created_at")?;
        let updated_at = required(j, "updated_at")?;
        let closed_at = optional(j, "closed_at")?;
        let merged_at = optional(j, "merged_at")?;
        let merge_commit_sha = optional(j, "merge_commit_sha")?;
        let assignee = optional(j, "assignee")?;
        let assignees = required(j, "assignees")?;
        let milestone = optional(j, "milestone")?;
        let draft = optional(j, "draft")?;
        let commits_url = required(j, "commits_url")?;
        let review_comments_url = required(j, "review_comments_url")?;
        let review_comment_url = required(j, "review_comment_url")?;
        let comments_url = required(j, "comments_url")?;
        let statuses_url = required(j, "statuses_url")?;
        let requested_reviewers = required(j, "requested_reviewers")?;
        let labels = required(j, "labels")?;
        let head = required(j, "head")?;
        let base = required(j, "base")?;
        let _links = required(j, "_links")?;
        let merged = optional(j, "merged")?;
        let mergeable = optional(j, "mergeable")?;
        let mergeable_state = optional(j, "mergeable_state")?;
        let merged_by = optional(j, "merged_by")?;
        let comments = optional(j, "comments")?;
        let review_comments = optional(j, "review_comments")?;
        let commits = optional(j, "commits")?;
        let additions = optional(j, "additions")?;
        let deletions = optional(j, "deletions")?;
        let changed_files = optional(j, "changed_files")?;
        Ok(PullRequest {
            url,
            id,
            node_id,
            html_url,
            diff_url,
            patch_url,
            issue_url,
            number,
            state,
            locked,
            title,
            user,
            body,
            created_at,
            updated_at,
            closed_at,
            merged_at,
            merge_commit_sha,
            assignee,
            assignees,
            milestone,
            draft,
            commits_url,
            review_comments_url,
            review_comment_url,
            comments_url,
            statuses_url,
            requested_reviewers,
            labels,
            head,
            base,
            _links,
            merged,
            mergeable,
            mergeable_state,
            merged_by,
            comments,
            review_comments,
            commits,
            additions,
            deletions,
            changed_files,
        })
    }
}

/// A hypertext link.
#[derive(Debug)]
pub struct Link {
    pub href: String,
}

impl Record for Link {
    open spec fn accepts(j: JsonView) -> bool {
        &&& j is Object
        &&& has::<String>(j, "href"@)
    }

    open spec fn describes(&self, j: JsonView) -> bool {
        &&& holds(j, "href"@, self.href)
    }

    open spec fn mismatch(j: JsonView) -> bool {
        !(j is Object)
    }

    fn from_json(j: &Json) -> (r: Result<Link, DecodeError>) {
        if !j.is_object() {
            return Err(DecodeError::Mismatch);
        }
        let href = required(j, "href")?;
        Ok(Link {
            href,
        })
    }
}

/// The links of a pull request.
#[derive(Debug)]
pub struct PullRequestLinks {
    pub this: Link,
    pub html: Link,
    pub issue: Link,
    pub comments: Link,
    pub review_comments: Link,
    pub review_comment: Link,
    pub commits: Link,
    pub statuses: Link,
}

impl Record for PullRequestLinks {
    open spec fn accepts(j: JsonView) -> bool {
        &&& j is Object
        &&& has::<Link>(j, "self"@)
        &&& has::<Link>(j, "html"@)
        &&& has::<Link>(j, "issue"@)
        &&& has::<Link>(j, "comments"@)
        &&& has::<Link>(j, "review_comments"@)
        &&& has::<Link>(j, "review_comment"@)
        &&& has::<Link>(j, "commits"@)
        &&& has::<Link>(j, "statuses"@)
    }

    open spec fn describes(&self, j: JsonView) -> bool {
        &&& holds(j, "self"@, self.this)
        &&& holds(j, "html"@, self.html)
        &&& holds(j, "issue"@, self.issue)
        &&& holds(j, "comments"@, self.comments)
        &&& holds(j, "review_comments"@, self.review_comments)
        &&& holds(j, "review_comment"@, self.review_comment)
        &&& holds(j, "commits"@, self.commits)
        &&& holds(j, "statuses"@, self.statuses)
    }

    open spec fn mismatch(j: JsonView) -> bool {
        !(j is Object)
    }

    fn from_json(j: &Json) -> (r: Result<PullRequestLinks, DecodeError>) {
        if !j.is_object() {
            return Err(DecodeError::Mismatch);
        }
        let this = required(j, "self")?;
        let html = required(j, "html")?;
        let issue = required(j, "issue")?;
        let comments = required(j, "comments")?;
        let review_comments = required(j, "review_comments")?;
        let review_comment = required(j, "review_comment")?;
        let commits = required(j, "commits")?;
        let statuses = required(j, "statuses")?;
        Ok(PullRequestLinks {
            this,
            html,
            issue,
            comments,
            review_comments,
            review_comment,
            commits,
            statuses,
        })
    }
}

/// The links of a pull request review.
#[derive(Debug)]
pub struct ReviewLinks {
    pub html: Link,
    pub pull_request: Link,
}

impl Record for ReviewLinks {
    open spec fn accepts(j: JsonView) -> bool {
        &&& j is Object
        &&& has::<Link>(j, "html"@)
        &&& has::<Link>(j, "pull_request"@)
    }

    open spec fn describes(&self, j: JsonView) -> bool {
        &&& holds(j, "html"@, self.html)
        &&& holds(j, "pull_request"@, self.pull_request)
    }

    open spec fn mismatch(j: JsonView) -> bool {
        !(j is Object)
    }

    fn from_json(j: &Json) -> (r: Result<ReviewLinks, DecodeError>) {
        if !j.is_object() {
            return Err(DecodeError::Mismatch);
        }
        let html = required(j, "html")?;
        let pull_request = required(j, "pull_request")?;
        Ok(ReviewLinks {
            html,
            pull_request,
        })
    }
}

/// The links of a review comment.
#[derive(Debug)]
pub struct ReviewCommentLinks {
    pub this: Link,
    pub html: Link,
    pub pull_request: Link,
}

impl Record for ReviewCommentLinks {
    open spec fn accepts(j: JsonView) -> bool {
        &&& j is Object
        &&& has::<Link>(j, "self"@)
        &&& has::<Link>(j, "html"@)
        &&& has::<Link>(j, "pull_request"@)
    }

    open spec fn describes(&self, j: JsonView) -> bool {
        &&& holds(j, "self"@, self.this)
        &&& holds(j, "html"@, self.html)
        &&& holds(j, "pull_request"@, self.pull_request)
    }

    open spec fn mismatch(j: JsonView) -> bool {
        !(j is Object)
    }

    fn from_json(j: &Json) -> (r: Result<ReviewCommentLinks, DecodeError>) {
        if !j.is_object() {
            return Err(DecodeError::Mismatch);
        }
        let this = required(j, "self")?;
        let html = required(j, "html")?;
        let pull_request = required(j, "pull_request")?;
        Ok(ReviewCommentLinks {
            this,
            html,
            pull_request,
        })
    }
}

/// One side of a pull request: a branch at a commit in a repository.
#[derive(Debug)]
pub struct Ref {
    pub label: String,
    pub refer: String,
    pub sha: String,
    pub user: Actor,
    pub repo: Repository,
}

impl Record for Ref {
    open spec fn accepts(j: JsonView) -> bool {
        &&& j is Object
        &&& has::<String>(j, "label"@)
        &&& has::<String>(j, "ref"@)
        &&& has::<String>(j, "sha"@)
        &&& has::<Actor>(j, "user"@)
        &&& has::<Repository>(j, "repo"@)
    }

    open spec fn describes(&self, j: JsonView) -> bool {
        &&& holds(j, "label"@, self.label)
        &&& holds(j, "ref"@, self.refer)
        &&& holds(j, "sha"@, self.sha)
        &&& holds(j, "user"@, self.user)
        &&& holds(j, "repo"@, self.repo)
    }

    open spec fn mismatch(j: JsonView) -> bool {
        !(j is Object)
    }

    fn from_json(j: &Json) -> (r: Result<Ref, DecodeError>) {
        if !j.is_object() {
            return Err(DecodeError::Mismatch);
        }
        let label = required(j, "label")?;
        let refer = required(j, "ref")?;
        let sha = required(j, "sha")?;
        let user = required(j, "user")?;
        let repo = required(j, "repo")?;
        Ok(Ref {
            label,
            refer,
            sha,
            user,
            repo,
        })
    }
}

/// A review of a pull request.
#[derive(Debug)]
pub struct Review {
    pub id: i64,
    pub node_id: String,
    pub author_association: String,
    pub user: Actor,
    pub body: Option<String>,
    pub commit_id: String,
    pub submitted_at: Timestamp,
    pub state: String,
    pub html_url: String,
    pub pull_request_url: String,
    pub _links: ReviewLinks,
}

impl Record for Review {
    open spec fn accepts(j: JsonView) -> bool {
        &&& j is Object
        &&& has::<i64>(j, "id"@)
        &&& has::<String>(j, "node_id"@)
        &&& has::<String>(j, "author_association"@)
        &&& has::<Actor>(j, "user"@)
        &&& may_have::<String>(j, "body"@)
        &&& has::<String>(j, "commit_id"@)
        &&& has::<Timestamp>(j, "submitted_at"@)
        &&& has::<String>(j, "state"@)
        &&& has::<String>(j, "html_url"@)
        &&& has::<String>(j, "pull_request_url"@)
        &&& has::<ReviewLinks>(j, "_links"@)
    }

    open spec fn describes(&self, j: JsonView) -> bool {
        &&& holds(j, "id"@, self.id)
        &&& holds(j, "node_id"@, self.node_id)
        &&& holds(j, "author_association"@, self.author_association)
        &&& holds(j, "user"@, self.user)
        &&& may_hold(j, "body"@, self.body)
        &&& holds(j, "commit_id"@, self.commit_id)
        &&& holds(j, "submitted_at"@, self.submitted_at)
        &&& holds(j, "state"@, self.state)
        &&& holds(j, "html_url"@, self.html_url)
        &&& holds(j, "pull_request_url"@, self.pull_request_url)
        &&& holds(j, "_links"@, self._links)
    }

    open spec fn mismatch(j: JsonView) -> bool {
        !(j is Object)
    }

    fn from_json(j: &Json) -> (r: Result<Review, DecodeError>) {
        if !j.is_object() {
            return Err(DecodeError::Mismatch);
        }
        let id = required(j, "id")?;
        let node_id = required(j, "node_id")?;
        let author_association = required(j, "author_association")?;
        let user = required(j, "user")?;
        let body = optional(j, "body")?;
        let commit_id = required(j, "commit_id")?;
        let submitted_at = required(j, "submitted_at")?;
        let state = required(j, "state")?;
        let html_url = required(j, "html_url")?;
        let pull_request_url = required(j, "pull_request_url")?;
        let _links = required(j, "_links")?;
        Ok(Review {
            id,
            node_id,
            author_association,
            user,
            body,
            commit_id,
            submitted_at,
            state,
            html_url,
            pull_request_url,
            _links,
        })
    }
}

/// A check run of a check suite.
#[derive(Debug)]
pub struct CheckRun {
    pub id: i64,
    pub node_id: Option<String>,
    pub name: String,
    pub head_sha: String,
    pub status: String,
    pub conclusion: Option<String>,
    pub url: String,
    pub html_url: String,
    pub started_at: String,
    pub completed_at: Option<String>,
    pub output: CheckRunOutput,
    pub check_suite: CheckSuite,
    pub app: App,
    pub pull_requests: Vec<CheckRunPullRequest>,
}

impl Record for CheckRun {
    open spec fn accepts(j: JsonView) -> bool {
        &&& j is Object
        &&& has::<i64>(j, "id"@)
        &&& may_have::<String>(j, "node_id"@)
        &&& has::<String>(j, "name"@)
        &&& has::<String>(j, "head_sha"@)
        &&& has::<String>(j, "status"@)
        &&& may_have::<String>(j, "conclusion"@)
        &&& has::<String>(j, "url"@)
        &&& has::<String>(j, "html_url"@)
        &&& has::<String>(j, "started_at"@)
        &&& may_have::<String>(j, "completed_at"@)
        &&& has::<CheckRunOutput>(j, "output"@)
        &&& has::<CheckSuite>(j, "check_suite"@)
        &&& has::<App>(j, "app"@)
        &&& has::<Vec<CheckRunPullRequest>>(j, "pull_requests"@)
    }

    open spec fn describes(&self, j: JsonView) -> bool {
        &&& holds(j, "id"@, self.id)
        &&& may_hold(j, "node_id"@, self.node_id)
        &&& holds(j, "name"@, self.name)
        &&& holds(j, "head_sha"@, self.head_sha)
        &&& holds(j, "status"@, self.status)
        &&& may_hold(j, "conclusion"@, self.conclusion)
        &&& holds(j, "url"@, self.url)
        &&& holds(j, "html_url"@, self.html_url)
        &&& holds(j, "started_at"@, self.started_at)
        &&& may_hold(j, "completed_at"@, self.completed_at)
        &&& holds(j, "output"@, self.output)
        &&& holds(j, "check_suite"@, self.check_suite)
        &&& holds(j, "app"@, self.app)
        &&& holds(j, "pull_requests"@, self.pull_requests)
    }

    open spec fn mismatch(j: JsonView) -> bool {
        !(j is Object)
    }

    fn from_json(j: &Json) -> (r: Result<CheckRun, DecodeError>) {
        if !j.is_object() {
            return Err(DecodeError::Mismatch);
        }
        let id = required(j, "id")?;
        let node_id = optional(j, "node_id")?;
        let name = required(j, "name")?;
        let head_sha = required(j, "head_sha")?;
        let status = required(j, "status")?;
        let conclusion = optional(j, "conclusion")?;
        let url = required(j, "url")?;
        let html_url = required(j, "html_url")?;
        let started_at = required(j, "started_at")?;
        let completed_at = optional(j, "completed_at")?;
        let output = required(j, "output")?;
        let check_suite = required(j, "check_suite")?;
        let app = required(j, "app")?;
        let pull_requests = required(j, "pull_requests")?;
        Ok(CheckRun {
            id,
            node_id,
            name,
            head_sha,
            status,
            conclusion,
            url,
            html_url,
            started_at,
            completed_at,
            output,
            check_suite,
            app,
            pull_requests,
        })
    }
}

/// What a check run reports.
#[derive(Debug)]
pub struct CheckRunOutput {
    pub title: Option<String>,
    pub summary: Option<String>,
    pub text: Option<String>,
    pub annotations_count: i64,
    pub annotations_url: String,
}

impl Record for CheckRunOutput {
    open spec fn accepts(j: JsonView) -> bool {
        &&& j is Object
        &&& may_have::<String>(j, "title"@)
        &&& may_have::<String>(j, "summary"@)
        &&& may_have::<String>(j, "text"@)
        &&& has::<i64>(j, "annotations_count"@)
        &&& has::<String>(j, "annotations_url"@)
    }

    open spec fn describes(&self, j: JsonView) -> bool {
        &&& may_hold(j, "title"@, self.title)
        &&& may_hold(j, "summary"@, self.summary)
        &&& may_hold(j, "text"@, self.text)
        &&& holds(j, "annotations_count"@, self.annotations_count)
        &&& holds(j, "annotations_url"@, self.annotations_url)
    }

    open spec fn mismatch(j: JsonView) -> bool {
        !(j is Object)
    }

    fn from_json(j: &Json) -> (r: Result<CheckRunOutput, DecodeError>) {
        if !j.is_object() {
            return Err(DecodeError::Mismatch);
        }
        let title = optional(j, "title")?;
        let summary = optional(j, "summary")?;
        let text = optional(j, "text")?;
        let annotations_count = required(j, "annotations_count")?;
        let annotations_url = required(j, "annotations_url")?;
        Ok(CheckRunOutput {
            title,
            summary,
            text,
            annotations_count,
            annotations_url,
        })
    }
}

/// A suite of check runs for one commit.
#[derive(Debug)]
pub struct CheckSuite {
    pub id: i64,
    pub head_branch: String,
    pub head_sha: String,
    pub status: String,
    pub conclusion: Option<String>,
    pub url: String,
    pub before: String,
    pub after: String,
    pub pull_requests: Vec<CheckRunPullRequest>,
    pub app: App,
    pub created_at: Timestamp,
    pub updated_at: Timestamp,
}

impl Record for CheckSuite {
    open spec fn accepts(j: JsonView) -> bool {
        &&& j is Object
        &&& has::<i64>(j, "id"@)
        &&& has::<String>(j, "head_branch"@)
        &&& has::<String>(j, "head_sha"@)
        &&& has::<String>(j, "status"@)
        &&& may_have::<String>(j, "conclusion"@)
        &&& has::<String>(j, "url"@)
        &&& has::<String>(j, "before"@)
        &&& has::<String>(j, "after"@)
        &&& has::<Vec<CheckRunPullRequest>>(j, "pull_requests"@)
        &&& has::<App>(j, "app"@)
        &&& has::<Timestamp>(j, "created_at"@)
        &&& has::<Timestamp>(j, "updated_at"@)
    }

    open spec fn describes(&self, j: JsonView) -> bool {
        &&& holds(j, "id"@, self.id)
        &&& holds(j, "head_branch"@, self.head_branch)
        &&& holds(j, "head_sha"@, self.head_sha)
        &&& holds(j, "status"@, self.status)
        &&& may_hold(j, "conclusion"@, self.conclusion)
        &&& holds(j, "url"@, self.url)
        &&& holds(j, "before"@, self.before)
        &&& holds(j, "after"@, self.after)
        &&& holds(j, "pull_requests"@, self.pull_requests)
        &&& holds(j, "app"@, self.app)
        &&& holds(j, "created_at"@, self.created_at)
        &&& holds(j, "updated_at"@, self.updated_at)
    }

    open spec fn mismatch(j: JsonView) -> bool {
        !(j is Object)
    }

    fn from_json(j: &Json) -> (r: Result<CheckSuite, DecodeError>) {
        if !j.is_object() {
            return Err(DecodeError::Mismatch);
        }
        let id = required(j, "id")?;
        let head_branch = required(j, "head_branch")?;
        let head_sha = required(j, "head_sha")?;
        let status = required(j, "status")?;
        let conclusion = optional(j, "conclusion")?;
        let url = required(j, "url")?;
        let before = required(j, "before")?;
        let after = required(j, "after")?;
        let pull_requests = required(j, "pull_requests")?;
        let app = required(j, "app")?;
        let created_at = required(j, "created_at")?;
        let updated_at = required(j, "updated_at")?;
        Ok(CheckSuite {
            id,
            head_branch,
            head_sha,
            status,
            conclusion,
            url,
            before,
            after,
            pull_requests,
            app,
            created_at,
            updated_at,
        })
    }
}

/// A GitHub App.
#[derive(Debug)]
pub struct App {
    pub id: i64,
    pub node_id: String,
    pub owner: Actor,
    pub name: String,
    pub description: Option<String>,
    pub external_url: String,
    pub html_url: String,
    pub created_at: String,
    pub updated_at: String,
}

impl Record for App {
    open spec fn accepts(j: JsonView) -> bool {
        &&& j is Object
        &&& has::<i64>(j, "id"@)
        &&& has::<String>(j, "node_id"@)
        &&& has::<Actor>(j, "owner"@)
        &&& has::<String>(j, "name"@)
        &&& may_have::<String>(j, "description"@)
        &&& has::<String>(j, "external_url"@)
        &&& has::<String>(j, "html_url"@)
        &&& has::<String>(j, "created_at"@)
        &&& has::<String>(j, "updated_at"@)
    }

    open spec fn describes(&self, j: JsonView) -> bool {
        &&& holds(j, "id"@, self.id)
        &&& holds(j, "node_id"@, self.node_id)
        &&& holds(j, "owner"@, self.owner)
        &&& holds(j, "name"@, self.name)
        &&& may_hold(j, "description"@, self.description)
        &&& holds(j, "external_url"@, self.external_url)
        &&& holds(j, "html_url"@, self.html_url)
        &&& holds(j, "created_at"@, self.created_at)
        &&& holds(j, "updated_at"@, self.updated_at)
    }

    open spec fn mismatch(j: JsonView) -> bool {
        !(j is Object)
    }

    fn from_json(j: &Json) -> (r: Result<App, DecodeError>) {
        if !j.is_object() {
            return Err(DecodeError::Mismatch);
        }
        let id = required(j, "id")?;
        let node_id = required(j, "node_id")?;
        let owner = required(j, "owner")?;
        let name = required(j, "name")?;
        let description = optional(j, "description")?;
        let external_url = required(j, "external_url")?;
        let html_url = required(j, "html_url")?;
        let created_at = required(j, "created_at")?;
        let updated_at = required(j, "updated_at")?;
        Ok(App {
            id,
            node_id,
            owner,
            name,
            description,
            external_url,
            html_url,
            created_at,
            updated_at,
        })
    }
}

/// A pull request that a check run belongs to.
#[derive(Debug)]
pub struct CheckRunPullRequest {
    pub id: i64,
    pub url: String,
    pub number: i64,
    pub head: CheckRunPullRequestRef,
    pub base: CheckRunPullRequestRef,
}

impl Record for CheckRunPullRequest {
    open spec fn accepts(j: JsonView) -> bool {
        &&& j is Object
        &&& has::<i64>(j, "id"@)
        &&& has::<String>(j, "url"@)
        &&& has::<i64>(j, "number"@)
        &&& has::<CheckRunPullRequestRef>(j, "head"@)
        &&& has::<CheckRunPullRequestRef>(j, "base"@)
    }

    open spec fn describes(&self, j: JsonView) -> bool {
        &&& holds(j, "id"@, self.id)
        &&& holds(j, "url"@, self.url)
        &&& holds(j, "number"@, self.number)
        &&& holds(j, "head"@, self.head)
        &&& holds(j, "base"@, self.base)
    }

    open spec fn mismatch(j: JsonView) -> bool {
        !(j is Object)
    }

    fn from_json(j: &Json) -> (r: Result<CheckRunPullRequest, DecodeError>) {
        if !j.is_object() {
            return Err(DecodeError::Mismatch);
        }
        let id = required(j, "id")?;
        let url = required(j, "url")?;
        let number = required(j, "number")?;
        let head = required(j, "head")?;
        let base = required(j, "base")?;
        Ok(CheckRunPullRequest {
            id,
            url,
            number,
            head,
            base,
        })
    }
}

/// One side of a pull request as a check run names it.
#[derive(Debug)]
pub struct CheckRunPullRequestRef {
    pub refer: String,
    pub sha: String,
    pub repo: RepoRef,
}

impl Record for CheckRunPullRequestRef {
    open spec fn accepts(j: JsonView) -> bool {
        &&& j is Object
        &&& has::<String>(j, "ref"@)
        &&& has::<String>(j, "sha"@)
        &&& has::<RepoRef>(j, "repo"@)
    }

    open spec fn describes(&self, j: JsonView) -> bool {
        &&& holds(j, "ref"@, self.refer)
        &&& holds(j, "sha"@, self.sha)
        &&& holds(j, "repo"@, self.repo)
    }

    open spec fn mismatch(j: JsonView) -> bool {
        !(j is Object)
    }

    fn from_json(j: &Json) -> (r: Result<CheckRunPullRequestRef, DecodeError>) {
        if !j.is_object() {
            return Err(DecodeError::Mismatch);
        }
        let refer = required(j, "ref")?;
        let sha = required(j, "sha")?;
        let repo = required(j, "repo")?;
        Ok(CheckRunPullRequestRef {
            refer,
            sha,
            repo,
        })
    }
}

/// A repository as a check run names it.
#[derive(Debug)]
pub struct RepoRef {
    pub id: i64,
    pub url: String,
    pub name: String,
}

impl Record for RepoRef {
    open spec fn accepts(j: JsonView) -> bool {
        &&& j is Object
        &&& has::<i64>(j, "id"@)
        &&& has::<String>(j, "url"@)
        &&& has::<String>(j, "name"@)
    }

    open spec fn describes(&self, j: JsonView) -> bool {
        &&& holds(j, "id"@, self.id)
        &&& holds(j, "url"@, self.url)
        &&& holds(j, "name"@, self.name)
    }

    open spec fn mismatch(j: JsonView) -> bool {
        !(j is Object)
    }

    fn from_json(j: &Json) -> (r: Result<RepoRef, DecodeError>) {
        if !j.is_object() {
            return Err(DecodeError::Mismatch);
        }
        let id = required(j, "id")?;
        let url = required(j, "url")?;
        let name = required(j, "name")?;
        Ok(RepoRef {
            id,
            url,
            name,
        })
    }
}

/// A wiki page that was created or updated.
#[derive(Debug)]
pub struct Page {
    pub page_name: String,
    pub title: String,
    pub summary: Option<String>,
    pub action: String,
    pub sha: String,
    pub html_url: String,
}

impl Record for Page {
    open spec fn accepts(j: JsonView) -> bool {
        &&& j is Object
        &&& has::<String>(j, "page_name"@)
        &&& has::<String>(j, "title"@)
        &&& may_have::<String>(j, "summary"@)
        &&& has::<String>(j, "action"@)
        &&& has::<String>(j, "sha"@)
        &&& has::<String>(j, "html_url"@)
    }

    open spec fn describes(&self, j: JsonView) -> bool {
        &&& holds(j, "page_name"@, self.page_name)
        &&& holds(j, "title"@, self.title)
        &&& may_hold(j, "summary"@, self.summary)
        &&& holds(j, "action"@, self.action)
        &&& holds(j, "sha"@, self.sha)
        &&& holds(j, "html_url"@, self.html_url)
    }

    open spec fn mismatch(j: JsonView) -> bool {
        !(j is Object)
    }

    fn from_json(j: &Json) -> (r: Result<Page, DecodeError>) {
        if !j.is_object() {
            return Err(DecodeError::Mismatch);
        }
        let page_name = required(j, "page_name")?;
        let title = required(j, "title")?;
        let summary = optional(j, "summary")?;
        let action = required(j, "action")?;
        let sha = required(j, "sha")?;
        let html_url = required(j, "html_url")?;
        Ok(Page {
            page_name,
            title,
            summary,
            action,
            sha,
            html_url,
        })
    }
}

/// An organization account.
#[derive(Debug)]
pub struct Organization {
    pub login: String,
    pub id: i64,
    pub node_id: String,
    pub url: String,
    pub repos_url: String,
    pub events_url: String,
    pub hooks_url: String,
    pub issues_url: String,
    pub members_url: String,
    pub public_members_url: String,
    pub avatar_url: String,
    pub description: String,
}

impl Record for Organization {
    open spec fn accepts(j: JsonView) -> bool {
        &&& j is Object
        &&& has::<String>(j, "login"@)
        &&& has::<i64>(j, "id"@)
        &&& has::<String>(j, "node_id"@)
        &&& has::<String>(j, "url"@)
        &&& has::<String>(j, "repos_url"@)
        &&& has::<String>(j, "events_url"@)
        &&& has::<String>(j, "hooks_url"@)
        &&& has::<String>(j, "issues_url"@)
        &&& has::<String>(j, "members_url"@)
        &&& has::<String>(j, "public_members_url"@)
        &&& has::<String>(j, "avatar_url"@)
        &&& has::<String>(j, "description"@)
    }

    open spec fn describes(&self, j: JsonView) -> bool {
        &&& holds(j, "login"@, self.login)
        &&& holds(j, "id"@, self.id)
        &&& holds(j, "node_id"@, self.node_id)
        &&& holds(j, "url"@, self.url)
        &&& holds(j, "repos_url"@, self.repos_url)
        &&& holds(j, "events_url"@, self.events_url)
        &&& holds(j, "hooks_url"@, self.hooks_url)
        &&& holds(j, "issues_url"@, self.issues_url)
        &&& holds(j, "members_url"@, self.members_url)
        &&& holds(j, "public_members_url"@, self.public_members_url)
        &&& holds(j, "avatar_url"@, self.avatar_url)
        &&& holds(j, "description"@, self.description)
    }

    open spec fn mismatch(j: JsonView) -> bool {
        !(j is Object)
    }

    fn from_json(j: &Json) -> (r: Result<Organization, DecodeError>) {
        if !j.is_object() {
            return Err(DecodeError::Mismatch);
        }
        let login = required(j, "login")?;
        let id = required(j, "id")?;
        let node_id = required(j, "node_id")?;
        let url = required(j, "url")?;
        let repos_url = required(j, "repos_url")?;
        let events_url = required(j, "events_url")?;
        let hooks_url = required(j, "hooks_url")?;
        let issues_url = required(j, "issues_url")?;
        let members_url = required(j, "members_url")?;
        let public_members_url = required(j, "public_members_url")?;
        let avatar_url = required(j, "avatar_url")?;
        let description = required(j, "description")?;
        Ok(Organization {
            login,
            id,
            node_id,
            url,
            repos_url,
            events_url,
            hooks_url,
            issues_url,
            members_url,
            public_members_url,
            avatar_url,
            description,
        })
    }
}

/// A deploy key of a repository.
#[derive(Debug)]
pub struct DeployKey {
    pub id: i64,
    pub key: String,
    pub url: String,
    pub title: String,
    pub verified: bool,
    pub created_at: Timestamp,
    pub read_only: bool,
}

impl Record for DeployKey {
    open spec fn accepts(j: JsonView) -> bool {
        &&& j is Object
        &&& has::<i64>(j, "id"@)
        &&& has::<String>(j, "key"@)
        &&& has::<String>(j, "url"@)
        &&& has::<String>(j, "title"@)
        &&& has::<bool>(j, "verified"@)
        &&& has::<Timestamp>(j, "created_at"@)
        &&& has::<bool>(j, "read_only"@)
    }

    open spec fn describes(&self, j: JsonView) -> bool {
        &&& holds(j, "id"@, self.id)
        &&& holds(j, "key"@, self.key)
        &&& holds(j, "url"@, self.url)
        &&& holds(j, "title"@, self.title)
        &&& holds(j, "verified"@, self.verified)
        &&& holds(j, "created_at"@, self.created_at)
        &&& holds(j, "read_only"@, self.read_only)
    }

    open spec fn mismatch(j: JsonView) -> bool {
        !(j is Object)
    }

    fn from_json(j: &Json) -> (r: Result<DeployKey, DecodeError>) {
        if !j.is_object() {
            return Err(DecodeError::Mismatch);
        }
        let id = required(j, "id")?;
        let key = required(j, "key")?;
        let url = required(j, "url")?;
        let title = required(j, "title")?;
        let verified = required(j, "verified")?;
        let created_at = required(j, "created_at")?;
        let read_only = required(j, "read_only")?;
        Ok(DeployKey {
            id,
            key,
            url,
            title,
            verified,
            created_at,
            read_only,
        })
    }
}

/// A deployment of a commit to an environment.
#[derive(Debug)]
pub struct Deployment {
    pub url: String,
    pub id: i64,
    pub node_id: String,
    pub sha: String,
    pub refer: String,
    pub task: String,
    pub payload: Json,
    pub original_environment: String,
    pub environment: String,
    pub transient_environment: Option<bool>,
    pub production_environment: Option<bool>,
    pub description: Option<String>,
    pub creator: Actor,
    pub created_at: Timestamp,
    pub updated_at: Timestamp,
    pub statuses_url: String,
    pub repository_url: String,
}

impl Record for Deployment {
    open spec fn accepts(j: JsonView) -> bool {
        &&& j is Object
        &&& has::<String>(j, "url"@)
        &&& has::<i64>(j, "id"@)
        &&& has::<String>(j, "node_id"@)
        &&& has::<String>(j, "sha"@)
        &&& has::<String>(j, "ref"@)
        &&& has::<String>(j, "task"@)
        &&& has::<Json>(j, "payload"@)
        &&& has::<String>(j, "original_environment"@)
        &&& has::<String>(j, "environment"@)
        &&& may_have::<bool>(j, "transient_environment"@)
        &&& may_have::<bool>(j, "production_environment"@)
        &&& may_have::<String>(j, "description"@)
        &&& has::<Actor>(j, "creator"@)
        &&& has::<Timestamp>(j, "created_at"@)
        &&& has::<Timestamp>(j, "updated_at"@)
        &&& has::<String>(j, "statuses_url"@)
        &&& has::<String>(j, "repository_url"@)
    }

    open spec fn describes(&self, j: JsonView) -> bool {
        &&& holds(j, "url"@, self.url)
        &&& holds(j, "id"@, self.id)
        &&& holds(j, "node_id"@, self.node_id)
        &&& holds(j, "sha"@, self.sha)
        &&& holds(j, "ref"@, self.refer)
        &&& holds(j, "task"@, self.task)
        &&& holds(j, "payload"@, self.payload)
        &&& holds(j, "original_environment"@, self.original_environment)
        &&& holds(j, "environment"@, self.environment)
        &&& may_hold(j, "transient_environment"@, self.transient_environment)
        &&& may_hold(j, "production_environment"@, self.production_environment)
        &&& may_hold(j, "description"@, self.description)
        &&& holds(j, "creator"@, self.creator)
        &&& holds(j, "created_at"@, self.created_at)
        &&& holds(j, "updated_at"@, self.updated_at)
        &&& holds(j, "statuses_url"@, self.statuses_url)
        &&& holds(j, "repository_url"@, self.repository_url)
    }

    open spec fn mismatch(j: JsonView) -> bool {
        !(j is Object)
    }

    fn from_json(j: &Json) -> (r: Result<Deployment, DecodeError>) {
        if !j.is_object() {
            return Err(DecodeError::Mismatch);
        }
        let url = required(j, "url")?;
        let id = required(j, "id")?;
        let node_id = required(j, "node_id")?;
        let sha = required(j, "sha")?;
        let refer = required(j, "ref")?;
        let task = required(j, "task")?;
        let payload = required(j, "payload")?;
        let original_environment = required(j, "original_environment")?;
        let environment = required(j, "environment")?;
        let transient_environment = optional(j, "transient_environment")?;
        let production_environment = optional(j, "production_environment")?;
        let description = optional(j, "description")?;
        let creator = required(j, "creator")?;
        let created_at = required(j, "created_at")?;
        let updated_at = required(j, "updated_at")?;
        let statuses_url = required(j, "statuses_url")?;
        let repository_url = required(j, "repository_url")?;
        Ok(Deployment {
            url,
            id,
            node_id,
            sha,
            refer,
            task,
            payload,
            original_environment,
            environment,
            transient_environment,
            production_environment,
            description,
            creator,
            created_at,
            updated_at,
            statuses_url,
            repository_url,
        })
    }
}

/// A status reported for a deployment.
#[derive(Debug)]
pub struct DeploymentStatus {
    pub url: String,
    pub id: i64,
    pub node_id: String,
    pub state: String,
    pub creator: Actor,
    pub created_at: Timestamp,
    pub updated_at: Timestamp,
    pub description: String,
    pub environment: String,
    pub environment_url: Option<String>,
    pub log_url: Option<String>,
    pub target_url: String,
    pub deployment_url: String,
    pub repository_url: String,
}

impl Record for DeploymentStatus {
    open spec fn accepts(j: JsonView) -> bool {
        &&& j is Object
        &&& has::<String>(j, "url"@)
        &&& has::<i64>(j, "id"@)
        &&& has::<String>(j, "node_id"@)
        &&& has::<String>(j, "state"@)
        &&& has::<Actor>(j, "creator"@)
        &&& has::<Timestamp>(j, "created_at"@)
        &&& has::<Timestamp>(j, "updated_at"@)
        &&& has::<String>(j, "description"@)
        &&& has::<String>(j, "environment"@)
        &&& may_have::<String>(j, "environment_url"@)
        &&& may_have::<String>(j, "log_url"@)
        &&& has::<String>(j, "target_url"@)
        &&& has::<String>(j, "deployment_url"@)
        &&& has::<String>(j, "repository_url"@)
    }

    open spec fn describes(&self, j: JsonView) -> bool {
        &&& holds(j, "url"@, self.url)
        &&& holds(j, "id"@, self.id)
        &&& holds(j, "node_id"@, self.node_id)
        &&& holds(j, "state"@, self.state)
        &&& holds(j, "creator"@, self.creator)
        &&& holds(j, "created_at"@, self.created_at)
        &&& holds(j, "updated_at"@, self.updated_at)
        &&& holds(j, "description"@, self.description)
        &&& holds(j, "environment"@, self.environment)
        &&& may_hold(j, "environment_url"@, self.environment_url)
        &&& may_hold(j, "log_url"@, self.log_url)
        &&& holds(j, "target_url"@, self.target_url)
        &&& holds(j, "deployment_url"@, self.deployment_url)
        &&& holds(j, "repository_url"@, self.repository_url)
    }

    open spec fn mismatch(j: JsonView) -> bool {
        !(j is Object)
    }

    fn from_json(j: &Json) -> (r: Result<DeploymentStatus, DecodeError>) {
        if !j.is_object() {
            return Err(DecodeError::Mismatch);
        }
        let url = required(j, "url")?;
        let id = required(j, "id")?;
        let node_id = required(j, "node_id")?;
        let state = required(j, "state")?;
        let creator = required(j, "creator")?;
        let created_at = required(j, "created_at")?;
        let updated_at = required(j, "updated_at")?;
        let description = required(j, "description")?;
        let environment = required(j, "environment")?;
        let environment_url = optional(j, "environment_url")?;
        let log_url = optional(j, "log_url")?;
        let target_url = required(j, "target_url")?;
        let deployment_url = required(j, "deployment_url")?;
        let repository_url = required(j, "repository_url")?;
        Ok(DeploymentStatus {
            url,
            id,
            node_id,
            state,
            creator,
            created_at,
            updated_at,
            description,
            environment,
            environment_url,
            log_url,
            target_url,
            deployment_url,
            repository_url,
        })
    }
}

/// An installation of a GitHub App.
#[derive(Debug)]
pub struct Installation {
    pub id: i64,
    pub account: Actor,
    pub repository_selection: String,
    pub access_tokens_url: String,
    pub repositories_url: String,
    pub html_url: String,
    pub app_id: i64,
    pub target_id: i64,
    pub target_type: String,
    pub permissions: InstallationPermissions,
    pub events: Vec<String>,
    pub single_file_name: Option<String>,
}

impl Record for Installation {
    open spec fn accepts(j: JsonView) -> bool {
        &&& j is Object
        &&& has::<i64>(j, "id"@)
        &&& has::<Actor>(j, "account"@)
        &&& has::<String>(j, "repository_selection"@)
        &&& has::<String>(j, "access_tokens_url"@)
        &&& has::<String>(j, "repositories_url"@)
        &&& has::<String>(j, "html_url"@)
        &&& has::<i64>(j, "app_id"@)
        &&& has::<i64>(j, "target_id"@)
        &&& has::<String>(j, "target_type"@)
        &&& has::<InstallationPermissions>(j, "permissions"@)
        &&& has::<Vec<String>>(j, "events"@)
        &&& may_have::<String>(j, "single_file_name"@)
    }

    open spec fn describes(&self, j: JsonView) -> bool {
        &&& holds(j, "id"@, self.id)
        &&& holds(j, "account"@, self.account)
        &&& holds(j, "repository_selection"@, self.repository_selection)
        &&& holds(j, "access_tokens_url"@, self.access_tokens_url)
        &&& holds(j, "repositories_url"@, self.repositories_url)
        &&& holds(j, "html_url"@, self.html_url)
        &&& holds(j, "app_id"@, self.app_id)
        &&& holds(j, "target_id"@, self.target_id)
        &&& holds(j, "target_type"@, self.target_type)
        &&& holds(j, "permissions"@, self.permissions)
        &&& holds(j, "events"@, self.events)
        &&& may_hold(j, "single_file_name"@, self.single_file_name)
    }

    open spec fn mismatch(j: JsonView) -> bool {
        !(j is Object)
    }

    fn from_json(j: &Json) -> (r: Result<Installation, DecodeError>) {
        if !j.is_object() {
            return Err(DecodeError::Mismatch);
        }
        let id = required(j, "id")?;
        let account = required(j, "account")?;
        let repository_selection = required(j, "repository_selection")?;
        let access_tokens_url = required(j, "access_tokens_url")?;
        let repositories_url = required(j, "repositories_url")?;
        let html_url = required(j, "html_url")?;
        let app_id = required(j, "app_id")?;
        let target_id = required(j, "target_id")?;
        let target_type = required(j, "target_type")?;
        let permissions = required(j, "permissions")?;
        let events = required(j, "events")?;
        let single_file_name = optional(j, "single_file_name")?;
        Ok(Installation {
            id,
            account,
            repository_selection,
            access_tokens_url,
            repositories_url,
            html_url,
            app_id,
            target_id,
            target_type,
            permissions,
            events,
            single_file_name,
        })
    }
}

/// The permissions that an app installation holds, each absent where not granted.
#[derive(Debug)]
pub struct InstallationPermissions {
    pub actions: Option<String>,
    pub administration: Option<String>,
    pub checks: Option<String>,
    pub content_references: Option<String>,
    pub contents: Option<String>,
    pub deployments: Option<String>,
    pub discussions: Option<String>,
    pub emails: Option<String>,
    pub environments: Option<String>,
    pub issues: Option<String>,
    pub members: Option<String>,
    pub metadata: Option<String>,
    pub organization_administration: Option<String>,
    pub organization_events: Option<String>,
    pub organization_hooks: Option<String>,
    pub organization_packages: Option<String>,
    pub organization_plan: Option<String>,
    pub organization_projects: Option<String>,
    pub organization_secrets: Option<String>,
    pub organization_self_hosted_runners: Option<String>,
    pub organization_user_blocking: Option<String>,
    pub packages: Option<String>,
    pub pages: Option<String>,
    pub pull_requests: Option<String>,
    pub repository_hooks: Option<String>,
    pub repository_projects: Option<String>,
    pub secret_scanning_alerts: Option<String>,
    pub secrets: Option<String>,
    pub security_events: Option<String>,
    pub security_scanning_alert: Option<String>,
    pub single_file: Option<String>,
    pub statuses: Option<String>,
    pub team_discussions: Option<String>,
    pub vulnerability_alerts: Option<String>,
    pub workflows: Option<String>,
}

impl Record for InstallationPermissions {
    open spec fn accepts(j: JsonView) -> bool {
        &&& j is Object
        &&& may_have::<String>(j, "actions"@)
        &&& may_have::<String>(j, "administration"@)
        &&& may_have::<String>(j, "checks"@)
        &&& may_have::<String>(j, "content_references"@)
        &&& may_have::<String>(j, "contents"@)
        &&& may_have::<String>(j, "deployments"@)
        &&& may_have::<String>(j, "discussions"@)
        &&& may_have::<String>(j, "emails"@)
        &&& may_have::<String>(j, "environments"@)
        &&& may_have::<String>(j, "issues"@)
        &&& may_have::<String>(j, "members"@)
        &&& may_have::<String>(j, "metadata"@)
        &&& may_have::<String>(j, "organization_administration"@)
        &&& may_have::<String>(j, "organization_events"@)
        &&& may_have::<String>(j, "organization_hooks"@)
        &&& may_have::<String>(j, "organization_packages"@)
        &&& may_have::<String>(j, "organization_plan"@)
        &&& may_have::<String>(j, "organization_projects"@)
        &&& may_have::<String>(j, "organization_secrets"@)
        &&& may_have::<String>(j, "organization_self_hosted_runners"@)
        &&& may_have::<String>(j, "organization_user_blocking"@)
        &&& may_have::<String>(j, "packages"@)
        &&& may_have::<String>(j, "pages"@)
        &&& may_have::<String>(j, "pull_requests"@)
        &&& may_have::<String>(j, "repository_hooks"@)
        &&& may_have::<String>(j, "repository_projects"@)
        &&& may_have::<String>(j, "secret_scanning_alerts"@)
        &&& may_have::<String>(j, "secrets"@)
        &&& may_have::<String>(j, "security_events"@)
        &&& may_have::<String>(j, "security_scanning_alert"@)
        &&& may_have::<String>(j, "single_file"@)
        &&& may_have::<String>(j, "statuses"@)
        &&& may_have::<String>(j, "team_discussions"@)
        &&& may_have::<String>(j, "vulnerability_alerts"@)
        &&& may_have::<String>(j, "workflows"@)
    }

    open spec fn describes(&self, j: JsonView) -> bool {
        &&& may_hold(j, "actions"@, self.actions)
        &&& may_hold(j, "administration"@, self.administration)
        &&& may_hold(j, "checks"@, self.checks)
        &&& may_hold(j, "content_references"@, self.content_references)
        &&& may_hold(j, "contents"@, self.contents)
        &&& may_hold(j, "deployments"@, self.deployments)
        &&& may_hold(j, "discussions"@, self.discussions)
        &&& may_hold(j, "emails"@, self.emails)
        &&& may_hold(j, "environments"@, self.environments)
        &&& may_hold(j, "issues"@, self.issues)
        &&& may_hold(j, "members"@, self.members)
        &&& may_hold(j, "metadata"@, self.metadata)
        &&& may_hold(j, "organization_administration"@, self.organization_administration)
        &&& may_hold(j, "organization_events"@, self.organization_events)
        &&& may_hold(j, "organization_hooks"@, self.organization_hooks)
        &&& may_hold(j, "organization_packages"@, self.organization_packages)
        &&& may_hold(j, "organization_plan"@, self.organization_plan)
        &&& may_hold(j, "organization_projects"@, self.organization_projects)
        &&& may_hold(j, "organization_secrets"@, self.organization_secrets)
        &&& may_hold(j, "organization_self_hosted_runners"@, self.organization_self_hosted_runners)
        &&& may_hold(j, "organization_user_blocking"@, self.organization_user_blocking)
        &&& may_hold(j, "packages"@, self.packages)
        &&& may_hold(j, "pages"@, self.pages)
        &&& may_hold(j, "pull_requests"@, self.pull_requests)
        &&& may_hold(j, "repository_hooks"@, self.repository_hooks)
        &&& may_hold(j, "repository_projects"@, self.repository_projects)
        &&& may_hold(j, "secret_scanning_alerts"@, self.secret_scanning_alerts)
        &&& may_hold(j, "secrets"@, self.secrets)
        &&& may_hold(j, "security_events"@, self.security_events)
        &&& may_hold(j, "security_scanning_alert"@, self.security_scanning_alert)
        &&& may_hold(j, "single_file"@, self.single_file)
        &&& may_hold(j, "statuses"@, self.statuses)
        &&& may_hold(j, "team_discussions"@, self.team_discussions)
        &&& may_hold(j, "vulnerability_alerts"@, self.vulnerability_alerts)
        &&& may_hold(j, "workflows"@, self.workflows)
    }

    open spec fn mismatch(j: JsonView) -> bool {
        !(j is Object)
    }

    fn from_json(j: &Json) -> (r: Result<InstallationPermissions, DecodeError>) {
        if !j.is_object() {
            return Err(DecodeError::Mismatch);
        }
        let actions = optional(j, "actions")?;
        let administration = optional(j, "administration")?;
        let checks = optional(j, "checks")?;
        let content_references = optional(j, "content_references")?;
        let contents = optional(j, "contents")?;
        let deployments = optional(j, "deployments")?;
        let discussions = optional(j, "discussions")?;
        let emails = optional(j, "emails")?;
        let environments = optional(j, "environments")?;
        let issues = optional(j, "issues")?;
        let members = optional(j, "members")?;
        let metadata = optional(j, "metadata")?;
        let organization_administration = optional(j, "organization_administration")?;
        let organization_events = optional(j, "organization_events")?;
        let organization_hooks = optional(j, "organization_hooks")?;
        let organization_packages = optional(j, "organization_packages")?;
        let organization_plan = optional(j, "organization_plan")?;
        let organization_projects = optional(j, "organization_projects")?;
        let organization_secrets = optional(j, "organization_secrets")?;
        let organization_self_hosted_runners = optional(j, "organization_self_hosted_runners")?;
        let organization_user_blocking = optional(j, "organization_user_blocking")?;
        let packages = optional(j, "packages")?;
        let pages = optional(j, "pages")?;
        let pull_requests = optional(j, "pull_requests")?;
        let repository_hooks = optional(j, "repository_hooks")?;
        let repository_projects = optional(j, "repository_projects")?;
        let secret_scanning_alerts = optional(j, "secret_scanning_alerts")?;
        let secrets = optional(j, "secrets")?;
        let security_events = optional(j, "security_events")?;
        let security_scanning_alert = optional(j, "security_scanning_alert")?;
        let single_file = optional(j, "single_file")?;
        let statuses = optional(j, "statuses")?;
        let team_discussions = optional(j, "team_discussions")?;
        let vulnerability_alerts = optional(j, "vulnerability_alerts")?;
        let workflows = optional(j, "workflows")?;
        Ok(InstallationPermissions {
            actions,
            administration,
            checks,
            content_references,
            contents,
            deployments,
            discussions,
            emails,
            environments,
            issues,
            members,
            metadata,
            organization_administration,
            organization_events,
            organization_hooks,
            organization_packages,
            organization_plan,
            organization_projects,
            organization_secrets,
            organization_self_hosted_runners,
            organization_user_blocking,
            packages,
            pages,
            pull_requests,
            repository_hooks,
            repository_projects,
            secret_scanning_alerts,
            secrets,
            security_events,
            security_scanning_alert,
            single_file,
            statuses,
            team_discussions,
            vulnerability_alerts,
            workflows,
        })
    }
}

/// A repository that an app installation can reach.
#[derive(Debug)]
pub struct InstallationRepository {
    pub id: i64,
    pub node_id: String,
    pub name: String,
    pub full_name: String,
    pub private: bool,
}

impl Record for InstallationRepository {
    open spec fn accepts(j: JsonView) -> bool {
        &&& j is Object
        &&& has::<i64>(j, "id"@)
        &&& has::<String>(j, "node_id"@)
        &&& has::<String>(j, "name"@)
        &&& has::<String>(j, "full_name"@)
        &&& has::<bool>(j, "private"@)
    }

    open spec fn describes(&self, j: JsonView) -> bool {
        &&& holds(j, "id"@, self.id)
        &&& holds(j, "node_id"@, self.node_id)
        &&& holds(j, "name"@, self.name)
        &&& holds(j, "full_name"@, self.full_name)
        &&& holds(j, "private"@, self.private)
    }

    open spec fn mismatch(j: JsonView) -> bool {
        !(j is Object)
    }

    fn from_json(j: &Json) -> (r: Result<InstallationRepository, DecodeError>) {
        if !j.is_object() {
            return Err(DecodeError::Mismatch);
        }
        let id = required(j, "id")?;
        let node_id = required(j, "node_id")?;
        let name = required(j, "name")?;
        let full_name = required(j, "full_name")?;
        let private = required(j, "private")?;
        Ok(InstallationRepository {
            id,
            node_id,
            name,
            full_name,
            private,
        })
    }
}

/// A webhook configured on a repository or organization.
#[derive(Debug)]
pub struct Hook {
    pub id: i64,
    pub typ: String,
    pub name: String,
    pub active: bool,
    pub created_at: Timestamp,
    pub updated_at: Timestamp,
    pub events: Vec<String>,
    pub config: HookConfig,
}

impl Record for Hook {
    open spec fn accepts(j: JsonView) -> bool {
        &&& j is Object
        &&& has::<i64>(j, "id"@)
        &&& has::<String>(j, "type"@)
        &&& has::<String>(j, "name"@)
        &&& has::<bool>(j, "active"@)
        &&& has::<Timestamp>(j, "created_at"@)
        &&& has::<Timestamp>(j, "updated_at"@)
        &&& has::<Vec<String>>(j, "events"@)
        &&& has::<HookConfig>(j, "config"@)
    }

    open spec fn describes(&self, j: JsonView) -> bool {
        &&& holds(j, "id"@, self.id)
        &&& holds(j, "type"@, self.typ)
        &&& holds(j, "name"@, self.name)
        &&& holds(j, "active"@, self.active)
        &&& holds(j, "created_at"@, self.created_at)
        &&& holds(j, "updated_at"@, self.updated_at)
        &&& holds(j, "events"@, self.events)
        &&& holds(j, "config"@, self.config)
    }

    open spec fn mismatch(j: JsonView) -> bool {
        !(j is Object)
    }

    fn from_json(j: &Json) -> (r: Result<Hook, DecodeError>) {
        if !j.is_object() {
            return Err(DecodeError::Mismatch);
        }
        let id = required(j, "id")?;
        let typ = required(j, "type")?;
        let name = required(j, "name")?;
        let active = required(j, "active")?;
        let created_at = required(j, "created_at")?;
        let updated_at = required(j, "updated_at")?;
        let events = required(j, "events")?;
        let config = required(j, "config")?;
        Ok(Hook {
            id,
            typ,
            name,
            active,
            created_at,
            updated_at,
            events,
            config,
        })
    }
}

/// The delivery settings of a webhook.
#[derive(Debug)]
pub struct HookConfig {
    pub content_type: String,
    pub insecure_ssl: String,
    pub url: String,
    pub secret: String,
}

impl Record for HookConfig {
    open spec fn accepts(j: JsonView) -> bool {
        &&& j is Object
        &&& has::<String>(j, "content_type"@)
        &&& has::<String>(j, "insecure_ssl"@)
        &&& has::<String>(j, "url"@)
        &&& has::<String>(j, "secret"@)
    }

    open spec fn describes(&self, j: JsonView) -> bool {
        &&& holds(j, "content_type"@, self.content_type)
        &&& holds(j, "insecure_ssl"@, self.insecure_ssl)
        &&& holds(j, "url"@, self.url)
        &&& holds(j, "secret"@, self.secret)
    }

    open spec fn mismatch(j: JsonView) -> bool {
        !(j is Object)
    }

    fn from_json(j: &Json) -> (r: Result<HookConfig, DecodeError>) {
        if !j.is_object() {
            return Err(DecodeError::Mismatch);
        }
        let content_type = required(j, "content_type")?;
        let insecure_ssl = required(j, "insecure_ssl")?;
        let url = required(j, "url")?;
        let secret = required(j, "secret")?;
        Ok(HookConfig {
            content_type,
            insecure_ssl,
            url,
            secret,
        })
    }
}

/// An invitation to join an organization.
#[derive(Debug)]
pub struct Invitation {
    pub id: i64,
    pub node_id: String,
    pub login: String,
    pub email: Option<String>,
    pub role: String,
    pub inviter: Actor,
    pub team_count: i64,
    pub invitation_teams_url: String,
}

impl Record for Invitation {
    open spec fn accepts(j: JsonView) -> bool {
        &&& j is Object
        &&& has::<i64>(j, "id"@)
        &&& has::<String>(j, "node_id"@)
        &&& has::<String>(j, "login"@)
        &&& may_have::<String>(j, "email"@)
        &&& has::<String>(j, "role"@)
        &&& has::<Actor>(j, "inviter"@)
        &&& has::<i64>(j, "team_count"@)
        &&& has::<String>(j, "invitation_teams_url"@)
    }

    open spec fn describes(&self, j: JsonView) -> bool {
        &&& holds(j, "id"@, self.id)
        &&& holds(j, "node_id"@, self.node_id)
        &&& holds(j, "login"@, self.login)
        &&& may_hold(j, "email"@, self.email)
        &&& holds(j, "role"@, self.role)
        &&& holds(j, "inviter"@, self.inviter)
        &&& holds(j, "team_count"@, self.team_count)
        &&& holds(j, "invitation_teams_url"@, self.invitation_teams_url)
    }

    open spec fn mismatch(j: JsonView) -> bool {
        !(j is Object)
    }

    fn from_json(j: &Json) -> (r: Result<Invitation, DecodeError>) {
        if !j.is_object() {
            return Err(DecodeError::Mismatch);
        }
        let id = required(j, "id")?;
        let node_id = required(j, "node_id")?;
        let login = required(j, "login")?;
        let email = optional(j, "email")?;
        let role = required(j, "role")?;
        let inviter = required(j, "inviter")?;
        let team_count = required(j, "team_count")?;
        let invitation_teams_url = required(j, "invitation_teams_url")?;
        Ok(Invitation {
            id,
            node_id,
            login,
            email,
            role,
            inviter,
            team_count,
            invitation_teams_url,
        })
    }
}

/// A membership in an organization.
#[derive(Debug)]
pub struct Membership {
    pub url: String,
    pub state: String,
    pub role: String,
    pub organization_url: String,
    pub user: Actor,
}

impl Record for Membership {
    open spec fn accepts(j: JsonView) -> bool {
        &&& j is Object
        &&& has::<String>(j, "url"@)
        &&& has::<String>(j, "state"@)
        &&& has::<String>(j, "role"@)
        &&& has::<String>(j, "organization_url"@)
        &&& has::<Actor>(j, "user"@)
    }

    open spec fn describes(&self, j: JsonView) -> bool {
        &&& holds(j, "url"@, self.url)
        &&& holds(j, "state"@, self.state)
        &&& holds(j, "role"@, self.role)
        &&& holds(j, "organization_url"@, self.organization_url)
        &&& holds(j, "user"@, self.user)
    }

    open spec fn mismatch(j: JsonView) -> bool {
        !(j is Object)
    }

    fn from_json(j: &Json) -> (r: Result<Membership, DecodeError>) {
        if !j.is_object() {
            return Err(DecodeError::Mismatch);
        }
        let url = required(j, "url")?;
        let state = required(j, "state")?;
        let role = required(j, "role")?;
        let organization_url = required(j, "organization_url")?;
        let user = required(j, "user")?;
        Ok(Membership {
            url,
            state,
            role,
            organization_url,
            user,
        })
    }
}

/// A GitHub Pages build.
#[derive(Debug)]
pub struct PageBuild {
    pub url: String,
    pub status: String,
    pub error: PageBuildError,
    pub pusher: Actor,
    pub commit: Option<String>,
    pub duration: i64,
    pub created_at: Timestamp,
    pub updated_at: Timestamp,
}

impl Record for PageBuild {
    open spec fn accepts(j: JsonView) -> bool {
        &&& j is Object
        &&& has::<String>(j, "url"@)
        &&& has::<String>(j, "status"@)
        &&& has::<PageBuildError>(j, "error"@)
        &&& has::<Actor>(j, "pusher"@)
        &&& may_have::<String>(j, "commit"@)
        &&& has::<i64>(j, "duration"@)
        &&& has::<Timestamp>(j, "created_at"@)
        &&& has::<Timestamp>(j, "updated_at"@)
    }

    open spec fn describes(&self, j: JsonView) -> bool {
        &&& holds(j, "url"@, self.url)
        &&& holds(j, "status"@, self.status)
        &&& holds(j, "error"@, self.error)
        &&& holds(j, "pusher"@, self.pusher)
        &&& may_hold(j, "commit"@, self.commit)
        &&& holds(j, "duration"@, self.duration)
        &&& holds(j, "created_at"@, self.created_at)
        &&& holds(j, "updated_at"@, self.updated_at)
    }

    open spec fn mismatch(j: JsonView) -> bool {
        !(j is Object)
    }

    fn from_json(j: &Json) -> (r: Result<PageBuild, DecodeError>) {
        if !j.is_object() {
            return Err(DecodeError::Mismatch);
        }
        let url = required(j, "url")?;
        let status = required(j, "status")?;
        let error = required(j, "error")?;
        let pusher = required(j, "pusher")?;
        let commit = optional(j, "commit")?;
        let duration = required(j, "duration")?;
        let created_at = required(j, "created_at")?;
        let updated_at = required(j, "updated_at")?;
        Ok(PageBuild {
            url,
            status,
            error,
            pusher,
            commit,
            duration,
            created_at,
            updated_at,
        })
    }
}

/// Why a Pages build failed, if it did.
#[derive(Debug)]
pub struct PageBuildError {
    pub message: Option<String>,
}

impl Record for PageBuildError {
    open spec fn accepts(j: JsonView) -> bool {
        &&& j is Object
        &&& may_have::<String>(j, "message"@)
    }

    open spec fn describes(&self, j: JsonView) -> bool {
        &&& may_hold(j, "message"@, self.message)
    }

    open spec fn mismatch(j: JsonView) -> bool {
        !(j is Object)
    }

    fn from_json(j: &Json) -> (r: Result<PageBuildError, DecodeError>) {
        if !j.is_object() {
            return Err(DecodeError::Mismatch);
        }
        let message = optional(j, "message")?;
        Ok(PageBuildError {
            message,
        })
    }
}

/// The earlier note of a project card that was edited.
#[derive(Debug)]
pub struct ProjectCardChanges {
    pub note: Option<ChangedFrom>,
}

impl Record for ProjectCardChanges {
    open spec fn accepts(j: JsonView) -> bool {
        &&& j is Object
        &&& may_have::<ChangedFrom>(j, "note"@)
    }

    open spec fn describes(&self, j: JsonView) -> bool {
        &&& may_hold(j, "note"@, self.note)
    }

    open spec fn mismatch(j: JsonView) -> bool {
        !(j is Object)
    }

    fn from_json(j: &Json) -> (r: Result<ProjectCardChanges, DecodeError>) {
        if !j.is_object() {
            return Err(DecodeError::Mismatch);
        }
        let note = optional(j, "note")?;
        Ok(ProjectCardChanges {
            note,
        })
    }
}

/// A card on a project board.
#[derive(Debug)]
pub struct ProjectCard {
    pub url: String,
    pub project_url: String,
    pub column_url: String,
    pub column_id: i64,
    pub id: i64,
    pub node_id: String,
    pub note: Option<String>,
    pub archived: bool,
    pub creator: Actor,
    pub created_at: Timestamp,
    pub updated_at: Timestamp,
    pub content_url: Option<String>,
}

impl Record for ProjectCard {
    open spec fn accepts(j: JsonView) -> bool {
        &&& j is Object
        &&& has::<String>(j, "url"@)
        &&& has::<String>(j, "project_url"@)
        &&& has::<String>(j, "column_url"@)
        &&& has::<i64>(j, "column_id"@)
        &&& has::<i64>(j, "id"@)
        &&& has::<String>(j, "node_id"@)
        &&& may_have::<String>(j, "note"@)
        &&& has::<bool>(j, "archived"@)
        &&& has::<Actor>(j, "creator"@)
        &&& has::<Timestamp>(j, "created_at"@)
        &&& has::<Timestamp>(j, "updated_at"@)
        &&& may_have::<String>(j, "content_url"@)
    }

    open spec fn describes(&self, j: JsonView) -> bool {
        &&& holds(j, "url"@, self.url)
        &&& holds(j, "project_url"@, self.project_url)
        &&& holds(j, "column_url"@, self.column_url)
        &&& holds(j, "column_id"@, self.column_id)
        &&& holds(j, "id"@, self.id)
        &&& holds(j, "node_id"@, self.node_id)
        &&& may_hold(j, "note"@, self.note)
        &&& holds(j, "archived"@, self.archived)
        &&& holds(j, "creator"@, self.creator)
        &&& holds(j, "created_at"@, self.created_at)
        &&& holds(j, "updated_at"@, self.updated_at)
        &&& may_hold(j, "content_url"@, self.content_url)
    }

    open spec fn mismatch(j: JsonView) -> bool {
        !(j is Object)
    }

    fn from_json(j: &Json) -> (r: Result<ProjectCard, DecodeError>) {
        if !j.is_object() {
            return Err(DecodeError::Mismatch);
        }
        let url = required(j, "url")?;
        let project_url = required(j, "project_url")?;
        let column_url = required(j, "column_url")?;
        let column_id = required(j, "column_id")?;
        let id = required(j, "id")?;
        let node_id = required(j, "node_id")?;
        let note = optional(j, "note")?;
        let archived = required(j, "archived")?;
        let creator = required(j, "creator")?;
        let created_at = required(j, "created_at")?;
        let updated_at = required(j, "updated_at")?;
        let content_url = optional(j, "content_url")?;
        Ok(ProjectCard {
            url,
            project_url,
            column_url,
            column_id,
            id,
            node_id,
            note,
            archived,
            creator,
            created_at,
            updated_at,
            content_url,
        })
    }
}

/// The earlier name of a project column that was edited.
#[derive(Debug)]
pub struct ProjectColumnChanges {
    pub name: Option<ChangedFrom>,
}

impl Record for ProjectColumnChanges {
    open spec fn accepts(j: JsonView) -> bool {
        &&& j is Object
        &&& may_have::<ChangedFrom>(j, "name"@)
    }

    open spec fn describes(&self, j: JsonView) -> bool {
        &&& may_hold(j, "name"@, self.name)
    }

    open spec fn mismatch(j: JsonView) -> bool {
        !(j is Object)
    }

    fn from_json(j: &Json) -> (r: Result<ProjectColumnChanges, DecodeError>) {
        if !j.is_object() {
            return Err(DecodeError::Mismatch);
        }
        let name = optional(j, "name")?;
        Ok(ProjectColumnChanges {
            name,
        })
    }
}

/// A column of a project board.
#[derive(Debug)]
pub struct ProjectColumn {
    pub url: String,
    pub project_url: String,
    pub cards_url: String,
    pub id: i64,
    pub node_id: String,
    pub name: String,
    pub created_at: Timestamp,
    pub updated_at: Timestamp,
}

impl Record for ProjectColumn {
    open spec fn accepts(j: JsonView) -> bool {
        &&& j is Object
        &&& has::<String>(j, "url"@)
        &&& has::<String>(j, "project_url"@)
        &&& has::<String>(j, "cards_url"@)
        &&& has::<i64>(j, "id"@)
        &&& has::<String>(j, "node_id"@)
        &&& has::<String>(j, "name"@)
        &&& has::<Timestamp>(j, "created_at"@)
        &&& has::<Timestamp>(j, "updated_at"@)
    }

    open spec fn describes(&self, j: JsonView) -> bool {
        &&& holds(j, "url"@, self.url)
        &&& holds(j, "project_url"@, self.project_url)
        &&& holds(j, "cards_url"@, self.cards_url)
        &&& holds(j, "id"@, self.id)
        &&& holds(j, "node_id"@, self.node_id)
        &&& holds(j, "name"@, self.name)
        &&& holds(j, "created_at"@, self.created_at)
        &&& holds(j, "updated_at"@, self.updated_at)
    }

    open spec fn mismatch(j: JsonView) -> bool {
        !(j is Object)
    }

    fn from_json(j: &Json) -> (r: Result<ProjectColumn, DecodeError>) {
        if !j.is_object() {
            return Err(DecodeError::Mismatch);
        }
        let url = required(j, "url")?;
        let project_url = required(j, "project_url")?;
        let cards_url = required(j, "cards_url")?;
        let id = required(j, "id")?;
        let node_id = required(j, "node_id")?;
        let name = required(j, "name")?;
        let created_at = required(j, "created_at")?;
        let updated_at = required(j, "updated_at")?;
        Ok(ProjectColumn {
            url,
            project_url,
            cards_url,
            id,
            node_id,
            name,
            created_at,
            updated_at,
        })
    }
}

/// The earlier name and body of a project that was edited.
#[derive(Debug)]
pub struct ProjectChanges {
    pub name: Option<ChangedFrom>,
    pub body: Option<ChangedFrom>,
}

impl Record for ProjectChanges {
    open spec fn accepts(j: JsonView) -> bool {
        &&& j is Object
        &&& may_have::<ChangedFrom>(j, "name"@)
        &&& may_have::<ChangedFrom>(j, "body"@)
    }

    open spec fn describes(&self, j: JsonView) -> bool {
        &&& may_hold(j, "name"@, self.name)
        &&& may_hold(j, "body"@, self.body)
    }

    open spec fn mismatch(j: JsonView) -> bool {
        !(j is Object)
    }

    fn from_json(j: &Json) -> (r: Result<ProjectChanges, DecodeError>) {
        if !j.is_object() {
            return Err(DecodeError::Mismatch);
        }
        let name = optional(j, "name")?;
        let body = optional(j, "body")?;
        Ok(ProjectChanges {
            name,
            body,
        })
    }
}

/// A project board.
#[derive(Debug)]
pub struct Project {
    pub owner_url: String,
    pub url: String,
    pub html_url: String,
    pub columns_url: String,
    pub id: i64,
    pub node_id: String,
    pub name: String,
    pub body: Option<String>,
    pub number: i64,
    pub state: String,
    pub creator: Actor,
    pub created_at: Timestamp,
    pub updated_at: Timestamp,
}

impl Record for Project {
    open spec fn accepts(j: JsonView) -> bool {
        &&& j is Object
        &&& has::<String>(j, "owner_url"@)
        &&& has::<String>(j, "url"@)
        &&& has::<String>(j, "html_url"@)
        &&& has::<String>(j, "columns_url"@)
        &&& has::<i64>(j, "id"@)
        &&& has::<String>(j, "node_id"@)
        &&& has::<String>(j, "name"@)
        &&& may_have::<String>(j, "body"@)
        &&& has::<i64>(j, "number"@)
        &&& has::<String>(j, "state"@)
        &&& has::<Actor>(j, "creator"@)
        &&& has::<Timestamp>(j, "created_at"@)
        &&& has::<Timestamp>(j, "updated_at"@)
    }

    open spec fn describes(&self, j: JsonView) -> bool {
        &&& holds(j, "owner_url"@, self.owner_url)
        &&& holds(j, "url"@, self.url)
        &&& holds(j, "html_url"@, self.html_url)
        &&& holds(j, "columns_url"@, self.columns_url)
        &&& holds(j, "id"@, self.id)
        &&& holds(j, "node_id"@, self.node_id)
        &&& holds(j, "name"@, self.name)
        &&& may_hold(j, "body"@, self.body)
        &&& holds(j, "number"@, self.number)
        &&& holds(j, "state"@, self.state)
        &&& holds(j, "creator"@, self.creator)
        &&& holds(j, "created_at"@, self.created_at)
        &&& holds(j, "updated_at"@, self.updated_at)
    }

    open spec fn mismatch(j: JsonView) -> bool {
        !(j is Object)
    }

    fn from_json(j: &Json) -> (r: Result<Project, DecodeError>) {
        if !j.is_object() {
            return Err(DecodeError::Mismatch);
        }
        let owner_url = required(j, "owner_url")?;
        let url = required(j, "url")?;
        let html_url = required(j, "html_url")?;
        let columns_url = required(j, "columns_url")?;
        let id = required(j, "id")?;
        let node_id = required(j, "node_id")?;
        let name = required(j, "name")?;
        let body = optional(j, "body")?;
        let number = required(j, "number")?;
        let state = required(j, "state")?;
        let creator = required(j, "creator")?;
        let created_at = required(j, "created_at")?;
        let updated_at = required(j, "updated_at")?;
        Ok(Project {
            owner_url,
            url,
            html_url,
            columns_url,
            id,
            node_id,
            name,
            body,
            number,
            state,
            creator,
            created_at,
            updated_at,
        })
    }
}

/// The account that pushed commits.
#[derive(Debug)]
pub struct Pusher {
    pub name: String,
    pub email: Option<String>,
}

impl Record for Pusher {
    open spec fn accepts(j: JsonView) -> bool {
        &&& j is Object
        &&& has::<String>(j, "name"@)
        &&& may_have::<String>(j, "email"@)
    }

    open spec fn describes(&self, j: JsonView) -> bool {
        &&& holds(j, "name"@, self.name)
        &&& may_hold(j, "email"@, self.email)
    }

    open spec fn mismatch(j: JsonView) -> bool {
        !(j is Object)
    }

    fn from_json(j: &Json) -> (r: Result<Pusher, DecodeError>) {
        if !j.is_object() {
            return Err(DecodeError::Mismatch);
        }
        let name = required(j, "name")?;
        let email = optional(j, "email")?;
        Ok(Pusher {
            name,
            email,
        })
    }
}

/// The author or committer of a pushed commit.
#[derive(Debug)]
pub struct CommitUser {
    pub name: String,
    pub email: Option<String>,
    pub username: Option<String>,
}

impl Record for CommitUser {
    open spec fn accepts(j: JsonView) -> bool {
        &&& j is Object
        &&& has::<String>(j, "name"@)
        &&& may_have::<String>(j, "email"@)
        &&& may_have::<String>(j, "username"@)
    }

    open spec fn describes(&self, j: JsonView) -> bool {
        &&& holds(j, "name"@, self.name)
        &&& may_hold(j, "email"@, self.email)
        &&& may_hold(j, "username"@, self.username)
    }

    open spec fn mismatch(j: JsonView) -> bool {
        !(j is Object)
    }

    fn from_json(j: &Json) -> (r: Result<CommitUser, DecodeError>) {
        if !j.is_object() {
            return Err(DecodeError::Mismatch);
        }
        let name = required(j, "name")?;
        let email = optional(j, "email")?;
        let username = optional(j, "username")?;
        Ok(CommitUser {
            name,
            email,
            username,
        })
    }
}

/// A commit as a push event lists it.
#[derive(Debug)]
pub struct Commit {
    pub id: String,
    pub tree_id: String,
    pub distinct: bool,
    pub message: String,
    pub timestamp: Timestamp,
    pub url: String,
    pub author: CommitUser,
    pub committer: CommitUser,
    pub added: Vec<String>,
    pub removed: Vec<String>,
    pub modified: Vec<String>,
}

impl Record for Commit {
    open spec fn accepts(j: JsonView) -> bool {
        &&& j is Object
        &&& has::<String>(j, "id"@)
        &&& has::<String>(j, "tree_id"@)
        &&& has::<bool>(j, "distinct"@)
        &&& has::<String>(j, "message"@)
        &&& has::<Timestamp>(j, "timestamp"@)
        &&& has::<String>(j, "url"@)
        &&& has::<CommitUser>(j, "author"@)
        &&& has::<CommitUser>(j, "committer"@)
        &&& has::<Vec<String>>(j, "added"@)
        &&& has::<Vec<String>>(j, "removed"@)
        &&& has::<Vec<String>>(j, "modified"@)
    }

    open spec fn describes(&self, j: JsonView) -> bool {
        &&& holds(j, "id"@, self.id)
        &&& holds(j, "tree_id"@, self.tree_id)
        &&& holds(j, "distinct"@, self.distinct)
        &&& holds(j, "message"@, self.message)
        &&& holds(j, "timestamp"@, self.timestamp)
        &&& holds(j, "url"@, self.url)
        &&& holds(j, "author"@, self.author)
        &&& holds(j, "committer"@, self.committer)
        &&& holds(j, "added"@, self.added)
        &&& holds(j, "removed"@, self.removed)
        &&& holds(j, "modified"@, self.modified)
    }

    open spec fn mismatch(j: JsonView) -> bool {
        !(j is Object)
    }

    fn from_json(j: &Json) -> (r: Result<Commit, DecodeError>) {
        if !j.is_object() {
            return Err(DecodeError::Mismatch);
        }
        let id = required(j, "id")?;
        let tree_id = required(j, "tree_id")?;
        let distinct = required(j, "distinct")?;
        let message = required(j, "message")?;
        let timestamp = required(j, "timestamp")?;
        let url = required(j, "url")?;
        let author = required(j, "author")?;
        let committer = required(j, "committer")?;
        let added = required(j, "added")?;
        let removed = required(j, "removed")?;
        let modified = required(j, "modified")?;
        Ok(Commit {
            id,
            tree_id,
            distinct,
            message,
            timestamp,
            url,
            author,
            committer,
            added,
            removed,
            modified,
        })
    }
}

/// A release of a repository.
#[derive(Debug)]
pub struct Release {
    pub url: String,
    pub assets_url: String,
    pub upload_url: String,
    pub html_url: String,
    pub id: i64,
    pub node_id: String,
    pub tag_name: String,
    pub target_commitish: String,
    pub name: Option<String>,
    pub draft: bool,
    pub author: Actor,
    pub prerelease: bool,
    pub created_at: Timestamp,
    pub published_at: Option<Timestamp>,
    pub assets: Vec<Json>,
    pub tarball_url: Option<String>,
    pub zipball_url: Option<String>,
    pub body: Option<String>,
}

impl Record for Release {
    open spec fn accepts(j: JsonView) -> bool {
        &&& j is Object
        &&& has::<String>(j, "url"@)
        &&& has::<String>(j, "assets_url"@)
        &&& has::<String>(j, "upload_url"@)
        &&& has::<String>(j, "html_url"@)
        &&& has::<i64>(j, "id"@)
        &&& has::<String>(j, "node_id"@)
        &&& has::<String>(j, "tag_name"@)
        &&& has::<String>(j, "target_commitish"@)
        &&& may_have::<String>(j, "name"@)
        &&& has::<bool>(j, "draft"@)
        &&& has::<Actor>(j, "author"@)
        &&& has::<bool>(j, "prerelease"@)
        &&& has::<Timestamp>(j, "created_at"@)
        &&& may_have::<Timestamp>(j, "published_at"@)
        &&& has::<Vec<Json>>(j, "assets"@)
        &&& may_have::<String>(j, "tarball_url"@)
        &&& may_have::<String>(j, "zipball_url"@)
        &&& may_have::<String>(j, "body"@)
    }

    open spec fn describes(&self, j: JsonView) -> bool {
        &&& holds(j, "url"@, self.url)
        &&& holds(j, "assets_url"@, self.assets_url)
        &&& holds(j, "upload_url"@, self.upload_url)
        &&& holds(j, "html_url"@, self.html_url)
        &&& holds(j, "id"@, self.id)
        &&& holds(j, "node_id"@, self.node_id)
        &&& holds(j, "tag_name"@, self.tag_name)
        &&& holds(j, "target_commitish"@, self.target_commitish)
        &&& may_hold(j, "name"@, self.name)
        &&& holds(j, "draft"@, self.draft)
        &&& holds(j, "author"@, self.author)
        &&& holds(j, "prerelease"@, self.prerelease)
        &&& holds(j, "created_at"@, self.created_at)
        &&& may_hold(j, "published_at"@, self.published_at)
        &&& holds(j, "assets"@, self.assets)
        &&& may_hold(j, "tarball_url"@, self.tarball_url)
        &&& may_hold(j, "zipball_url"@, self.zipball_url)
        &&& may_hold(j, "body"@, self.body)
    }

    open spec fn mismatch(j: JsonView) -> bool {
        !(j is Object)
    }

    fn from_json(j: &Json) -> (r: Result<Release, DecodeError>) {
        if !j.is_object() {
            return Err(DecodeError::Mismatch);
        }
        let url = required(j, "url")?;
        let assets_url = required(j, "assets_url")?;
        let upload_url = required(j, "upload_url")?;
        let html_url = required(j, "html_url")?;
        let id = required(j, "id")?;
        let node_id = required(j, "node_id")?;
        let tag_name = required(j, "tag_name")?;
        let target_commitish = required(j, "target_commitish")?;
        let name = optional(j, "name")?;
        let draft = required(j, "draft")?;
        let author = required(j, "author")?;
        let prerelease = required(j, "prerelease")?;
        let created_at = required(j, "created_at")?;
        let published_at = optional(j, "published_at")?;
        let assets = required(j, "assets")?;
        let tarball_url = optional(j, "tarball_url")?;
        let zipball_url = optional(j, "zipball_url")?;
        let body = optional(j, "body")?;
        Ok(Release {
            url,
            assets_url,
            upload_url,
            html_url,
            id,
            node_id,
            tag_name,
            target_commitish,
            name,
            draft,
            author,
            prerelease,
            created_at,
            published_at,
            assets,
            tarball_url,
            zipball_url,
            body,
        })
    }
}

/// A security alert on a dependency of a repository.
#[derive(Debug)]
pub struct RepositoryVulnerabilityAlert {
    pub id: i64,
    pub affected_range: String,
    pub affected_package_name: String,
    pub external_reference: String,
    pub external_identifier: String,
    pub fixed_in: Option<String>,
    pub dismisser: Option<Actor>,
    pub dismiss_reason: Option<String>,
    pub dismissed_at: Option<String>,
}

impl Record for RepositoryVulnerabilityAlert {
    open spec fn accepts(j: JsonView) -> bool {
        &&& j is Object
        &&& has::<i64>(j, "id"@)
        &&& has::<String>(j, "affected_range"@)
        &&& has::<String>(j, "affected_package_name"@)
        &&& has::<String>(j, "external_reference"@)
        &&& has::<String>(j, "external_identifier"@)
        &&& may_have::<String>(j, "fixed_in"@)
        &&& may_have::<Actor>(j, "dismisser"@)
        &&& may_have::<String>(j, "dismiss_reason"@)
        &&& may_have::<String>(j, "dismissed_at"@)
    }

    open spec fn describes(&self, j: JsonView) -> bool {
        &&& holds(j, "id"@, self.id)
        &&& holds(j, "affected_range"@, self.affected_range)
        &&& holds(j, "affected_package_name"@, self.affected_package_name)
        &&& holds(j, "external_reference"@, self.external_reference)
        &&& holds(j, "external_identifier"@, self.external_identifier)
        &&& may_hold(j, "fixed_in"@, self.fixed_in)
        &&& may_hold(j, "dismisser"@, self.dismisser)
        &&& may_hold(j, "dismiss_reason"@, self.dismiss_reason)
        &&& may_hold(j, "dismissed_at"@, self.dismissed_at)
    }

    open spec fn mismatch(j: JsonView) -> bool {
        !(j is Object)
    }

    fn from_json(j: &Json) -> (r: Result<RepositoryVulnerabilityAlert, DecodeError>) {
        if !j.is_object() {
            return Err(DecodeError::Mismatch);
        }
        let id = required(j, "id")?;
        let affected_range = required(j, "affected_range")?;
        let affected_package_name = required(j, "affected_package_name")?;
        let external_reference = required(j, "external_reference")?;
        let external_identifier = required(j, "external_identifier")?;
        let fixed_in = optional(j, "fixed_in")?;
        let dismisser = optional(j, "dismisser")?;
        let dismiss_reason = optional(j, "dismiss_reason")?;
        let dismissed_at = optional(j, "dismissed_at")?;
        Ok(RepositoryVulnerabilityAlert {
            id,
            affected_range,
            affected_package_name,
            external_reference,
            external_identifier,
            fixed_in,
            dismisser,
            dismiss_reason,
            dismissed_at,
        })
    }
}

/// The commit at the head of a branch.
#[derive(Debug)]
pub struct StatusBranchCommit {
    pub sha: String,
    pub url: String,
}

impl Record for StatusBranchCommit {
    open spec fn accepts(j: JsonView) -> bool {
        &&& j is Object
        &&& has::<String>(j, "sha"@)
        &&& has::<String>(j, "url"@)
    }

    open spec fn describes(&self, j: JsonView) -> bool {
        &&& holds(j, "sha"@, self.sha)
        &&& holds(j, "url"@, self.url)
    }

    open spec fn mismatch(j: JsonView) -> bool {
        !(j is Object)
    }

    fn from_json(j: &Json) -> (r: Result<StatusBranchCommit, DecodeError>) {
        if !j.is_object() {
            return Err(DecodeError::Mismatch);
        }
        let sha = required(j, "sha")?;
        let url = required(j, "url")?;
        Ok(StatusBranchCommit {
            sha,
            url,
        })
    }
}

/// A branch that contains the commit whose status changed.
#[derive(Debug)]
pub struct StatusBranch {
    pub name: String,
    pub commit: StatusBranchCommit,
    pub protected: bool,
}

impl Record for StatusBranch {
    open spec fn accepts(j: JsonView) -> bool {
        &&& j is Object
        &&& has::<String>(j, "name"@)
        &&& has::<StatusBranchCommit>(j, "commit"@)
        &&& has::<bool>(j, "protected"@)
    }

    open spec fn describes(&self, j: JsonView) -> bool {
        &&& holds(j, "name"@, self.name)
        &&& holds(j, "commit"@, self.commit)
        &&& holds(j, "protected"@, self.protected)
    }

    open spec fn mismatch(j: JsonView) -> bool {
        !(j is Object)
    }

    fn from_json(j: &Json) -> (r: Result<StatusBranch, DecodeError>) {
        if !j.is_object() {
            return Err(DecodeError::Mismatch);
        }
        let name = required(j, "name")?;
        let commit = required(j, "commit")?;
        let protected = required(j, "protected")?;
        Ok(StatusBranch {
            name,
            commit,
            protected,
        })
    }
}

} // verus!
