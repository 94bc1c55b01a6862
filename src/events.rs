use vstd::prelude::*;

use crate::decode::{has, holds, may_have, may_hold, optional, required, DecodeError, Record};
use crate::json::{Json, JsonView};
use crate::model::{
    Actor, CheckRun, CheckSuite, Commit, CommitComment, DeployKey, Deployment, DeploymentStatus,
    Hook, Installation, InstallationId, InstallationRepository, Invitation, Issue, IssueChanges,
    IssueComment, Label, LabelChanges, Membership, Milestone, Organization, Page, PageBuild,
    Project, ProjectCard, ProjectCardChanges, ProjectChanges, ProjectColumn, ProjectColumnChanges,
    PullRequest, PullRequestReviewComment, Pusher, Release, Repository,
    RepositoryVulnerabilityAlert, Review, StatusBranch, Team,
};
use crate::timestamp::Timestamp;

verus! {

/// Activity on a check run (`check_run`).
#[derive(Debug)]
pub struct CheckRunEvent {
    pub action: String,
    pub check_run: CheckRun,
    pub repository: Repository,
    pub installation: Option<InstallationId>,
    pub sender: Actor,
}

impl Record for CheckRunEvent {
    open spec fn accepts(j: JsonView) -> bool {
        &&& j is Object
        &&& has::<String>(j, "action"@)
        &&& has::<CheckRun>(j, "check_run"@)
        &&& has::<Repository>(j, "repository"@)
        &&& may_have::<InstallationId>(j, "installation"@)
        &&& has::<Actor>(j, "sender"@)
    }

    open spec fn describes(&self, j: JsonView) -> bool {
        &&& holds(j, "action"@, self.action)
        &&& holds(j, "check_run"@, self.check_run)
        &&& holds(j, "repository"@, self.repository)
        &&& may_hold(j, "installation"@, self.installation)
        &&& holds(j, "sender"@, self.sender)
    }

    open spec fn mismatch(j: JsonView) -> bool {
        !(j is Object)
    }

    fn from_json(j: &Json) -> (r: Result<CheckRunEvent, DecodeError>) {
        if !j.is_object() {
            return Err(DecodeError::Mismatch);
        }
        let action = required(j, "action")?;
        let check_run = required(j, "check_run")?;
        let repository = required(j, "repository")?;
        let installation = optional(j, "installation")?;
        let sender = required(j, "sender")?;
        Ok(CheckRunEvent {
            action,
            check_run,
            repository,
            installation,
            sender,
        })
    }
}

/// Activity on a check suite (`check_suite`).
#[derive(Debug)]
pub struct CheckSuiteEvent {
    pub action: String,
    pub check_suite: CheckSuite,
    pub repository: Repository,
    pub installation: Option<InstallationId>,
    pub sender: Actor,
}

impl Record for CheckSuiteEvent {
    open spec fn accepts(j: JsonView) -> bool {
        &&& j is Object
        &&& has::<String>(j, "action"@)
        &&& has::<CheckSuite>(j, "check_suite"@)
        &&& has::<Repository>(j, "repository"@)
        &&& may_have::<InstallationId>(j, "installation"@)
        &&& has::<Actor>(j, "sender"@)
    }

    open spec fn describes(&self, j: JsonView) -> bool {
        &&& holds(j, "action"@, self.action)
        &&& holds(j, "check_suite"@, self.check_suite)
        &&& holds(j, "repository"@, self.repository)
        &&& may_hold(j, "installation"@, self.installation)
        &&& holds(j, "sender"@, self.sender)
    }

    open spec fn mismatch(j: JsonView) -> bool {
        !(j is Object)
    }

    fn from_json(j: &Json) -> (r: Result<CheckSuiteEvent, DecodeError>) {
        if !j.is_object() {
            return Err(DecodeError::Mismatch);
        }
        let action = required(j, "action")?;
        let check_suite = required(j, "check_suite")?;
        let repository = required(j, "repository")?;
        let installation = optional(j, "installation")?;
        let sender = required(j, "sender")?;
        Ok(CheckSuiteEvent {
            action,
            check_suite,
            repository,
            installation,
            sender,
        })
    }
}

/// A comment on a commit (`commit_comment`).
#[derive(Debug)]
pub struct CommitCommentEvent {
    pub action: String,
    pub comment: CommitComment,
    pub repository: Repository,
    pub sender: Actor,
}

impl Record for CommitCommentEvent {
    open spec fn accepts(j: JsonView) -> bool {
        &&& j is Object
        &&& has::<String>(j, "action"@)
        &&& has::<CommitComment>(j, "comment"@)
        &&& has::<Repository>(j, "repository"@)
        &&& has::<Actor>(j, "sender"@)
    }

    open spec fn describes(&self, j: JsonView) -> bool {
        &&& holds(j, "action"@, self.action)
        &&& holds(j, "comment"@, self.comment)
        &&& holds(j, "repository"@, self.repository)
        &&& holds(j, "sender"@, self.sender)
    }

    open spec fn mismatch(j: JsonView) -> bool {
        !(j is Object)
    }

    fn from_json(j: &Json) -> (r: Result<CommitCommentEvent, DecodeError>) {
        if !j.is_object() {
            return Err(DecodeError::Mismatch);
        }
        let action = required(j, "action")?;
        let comment = required(j, "comment")?;
        let repository = required(j, "repository")?;
        let sender = required(j, "sender")?;
        Ok(CommitCommentEvent {
            action,
            comment,
            repository,
            sender,
        })
    }
}

/// A branch or tag was created (`create`).
#[derive(Debug)]
pub struct CreateEvent {
    pub refer: String,
    pub ref_type: String,
    pub master_branch: String,
    pub description: Option<String>,
    pub pusher_type: String,
    pub repository: Repository,
    pub sender: Actor,
}

impl Record for CreateEvent {
    open spec fn accepts(j: JsonView) -> bool {
        &&& j is Object
        &&& has::<String>(j, "ref"@)
        &&& has::<String>(j, "ref_type"@)
        &&& has::<String>(j, "master_branch"@)
        &&& may_have::<String>(j, "description"@)
        &&& has::<String>(j, "pusher_type"@)
        &&& has::<Repository>(j, "repository"@)
        &&& has::<Actor>(j, "sender"@)
    }

    open spec fn describes(&self, j: JsonView) -> bool {
        &&& holds(j, "ref"@, self.refer)
        &&& holds(j, "ref_type"@, self.ref_type)
        &&& holds(j, "master_branch"@, self.master_branch)
        &&& may_hold(j, "description"@, self.description)
        &&& holds(j, "pusher_type"@, self.pusher_type)
        &&& holds(j, "repository"@, self.repository)
        &&& holds(j, "sender"@, self.sender)
    }

    open spec fn mismatch(j: JsonView) -> bool {
        !(j is Object)
    }

    fn from_json(j: &Json) -> (r: Result<CreateEvent, DecodeError>) {
        if !j.is_object() {
            return Err(DecodeError::Mismatch);
        }
        let refer = required(j, "ref")?;
        let ref_type = required(j, "ref_type")?;
        let master_branch = required(j, "master_branch")?;
        let description = optional(j, "description")?;
        let pusher_type = required(j, "pusher_type")?;
        let repository = required(j, "repository")?;
        let sender = required(j, "sender")?;
        Ok(CreateEvent {
            refer,
            ref_type,
            master_branch,
            description,
            pusher_type,
            repository,
            sender,
        })
    }
}

/// A branch or tag was deleted (`delete`).
#[derive(Debug)]
pub struct DeleteEvent {
    pub refer: String,
    pub ref_type: String,
    pub pusher_type: String,
    pub repository: Repository,
    pub sender: Actor,
}

impl Record for DeleteEvent {
    open spec fn accepts(j: JsonView) -> bool {
        &&& j is Object
        &&& has::<String>(j, "ref"@)
        &&& has::<String>(j, "ref_type"@)
        &&& has::<String>(j, "pusher_type"@)
        &&& has::<Repository>(j, "repository"@)
        &&& has::<Actor>(j, "sender"@)
    }

    open spec fn describes(&self, j: JsonView) -> bool {
        &&& holds(j, "ref"@, self.refer)
        &&& holds(j, "ref_type"@, self.ref_type)
        &&& holds(j, "pusher_type"@, self.pusher_type)
        &&& holds(j, "repository"@, self.repository)
        &&& holds(j, "sender"@, self.sender)
    }

    open spec fn mismatch(j: JsonView) -> bool {
        !(j is Object)
    }

    fn from_json(j: &Json) -> (r: Result<DeleteEvent, DecodeError>) {
        if !j.is_object() {
            return Err(DecodeError::Mismatch);
        }
        let refer = required(j, "ref")?;
        let ref_type = required(j, "ref_type")?;
        let pusher_type = required(j, "pusher_type")?;
        let repository = required(j, "repository")?;
        let sender = required(j, "sender")?;
        Ok(DeleteEvent {
            refer,
            ref_type,
            pusher_type,
            repository,
            sender,
        })
    }
}

/// A deploy key was added or removed (`deploy_key`).
#[derive(Debug)]
pub struct DeployKeyEvent {
    pub action: String,
    pub key: DeployKey,
    pub repository: Repository,
    pub sender: Actor,
}

impl Record for DeployKeyEvent {
    open spec fn accepts(j: JsonView) -> bool {
        &&& j is Object
        &&& has::<String>(j, "action"@)
        &&& has::<DeployKey>(j, "key"@)
        &&& has::<Repository>(j, "repository"@)
        &&& has::<Actor>(j, "sender"@)
    }

    open spec fn describes(&self, j: JsonView) -> bool {
        &&& holds(j, "action"@, self.action)
        &&& holds(j, "key"@, self.key)
        &&& holds(j, "repository"@, self.repository)
        &&& holds(j, "sender"@, self.sender)
    }

    open spec fn mismatch(j: JsonView) -> bool {
        !(j is Object)
    }

    fn from_json(j: &Json) -> (r: Result<DeployKeyEvent, DecodeError>) {
        if !j.is_object() {
            return Err(DecodeError::Mismatch);
        }
        let action = required(j, "action")?;
        let key = required(j, "key")?;
        let repository = required(j, "repository")?;
        let sender = required(j, "sender")?;
        Ok(DeployKeyEvent {
            action,
            key,
            repository,
            sender,
        })
    }
}

/// A deployment was created (`deployment`).
#[derive(Debug)]
pub struct DeploymentEvent {
    pub deployment: Deployment,
    pub repository: Repository,
    pub sender: Actor,
}

impl Record for DeploymentEvent {
    open spec fn accepts(j: JsonView) -> bool {
        &&& j is Object
        &&& has::<Deployment>(j, "deployment"@)
        &&& has::<Repository>(j, "repository"@)
        &&& has::<Actor>(j, "sender"@)
    }

    open spec fn describes(&self, j: JsonView) -> bool {
        &&& holds(j, "deployment"@, self.deployment)
        &&& holds(j, "repository"@, self.repository)
        &&& holds(j, "sender"@, self.sender)
    }

    open spec fn mismatch(j: JsonView) -> bool {
        !(j is Object)
    }

    fn from_json(j: &Json) -> (r: Result<DeploymentEvent, DecodeError>) {
        if !j.is_object() {
            return Err(DecodeError::Mismatch);
        }
        let deployment = required(j, "deployment")?;
        let repository = required(j, "repository")?;
        let sender = required(j, "sender")?;
        Ok(DeploymentEvent {
            deployment,
            repository,
            sender,
        })
    }
}

/// A deployment reported a status (`deployment_status`).
#[derive(Debug)]
pub struct DeploymentStatusEvent {
    pub deployment_status: DeploymentStatus,
    pub deployment: Deployment,
    pub repository: Repository,
    pub sender: Actor,
}

impl Record for DeploymentStatusEvent {
    open spec fn accepts(j: JsonView) -> bool {
        &&& j is Object
        &&& has::<DeploymentStatus>(j, "deployment_status"@)
        &&& has::<Deployment>(j, "deployment"@)
        &&& has::<Repository>(j, "repository"@)
        &&& has::<Actor>(j, "sender"@)
    }

    open spec fn describes(&self, j: JsonView) -> bool {
        &&& holds(j, "deployment_status"@, self.deployment_status)
        &&& holds(j, "deployment"@, self.deployment)
        &&& holds(j, "repository"@, self.repository)
        &&& holds(j, "sender"@, self.sender)
    }

    open spec fn mismatch(j: JsonView) -> bool {
        !(j is Object)
    }

    fn from_json(j: &Json) -> (r: Result<DeploymentStatusEvent, DecodeError>) {
        if !j.is_object() {
            return Err(DecodeError::Mismatch);
        }
        let deployment_status = required(j, "deployment_status")?;
        let deployment = required(j, "deployment")?;
        let repository = required(j, "repository")?;
        let sender = required(j, "sender")?;
        Ok(DeploymentStatusEvent {
            deployment_status,
            deployment,
            repository,
            sender,
        })
    }
}

/// A repository was forked (`fork`).
#[derive(Debug)]
pub struct ForkEvent {
    pub forkee: Repository,
    pub repository: Repository,
    pub sender: Actor,
}

impl Record for ForkEvent {
    open spec fn accepts(j: JsonView) -> bool {
        &&& j is Object
        &&& has::<Repository>(j, "forkee"@)
        &&& has::<Repository>(j, "repository"@)
        &&& has::<Actor>(j, "sender"@)
    }

    open spec fn describes(&self, j: JsonView) -> bool {
        &&& holds(j, "forkee"@, self.forkee)
        &&& holds(j, "repository"@, self.repository)
        &&& holds(j, "sender"@, self.sender)
    }

    open spec fn mismatch(j: JsonView) -> bool {
        !(j is Object)
    }

    fn from_json(j: &Json) -> (r: Result<ForkEvent, DecodeError>) {
        if !j.is_object() {
            return Err(DecodeError::Mismatch);
        }
        let forkee = required(j, "forkee")?;
        let repository = required(j, "repository")?;
        let sender = required(j, "sender")?;
        Ok(ForkEvent {
            forkee,
            repository,
            sender,
        })
    }
}

/// Wiki pages were created or updated (`gollum`).
#[derive(Debug)]
pub struct GollumEvent {
    pub pages: Vec<Page>,
    pub repository: Repository,
    pub sender: Actor,
}

impl Record for GollumEvent {
    open spec fn accepts(j: JsonView) -> bool {
        &&& j is Object
        &&& has::<Vec<Page>>(j, "pages"@)
        &&& has::<Repository>(j, "repository"@)
        &&& has::<Actor>(j, "sender"@)
    }

    open spec fn describes(&self, j: JsonView) -> bool {
        &&& holds(j, "pages"@, self.pages)
        &&& holds(j, "repository"@, self.repository)
        &&& holds(j, "sender"@, self.sender)
    }

    open spec fn mismatch(j: JsonView) -> bool {
        !(j is Object)
    }

    fn from_json(j: &Json) -> (r: Result<GollumEvent, DecodeError>) {
        if !j.is_object() {
            return Err(DecodeError::Mismatch);
        }
        let pages = required(j, "pages")?;
        let repository = required(j, "repository")?;
        let sender = required(j, "sender")?;
        Ok(GollumEvent {
            pages,
            repository,
            sender,
        })
    }
}

/// Activity on an app installation (`installation`).
#[derive(Debug)]
pub struct InstallationEvent {
    pub action: String,
    pub installation: Installation,
    pub repositories: Option<Vec<InstallationRepository>>,
    pub sender: Actor,
}

impl Record for InstallationEvent {
    open spec fn accepts(j: JsonView) -> bool {
        &&& j is Object
        &&& has::<String>(j, "action"@)
        &&& has::<Installation>(j, "installation"@)
        &&& may_have::<Vec<InstallationRepository>>(j, "repositories"@)
        &&& has::<Actor>(j, "sender"@)
    }

    open spec fn describes(&self, j: JsonView) -> bool {
        &&& holds(j, "action"@, self.action)
        &&& holds(j, "installation"@, self.installation)
        &&& may_hold(j, "repositories"@, self.repositories)
        &&& holds(j, "sender"@, self.sender)
    }

    open spec fn mismatch(j: JsonView) -> bool {
        !(j is Object)
    }

    fn from_json(j: &Json) -> (r: Result<InstallationEvent, DecodeError>) {
        if !j.is_object() {
            return Err(DecodeError::Mismatch);
        }
        let action = required(j, "action")?;
        let installation = required(j, "installation")?;
        let repositories = optional(j, "repositories")?;
        let sender = required(j, "sender")?;
        Ok(InstallationEvent {
            action,
            installation,
            repositories,
            sender,
        })
    }
}

/// Repositories were added to or removed from an installation (`installation_repositories`).
#[derive(Debug)]
pub struct InstallationRepositoriesEvent {
    pub action: String,
    pub installation: Installation,
    pub repositories_added: Vec<InstallationRepository>,
    pub repositories_removed: Vec<InstallationRepository>,
    pub requester: Option<Actor>,
    pub sender: Actor,
}

impl Record for InstallationRepositoriesEvent {
    open spec fn accepts(j: JsonView) -> bool {
        &&& j is Object
        &&& has::<String>(j, "action"@)
        &&& has::<Installation>(j, "installation"@)
        &&& has::<Vec<InstallationRepository>>(j, "repositories_added"@)
        &&& has::<Vec<InstallationRepository>>(j, "repositories_removed"@)
        &&& may_have::<Actor>(j, "requester"@)
        &&& has::<Actor>(j, "sender"@)
    }

    open spec fn describes(&self, j: JsonView) -> bool {
        &&& holds(j, "action"@, self.action)
        &&& holds(j, "installation"@, self.installation)
        &&& holds(j, "repositories_added"@, self.repositories_added)
        &&& holds(j, "repositories_removed"@, self.repositories_removed)
        &&& may_hold(j, "requester"@, self.requester)
        &&& holds(j, "sender"@, self.sender)
    }

    open spec fn mismatch(j: JsonView) -> bool {
        !(j is Object)
    }

    fn from_json(j: &Json) -> (r: Result<InstallationRepositoriesEvent, DecodeError>) {
        if !j.is_object() {
            return Err(DecodeError::Mismatch);
        }
        let action = required(j, "action")?;
        let installation = required(j, "installation")?;
        let repositories_added = required(j, "repositories_added")?;
        let repositories_removed = required(j, "repositories_removed")?;
        let requester = optional(j, "requester")?;
        let sender = required(j, "sender")?;
        Ok(InstallationRepositoriesEvent {
            action,
            installation,
            repositories_added,
            repositories_removed,
            requester,
            sender,
        })
    }
}

/// Activity on an issue (`issues`).
#[derive(Debug)]
pub struct IssuesEvent {
    pub action: String,
    pub issue: Issue,
    pub changes: Option<IssueChanges>,
    pub repository: Repository,
    pub sender: Actor,
}

impl Record for IssuesEvent {
    open spec fn accepts(j: JsonView) -> bool {
        &&& j is Object
        &&& has::<String>(j, "action"@)
        &&& has::<Issue>(j, "issue"@)
        &&& may_have::<IssueChanges>(j, "changes"@)
        &&& has::<Repository>(j, "repository"@)
        &&& has::<Actor>(j, "sender"@)
    }

    open spec fn describes(&self, j: JsonView) -> bool {
        &&& holds(j, "action"@, self.action)
        &&& holds(j, "issue"@, self.issue)
        &&& may_hold(j, "changes"@, self.changes)
        &&& holds(j, "repository"@, self.repository)
        &&& holds(j, "sender"@, self.sender)
    }

    open spec fn mismatch(j: JsonView) -> bool {
        !(j is Object)
    }

    fn from_json(j: &Json) -> (r: Result<IssuesEvent, DecodeError>) {
        if !j.is_object() {
            return Err(DecodeError::Mismatch);
        }
        let action = required(j, "action")?;
        let issue = required(j, "issue")?;
        let changes = optional(j, "changes")?;
        let repository = required(j, "repository")?;
        let sender = required(j, "sender")?;
        Ok(IssuesEvent {
            action,
            issue,
            changes,
            repository,
            sender,
        })
    }
}

/// Activity on an issue comment (`issue_comment`).
#[derive(Debug)]
pub struct IssueCommentEvent {
    pub action: String,
    pub issue: Issue,
    pub comment: IssueComment,
    pub changes: Option<IssueChanges>,
    pub repository: Repository,
    pub sender: Actor,
}

impl Record for IssueCommentEvent {
    open spec fn accepts(j: JsonView) -> bool {
        &&& j is Object
        &&& has::<String>(j, "action"@)
        &&& has::<Issue>(j, "issue"@)
        &&& has::<IssueComment>(j, "comment"@)
        &&& may_have::<IssueChanges>(j, "changes"@)
        &&& has::<Repository>(j, "repository"@)
        &&& has::<Actor>(j, "sender"@)
    }

    open spec fn describes(&self, j: JsonView) -> bool {
        &&& holds(j, "action"@, self.action)
        &&& holds(j, "issue"@, self.issue)
        &&& holds(j, "comment"@, self.comment)
        &&& may_hold(j, "changes"@, self.changes)
        &&& holds(j, "repository"@, self.repository)
        &&& holds(j, "sender"@, self.sender)
    }

    open spec fn mismatch(j: JsonView) -> bool {
        !(j is Object)
    }

    fn from_json(j: &Json) -> (r: Result<IssueCommentEvent, DecodeError>) {
        if !j.is_object() {
            return Err(DecodeError::Mismatch);
        }
        let action = required(j, "action")?;
        let issue = required(j, "issue")?;
        let comment = required(j, "comment")?;
        let changes = optional(j, "changes")?;
        let repository = required(j, "repository")?;
        let sender = required(j, "sender")?;
        Ok(IssueCommentEvent {
            action,
            issue,
            comment,
            changes,
            repository,
            sender,
        })
    }
}

/// Activity on a label (`label`).
#[derive(Debug)]
pub struct LabelEvent {
    pub action: String,
    pub label: Label,
    pub changes: Option<LabelChanges>,
    pub repository: Repository,
    pub organization: Option<Organization>,
    pub sender: Actor,
}

impl Record for LabelEvent {
    open spec fn accepts(j: JsonView) -> bool {
        &&& j is Object
        &&& has::<String>(j, "action"@)
        &&& has::<Label>(j, "label"@)
        &&& may_have::<LabelChanges>(j, "changes"@)
        &&& has::<Repository>(j, "repository"@)
        &&& may_have::<Organization>(j, "organization"@)
        &&& has::<Actor>(j, "sender"@)
    }

    open spec fn describes(&self, j: JsonView) -> bool {
        &&& holds(j, "action"@, self.action)
        &&& holds(j, "label"@, self.label)
        &&& may_hold(j, "changes"@, self.changes)
        &&& holds(j, "repository"@, self.repository)
        &&& may_hold(j, "organization"@, self.organization)
        &&& holds(j, "sender"@, self.sender)
    }

    open spec fn mismatch(j: JsonView) -> bool {
        !(j is Object)
    }

    fn from_json(j: &Json) -> (r: Result<LabelEvent, DecodeError>) {
        if !j.is_object() {
            return Err(DecodeError::Mismatch);
        }
        let action = required(j, "action")?;
        let label = required(j, "label")?;
        let changes = optional(j, "changes")?;
        let repository = required(j, "repository")?;
        let organization = optional(j, "organization")?;
        let sender = required(j, "sender")?;
        Ok(LabelEvent {
            action,
            label,
            changes,
            repository,
            organization,
            sender,
        })
    }
}

/// A collaborator was added, removed or changed (`member`).
#[derive(Debug)]
pub struct MemberEvent {
    pub action: String,
    pub member: Actor,
    pub repository: Repository,
    pub sender: Actor,
}

impl Record for MemberEvent {
    open spec fn accepts(j: JsonView) -> bool {
        &&& j is Object
        &&& has::<String>(j, "action"@)
        &&& has::<Actor>(j, "member"@)
        &&& has::<Repository>(j, "repository"@)
        &&& has::<Actor>(j, "sender"@)
    }

    open spec fn describes(&self, j: JsonView) -> bool {
        &&& holds(j, "action"@, self.action)
        &&& holds(j, "member"@, self.member)
        &&& holds(j, "repository"@, self.repository)
        &&& holds(j, "sender"@, self.sender)
    }

    open spec fn mismatch(j: JsonView) -> bool {
        !(j is Object)
    }

    fn from_json(j: &Json) -> (r: Result<MemberEvent, DecodeError>) {
        if !j.is_object() {
            return Err(DecodeError::Mismatch);
        }
        let action = required(j, "action")?;
        let member = required(j, "member")?;
        let repository = required(j, "repository")?;
        let sender = required(j, "sender")?;
        Ok(MemberEvent {
            action,
            member,
            repository,
            sender,
        })
    }
}

/// A user was added to or removed from a team (`membership`).
#[derive(Debug)]
pub struct MembershipEvent {
    pub action: String,
    pub scope: String,
    pub member: Actor,
    pub organization: Organization,
    pub team: Team,
    pub sender: Actor,
}

impl Record for MembershipEvent {
    open spec fn accepts(j: JsonView) -> bool {
        &&& j is Object
        &&& has::<String>(j, "action"@)
        &&& has::<String>(j, "scope"@)
        &&& has::<Actor>(j, "member"@)
        &&& has::<Organization>(j, "organization"@)
        &&& has::<Team>(j, "team"@)
        &&& has::<Actor>(j, "sender"@)
    }

    open spec fn describes(&self, j: JsonView) -> bool {
        &&& holds(j, "action"@, self.action)
        &&& holds(j, "scope"@, self.scope)
        &&& holds(j, "member"@, self.member)
        &&& holds(j, "organization"@, self.organization)
        &&& holds(j, "team"@, self.team)
        &&& holds(j, "sender"@, self.sender)
    }

    open spec fn mismatch(j: JsonView) -> bool {
        !(j is Object)
    }

    fn from_json(j: &Json) -> (r: Result<MembershipEvent, DecodeError>) {
        if !j.is_object() {
            return Err(DecodeError::Mismatch);
        }
        let action = required(j, "action")?;
        let scope = required(j, "scope")?;
        let member = required(j, "member")?;
        let organization = required(j, "organization")?;
        let team = required(j, "team")?;
        let sender = required(j, "sender")?;
        Ok(MembershipEvent {
            action,
            scope,
            member,
            organization,
            team,
            sender,
        })
    }
}

/// The webhook itself was deleted (`meta`).
#[derive(Debug)]
pub struct MetaEvent {
    pub action: String,
    pub hook_id: i64,
    pub hook: Hook,
    pub repository: Repository,
    pub sender: Actor,
}

impl Record for MetaEvent {
    open spec fn accepts(j: JsonView) -> bool {
        &&& j is Object
        &&& has::<String>(j, "action"@)
        &&& has::<i64>(j, "hook_id"@)
        &&& has::<Hook>(j, "hook"@)
        &&& has::<Repository>(j, "repository"@)
        &&& has::<Actor>(j, "sender"@)
    }

    open spec fn describes(&self, j: JsonView) -> bool {
        &&& holds(j, "action"@, self.action)
        &&& holds(j, "hook_id"@, self.hook_id)
        &&& holds(j, "hook"@, self.hook)
        &&& holds(j, "repository"@, self.repository)
        &&& holds(j, "sender"@, self.sender)
    }

    open spec fn mismatch(j: JsonView) -> bool {
        !(j is Object)
    }

    fn from_json(j: &Json) -> (r: Result<MetaEvent, DecodeError>) {
        if !j.is_object() {
            return Err(DecodeError::Mismatch);
        }
        let action = required(j, "action")?;
        let hook_id = required(j, "hook_id")?;
        let hook = required(j, "hook")?;
        let repository = required(j, "repository")?;
        let sender = required(j, "sender")?;
        Ok(MetaEvent {
            action,
            hook_id,
            hook,
            repository,
            sender,
        })
    }
}

/// Activity on a milestone (`milestone`).
#[derive(Debug)]
pub struct MilestoneEvent {
    pub action: String,
    pub milestone: Milestone,
    pub repository: Repository,
    pub organization: Option<Organization>,
    pub sender: Actor,
}

impl Record for MilestoneEvent {
    open spec fn accepts(j: JsonView) -> bool {
        &&& j is Object
        &&& has::<String>(j, "action"@)
        &&& has::<Milestone>(j, "milestone"@)
        &&& has::<Repository>(j, "repository"@)
        &&& may_have::<Organization>(j, "organization"@)
        &&& has::<Actor>(j, "sender"@)
    }

    open spec fn describes(&self, j: JsonView) -> bool {
        &&& holds(j, "action"@, self.action)
        &&& holds(j, "milestone"@, self.milestone)
        &&& holds(j, "repository"@, self.repository)
        &&& may_hold(j, "organization"@, self.organization)
        &&& holds(j, "sender"@, self.sender)
    }

    open spec fn mismatch(j: JsonView) -> bool {
        !(j is Object)
    }

    fn from_json(j: &Json) -> (r: Result<MilestoneEvent, DecodeError>) {
        if !j.is_object() {
            return Err(DecodeError::Mismatch);
        }
        let action = required(j, "action")?;
        let milestone = required(j, "milestone")?;
        let repository = required(j, "repository")?;
        let organization = optional(j, "organization")?;
        let sender = required(j, "sender")?;
        Ok(MilestoneEvent {
            action,
            milestone,
            repository,
            organization,
            sender,
        })
    }
}

/// Activity on an organization's members (`organization`).
#[derive(Debug)]
pub struct OrganizationEvent {
    pub action: String,
    pub membership: Option<Membership>,
    pub invitation: Option<Invitation>,
    pub organization: Organization,
    pub sender: Actor,
}

impl Record for OrganizationEvent {
    open spec fn accepts(j: JsonView) -> bool {
        &&& j is Object
        &&& has::<String>(j, "action"@)
        &&& may_have::<Membership>(j, "membership"@)
        &&& may_have::<Invitation>(j, "invitation"@)
        &&& has::<Organization>(j, "organization"@)
        &&& has::<Actor>(j, "sender"@)
    }

    open spec fn describes(&self, j: JsonView) -> bool {
        &&& holds(j, "action"@, self.action)
        &&& may_hold(j, "membership"@, self.membership)
        &&& may_hold(j, "invitation"@, self.invitation)
        &&& holds(j, "organization"@, self.organization)
        &&& holds(j, "sender"@, self.sender)
    }

    open spec fn mismatch(j: JsonView) -> bool {
        !(j is Object)
    }

    fn from_json(j: &Json) -> (r: Result<OrganizationEvent, DecodeError>) {
        if !j.is_object() {
            return Err(DecodeError::Mismatch);
        }
        let action = required(j, "action")?;
        let membership = optional(j, "membership")?;
        let invitation = optional(j, "invitation")?;
        let organization = required(j, "organization")?;
        let sender = required(j, "sender")?;
        Ok(OrganizationEvent {
            action,
            membership,
            invitation,
            organization,
            sender,
        })
    }
}

/// An organization blocked or unblocked a user (`org_block`).
#[derive(Debug)]
pub struct OrgBlockEvent {
    pub action: String,
    pub blocked_user: Actor,
    pub organization: Organization,
    pub sender: Actor,
}

impl Record for OrgBlockEvent {
    open spec fn accepts(j: JsonView) -> bool {
        &&& j is Object
        &&& has::<String>(j, "action"@)
        &&& has::<Actor>(j, "blocked_user"@)
        &&& has::<Organization>(j, "organization"@)
        &&& has::<Actor>(j, "sender"@)
    }

    open spec fn describes(&self, j: JsonView) -> bool {
        &&& holds(j, "action"@, self.action)
        &&& holds(j, "blocked_user"@, self.blocked_user)
        &&& holds(j, "organization"@, self.organization)
        &&& holds(j, "sender"@, self.sender)
    }

    open spec fn mismatch(j: JsonView) -> bool {
        !(j is Object)
    }

    fn from_json(j: &Json) -> (r: Result<OrgBlockEvent, DecodeError>) {
        if !j.is_object() {
            return Err(DecodeError::Mismatch);
        }
        let action = required(j, "action")?;
        let blocked_user = required(j, "blocked_user")?;
        let organization = required(j, "organization")?;
        let sender = required(j, "sender")?;
        Ok(OrgBlockEvent {
            action,
            blocked_user,
            organization,
            sender,
        })
    }
}

/// A GitHub Pages build finished (`page_build`).
#[derive(Debug)]
pub struct PageBuildEvent {
    pub id: i64,
    pub build: PageBuild,
    pub repository: Repository,
    pub organization: Option<Organization>,
    pub sender: Actor,
}

impl Record for PageBuildEvent {
    open spec fn accepts(j: JsonView) -> bool {
        &&& j is Object
        &&& has::<i64>(j, "id"@)
        &&& has::<PageBuild>(j, "build"@)
        &&& has::<Repository>(j, "repository"@)
        &&& may_have::<Organization>(j, "organization"@)
        &&& has::<Actor>(j, "sender"@)
    }

    open spec fn describes(&self, j: JsonView) -> bool {
        &&& holds(j, "id"@, self.id)
        &&& holds(j, "build"@, self.build)
        &&& holds(j, "repository"@, self.repository)
        &&& may_hold(j, "organization"@, self.organization)
        &&& holds(j, "sender"@, self.sender)
    }

    open spec fn mismatch(j: JsonView) -> bool {
        !(j is Object)
    }

    fn from_json(j: &Json) -> (r: Result<PageBuildEvent, DecodeError>) {
        if !j.is_object() {
            return Err(DecodeError::Mismatch);
        }
        let id = required(j, "id")?;
        let build = required(j, "build")?;
        let repository = required(j, "repository")?;
        let organization = optional(j, "organization")?;
        let sender = required(j, "sender")?;
        Ok(PageBuildEvent {
            id,
            build,
            repository,
            organization,
            sender,
        })
    }
}

/// A new webhook was set up (`ping`).
#[derive(Debug)]
pub struct PingEvent {
    pub zen: String,
    pub hook_id: i64,
    pub hook: Hook,
    pub repository: Option<Repository>,
    pub organization: Option<Organization>,
    pub sender: Actor,
}

impl Record for PingEvent {
    open spec fn accepts(j: JsonView) -> bool {
        &&& j is Object
        &&& has::<String>(j, "zen"@)
        &&& has::<i64>(j, "hook_id"@)
        &&& has::<Hook>(j, "hook"@)
        &&& may_have::<Repository>(j, "repository"@)
        &&& may_have::<Organization>(j, "organization"@)
        &&& has::<Actor>(j, "sender"@)
    }

    open spec fn describes(&self, j: JsonView) -> bool {
        &&& holds(j, "zen"@, self.zen)
        &&& holds(j, "hook_id"@, self.hook_id)
        &&& holds(j, "hook"@, self.hook)
        &&& may_hold(j, "repository"@, self.repository)
        &&& may_hold(j, "organization"@, self.organization)
        &&& holds(j, "sender"@, self.sender)
    }

    open spec fn mismatch(j: JsonView) -> bool {
        !(j is Object)
    }

    fn from_json(j: &Json) -> (r: Result<PingEvent, DecodeError>) {
        if !j.is_object() {
            return Err(DecodeError::Mismatch);
        }
        let zen = required(j, "zen")?;
        let hook_id = required(j, "hook_id")?;
        let hook = required(j, "hook")?;
        let repository = optional(j, "repository")?;
        let organization = optional(j, "organization")?;
        let sender = required(j, "sender")?;
        Ok(PingEvent {
            zen,
            hook_id,
            hook,
            repository,
            organization,
            sender,
        })
    }
}

/// Activity on a project card (`project_card`).
#[derive(Debug)]
pub struct ProjectCardEvent {
    pub action: String,
    pub changes: Option<ProjectCardChanges>,
    pub project_card: ProjectCard,
    pub repository: Option<Repository>,
    pub organization: Option<Organization>,
    pub sender: Actor,
}

impl Record for ProjectCardEvent {
    open spec fn accepts(j: JsonView) -> bool {
        &&& j is Object
        &&& has::<String>(j, "action"@)
        &&& may_have::<ProjectCardChanges>(j, "changes"@)
        &&& has::<ProjectCard>(j, "project_card"@)
        &&& may_have::<Repository>(j, "repository"@)
        &&& may_have::<Organization>(j, "organization"@)
        &&& has::<Actor>(j, "sender"@)
    }

    open spec fn describes(&self, j: JsonView) -> bool {
        &&& holds(j, "action"@, self.action)
        &&& may_hold(j, "changes"@, self.changes)
        &&& holds(j, "project_card"@, self.project_card)
        &&& may_hold(j, "repository"@, self.repository)
        &&& may_hold(j, "organization"@, self.organization)
        &&& holds(j, "sender"@, self.sender)
    }

    open spec fn mismatch(j: JsonView) -> bool {
        !(j is Object)
    }

    fn from_json(j: &Json) -> (r: Result<ProjectCardEvent, DecodeError>) {
        if !j.is_object() {
            return Err(DecodeError::Mismatch);
        }
        let action = required(j, "action")?;
        let changes = optional(j, "changes")?;
        let project_card = required(j, "project_card")?;
        let repository = optional(j, "repository")?;
        let organization = optional(j, "organization")?;
        let sender = required(j, "sender")?;
        Ok(ProjectCardEvent {
            action,
            changes,
            project_card,
            repository,
            organization,
            sender,
        })
    }
}

/// Activity on a project column (`project_column`).
#[derive(Debug)]
pub struct ProjectColumnEvent {
    pub action: String,
    pub changes: Option<ProjectColumnChanges>,
    pub project_column: ProjectColumn,
    pub repository: Option<Repository>,
    pub organization: Option<Organization>,
    pub sender: Actor,
}

impl Record for ProjectColumnEvent {
    open spec fn accepts(j: JsonView) -> bool {
        &&& j is Object
        &&& has::<String>(j, "action"@)
        &&& may_have::<ProjectColumnChanges>(j, "changes"@)
        &&& has::<ProjectColumn>(j, "project_column"@)
        &&& may_have::<Repository>(j, "repository"@)
        &&& may_have::<Organization>(j, "organization"@)
        &&& has::<Actor>(j, "sender"@)
    }

    open spec fn describes(&self, j: JsonView) -> bool {
        &&& holds(j, "action"@, self.action)
        &&& may_hold(j, "changes"@, self.changes)
        &&& holds(j, "project_column"@, self.project_column)
        &&& may_hold(j, "repository"@, self.repository)
        &&& may_hold(j, "organization"@, self.organization)
        &&& holds(j, "sender"@, self.sender)
    }

    open spec fn mismatch(j: JsonView) -> bool {
        !(j is Object)
    }

    fn from_json(j: &Json) -> (r: Result<ProjectColumnEvent, DecodeError>) {
        if !j.is_object() {
            return Err(DecodeError::Mismatch);
        }
        let action = required(j, "action")?;
        let changes = optional(j, "changes")?;
        let project_column = required(j, "project_column")?;
        let repository = optional(j, "repository")?;
        let organization = optional(j, "organization")?;
        let sender = required(j, "sender")?;
        Ok(ProjectColumnEvent {
            action,
            changes,
            project_column,
            repository,
            organization,
            sender,
        })
    }
}

/// Activity on a project board (`project`).
#[derive(Debug)]
pub struct ProjectEvent {
    pub action: String,
    pub changes: Option<ProjectChanges>,
    pub project: Project,
    pub repository: Repository,
    pub organization: Option<Organization>,
    pub sender: Actor,
}

impl Record for ProjectEvent {
    open spec fn accepts(j: JsonView) -> bool {
        &&& j is Object
        &&& has::<String>(j, "action"@)
        &&& may_have::<ProjectChanges>(j, "changes"@)
        &&& has::<Project>(j, "project"@)
        &&& has::<Repository>(j, "repository"@)
        &&& may_have::<Organization>(j, "organization"@)
        &&& has::<Actor>(j, "sender"@)
    }

    open spec fn describes(&self, j: JsonView) -> bool {
        &&& holds(j, "action"@, self.action)
        &&& may_hold(j, "changes"@, self.changes)
        &&& holds(j, "project"@, self.project)
        &&& holds(j, "repository"@, self.repository)
        &&& may_hold(j, "organization"@, self.organization)
        &&& holds(j, "sender"@, self.sender)
    }

    open spec fn mismatch(j: JsonView) -> bool {
        !(j is Object)
    }

    fn from_json(j: &Json) -> (r: Result<ProjectEvent, DecodeError>) {
        if !j.is_object() {
            return Err(DecodeError::Mismatch);
        }
        let action = required(j, "action")?;
        let changes = optional(j, "changes")?;
        let project = required(j, "project")?;
        let repository = required(j, "repository")?;
        let organization = optional(j, "organization")?;
        let sender = required(j, "sender")?;
        Ok(ProjectEvent {
            action,
            changes,
            project,
            repository,
            organization,
            sender,
        })
    }
}

/// A private repository was made public (`public`).
#[derive(Debug)]
pub struct PublicEvent {
    pub repository: Repository,
    pub sender: Actor,
}

impl Record for PublicEvent {
    open spec fn accepts(j: JsonView) -> bool {
        &&& j is Object
        &&& has::<Repository>(j, "repository"@)
        &&& has::<Actor>(j, "sender"@)
    }

    open spec fn describes(&self, j: JsonView) -> bool {
        &&& holds(j, "repository"@, self.repository)
        &&& holds(j, "sender"@, self.sender)
    }

    open spec fn mismatch(j: JsonView) -> bool {
        !(j is Object)
    }

    fn from_json(j: &Json) -> (r: Result<PublicEvent, DecodeError>) {
        if !j.is_object() {
            return Err(DecodeError::Mismatch);
        }
        let repository = required(j, "repository")?;
        let sender = required(j, "sender")?;
        Ok(PublicEvent {
            repository,
            sender,
        })
    }
}

/// Activity on a pull request (`pull_request`).
#[derive(Debug)]
pub struct PullRequestEvent {
    pub action: String,
    pub number: i64,
    pub pull_request: PullRequest,
    pub label: Option<Label>,
    pub repository: Repository,
    pub sender: Actor,
    pub changes: Option<IssueChanges>,
    pub assignee: Option<Actor>,
    pub requested_reviewer: Option<Actor>,
    pub requested_team: Option<Team>,
    pub installation: Option<InstallationId>,
}

impl Record for PullRequestEvent {
    open spec fn accepts(j: JsonView) -> bool {
        &&& j is Object
        &&& has::<String>(j, "action"@)
        &&& has::<i64>(j, "number"@)
        &&& has::<PullRequest>(j, "pull_request"@)
        &&& may_have::<Label>(j, "label"@)
        &&& has::<Repository>(j, "repository"@)
        &&& has::<Actor>(j, "sender"@)
        &&& may_have::<IssueChanges>(j, "changes"@)
        &&& may_have::<Actor>(j, "assignee"@)
        &&& may_have::<Actor>(j, "requested_reviewer"@)
        &&& may_have::<Team>(j, "requested_team"@)
        &&& may_have::<InstallationId>(j, "installation"@)
    }

    open spec fn describes(&self, j: JsonView) -> bool {
        &&& holds(j, "action"@, self.action)
        &&& holds(j, "number"@, self.number)
        &&& holds(j, "pull_request"@, self.pull_request)
        &&& may_hold(j, "label"@, self.label)
        &&& holds(j, "repository"@, self.repository)
        &&& holds(j, "sender"@, self.sender)
        &&& may_hold(j, "changes"@, self.changes)
        &&& may_hold(j, "assignee"@, self.assignee)
        &&& may_hold(j, "requested_reviewer"@, self.requested_reviewer)
        &&& may_hold(j, "requested_team"@, self.requested_team)
        &&& may_hold(j, "installation"@, self.installation)
    }

    open spec fn mismatch(j: JsonView) -> bool {
        !(j is Object)
    }

    fn from_json(j: &Json) -> (r: Result<PullRequestEvent, DecodeError>) {
        if !j.is_object() {
            return Err(DecodeError::Mismatch);
        }
        let action = required(j, "action")?;
        let number = required(j, "number")?;
        let pull_request = required(j, "pull_request")?;
        let label = optional(j, "label")?;
        let repository = required(j, "repository")?;
        let sender = required(j, "sender")?;
        let changes = optional(j, "changes")?;
        let assignee = optional(j, "assignee")?;
        let requested_reviewer = optional(j, "requested_reviewer")?;
        let requested_team = optional(j, "requested_team")?;
        let installation = optional(j, "installation")?;
        Ok(PullRequestEvent {
            action,
            number,
            pull_request,
            label,
            repository,
            sender,
            changes,
            assignee,
            requested_reviewer,
            requested_team,
            installation,
        })
    }
}

/// Activity on a pull request review (`pull_request_review`).
#[derive(Debug)]
pub struct PullRequestReviewEvent {
    pub action: String,
    pub review: Review,
    pub pull_request: PullRequest,
    pub repository: Repository,
    pub sender: Actor,
    pub installation: InstallationId,
}

impl Record for PullRequestReviewEvent {
    open spec fn accepts(j: JsonView) -> bool {
        &&& j is Object
        &&& has::<String>(j, "action"@)
        &&& has::<Review>(j, "review"@)
        &&& has::<PullRequest>(j, "pull_request"@)
        &&& has::<Repository>(j, "repository"@)
        &&& has::<Actor>(j, "sender"@)
        &&& has::<InstallationId>(j, "installation"@)
    }

    open spec fn describes(&self, j: JsonView) -> bool {
        &&& holds(j, "action"@, self.action)
        &&& holds(j, "review"@, self.review)
        &&& holds(j, "pull_request"@, self.pull_request)
        &&& holds(j, "repository"@, self.repository)
        &&& holds(j, "sender"@, self.sender)
        &&& holds(j, "installation"@, self.installation)
    }

    open spec fn mismatch(j: JsonView) -> bool {
        !(j is Object)
    }

    fn from_json(j: &Json) -> (r: Result<PullRequestReviewEvent, DecodeError>) {
        if !j.is_object() {
            return Err(DecodeError::Mismatch);
        }
        let action = required(j, "action")?;
        let review = required(j, "review")?;
        let pull_request = required(j, "pull_request")?;
        let repository = required(j, "repository")?;
        let sender = required(j, "sender")?;
        let installation = required(j, "installation")?;
        Ok(PullRequestReviewEvent {
            action,
            review,
            pull_request,
            repository,
            sender,
            installation,
        })
    }
}

/// Activity on a pull request review comment (`pull_request_review_comment`).
#[derive(Debug)]
pub struct PullRequestReviewCommentEvent {
    pub action: String,
    pub comment: PullRequestReviewComment,
    pub pull_request: PullRequest,
    pub repository: Repository,
    pub sender: Actor,
    pub installation: InstallationId,
}

impl Record for PullRequestReviewCommentEvent {
    open spec fn accepts(j: JsonView) -> bool {
        &&& j is Object
        &&& has::<String>(j, "action"@)
        &&& has::<PullRequestReviewComment>(j, "comment"@)
        &&& has::<PullRequest>(j, "pull_request"@)
        &&& has::<Repository>(j, "repository"@)
        &&& has::<Actor>(j, "sender"@)
        &&& has::<InstallationId>(j, "installation"@)
    }

    open spec fn describes(&self, j: JsonView) -> bool {
        &&& holds(j, "action"@, self.action)
        &&& holds(j, "comment"@, self.comment)
        &&& holds(j, "pull_request"@, self.pull_request)
        &&& holds(j, "repository"@, self.repository)
        &&& holds(j, "sender"@, self.sender)
        &&& holds(j, "installation"@, self.installation)
    }

    open spec fn mismatch(j: JsonView) -> bool {
        !(j is Object)
    }

    fn from_json(j: &Json) -> (r: Result<PullRequestReviewCommentEvent, DecodeError>) {
        if !j.is_object() {
            return Err(DecodeError::Mismatch);
        }
        let action = required(j, "action")?;
        let comment = required(j, "comment")?;
        let pull_request = required(j, "pull_request")?;
        let repository = required(j, "repository")?;
        let sender = required(j, "sender")?;
        let installation = required(j, "installation")?;
        Ok(PullRequestReviewCommentEvent {
            action,
            comment,
            pull_request,
            repository,
            sender,
            installation,
        })
    }
}

/// Commits were pushed to a branch or tag (`push`).
#[derive(Debug)]
pub struct PushEvent {
    pub refer: String,
    pub before: String,
    pub after: String,
    pub created: bool,
    pub deleted: bool,
    pub forced: bool,
    pub base_ref: Option<String>,
    pub compare: String,
    pub repository: Repository,
    pub pusher: Pusher,
    pub sender: Actor,
    pub commits: Vec<Commit>,
    pub head_commit: Option<Commit>,
}

impl Record for PushEvent {
    open spec fn accepts(j: JsonView) -> bool {
        &&& j is Object
        &&& has::<String>(j, "ref"@)
        &&& has::<String>(j, "before"@)
        &&& has::<String>(j, "after"@)
        &&& has::<bool>(j, "created"@)
        &&& has::<bool>(j, "deleted"@)
        &&& has::<bool>(j, "forced"@)
        &&& may_have::<String>(j, "base_ref"@)
        &&& has::<String>(j, "compare"@)
        &&& has::<Repository>(j, "repository"@)
        &&& has::<Pusher>(j, "pusher"@)
        &&& has::<Actor>(j, "sender"@)
        &&& has::<Vec<Commit>>(j, "commits"@)
        &&& may_have::<Commit>(j, "head_commit"@)
    }

    open spec fn describes(&self, j: JsonView) -> bool {
        &&& holds(j, "ref"@, self.refer)
        &&& holds(j, "before"@, self.before)
        &&& holds(j, "after"@, self.after)
        &&& holds(j, "created"@, self.created)
        &&& holds(j, "deleted"@, self.deleted)
        &&& holds(j, "forced"@, self.forced)
        &&& may_hold(j, "base_ref"@, self.base_ref)
        &&& holds(j, "compare"@, self.compare)
        &&& holds(j, "repository"@, self.repository)
        &&& holds(j, "pusher"@, self.pusher)
        &&& holds(j, "sender"@, self.sender)
        &&& holds(j, "commits"@, self.commits)
        &&& may_hold(j, "head_commit"@, self.head_commit)
    }

    open spec fn mismatch(j: JsonView) -> bool {
        !(j is Object)
    }

    fn from_json(j: &Json) -> (r: Result<PushEvent, DecodeError>) {
        if !j.is_object() {
            return Err(DecodeError::Mismatch);
        }
        let refer = required(j, "ref")?;
        let before = required(j, "before")?;
        let after = required(j, "after")?;
        let created = required(j, "created")?;
        let deleted = required(j, "deleted")?;
        let forced = required(j, "forced")?;
        let base_ref = optional(j, "base_ref")?;
        let compare = required(j, "compare")?;
        let repository = required(j, "repository")?;
        let pusher = required(j, "pusher")?;
        let sender = required(j, "sender")?;
        let commits = required(j, "commits")?;
        let head_commit = optional(j, "head_commit")?;
        Ok(PushEvent {
            refer,
            before,
            after,
            created,
            deleted,
            forced,
            base_ref,
            compare,
            repository,
            pusher,
            sender,
            commits,
            head_commit,
        })
    }
}

/// Activity on a release (`release`).
#[derive(Debug)]
pub struct ReleaseEvent {
    pub action: String,
    pub release: Release,
    pub repository: Repository,
    pub sender: Actor,
}

impl Record for ReleaseEvent {
    open spec fn accepts(j: JsonView) -> bool {
        &&& j is Object
        &&& has::<String>(j, "action"@)
        &&& has::<Release>(j, "release"@)
        &&& has::<Repository>(j, "repository"@)
        &&& has::<Actor>(j, "sender"@)
    }

    open spec fn describes(&self, j: JsonView) -> bool {
        &&& holds(j, "action"@, self.action)
        &&& holds(j, "release"@, self.release)
        &&& holds(j, "repository"@, self.repository)
        &&& holds(j, "sender"@, self.sender)
    }

    open spec fn mismatch(j: JsonView) -> bool {
        !(j is Object)
    }

    fn from_json(j: &Json) -> (r: Result<ReleaseEvent, DecodeError>) {
        if !j.is_object() {
            return Err(DecodeError::Mismatch);
        }
        let action = required(j, "action")?;
        let release = required(j, "release")?;
        let repository = required(j, "repository")?;
        let sender = required(j, "sender")?;
        Ok(ReleaseEvent {
            action,
            release,
            repository,
            sender,
        })
    }
}

/// Activity on a repository (`repository`).
#[derive(Debug)]
pub struct RepositoryEvent {
    pub action: String,
    pub repository: Repository,
    pub organization: Option<Organization>,
    pub sender: Actor,
}

impl Record for RepositoryEvent {
    open spec fn accepts(j: JsonView) -> bool {
        &&& j is Object
        &&& has::<String>(j, "action"@)
        &&& has::<Repository>(j, "repository"@)
        &&& may_have::<Organization>(j, "organization"@)
        &&& has::<Actor>(j, "sender"@)
    }

    open spec fn describes(&self, j: JsonView) -> bool {
        &&& holds(j, "action"@, self.action)
        &&& holds(j, "repository"@, self.repository)
        &&& may_hold(j, "organization"@, self.organization)
        &&& holds(j, "sender"@, self.sender)
    }

    open spec fn mismatch(j: JsonView) -> bool {
        !(j is Object)
    }

    fn from_json(j: &Json) -> (r: Result<RepositoryEvent, DecodeError>) {
        if !j.is_object() {
            return Err(DecodeError::Mismatch);
        }
        let action = required(j, "action")?;
        let repository = required(j, "repository")?;
        let organization = optional(j, "organization")?;
        let sender = required(j, "sender")?;
        Ok(RepositoryEvent {
            action,
            repository,
            organization,
            sender,
        })
    }
}

/// Activity on a dependency security alert (`repository_vulnerability_alert`).
#[derive(Debug)]
pub struct RepositoryVulnerabilityAlertEvent {
    pub action: String,
    pub alert: RepositoryVulnerabilityAlert,
    pub repository: Repository,
    pub organization: Option<Organization>,
    pub sender: Actor,
}

impl Record for RepositoryVulnerabilityAlertEvent {
    open spec fn accepts(j: JsonView) -> bool {
        &&& j is Object
        &&& has::<String>(j, "action"@)
        &&& has::<RepositoryVulnerabilityAlert>(j, "alert"@)
        &&& has::<Repository>(j, "repository"@)
        &&& may_have::<Organization>(j, "organization"@)
        &&& has::<Actor>(j, "sender"@)
    }

    open spec fn describes(&self, j: JsonView) -> bool {
        &&& holds(j, "action"@, self.action)
        &&& holds(j, "alert"@, self.alert)
        &&& holds(j, "repository"@, self.repository)
        &&& may_hold(j, "organization"@, self.organization)
        &&& holds(j, "sender"@, self.sender)
    }

    open spec fn mismatch(j: JsonView) -> bool {
        !(j is Object)
    }

    fn from_json(j: &Json) -> (r: Result<RepositoryVulnerabilityAlertEvent, DecodeError>) {
        if !j.is_object() {
            return Err(DecodeError::Mismatch);
        }
        let action = required(j, "action")?;
        let alert = required(j, "alert")?;
        let repository = required(j, "repository")?;
        let organization = optional(j, "organization")?;
        let sender = required(j, "sender")?;
        Ok(RepositoryVulnerabilityAlertEvent {
            action,
            alert,
            repository,
            organization,
            sender,
        })
    }
}

/// A repository was starred or unstarred (`star`).
#[derive(Debug)]
pub struct StarEvent {
    pub action: String,
    pub starred_at: Option<Timestamp>,
    pub repository: Repository,
    pub sender: Actor,
}

impl Record for StarEvent {
    open spec fn accepts(j: JsonView) -> bool {
        &&& j is Object
        &&& has::<String>(j, "action"@)
        &&& may_have::<Timestamp>(j, "starred_at"@)
        &&& has::<Repository>(j, "repository"@)
        &&& has::<Actor>(j, "sender"@)
    }

    open spec fn describes(&self, j: JsonView) -> bool {
        &&& holds(j, "action"@, self.action)
        &&& may_hold(j, "starred_at"@, self.starred_at)
        &&& holds(j, "repository"@, self.repository)
        &&& holds(j, "sender"@, self.sender)
    }

    open spec fn mismatch(j: JsonView) -> bool {
        !(j is Object)
    }

    fn from_json(j: &Json) -> (r: Result<StarEvent, DecodeError>) {
        if !j.is_object() {
            return Err(DecodeError::Mismatch);
        }
        let action = required(j, "action")?;
        let starred_at = optional(j, "starred_at")?;
        let repository = required(j, "repository")?;
        let sender = required(j, "sender")?;
        Ok(StarEvent {
            action,
            starred_at,
            repository,
            sender,
        })
    }
}

/// The status of a commit changed (`status`).
#[derive(Debug)]
pub struct StatusEvent {
    pub id: i64,
    pub sha: String,
    pub name: String,
    pub avatar_url: Option<String>,
    pub target_url: Option<String>,
    pub context: String,
    pub description: Option<String>,
    pub state: String,
    pub created_at: Timestamp,
    pub updated_at: Timestamp,
    pub repository: Repository,
    pub sender: Actor,
    pub organization: Option<Organization>,
    pub branches: Vec<StatusBranch>,
}

impl Record for StatusEvent {
    open spec fn accepts(j: JsonView) -> bool {
        &&& j is Object
        &&& has::<i64>(j, "id"@)
        &&& has::<String>(j, "sha"@)
        &&& has::<String>(j, "name"@)
        &&& may_have::<String>(j, "avatar_url"@)
        &&& may_have::<String>(j, "target_url"@)
        &&& has::<String>(j, "context"@)
        &&& may_have::<String>(j, "description"@)
        &&& has::<String>(j, "state"@)
        &&& has::<Timestamp>(j, "created_at"@)
        &&& has::<Timestamp>(j, "updated_at"@)
        &&& has::<Repository>(j, "repository"@)
        &&& has::<Actor>(j, "sender"@)
        &&& may_have::<Organization>(j, "organization"@)
        &&& has::<Vec<StatusBranch>>(j, "branches"@)
    }

    open spec fn describes(&self, j: JsonView) -> bool {
        &&& holds(j, "id"@, self.id)
        &&& holds(j, "sha"@, self.sha)
        &&& holds(j, "name"@, self.name)
        &&& may_hold(j, "avatar_url"@, self.avatar_url)
        &&& may_hold(j, "target_url"@, self.target_url)
        &&& holds(j, "context"@, self.context)
        &&& may_hold(j, "description"@, self.description)
        &&& holds(j, "state"@, self.state)
        &&& holds(j, "created_at"@, self.created_at)
        &&& holds(j, "updated_at"@, self.updated_at)
        &&& holds(j, "repository"@, self.repository)
        &&& holds(j, "sender"@, self.sender)
        &&& may_hold(j, "organization"@, self.organization)
        &&& holds(j, "branches"@, self.branches)
    }

    open spec fn mismatch(j: JsonView) -> bool {
        !(j is Object)
    }

    fn from_json(j: &Json) -> (r: Result<StatusEvent, DecodeError>) {
        if !j.is_object() {
            return Err(DecodeError::Mismatch);
        }
        let id = required(j, "id")?;
        let sha = required(j, "sha")?;
        let name = required(j, "name")?;
        let avatar_url = optional(j, "avatar_url")?;
        let target_url = optional(j, "target_url")?;
        let context = required(j, "context")?;
        let description = optional(j, "description")?;
        let state = required(j, "state")?;
        let created_at = required(j, "created_at")?;
        let updated_at = required(j, "updated_at")?;
        let repository = required(j, "repository")?;
        let sender = required(j, "sender")?;
        let organization = optional(j, "organization")?;
        let branches = required(j, "branches")?;
        Ok(StatusEvent {
            id,
            sha,
            name,
            avatar_url,
            target_url,
            context,
            description,
            state,
            created_at,
            updated_at,
            repository,
            sender,
            organization,
            branches,
        })
    }
}

/// A repository was added to a team (`team_add`).
#[derive(Debug)]
pub struct TeamAddEvent {
    pub team: Team,
    pub repository: Repository,
    pub organization: Organization,
    pub sender: Actor,
}

impl Record for TeamAddEvent {
    open spec fn accepts(j: JsonView) -> bool {
        &&& j is Object
        &&& has::<Team>(j, "team"@)
        &&& has::<Repository>(j, "repository"@)
        &&& has::<Organization>(j, "organization"@)
        &&& has::<Actor>(j, "sender"@)
    }

    open spec fn describes(&self, j: JsonView) -> bool {
        &&& holds(j, "team"@, self.team)
        &&& holds(j, "repository"@, self.repository)
        &&& holds(j, "organization"@, self.organization)
        &&& holds(j, "sender"@, self.sender)
    }

    open spec fn mismatch(j: JsonView) -> bool {
        !(j is Object)
    }

    fn from_json(j: &Json) -> (r: Result<TeamAddEvent, DecodeError>) {
        if !j.is_object() {
            return Err(DecodeError::Mismatch);
        }
        let team = required(j, "team")?;
        let repository = required(j, "repository")?;
        let organization = required(j, "organization")?;
        let sender = required(j, "sender")?;
        Ok(TeamAddEvent {
            team,
            repository,
            organization,
            sender,
        })
    }
}

/// Activity on a team (`team`).
#[derive(Debug)]
pub struct TeamEvent {
    pub action: String,
    pub team: Team,
    pub organization: Organization,
    pub sender: Actor,
}

impl Record for TeamEvent {
    open spec fn accepts(j: JsonView) -> bool {
        &&& j is Object
        &&& has::<String>(j, "action"@)
        &&& has::<Team>(j, "team"@)
        &&& has::<Organization>(j, "organization"@)
        &&& has::<Actor>(j, "sender"@)
    }

    open spec fn describes(&self, j: JsonView) -> bool {
        &&& holds(j, "action"@, self.action)
        &&& holds(j, "team"@, self.team)
        &&& holds(j, "organization"@, self.organization)
        &&& holds(j, "sender"@, self.sender)
    }

    open spec fn mismatch(j: JsonView) -> bool {
        !(j is Object)
    }

    fn from_json(j: &Json) -> (r: Result<TeamEvent, DecodeError>) {
        if !j.is_object() {
            return Err(DecodeError::Mismatch);
        }
        let action = required(j, "action")?;
        let team = required(j, "team")?;
        let organization = required(j, "organization")?;
        let sender = required(j, "sender")?;
        Ok(TeamEvent {
            action,
            team,
            organization,
            sender,
        })
    }
}

/// Someone started watching a repository (`watch`).
#[derive(Debug)]
pub struct WatchEvent {
    pub action: String,
    pub repository: Repository,
    pub sender: Actor,
}

impl Record for WatchEvent {
    open spec fn accepts(j: JsonView) -> bool {
        &&& j is Object
        &&& has::<String>(j, "action"@)
        &&& has::<Repository>(j, "repository"@)
        &&& has::<Actor>(j, "sender"@)
    }

    open spec fn describes(&self, j: JsonView) -> bool {
        &&& holds(j, "action"@, self.action)
        &&& holds(j, "repository"@, self.repository)
        &&& holds(j, "sender"@, self.sender)
    }

    open spec fn mismatch(j: JsonView) -> bool {
        !(j is Object)
    }

    fn from_json(j: &Json) -> (r: Result<WatchEvent, DecodeError>) {
        if !j.is_object() {
            return Err(DecodeError::Mismatch);
        }
        let action = required(j, "action")?;
        let repository = required(j, "repository")?;
        let sender = required(j, "sender")?;
        Ok(WatchEvent {
            action,
            repository,
            sender,
        })
    }
}

/// A workflow run was requested by hand (`workflow_dispatch`).
#[derive(Debug)]
pub struct WorkflowDispatchEvent {
    pub refer: String,
    pub repository: Repository,
    pub sender: Actor,
    pub organization: Option<Organization>,
    pub workflow: String,
    pub inputs: Json,
}

impl Record for WorkflowDispatchEvent {
    open spec fn accepts(j: JsonView) -> bool {
        &&& j is Object
        &&& has::<String>(j, "ref"@)
        &&& has::<Repository>(j, "repository"@)
        &&& has::<Actor>(j, "sender"@)
        &&& may_have::<Organization>(j, "organization"@)
        &&& has::<String>(j, "workflow"@)
        &&& has::<Json>(j, "inputs"@)
    }

    open spec fn describes(&self, j: JsonView) -> bool {
        &&& holds(j, "ref"@, self.refer)
        &&& holds(j, "repository"@, self.repository)
        &&& holds(j, "sender"@, self.sender)
        &&& may_hold(j, "organization"@, self.organization)
        &&& holds(j, "workflow"@, self.workflow)
        &&& holds(j, "inputs"@, self.inputs)
    }

    open spec fn mismatch(j: JsonView) -> bool {
        !(j is Object)
    }

    fn from_json(j: &Json) -> (r: Result<WorkflowDispatchEvent, DecodeError>) {
        if !j.is_object() {
            return Err(DecodeError::Mismatch);
        }
        let refer = required(j, "ref")?;
        let repository = required(j, "repository")?;
        let sender = required(j, "sender")?;
        let organization = optional(j, "organization")?;
        let workflow = required(j, "workflow")?;
        let inputs = required(j, "inputs")?;
        Ok(WorkflowDispatchEvent {
            refer,
            repository,
            sender,
            organization,
            workflow,
            inputs,
        })
    }
}

} // verus!
