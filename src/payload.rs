use vstd::prelude::*;

use crate::decode::{DecodeError, Record};
use crate::events::{
    CheckRunEvent, CheckSuiteEvent, CommitCommentEvent, CreateEvent, DeleteEvent, DeployKeyEvent,
    DeploymentEvent, DeploymentStatusEvent, ForkEvent, GollumEvent, InstallationEvent,
    InstallationRepositoriesEvent, IssuesEvent, IssueCommentEvent, LabelEvent, MemberEvent,
    MembershipEvent, MetaEvent, MilestoneEvent, OrganizationEvent, OrgBlockEvent, PageBuildEvent,
    PingEvent, ProjectCardEvent, ProjectColumnEvent, ProjectEvent, PublicEvent, PullRequestEvent,
    PullRequestReviewEvent, PullRequestReviewCommentEvent, PushEvent, ReleaseEvent, RepositoryEvent,
    RepositoryVulnerabilityAlertEvent, StarEvent, StatusEvent, TeamAddEvent, TeamEvent, WatchEvent,
    WorkflowDispatchEvent,
};
use crate::json::{parsed_json, Json, JsonView};

verus! {

/// The kinds of event that the registry knows, one per event tag.
#[derive(Clone, Copy, Debug, PartialEq, Eq, Structural)]
pub enum EventKind {
    CheckRun,
    CheckSuite,
    CommitComment,
    Create,
    Delete,
    DeployKey,
    Deployment,
    DeploymentStatus,
    Fork,
    Gollum,
    Installation,
    InstallationRepositories,
    Issues,
    IssueComment,
    Label,
    Member,
    Membership,
    Meta,
    Milestone,
    Organization,
    OrgBlock,
    PageBuild,
    Ping,
    ProjectCard,
    ProjectColumn,
    Project,
    Public,
    PullRequest,
    PullRequestReview,
    PullRequestReviewComment,
    Push,
    Release,
    Repository,
    RepositoryVulnerabilityAlert,
    Star,
    Status,
    TeamAdd,
    Team,
    Watch,
    WorkflowDispatch,
}

impl EventKind {
    /// The event tag that names this kind.
    pub open spec fn tag(self) -> Seq<char> {
        match self {
            EventKind::CheckRun => "check_run"@,
            EventKind::CheckSuite => "check_suite"@,
            EventKind::CommitComment => "commit_comment"@,
            EventKind::Create => "create"@,
            EventKind::Delete => "delete"@,
            EventKind::DeployKey => "deploy_key"@,
            EventKind::Deployment => "deployment"@,
            EventKind::DeploymentStatus => "deployment_status"@,
            EventKind::Fork => "fork"@,
            EventKind::Gollum => "gollum"@,
            EventKind::Installation => "installation"@,
            EventKind::InstallationRepositories => "installation_repositories"@,
            EventKind::Issues => "issues"@,
            EventKind::IssueComment => "issue_comment"@,
            EventKind::Label => "label"@,
            EventKind::Member => "member"@,
            EventKind::Membership => "membership"@,
            EventKind::Meta => "meta"@,
            EventKind::Milestone => "milestone"@,
            EventKind::Organization => "organization"@,
            EventKind::OrgBlock => "org_block"@,
            EventKind::PageBuild => "page_build"@,
            EventKind::Ping => "ping"@,
            EventKind::ProjectCard => "project_card"@,
            EventKind::ProjectColumn => "project_column"@,
            EventKind::Project => "project"@,
            EventKind::Public => "public"@,
            EventKind::PullRequest => "pull_request"@,
            EventKind::PullRequestReview => "pull_request_review"@,
            EventKind::PullRequestReviewComment => "pull_request_review_comment"@,
            EventKind::Push => "push"@,
            EventKind::Release => "release"@,
            EventKind::Repository => "repository"@,
            EventKind::RepositoryVulnerabilityAlert => "repository_vulnerability_alert"@,
            EventKind::Star => "star"@,
            EventKind::Status => "status"@,
            EventKind::TeamAdd => "team_add"@,
            EventKind::Team => "team"@,
            EventKind::Watch => "watch"@,
            EventKind::WorkflowDispatch => "workflow_dispatch"@,
        }
    }

    /// The documents that decode as an event of this kind.
    pub open spec fn accepts(self, j: JsonView) -> bool {
        match self {
            EventKind::CheckRun => CheckRunEvent::accepts(j),
            EventKind::CheckSuite => CheckSuiteEvent::accepts(j),
            EventKind::CommitComment => CommitCommentEvent::accepts(j),
            EventKind::Create => CreateEvent::accepts(j),
            EventKind::Delete => DeleteEvent::accepts(j),
            EventKind::DeployKey => DeployKeyEvent::accepts(j),
            EventKind::Deployment => DeploymentEvent::accepts(j),
            EventKind::DeploymentStatus => DeploymentStatusEvent::accepts(j),
            EventKind::Fork => ForkEvent::accepts(j),
            EventKind::Gollum => GollumEvent::accepts(j),
            EventKind::Installation => InstallationEvent::accepts(j),
            EventKind::InstallationRepositories => InstallationRepositoriesEvent::accepts(j),
            EventKind::Issues => IssuesEvent::accepts(j),
            EventKind::IssueComment => IssueCommentEvent::accepts(j),
            EventKind::Label => LabelEvent::accepts(j),
            EventKind::Member => MemberEvent::accepts(j),
            EventKind::Membership => MembershipEvent::accepts(j),
            EventKind::Meta => MetaEvent::accepts(j),
            EventKind::Milestone => MilestoneEvent::accepts(j),
            EventKind::Organization => OrganizationEvent::accepts(j),
            EventKind::OrgBlock => OrgBlockEvent::accepts(j),
            EventKind::PageBuild => PageBuildEvent::accepts(j),
            EventKind::Ping => PingEvent::accepts(j),
            EventKind::ProjectCard => ProjectCardEvent::accepts(j),
            EventKind::ProjectColumn => ProjectColumnEvent::accepts(j),
            EventKind::Project => ProjectEvent::accepts(j),
            EventKind::Public => PublicEvent::accepts(j),
            EventKind::PullRequest => PullRequestEvent::accepts(j),
            EventKind::PullRequestReview => PullRequestReviewEvent::accepts(j),
            EventKind::PullRequestReviewComment => PullRequestReviewCommentEvent::accepts(j),
            EventKind::Push => PushEvent::accepts(j),
            EventKind::Release => ReleaseEvent::accepts(j),
            EventKind::Repository => RepositoryEvent::accepts(j),
            EventKind::RepositoryVulnerabilityAlert => RepositoryVulnerabilityAlertEvent::accepts(j),
            EventKind::Star => StarEvent::accepts(j),
            EventKind::Status => StatusEvent::accepts(j),
            EventKind::TeamAdd => TeamAddEvent::accepts(j),
            EventKind::Team => TeamEvent::accepts(j),
            EventKind::Watch => WatchEvent::accepts(j),
            EventKind::WorkflowDispatch => WorkflowDispatchEvent::accepts(j),
        }
    }

    /// The kind that an event tag names, if any; the tag must match exactly.
    pub fn from_tag(tag: &str) -> (r: Option<EventKind>)
        ensures
            r == kind_of_tag(tag@),
    {
        let tag = tag.to_owned();
        if tag == "check_run".to_owned() {
            return Some(EventKind::CheckRun);
        }
        if tag == "check_suite".to_owned() {
            return Some(EventKind::CheckSuite);
        }
        if tag == "commit_comment".to_owned() {
            return Some(EventKind::CommitComment);
        }
        if tag == "create".to_owned() {
            return Some(EventKind::Create);
        }
        if tag == "delete".to_owned() {
            return Some(EventKind::Delete);
        }
        if tag == "deploy_key".to_owned() {
            return Some(EventKind::DeployKey);
        }
        if tag == "deployment".to_owned() {
            return Some(EventKind::Deployment);
        }
        if tag == "deployment_status".to_owned() {
            return Some(EventKind::DeploymentStatus);
        }
        if tag == "fork".to_owned() {
            return Some(EventKind::Fork);
        }
        if tag == "gollum".to_owned() {
            return Some(EventKind::Gollum);
        }
        if tag == "installation".to_owned() {
            return Some(EventKind::Installation);
        }
        if tag == "installation_repositories".to_owned() {
            return Some(EventKind::InstallationRepositories);
        }
        if tag == "issues".to_owned() {
            return Some(EventKind::Issues);
        }
        if tag == "issue_comment".to_owned() {
            return Some(EventKind::IssueComment);
        }
        if tag == "label".to_owned() {
            return Some(EventKind::Label);
        }
        if tag == "member".to_owned() {
            return Some(EventKind::Member);
        }
        if tag == "membership".to_owned() {
            return Some(EventKind::Membership);
        }
        if tag == "meta".to_owned() {
            return Some(EventKind::Meta);
        }
        if tag == "milestone".to_owned() {
            return Some(EventKind::Milestone);
        }
        if tag == "organization".to_owned() {
            return Some(EventKind::Organization);
        }
        if tag == "org_block".to_owned() {
            return Some(EventKind::OrgBlock);
        }
        if tag == "page_build".to_owned() {
            return Some(EventKind::PageBuild);
        }
        if tag == "ping".to_owned() {
            return Some(EventKind::Ping);
        }
        if tag == "project_card".to_owned() {
            return Some(EventKind::ProjectCard);
        }
        if tag == "project_column".to_owned() {
            return Some(EventKind::ProjectColumn);
        }
        if tag == "project".to_owned() {
            return Some(EventKind::Project);
        }
        if tag == "public".to_owned() {
            return Some(EventKind::Public);
        }
        if tag == "pull_request".to_owned() {
            return Some(EventKind::PullRequest);
        }
        if tag == "pull_request_review".to_owned() {
            return Some(EventKind::PullRequestReview);
        }
        if tag == "pull_request_review_comment".to_owned() {
            return Some(EventKind::PullRequestReviewComment);
        }
        if tag == "push".to_owned() {
            return Some(EventKind::Push);
        }
        if tag == "release".to_owned() {
            return Some(EventKind::Release);
        }
        if tag == "repository".to_owned() {
            return Some(EventKind::Repository);
        }
        if tag == "repository_vulnerability_alert".to_owned() {
            return Some(EventKind::RepositoryVulnerabilityAlert);
        }
        if tag == "star".to_owned() {
            return Some(EventKind::Star);
        }
        if tag == "status".to_owned() {
            return Some(EventKind::Status);
        }
        if tag == "team_add".to_owned() {
            return Some(EventKind::TeamAdd);
        }
        if tag == "team".to_owned() {
            return Some(EventKind::Team);
        }
        if tag == "watch".to_owned() {
            return Some(EventKind::Watch);
        }
        if tag == "workflow_dispatch".to_owned() {
            return Some(EventKind::WorkflowDispatch);
        }
        None
    }
}

/// The kind that `tag` names in the registry, if any.
pub open spec fn kind_of_tag(tag: Seq<char>) -> Option<EventKind> {
    if tag == "check_run"@ {
        Some(EventKind::CheckRun)
    } else if tag == "check_suite"@ {
        Some(EventKind::CheckSuite)
    } else if tag == "commit_comment"@ {
        Some(EventKind::CommitComment)
    } else if tag == "create"@ {
        Some(EventKind::Create)
    } else if tag == "delete"@ {
        Some(EventKind::Delete)
    } else if tag == "deploy_key"@ {
        Some(EventKind::DeployKey)
    } else if tag == "deployment"@ {
        Some(EventKind::Deployment)
    } else if tag == "deployment_status"@ {
        Some(EventKind::DeploymentStatus)
    } else if tag == "fork"@ {
        Some(EventKind::Fork)
    } else if tag == "gollum"@ {
        Some(EventKind::Gollum)
    } else if tag == "installation"@ {
        Some(EventKind::Installation)
    } else if tag == "installation_repositories"@ {
        Some(EventKind::InstallationRepositories)
    } else if tag == "issues"@ {
        Some(EventKind::Issues)
    } else if tag == "issue_comment"@ {
        Some(EventKind::IssueComment)
    } else if tag == "label"@ {
        Some(EventKind::Label)
    } else if tag == "member"@ {
        Some(EventKind::Member)
    } else if tag == "membership"@ {
        Some(EventKind::Membership)
    } else if tag == "meta"@ {
        Some(EventKind::Meta)
    } else if tag == "milestone"@ {
        Some(EventKind::Milestone)
    } else if tag == "organization"@ {
        Some(EventKind::Organization)
    } else if tag == "org_block"@ {
        Some(EventKind::OrgBlock)
    } else if tag == "page_build"@ {
        Some(EventKind::PageBuild)
    } else if tag == "ping"@ {
        Some(EventKind::Ping)
    } else if tag == "project_card"@ {
        Some(EventKind::ProjectCard)
    } else if tag == "project_column"@ {
        Some(EventKind::ProjectColumn)
    } else if tag == "project"@ {
        Some(EventKind::Project)
    } else if tag == "public"@ {
        Some(EventKind::Public)
    } else if tag == "pull_request"@ {
        Some(EventKind::PullRequest)
    } else if tag == "pull_request_review"@ {
        Some(EventKind::PullRequestReview)
    } else if tag == "pull_request_review_comment"@ {
        Some(EventKind::PullRequestReviewComment)
    } else if tag == "push"@ {
        Some(EventKind::Push)
    } else if tag == "release"@ {
        Some(EventKind::Release)
    } else if tag == "repository"@ {
        Some(EventKind::Repository)
    } else if tag == "repository_vulnerability_alert"@ {
        Some(EventKind::RepositoryVulnerabilityAlert)
    } else if tag == "star"@ {
        Some(EventKind::Star)
    } else if tag == "status"@ {
        Some(EventKind::Status)
    } else if tag == "team_add"@ {
        Some(EventKind::TeamAdd)
    } else if tag == "team"@ {
        Some(EventKind::Team)
    } else if tag == "watch"@ {
        Some(EventKind::Watch)
    } else if tag == "workflow_dispatch"@ {
        Some(EventKind::WorkflowDispatch)
    } else {
        None
    }
}

/// Each kind's tag names that kind, so no two kinds share a tag.
pub proof fn lemma_tag_names_kind(k: EventKind)
    ensures
        kind_of_tag(k.tag()) == Some(k),
{
    reveal_strlit("check_run");
    assert("check_run"@.len() == 9);
    assert("check_run"@[0] == 'c');
    reveal_strlit("check_suite");
    assert("check_suite"@.len() == 11);
    reveal_strlit("commit_comment");
    assert("commit_comment"@.len() == 14);
    assert("commit_comment"@[0] == 'c');
    reveal_strlit("create");
    assert("create"@.len() == 6);
    assert("create"@[0] == 'c');
    reveal_strlit("delete");
    assert("delete"@.len() == 6);
    assert("delete"@[0] == 'd');
    reveal_strlit("deploy_key");
    assert("deploy_key"@.len() == 10);
    assert("deploy_key"@[0] == 'd');
    assert("deploy_key"@[6] == '_');
    reveal_strlit("deployment");
    assert("deployment"@.len() == 10);
    assert("deployment"@[0] == 'd');
    assert("deployment"@[6] == 'm');
    reveal_strlit("deployment_status");
    assert("deployment_status"@.len() == 17);
    assert("deployment_status"@[0] == 'd');
    reveal_strlit("fork");
    assert("fork"@.len() == 4);
    assert("fork"@[0] == 'f');
    reveal_strlit("gollum");
    assert("gollum"@.len() == 6);
    assert("gollum"@[0] == 'g');
    reveal_strlit("installation");
    assert("installation"@.len() == 12);
    assert("installation"@[0] == 'i');
    reveal_strlit("installation_repositories");
    assert("installation_repositories"@.len() == 25);
    reveal_strlit("issues");
    assert("issues"@.len() == 6);
    assert("issues"@[0] == 'i');
    reveal_strlit("issue_comment");
    assert("issue_comment"@.len() == 13);
    reveal_strlit("label");
    assert("label"@.len() == 5);
    assert("label"@[0] == 'l');
    reveal_strlit("member");
    assert("member"@.len() == 6);
    assert("member"@[0] == 'm');
    reveal_strlit("membership");
    assert("membership"@.len() == 10);
    assert("membership"@[0] == 'm');
    reveal_strlit("meta");
    assert("meta"@.len() == 4);
    assert("meta"@[0] == 'm');
    reveal_strlit("milestone");
    assert("milestone"@.len() == 9);
    assert("milestone"@[0] == 'm');
    reveal_strlit("organization");
    assert("organization"@.len() == 12);
    assert("organization"@[0] == 'o');
    reveal_strlit("org_block");
    assert("org_block"@.len() == 9);
    assert("org_block"@[0] == 'o');
    reveal_strlit("page_build");
    assert("page_build"@.len() == 10);
    assert("page_build"@[0] == 'p');
    reveal_strlit("ping");
    assert("ping"@.len() == 4);
    assert("ping"@[0] == 'p');
    assert("ping"@[1] == 'i');
    reveal_strlit("project_card");
    assert("project_card"@.len() == 12);
    assert("project_card"@[0] == 'p');
    assert("project_card"@[1] == 'r');
    reveal_strlit("project_column");
    assert("project_column"@.len() == 14);
    assert("project_column"@[0] == 'p');
    reveal_strlit("project");
    assert("project"@.len() == 7);
    assert("project"@[0] == 'p');
    reveal_strlit("public");
    assert("public"@.len() == 6);
    assert("public"@[0] == 'p');
    reveal_strlit("pull_request");
    assert("pull_request"@.len() == 12);
    assert("pull_request"@[0] == 'p');
    assert("pull_request"@[1] == 'u');
    reveal_strlit("pull_request_review");
    assert("pull_request_review"@.len() == 19);
    reveal_strlit("pull_request_review_comment");
    assert("pull_request_review_comment"@.len() == 27);
    reveal_strlit("push");
    assert("push"@.len() == 4);
    assert("push"@[0] == 'p');
    assert("push"@[1] == 'u');
    reveal_strlit("release");
    assert("release"@.len() == 7);
    assert("release"@[0] == 'r');
    reveal_strlit("repository");
    assert("repository"@.len() == 10);
    assert("repository"@[0] == 'r');
    reveal_strlit("repository_vulnerability_alert");
    assert("repository_vulnerability_alert"@.len() == 30);
    reveal_strlit("star");
    assert("star"@.len() == 4);
    assert("star"@[0] == 's');
    reveal_strlit("status");
    assert("status"@.len() == 6);
    assert("status"@[0] == 's');
    reveal_strlit("team_add");
    assert("team_add"@.len() == 8);
    reveal_strlit("team");
    assert("team"@.len() == 4);
    assert("team"@[0] == 't');
    reveal_strlit("watch");
    assert("watch"@.len() == 5);
    assert("watch"@[0] == 'w');
    reveal_strlit("workflow_dispatch");
    assert("workflow_dispatch"@.len() == 17);
    assert("workflow_dispatch"@[0] == 'w');
}

/// A decoded event: one case per kind, each holding its record.
#[derive(Debug)]
pub enum Payload {
    CheckRunEvent(Box<CheckRunEvent>),
    CheckSuiteEvent(Box<CheckSuiteEvent>),
    CommitCommentEvent(Box<CommitCommentEvent>),
    CreateEvent(Box<CreateEvent>),
    DeleteEvent(Box<DeleteEvent>),
    DeployKeyEvent(Box<DeployKeyEvent>),
    DeploymentEvent(Box<DeploymentEvent>),
    DeploymentStatusEvent(Box<DeploymentStatusEvent>),
    ForkEvent(Box<ForkEvent>),
    GollumEvent(Box<GollumEvent>),
    InstallationEvent(Box<InstallationEvent>),
    InstallationRepositoriesEvent(Box<InstallationRepositoriesEvent>),
    IssuesEvent(Box<IssuesEvent>),
    IssueCommentEvent(Box<IssueCommentEvent>),
    LabelEvent(Box<LabelEvent>),
    MemberEvent(Box<MemberEvent>),
    MembershipEvent(Box<MembershipEvent>),
    MetaEvent(Box<MetaEvent>),
    MilestoneEvent(Box<MilestoneEvent>),
    OrganizationEvent(Box<OrganizationEvent>),
    OrgBlockEvent(Box<OrgBlockEvent>),
    PageBuildEvent(Box<PageBuildEvent>),
    PingEvent(Box<PingEvent>),
    ProjectCardEvent(Box<ProjectCardEvent>),
    ProjectColumnEvent(Box<ProjectColumnEvent>),
    ProjectEvent(Box<ProjectEvent>),
    PublicEvent(Box<PublicEvent>),
    PullRequestEvent(Box<PullRequestEvent>),
    PullRequestReviewEvent(Box<PullRequestReviewEvent>),
    PullRequestReviewCommentEvent(Box<PullRequestReviewCommentEvent>),
    PushEvent(Box<PushEvent>),
    ReleaseEvent(Box<ReleaseEvent>),
    RepositoryEvent(Box<RepositoryEvent>),
    RepositoryVulnerabilityAlertEvent(Box<RepositoryVulnerabilityAlertEvent>),
    StarEvent(Box<StarEvent>),
    StatusEvent(Box<StatusEvent>),
    TeamAddEvent(Box<TeamAddEvent>),
    TeamEvent(Box<TeamEvent>),
    WatchEvent(Box<WatchEvent>),
    WorkflowDispatchEvent(Box<WorkflowDispatchEvent>),
}

impl Payload {
    /// The kind of this event.
    pub open spec fn kind_of(self) -> EventKind {
        match self {
            Payload::CheckRunEvent(_) => EventKind::CheckRun,
            Payload::CheckSuiteEvent(_) => EventKind::CheckSuite,
            Payload::CommitCommentEvent(_) => EventKind::CommitComment,
            Payload::CreateEvent(_) => EventKind::Create,
            Payload::DeleteEvent(_) => EventKind::Delete,
            Payload::DeployKeyEvent(_) => EventKind::DeployKey,
            Payload::DeploymentEvent(_) => EventKind::Deployment,
            Payload::DeploymentStatusEvent(_) => EventKind::DeploymentStatus,
            Payload::ForkEvent(_) => EventKind::Fork,
            Payload::GollumEvent(_) => EventKind::Gollum,
            Payload::InstallationEvent(_) => EventKind::Installation,
            Payload::InstallationRepositoriesEvent(_) => EventKind::InstallationRepositories,
            Payload::IssuesEvent(_) => EventKind::Issues,
            Payload::IssueCommentEvent(_) => EventKind::IssueComment,
            Payload::LabelEvent(_) => EventKind::Label,
            Payload::MemberEvent(_) => EventKind::Member,
            Payload::MembershipEvent(_) => EventKind::Membership,
            Payload::MetaEvent(_) => EventKind::Meta,
            Payload::MilestoneEvent(_) => EventKind::Milestone,
            Payload::OrganizationEvent(_) => EventKind::Organization,
            Payload::OrgBlockEvent(_) => EventKind::OrgBlock,
            Payload::PageBuildEvent(_) => EventKind::PageBuild,
            Payload::PingEvent(_) => EventKind::Ping,
            Payload::ProjectCardEvent(_) => EventKind::ProjectCard,
            Payload::ProjectColumnEvent(_) => EventKind::ProjectColumn,
            Payload::ProjectEvent(_) => EventKind::Project,
            Payload::PublicEvent(_) => EventKind::Public,
            Payload::PullRequestEvent(_) => EventKind::PullRequest,
            Payload::PullRequestReviewEvent(_) => EventKind::PullRequestReview,
            Payload::PullRequestReviewCommentEvent(_) => EventKind::PullRequestReviewComment,
            Payload::PushEvent(_) => EventKind::Push,
            Payload::ReleaseEvent(_) => EventKind::Release,
            Payload::RepositoryEvent(_) => EventKind::Repository,
            Payload::RepositoryVulnerabilityAlertEvent(_) => EventKind::RepositoryVulnerabilityAlert,
            Payload::StarEvent(_) => EventKind::Star,
            Payload::StatusEvent(_) => EventKind::Status,
            Payload::TeamAddEvent(_) => EventKind::TeamAdd,
            Payload::TeamEvent(_) => EventKind::Team,
            Payload::WatchEvent(_) => EventKind::Watch,
            Payload::WorkflowDispatchEvent(_) => EventKind::WorkflowDispatch,
        }
    }

    /// This event holds exactly what `j` says.
    pub open spec fn describes(self, j: JsonView) -> bool {
        match self {
            Payload::CheckRunEvent(e) => e.describes(j),
            Payload::CheckSuiteEvent(e) => e.describes(j),
            Payload::CommitCommentEvent(e) => e.describes(j),
            Payload::CreateEvent(e) => e.describes(j),
            Payload::DeleteEvent(e) => e.describes(j),
            Payload::DeployKeyEvent(e) => e.describes(j),
            Payload::DeploymentEvent(e) => e.describes(j),
            Payload::DeploymentStatusEvent(e) => e.describes(j),
            Payload::ForkEvent(e) => e.describes(j),
            Payload::GollumEvent(e) => e.describes(j),
            Payload::InstallationEvent(e) => e.describes(j),
            Payload::InstallationRepositoriesEvent(e) => e.describes(j),
            Payload::IssuesEvent(e) => e.describes(j),
            Payload::IssueCommentEvent(e) => e.describes(j),
            Payload::LabelEvent(e) => e.describes(j),
            Payload::MemberEvent(e) => e.describes(j),
            Payload::MembershipEvent(e) => e.describes(j),
            Payload::MetaEvent(e) => e.describes(j),
            Payload::MilestoneEvent(e) => e.describes(j),
            Payload::OrganizationEvent(e) => e.describes(j),
            Payload::OrgBlockEvent(e) => e.describes(j),
            Payload::PageBuildEvent(e) => e.describes(j),
            Payload::PingEvent(e) => e.describes(j),
            Payload::ProjectCardEvent(e) => e.describes(j),
            Payload::ProjectColumnEvent(e) => e.describes(j),
            Payload::ProjectEvent(e) => e.describes(j),
            Payload::PublicEvent(e) => e.describes(j),
            Payload::PullRequestEvent(e) => e.describes(j),
            Payload::PullRequestReviewEvent(e) => e.describes(j),
            Payload::PullRequestReviewCommentEvent(e) => e.describes(j),
            Payload::PushEvent(e) => e.describes(j),
            Payload::ReleaseEvent(e) => e.describes(j),
            Payload::RepositoryEvent(e) => e.describes(j),
            Payload::RepositoryVulnerabilityAlertEvent(e) => e.describes(j),
            Payload::StarEvent(e) => e.describes(j),
            Payload::StatusEvent(e) => e.describes(j),
            Payload::TeamAddEvent(e) => e.describes(j),
            Payload::TeamEvent(e) => e.describes(j),
            Payload::WatchEvent(e) => e.describes(j),
            Payload::WorkflowDispatchEvent(e) => e.describes(j),
        }
    }

    /// The kind of this event.
    pub fn kind(&self) -> (r: EventKind)
        ensures
            r == self.kind_of(),
    {
        match self {
            Payload::CheckRunEvent(_) => EventKind::CheckRun,
            Payload::CheckSuiteEvent(_) => EventKind::CheckSuite,
            Payload::CommitCommentEvent(_) => EventKind::CommitComment,
            Payload::CreateEvent(_) => EventKind::Create,
            Payload::DeleteEvent(_) => EventKind::Delete,
            Payload::DeployKeyEvent(_) => EventKind::DeployKey,
            Payload::DeploymentEvent(_) => EventKind::Deployment,
            Payload::DeploymentStatusEvent(_) => EventKind::DeploymentStatus,
            Payload::ForkEvent(_) => EventKind::Fork,
            Payload::GollumEvent(_) => EventKind::Gollum,
            Payload::InstallationEvent(_) => EventKind::Installation,
            Payload::InstallationRepositoriesEvent(_) => EventKind::InstallationRepositories,
            Payload::IssuesEvent(_) => EventKind::Issues,
            Payload::IssueCommentEvent(_) => EventKind::IssueComment,
            Payload::LabelEvent(_) => EventKind::Label,
            Payload::MemberEvent(_) => EventKind::Member,
            Payload::MembershipEvent(_) => EventKind::Membership,
            Payload::MetaEvent(_) => EventKind::Meta,
            Payload::MilestoneEvent(_) => EventKind::Milestone,
            Payload::OrganizationEvent(_) => EventKind::Organization,
            Payload::OrgBlockEvent(_) => EventKind::OrgBlock,
            Payload::PageBuildEvent(_) => EventKind::PageBuild,
            Payload::PingEvent(_) => EventKind::Ping,
            Payload::ProjectCardEvent(_) => EventKind::ProjectCard,
            Payload::ProjectColumnEvent(_) => EventKind::ProjectColumn,
            Payload::ProjectEvent(_) => EventKind::Project,
            Payload::PublicEvent(_) => EventKind::Public,
            Payload::PullRequestEvent(_) => EventKind::PullRequest,
            Payload::PullRequestReviewEvent(_) => EventKind::PullRequestReview,
            Payload::PullRequestReviewCommentEvent(_) => EventKind::PullRequestReviewComment,
            Payload::PushEvent(_) => EventKind::Push,
            Payload::ReleaseEvent(_) => EventKind::Release,
            Payload::RepositoryEvent(_) => EventKind::Repository,
            Payload::RepositoryVulnerabilityAlertEvent(_) => EventKind::RepositoryVulnerabilityAlert,
            Payload::StarEvent(_) => EventKind::Star,
            Payload::StatusEvent(_) => EventKind::Status,
            Payload::TeamAddEvent(_) => EventKind::TeamAdd,
            Payload::TeamEvent(_) => EventKind::Team,
            Payload::WatchEvent(_) => EventKind::Watch,
            Payload::WorkflowDispatchEvent(_) => EventKind::WorkflowDispatch,
        }
    }

    /// Decodes a document as an event of the given kind, trying no other.
    #[verifier::rlimit(30)]
    pub fn decode(kind: EventKind, j: &Json) -> (r: Result<Payload, DecodeError>)
        ensures
            r is Ok <==> kind.accepts(j@),
            r matches Ok(p) ==> p.kind_of() == kind && p.describes(j@),
            r matches Err(e) ==> if j@ is Object {
                e is Missing || e is Invalid
            } else {
                e is Mismatch
            },
    {
        match kind {
            EventKind::CheckRun => match CheckRunEvent::from_json(j) {
                Ok(e) => Ok(Payload::CheckRunEvent(Box::new(e))),
                Err(e) => Err(e),
            },
            EventKind::CheckSuite => match CheckSuiteEvent::from_json(j) {
                Ok(e) => Ok(Payload::CheckSuiteEvent(Box::new(e))),
                Err(e) => Err(e),
            },
            EventKind::CommitComment => match CommitCommentEvent::from_json(j) {
                Ok(e) => Ok(Payload::CommitCommentEvent(Box::new(e))),
                Err(e) => Err(e),
            },
            EventKind::Create => match CreateEvent::from_json(j) {
                Ok(e) => Ok(Payload::CreateEvent(Box::new(e))),
                Err(e) => Err(e),
            },
            EventKind::Delete => match DeleteEvent::from_json(j) {
                Ok(e) => Ok(Payload::DeleteEvent(Box::new(e))),
                Err(e) => Err(e),
            },
            EventKind::DeployKey => match DeployKeyEvent::from_json(j) {
                Ok(e) => Ok(Payload::DeployKeyEvent(Box::new(e))),
                Err(e) => Err(e),
            },
            EventKind::Deployment => match DeploymentEvent::from_json(j) {
                Ok(e) => Ok(Payload::DeploymentEvent(Box::new(e))),
                Err(e) => Err(e),
            },
            EventKind::DeploymentStatus => match DeploymentStatusEvent::from_json(j) {
                Ok(e) => Ok(Payload::DeploymentStatusEvent(Box::new(e))),
                Err(e) => Err(e),
            },
            EventKind::Fork => match ForkEvent::from_json(j) {
                Ok(e) => Ok(Payload::ForkEvent(Box::new(e))),
                Err(e) => Err(e),
            },
            EventKind::Gollum => match GollumEvent::from_json(j) {
                Ok(e) => Ok(Payload::GollumEvent(Box::new(e))),
                Err(e) => Err(e),
            },
            EventKind::Installation => match InstallationEvent::from_json(j) {
                Ok(e) => Ok(Payload::InstallationEvent(Box::new(e))),
                Err(e) => Err(e),
            },
            EventKind::InstallationRepositories => match InstallationRepositoriesEvent::from_json(j) {
                Ok(e) => Ok(Payload::InstallationRepositoriesEvent(Box::new(e))),
                Err(e) => Err(e),
            },
            EventKind::Issues => match IssuesEvent::from_json(j) {
                Ok(e) => Ok(Payload::IssuesEvent(Box::new(e))),
                Err(e) => Err(e),
            },
            EventKind::IssueComment => match IssueCommentEvent::from_json(j) {
                Ok(e) => Ok(Payload::IssueCommentEvent(Box::new(e))),
                Err(e) => Err(e),
            },
            EventKind::Label => match LabelEvent::from_json(j) {
                Ok(e) => Ok(Payload::LabelEvent(Box::new(e))),
                Err(e) => Err(e),
            },
            EventKind::Member => match MemberEvent::from_json(j) {
                Ok(e) => Ok(Payload::MemberEvent(Box::new(e))),
                Err(e) => Err(e),
            },
            EventKind::Membership => match MembershipEvent::from_json(j) {
                Ok(e) => Ok(Payload::MembershipEvent(Box::new(e))),
                Err(e) => Err(e),
            },
            EventKind::Meta => match MetaEvent::from_json(j) {
                Ok(e) => Ok(Payload::MetaEvent(Box::new(e))),
                Err(e) => Err(e),
            },
            EventKind::Milestone => match MilestoneEvent::from_json(j) {
                Ok(e) => Ok(Payload::MilestoneEvent(Box::new(e))),
                Err(e) => Err(e),
            },
            EventKind::Organization => match OrganizationEvent::from_json(j) {
                Ok(e) => Ok(Payload::OrganizationEvent(Box::new(e))),
                Err(e) => Err(e),
            },
            EventKind::OrgBlock => match OrgBlockEvent::from_json(j) {
                Ok(e) => Ok(Payload::OrgBlockEvent(Box::new(e))),
                Err(e) => Err(e),
            },
            EventKind::PageBuild => match PageBuildEvent::from_json(j) {
                Ok(e) => Ok(Payload::PageBuildEvent(Box::new(e))),
                Err(e) => Err(e),
            },
            EventKind::Ping => match PingEvent::from_json(j) {
                Ok(e) => Ok(Payload::PingEvent(Box::new(e))),
                Err(e) => Err(e),
            },
            EventKind::ProjectCard => match ProjectCardEvent::from_json(j) {
                Ok(e) => Ok(Payload::ProjectCardEvent(Box::new(e))),
                Err(e) => Err(e),
            },
            EventKind::ProjectColumn => match ProjectColumnEvent::from_json(j) {
                Ok(e) => Ok(Payload::ProjectColumnEvent(Box::new(e))),
                Err(e) => Err(e),
            },
            EventKind::Project => match ProjectEvent::from_json(j) {
                Ok(e) => Ok(Payload::ProjectEvent(Box::new(e))),
                Err(e) => Err(e),
            },
            EventKind::Public => match PublicEvent::from_json(j) {
                Ok(e) => Ok(Payload::PublicEvent(Box::new(e))),
                Err(e) => Err(e),
            },
            EventKind::PullRequest => match PullRequestEvent::from_json(j) {
                Ok(e) => Ok(Payload::PullRequestEvent(Box::new(e))),
                Err(e) => Err(e),
            },
            EventKind::PullRequestReview => match PullRequestReviewEvent::from_json(j) {
                Ok(e) => Ok(Payload::PullRequestReviewEvent(Box::new(e))),
                Err(e) => Err(e),
            },
            EventKind::PullRequestReviewComment => match PullRequestReviewCommentEvent::from_json(j) {
                Ok(e) => Ok(Payload::PullRequestReviewCommentEvent(Box::new(e))),
                Err(e) => Err(e),
            },
            EventKind::Push => match PushEvent::from_json(j) {
                Ok(e) => Ok(Payload::PushEvent(Box::new(e))),
                Err(e) => Err(e),
            },
            EventKind::Release => match ReleaseEvent::from_json(j) {
                Ok(e) => Ok(Payload::ReleaseEvent(Box::new(e))),
                Err(e) => Err(e),
            },
            EventKind::Repository => match RepositoryEvent::from_json(j) {
                Ok(e) => Ok(Payload::RepositoryEvent(Box::new(e))),
                Err(e) => Err(e),
            },
            EventKind::RepositoryVulnerabilityAlert => match RepositoryVulnerabilityAlertEvent::from_json(j) {
                Ok(e) => Ok(Payload::RepositoryVulnerabilityAlertEvent(Box::new(e))),
                Err(e) => Err(e),
            },
            EventKind::Star => match StarEvent::from_json(j) {
                Ok(e) => Ok(Payload::StarEvent(Box::new(e))),
                Err(e) => Err(e),
            },
            EventKind::Status => match StatusEvent::from_json(j) {
                Ok(e) => Ok(Payload::StatusEvent(Box::new(e))),
                Err(e) => Err(e),
            },
            EventKind::TeamAdd => match TeamAddEvent::from_json(j) {
                Ok(e) => Ok(Payload::TeamAddEvent(Box::new(e))),
                Err(e) => Err(e),
            },
            EventKind::Team => match TeamEvent::from_json(j) {
                Ok(e) => Ok(Payload::TeamEvent(Box::new(e))),
                Err(e) => Err(e),
            },
            EventKind::Watch => match WatchEvent::from_json(j) {
                Ok(e) => Ok(Payload::WatchEvent(Box::new(e))),
                Err(e) => Err(e),
            },
            EventKind::WorkflowDispatch => match WorkflowDispatchEvent::from_json(j) {
                Ok(e) => Ok(Payload::WorkflowDispatchEvent(Box::new(e))),
                Err(e) => Err(e),
            },
        }
    }

    /// The kind that an event tag selects, or `None` for a tag that the
    /// registry does not know.
    pub fn convertor(event: &str) -> (r: Option<EventKind>)
        ensures
            r == kind_of_tag(event@),
    {
        EventKind::from_tag(event)
    }

    /// Decodes a raw body as an event of the given kind.
    pub fn convert(kind: EventKind, body: &[u8]) -> (r: Result<Payload, DecodeError>)
        ensures
            match parsed_json(body@) {
                None => r == Err::<Payload, DecodeError>(DecodeError::Syntax),
                Some(j) => {
                    &&& r is Ok <==> kind.accepts(j)
                    &&& r matches Ok(p) ==> p.kind_of() == kind && p.describes(j)
                    &&& r matches Err(e) ==> if j is Object {
                        e is Missing || e is Invalid
                    } else {
                        e is Mismatch
                    }
                },
            },
    {
        match Json::parse(body) {
            None => Err(DecodeError::Syntax),
            Some(j) => Payload::decode(kind, &j),
        }
    }
}

} // verus!
