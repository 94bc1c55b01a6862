//! Intake for signed webhook notifications: request checks, signature
//! authentication, and decoding of each event body into a typed record.
//!
//! A request goes through [`webhook::handle_request`]: its method, path,
//! content type and event tag are checked first, then its signature (when a
//! secret is configured), and only then is the body parsed and decoded as the
//! one event kind that its tag names.
pub mod decode;
pub mod events;
pub mod json;
pub mod model;
pub mod payload;
pub mod signature;
pub mod timestamp;
pub mod webhook;

pub use decode::{DecodeError, Record};
pub use events::{
    CheckRunEvent, CheckSuiteEvent, CommitCommentEvent, CreateEvent, DeleteEvent, DeployKeyEvent,
    DeploymentEvent, DeploymentStatusEvent, ForkEvent, GollumEvent, InstallationEvent,
    InstallationRepositoriesEvent, IssuesEvent, IssueCommentEvent, LabelEvent, MemberEvent,
    MembershipEvent, MetaEvent, MilestoneEvent, OrganizationEvent, OrgBlockEvent, PageBuildEvent,
    PingEvent, ProjectCardEvent, ProjectColumnEvent, ProjectEvent, PublicEvent, PullRequestEvent,
    PullRequestReviewEvent, PullRequestReviewCommentEvent, PushEvent, ReleaseEvent, RepositoryEvent,
    RepositoryVulnerabilityAlertEvent, StarEvent, StatusEvent, TeamAddEvent, TeamEvent, WatchEvent,
    WorkflowDispatchEvent,
};
pub use json::{Json, JsonView};
pub use model::{
    Actor, Repository, Issue, Milestone, Label, IssueComment, PullRequestReviewComment,
    CommitComment, LabelChanges, IssueChanges, ChangedFrom, Team, InstallationId, PullRequest, Link,
    PullRequestLinks, ReviewLinks, ReviewCommentLinks, Ref, Review, CheckRun, CheckRunOutput,
    CheckSuite, App, CheckRunPullRequest, CheckRunPullRequestRef, RepoRef, Page, Organization,
    DeployKey, Deployment, DeploymentStatus, Installation, InstallationPermissions,
    InstallationRepository, Hook, HookConfig, Invitation, Membership, PageBuild, PageBuildError,
    ProjectCardChanges, ProjectCard, ProjectColumnChanges, ProjectColumn, ProjectChanges, Project,
    Pusher, CommitUser, Commit, Release, RepositoryVulnerabilityAlert, StatusBranchCommit,
    StatusBranch,
};
pub use payload::{EventKind, Payload};
pub use signature::{constant_time_eq, signature_for, signature_matches, verify_signature, Verification};
pub use timestamp::Timestamp;
pub use webhook::{
    dispatch, handle_request, validate_request, Error, WebhookConfig, WebhookError, WebhookRequest,
    DEFAULT_WEBHOOK_PATH,
};
