use crate::text::{decimal, decimal_text};
use crate::uid::{
    AccountId, AgentInstanceId, AgentProviderId, CredentialReferenceId, Keyed, ModelId,
    ModelProviderId, ProjectId, SessionId, Uid,
};
use vstd::prelude::*;

verus! {

/// A point in time: milliseconds since the Unix epoch, and the decimal numeral
/// under which that number is recorded.
#[derive(Clone, Debug, PartialEq, Eq)]
pub struct Moment {
    pub ms: u64,
    pub text: String,
}

impl Moment {
    pub open spec fn wf(self) -> bool {
        self.text@ == decimal(self.ms as nat)
    }

    pub fn at(ms: u64) -> (r: Self)
        ensures
            r.ms == ms,
            r.wf(),
    {
        Moment { ms, text: timestamp(ms) }
    }
}

/// The recorded form of a point in time.
pub fn timestamp(ms: u64) -> (r: String)
    ensures
        r@ == decimal(ms as nat),
{
    decimal_text(ms)
}

#[derive(Clone, Copy, Debug, PartialEq, Eq, Structural)]
pub enum EntityLifecycle {
    Active,
    Disabled,
}

#[derive(Clone, Debug, PartialEq, Eq)]
pub struct Provenance {
    pub source_kind: String,
    pub source_id: String,
    pub recorded_by: String,
}

#[derive(Clone, Debug, PartialEq, Eq)]
pub struct EntityMetadata {
    pub id: Uid,
    pub revision: u64,
    pub created_at: String,
    pub updated_at: String,
    pub provenance: Provenance,
    pub lifecycle: EntityLifecycle,
}

/// What a metadata record says, character by character.
pub ghost struct MetadataView {
    pub id: Uid,
    pub revision: u64,
    pub created_at: Seq<char>,
    pub updated_at: Seq<char>,
    pub source_kind: Seq<char>,
    pub source_id: Seq<char>,
    pub recorded_by: Seq<char>,
    pub lifecycle: EntityLifecycle,
}

impl View for EntityMetadata {
    type V = MetadataView;

    open spec fn view(&self) -> MetadataView {
        MetadataView {
            id: self.id,
            revision: self.revision,
            created_at: self.created_at@,
            updated_at: self.updated_at@,
            source_kind: self.provenance.source_kind@,
            source_id: self.provenance.source_id@,
            recorded_by: self.provenance.recorded_by@,
            lifecycle: self.lifecycle,
        }
    }
}

impl EntityMetadata {
    pub fn same(&self, other: &Self) -> (r: bool)
        ensures
            r == (self@ == other@),
    {
        self.id == other.id && self.revision == other.revision && self.created_at
            == other.created_at && self.updated_at == other.updated_at
            && self.provenance.source_kind == other.provenance.source_kind
            && self.provenance.source_id == other.provenance.source_id
            && self.provenance.recorded_by == other.provenance.recorded_by && self.lifecycle
            == other.lifecycle
    }
}

/// The metadata of an entity that the daemon itself records at `now`.
pub open spec fn local_metadata(m: EntityMetadata, id: Uid, source_id: Seq<char>, now: Moment) -> bool {
    m@ == (MetadataView {
        id,
        revision: 0,
        created_at: now.text@,
        updated_at: now.text@,
        source_kind: "local_user"@,
        source_id,
        recorded_by: "bastet-daemon"@,
        lifecycle: EntityLifecycle::Active,
    })
}

pub fn entity_metadata(id: Uid, source_id: &str, now: &Moment) -> (r: EntityMetadata)
    ensures
        local_metadata(r, id, source_id@, *now),
{
    EntityMetadata {
        id,
        revision: 0,
        created_at: now.text.clone(),
        updated_at: now.text.clone(),
        provenance: Provenance {
            source_kind: "local_user".to_owned(),
            source_id: source_id.to_owned(),
            recorded_by: "bastet-daemon".to_owned(),
        },
        lifecycle: EntityLifecycle::Active,
    }
}

pub open spec fn text_of(value: Option<String>) -> Option<Seq<char>> {
    match value {
        Some(text) => Some(text@),
        None => None,
    }
}

pub fn same_optional_text(a: &Option<String>, b: &Option<String>) -> (r: bool)
    ensures
        r == (text_of(*a) == text_of(*b)),
{
    match (a, b) {
        (Some(a), Some(b)) => *a == *b,
        (None, None) => true,
        _ => false,
    }
}

pub fn copy_optional_text(value: &Option<String>) -> (r: Option<String>)
    ensures
        r == *value,
{
    match value {
        Some(text) => Some(text.clone()),
        None => None,
    }
}

#[derive(Clone, Copy, Debug, PartialEq, Eq, Structural)]
pub enum PermissionLevel {
    Deny,
    Observe,
    Use,
}

impl PermissionLevel {
    /// How far a level reaches, from nothing up.
    pub open spec fn rank(self) -> nat {
        match self {
            PermissionLevel::Deny => 0,
            PermissionLevel::Observe => 1,
            PermissionLevel::Use => 2,
        }
    }

    /// The name of the level in recorded texts.
    pub open spec fn spec_name(self) -> Seq<char> {
        match self {
            PermissionLevel::Deny => "deny"@,
            PermissionLevel::Observe => "observe"@,
            PermissionLevel::Use => "use"@,
        }
    }

    pub fn name(&self) -> (r: &'static str)
        ensures
            r@ == self.spec_name(),
    {
        match self {
            PermissionLevel::Deny => "deny",
            PermissionLevel::Observe => "observe",
            PermissionLevel::Use => "use",
        }
    }
}

#[derive(Clone, Copy, Debug, PartialEq, Eq, Structural)]
pub enum PolicyLayer {
    Project,
    RoleOrAgent,
    SingleRun,
}

#[derive(Clone, Copy, Debug, PartialEq, Eq, Structural)]
pub struct PolicyCeiling {
    pub filesystem: PermissionLevel,
    pub network: PermissionLevel,
    pub process: PermissionLevel,
    pub device: PermissionLevel,
    pub credential: PermissionLevel,
    pub persistent_approval: bool,
}

#[derive(Clone, Copy, Debug, PartialEq, Eq, Structural)]
pub struct ScopedPolicy {
    pub layer: PolicyLayer,
    pub ceiling: PolicyCeiling,
}

#[derive(Clone, Copy, Debug, PartialEq, Eq, Structural)]
pub enum CredentialBackend {
    MacosKeychain,
    WindowsCredentialManager,
    LinuxSecretService,
}

#[derive(Clone, Copy, Debug, PartialEq, Eq, Structural)]
pub enum NormalizedRunState {
    Starting,
    Running,
    AwaitingApproval,
    Cancelling,
    Recovering,
    Succeeded,
    Failed,
    Cancelled,
    Blocked,
    Uncertain,
}

impl NormalizedRunState {
    /// The name of the state in recorded payloads.
    pub open spec fn spec_name(self) -> Seq<char> {
        match self {
            NormalizedRunState::Starting => "starting"@,
            NormalizedRunState::Running => "running"@,
            NormalizedRunState::AwaitingApproval => "awaiting_approval"@,
            NormalizedRunState::Cancelling => "cancelling"@,
            NormalizedRunState::Recovering => "recovering"@,
            NormalizedRunState::Succeeded => "succeeded"@,
            NormalizedRunState::Failed => "failed"@,
            NormalizedRunState::Cancelled => "cancelled"@,
            NormalizedRunState::Blocked => "blocked"@,
            NormalizedRunState::Uncertain => "uncertain"@,
        }
    }

    pub fn name(&self) -> (r: &'static str)
        ensures
            r@ == self.spec_name(),
    {
        match self {
            NormalizedRunState::Starting => "starting",
            NormalizedRunState::Running => "running",
            NormalizedRunState::AwaitingApproval => "awaiting_approval",
            NormalizedRunState::Cancelling => "cancelling",
            NormalizedRunState::Recovering => "recovering",
            NormalizedRunState::Succeeded => "succeeded",
            NormalizedRunState::Failed => "failed",
            NormalizedRunState::Cancelled => "cancelled",
            NormalizedRunState::Blocked => "blocked",
            NormalizedRunState::Uncertain => "uncertain",
        }
    }

    /// The name of the state in error texts: its words run together.
    pub open spec fn spec_label(self) -> Seq<char> {
        match self {
            NormalizedRunState::AwaitingApproval => "awaitingapproval"@,
            _ => self.spec_name(),
        }
    }

    pub fn label(&self) -> (r: String)
        ensures
            r@ == self.spec_label(),
    {
        match self {
            NormalizedRunState::AwaitingApproval => "awaitingapproval".to_owned(),
            _ => self.name().to_owned(),
        }
    }
}

#[derive(Clone, Debug, PartialEq, Eq)]
pub struct CredentialReference {
    pub metadata: EntityMetadata,
    pub backend: CredentialBackend,
    pub service: String,
    pub account_label: String,
}

#[derive(Clone, Debug, PartialEq, Eq)]
pub struct AgentProvider {
    pub metadata: EntityMetadata,
    pub adapter_kind: String,
    pub display_name: String,
}

#[derive(Clone, Debug, PartialEq, Eq)]
pub struct ModelProvider {
    pub metadata: EntityMetadata,
    pub provider_key: String,
    pub display_name: String,
}

#[derive(Clone, Debug, PartialEq, Eq)]
pub struct Account {
    pub metadata: EntityMetadata,
    pub agent_provider_id: AgentProviderId,
    pub provider_identity: String,
    pub credential_reference_id: Option<CredentialReferenceId>,
}

#[derive(Clone, Debug, PartialEq, Eq)]
pub struct Model {
    pub metadata: EntityMetadata,
    pub model_provider_id: ModelProviderId,
    pub provider_model_id: String,
    pub reasoning_controls: Vec<String>,
}

#[derive(Clone, Debug, PartialEq, Eq)]
pub struct AgentInstance {
    pub metadata: EntityMetadata,
    pub agent_provider_id: AgentProviderId,
    pub account_id: Option<AccountId>,
    pub default_model_id: Option<ModelId>,
}

#[derive(Clone, Debug, PartialEq, Eq)]
pub struct Project {
    pub metadata: EntityMetadata,
    pub name: String,
    pub workspace_root: String,
    pub policy: ScopedPolicy,
}

#[derive(Clone, Debug, PartialEq, Eq)]
pub struct Role {
    pub metadata: EntityMetadata,
    pub name: String,
    pub responsibilities: Vec<String>,
    pub policy: ScopedPolicy,
}

#[derive(Clone, Debug, PartialEq, Eq)]
pub struct Session {
    pub metadata: EntityMetadata,
    pub agent_instance_id: AgentInstanceId,
    pub project_id: ProjectId,
    pub provider_session_id: Option<String>,
}

#[derive(Clone, Debug, PartialEq, Eq)]
pub struct Run {
    pub metadata: EntityMetadata,
    pub session_id: SessionId,
    pub model_id: ModelId,
    pub state: NormalizedRunState,
    pub started_at: Option<String>,
    pub finished_at: Option<String>,
}

pub ghost struct SessionView {
    pub metadata: MetadataView,
    pub agent_instance_id: Uid,
    pub project_id: Uid,
    pub provider_session_id: Option<Seq<char>>,
}

impl View for Session {
    type V = SessionView;

    open spec fn view(&self) -> SessionView {
        SessionView {
            metadata: self.metadata@,
            agent_instance_id: self.agent_instance_id,
            project_id: self.project_id,
            provider_session_id: text_of(self.provider_session_id),
        }
    }
}

impl Session {
    pub fn same(&self, other: &Self) -> (r: bool)
        ensures
            r == (self@ == other@),
    {
        self.metadata.same(&other.metadata) && self.agent_instance_id == other.agent_instance_id
            && self.project_id == other.project_id && same_optional_text(
            &self.provider_session_id,
            &other.provider_session_id,
        )
    }
}

pub ghost struct RunView {
    pub metadata: MetadataView,
    pub session_id: Uid,
    pub model_id: Uid,
    pub state: NormalizedRunState,
    pub started_at: Option<Seq<char>>,
    pub finished_at: Option<Seq<char>>,
}

impl View for Run {
    type V = RunView;

    open spec fn view(&self) -> RunView {
        RunView {
            metadata: self.metadata@,
            session_id: self.session_id,
            model_id: self.model_id,
            state: self.state,
            started_at: text_of(self.started_at),
            finished_at: text_of(self.finished_at),
        }
    }
}

impl Run {
    pub fn same(&self, other: &Self) -> (r: bool)
        ensures
            r == (self@ == other@),
    {
        self.metadata.same(&other.metadata) && self.session_id == other.session_id
            && self.model_id == other.model_id && self.state == other.state && same_optional_text(
            &self.started_at,
            &other.started_at,
        ) && same_optional_text(&self.finished_at, &other.finished_at)
    }
}

/// The workstation's identities: who can run, where, on whose account, and what
/// has run.
#[derive(Clone, Debug, PartialEq, Eq)]
pub struct IdentityCatalog {
    pub credential_references: Vec<CredentialReference>,
    pub agent_providers: Vec<AgentProvider>,
    pub model_providers: Vec<ModelProvider>,
    pub accounts: Vec<Account>,
    pub models: Vec<Model>,
    pub agent_instances: Vec<AgentInstance>,
    pub projects: Vec<Project>,
    pub roles: Vec<Role>,
    pub sessions: Vec<Session>,
    pub runs: Vec<Run>,
}

#[verifier::ext_equal]
pub ghost struct CatalogView {
    pub credential_references: Seq<CredentialReference>,
    pub agent_providers: Seq<AgentProvider>,
    pub model_providers: Seq<ModelProvider>,
    pub accounts: Seq<Account>,
    pub models: Seq<Model>,
    pub agent_instances: Seq<AgentInstance>,
    pub projects: Seq<Project>,
    pub roles: Seq<Role>,
    pub sessions: Seq<Session>,
    pub runs: Seq<Run>,
}

impl View for IdentityCatalog {
    type V = CatalogView;

    open spec fn view(&self) -> CatalogView {
        CatalogView {
            credential_references: self.credential_references@,
            agent_providers: self.agent_providers@,
            model_providers: self.model_providers@,
            accounts: self.accounts@,
            models: self.models@,
            agent_instances: self.agent_instances@,
            projects: self.projects@,
            roles: self.roles@,
            sessions: self.sessions@,
            runs: self.runs@,
        }
    }
}

impl IdentityCatalog {
    pub fn empty() -> (r: Self)
        ensures
            r@ == (CatalogView {
                credential_references: Seq::empty(),
                agent_providers: Seq::empty(),
                model_providers: Seq::empty(),
                accounts: Seq::empty(),
                models: Seq::empty(),
                agent_instances: Seq::empty(),
                projects: Seq::empty(),
                roles: Seq::empty(),
                sessions: Seq::empty(),
                runs: Seq::empty(),
            }),
    {
        IdentityCatalog {
            credential_references: Vec::new(),
            agent_providers: Vec::new(),
            model_providers: Vec::new(),
            accounts: Vec::new(),
            models: Vec::new(),
            agent_instances: Vec::new(),
            projects: Vec::new(),
            roles: Vec::new(),
            sessions: Vec::new(),
            runs: Vec::new(),
        }
    }
}

impl Keyed for CredentialReference {
    open spec fn key(&self) -> Uid {
        self.metadata.id
    }

    fn id(&self) -> (r: Uid) {
        self.metadata.id
    }
}

impl Keyed for AgentProvider {
    open spec fn key(&self) -> Uid {
        self.metadata.id
    }

    fn id(&self) -> (r: Uid) {
        self.metadata.id
    }
}

impl Keyed for Account {
    open spec fn key(&self) -> Uid {
        self.metadata.id
    }

    fn id(&self) -> (r: Uid) {
        self.metadata.id
    }
}

impl Keyed for Model {
    open spec fn key(&self) -> Uid {
        self.metadata.id
    }

    fn id(&self) -> (r: Uid) {
        self.metadata.id
    }
}

impl Keyed for AgentInstance {
    open spec fn key(&self) -> Uid {
        self.metadata.id
    }

    fn id(&self) -> (r: Uid) {
        self.metadata.id
    }
}

impl Keyed for Project {
    open spec fn key(&self) -> Uid {
        self.metadata.id
    }

    fn id(&self) -> (r: Uid) {
        self.metadata.id
    }
}

impl Keyed for Role {
    open spec fn key(&self) -> Uid {
        self.metadata.id
    }

    fn id(&self) -> (r: Uid) {
        self.metadata.id
    }
}

impl Keyed for Session {
    open spec fn key(&self) -> Uid {
        self.metadata.id
    }

    fn id(&self) -> (r: Uid) {
        self.metadata.id
    }
}

impl Keyed for Run {
    open spec fn key(&self) -> Uid {
        self.metadata.id
    }

    fn id(&self) -> (r: Uid) {
        self.metadata.id
    }
}

} // verus!
