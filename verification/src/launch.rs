use crate::digest::{sha256_hex, sha256_text};
use crate::identity::CredentialBackend;
use crate::json::{fields, json_string, json_uid, object, Payload};
use crate::policy::{policy_json, policy_text, LaunchPolicy};
use crate::text::decimal;
use crate::uid::{
    AccountId, AgentInstanceId, AgentProviderId, CredentialReferenceId, GraphNodeId, GraphRunId,
    Keyed, ModelId, ProjectId, RoleId, RunId, SessionId, Uid,
};
use vstd::prelude::*;
use vstd::string::*;
use vstd::utf8::encode_utf8;

verus! {

/// Where a selected credential is kept. It never holds the credential.
#[derive(Clone, Debug, PartialEq, Eq)]
pub struct ProviderCredentialSelection {
    pub reference_id: CredentialReferenceId,
    pub backend: CredentialBackend,
    pub service: String,
    pub account_label: String,
}

#[derive(Clone, Debug, PartialEq, Eq)]
pub struct ProviderAccountSelection {
    pub account_id: AccountId,
    pub provider_identity: String,
    pub credential: Option<ProviderCredentialSelection>,
}

/// Immutable selected identity, not evidence of provider authentication or a
/// credential grant. Secrets and arbitrary provider payloads are never part of
/// it.
#[derive(Clone, Debug, PartialEq, Eq)]
pub struct ProviderLaunchIdentity {
    pub agent_instance_id: AgentInstanceId,
    pub agent_provider_id: AgentProviderId,
    pub project_id: ProjectId,
    pub model_id: ModelId,
    pub adapter_kind: String,
    pub model: String,
    pub account: Option<ProviderAccountSelection>,
}

pub ghost struct CredentialSelectionView {
    pub reference_id: Uid,
    pub backend: CredentialBackend,
    pub service: Seq<char>,
    pub account_label: Seq<char>,
}

pub ghost struct AccountSelectionView {
    pub account_id: Uid,
    pub provider_identity: Seq<char>,
    pub credential: Option<CredentialSelectionView>,
}

pub ghost struct LaunchIdentityView {
    pub agent_instance_id: Uid,
    pub agent_provider_id: Uid,
    pub project_id: Uid,
    pub model_id: Uid,
    pub adapter_kind: Seq<char>,
    pub model: Seq<char>,
    pub account: Option<AccountSelectionView>,
}

impl View for ProviderCredentialSelection {
    type V = CredentialSelectionView;

    open spec fn view(&self) -> CredentialSelectionView {
        CredentialSelectionView {
            reference_id: self.reference_id,
            backend: self.backend,
            service: self.service@,
            account_label: self.account_label@,
        }
    }
}

impl View for ProviderAccountSelection {
    type V = AccountSelectionView;

    open spec fn view(&self) -> AccountSelectionView {
        AccountSelectionView {
            account_id: self.account_id,
            provider_identity: self.provider_identity@,
            credential: match self.credential {
                Some(credential) => Some(credential@),
                None => None,
            },
        }
    }
}

impl View for ProviderLaunchIdentity {
    type V = LaunchIdentityView;

    open spec fn view(&self) -> LaunchIdentityView {
        LaunchIdentityView {
            agent_instance_id: self.agent_instance_id,
            agent_provider_id: self.agent_provider_id,
            project_id: self.project_id,
            model_id: self.model_id,
            adapter_kind: self.adapter_kind@,
            model: self.model@,
            account: match self.account {
                Some(account) => Some(account@),
                None => None,
            },
        }
    }
}

impl ProviderCredentialSelection {
    pub fn copy(&self) -> (r: Self)
        ensures
            r == *self,
    {
        ProviderCredentialSelection {
            reference_id: self.reference_id,
            backend: self.backend,
            service: self.service.clone(),
            account_label: self.account_label.clone(),
        }
    }

    pub fn same(&self, other: &Self) -> (r: bool)
        ensures
            r == (self@ == other@),
    {
        self.reference_id == other.reference_id && self.backend == other.backend && self.service
            == other.service && self.account_label == other.account_label
    }
}

impl ProviderAccountSelection {
    pub fn copy(&self) -> (r: Self)
        ensures
            r == *self,
    {
        ProviderAccountSelection {
            account_id: self.account_id,
            provider_identity: self.provider_identity.clone(),
            credential: match &self.credential {
                Some(credential) => Some(credential.copy()),
                None => None,
            },
        }
    }

    pub fn same(&self, other: &Self) -> (r: bool)
        ensures
            r == (self@ == other@),
    {
        self.account_id == other.account_id && self.provider_identity == other.provider_identity
            && match (&self.credential, &other.credential) {
            (Some(a), Some(b)) => a.same(b),
            (None, None) => true,
            _ => false,
        }
    }
}

impl ProviderLaunchIdentity {
    pub fn copy(&self) -> (r: Self)
        ensures
            r == *self,
    {
        ProviderLaunchIdentity {
            agent_instance_id: self.agent_instance_id,
            agent_provider_id: self.agent_provider_id,
            project_id: self.project_id,
            model_id: self.model_id,
            adapter_kind: self.adapter_kind.clone(),
            model: self.model.clone(),
            account: match &self.account {
                Some(account) => Some(account.copy()),
                None => None,
            },
        }
    }

    pub fn same(&self, other: &Self) -> (r: bool)
        ensures
            r == (self@ == other@),
    {
        self.agent_instance_id == other.agent_instance_id && self.agent_provider_id
            == other.agent_provider_id && self.project_id == other.project_id && self.model_id
            == other.model_id && self.adapter_kind == other.adapter_kind && self.model
            == other.model && match (&self.account, &other.account) {
            (Some(a), Some(b)) => a.same(b),
            (None, None) => true,
            _ => false,
        }
    }
}

/// Exact, immutable launch inputs. This is intent, not a credential grant or
/// evidence that a worker was dispatched.
#[derive(Clone, Debug, PartialEq, Eq)]
pub struct ProviderLaunchPlan {
    pub version: u32,
    pub execution_id: GraphRunId,
    pub node_id: GraphNodeId,
    pub session_id: SessionId,
    pub run_id: RunId,
    pub attempt: u64,
    pub role_id: RoleId,
    pub owner: String,
    pub identity: ProviderLaunchIdentity,
    pub workspace_root: String,
    pub prompt: String,
    /// What the policies allowed when the plan was made. Older plans have none.
    pub policy: Option<LaunchPolicy>,
}

/// The name of a credential store in recorded texts.
pub open spec fn spec_backend_name(backend: CredentialBackend) -> Seq<char> {
    match backend {
        CredentialBackend::MacosKeychain => "macos_keychain"@,
        CredentialBackend::WindowsCredentialManager => "windows_credential_manager"@,
        CredentialBackend::LinuxSecretService => "linux_secret_service"@,
    }
}

pub fn backend_name(backend: CredentialBackend) -> (r: &'static str)
    ensures
        r@ == spec_backend_name(backend),
{
    match backend {
        CredentialBackend::MacosKeychain => "macos_keychain",
        CredentialBackend::WindowsCredentialManager => "windows_credential_manager",
        CredentialBackend::LinuxSecretService => "linux_secret_service",
    }
}

pub open spec fn credential_json(credential: Option<CredentialSelectionView>) -> Seq<char> {
    match credential {
        None => "null"@,
        Some(credential) => object(
            fields().push(("reference_id"@, json_uid(credential.reference_id)))
                .push(("backend"@, json_string(spec_backend_name(credential.backend))))
                .push(("service"@, json_string(credential.service)))
                .push(("account_label"@, json_string(credential.account_label))),
        ),
    }
}

pub open spec fn account_json(account: Option<AccountSelectionView>) -> Seq<char> {
    match account {
        None => "null"@,
        Some(account) => object(
            fields().push(("account_id"@, json_uid(account.account_id)))
                .push(("provider_identity"@, json_string(account.provider_identity)))
                .push(("credential"@, credential_json(account.credential))),
        ),
    }
}

/// The JSON text of a selected identity.
pub open spec fn identity_json(identity: LaunchIdentityView) -> Seq<char> {
    object(
        fields().push(("agent_instance_id"@, json_uid(identity.agent_instance_id)))
            .push(("agent_provider_id"@, json_uid(identity.agent_provider_id)))
            .push(("project_id"@, json_uid(identity.project_id)))
            .push(("model_id"@, json_uid(identity.model_id)))
            .push(("adapter_kind"@, json_string(identity.adapter_kind)))
            .push(("model"@, json_string(identity.model)))
            .push(("account"@, account_json(identity.account))),
    )
}

fn credential_text(credential: &Option<ProviderCredentialSelection>) -> (r: String)
    ensures
        r@ == credential_json(
            match *credential {
                Some(credential) => Some(credential@),
                None => None,
            },
        ),
{
    match credential {
        None => "null".to_owned(),
        Some(credential) => Payload::new().uid("reference_id", credential.reference_id).string(
            "backend",
            backend_name(credential.backend),
        ).string("service", credential.service.as_str()).string(
            "account_label",
            credential.account_label.as_str(),
        ).finish(),
    }
}

fn account_text(account: &Option<ProviderAccountSelection>) -> (r: String)
    ensures
        r@ == account_json(
            match *account {
                Some(account) => Some(account@),
                None => None,
            },
        ),
{
    match account {
        None => "null".to_owned(),
        Some(account) => Payload::new().uid("account_id", account.account_id).string(
            "provider_identity",
            account.provider_identity.as_str(),
        ).raw("credential", credential_text(&account.credential).as_str()).finish(),
    }
}

pub fn identity_text(identity: &ProviderLaunchIdentity) -> (r: String)
    ensures
        r@ == identity_json(identity@),
{
    Payload::new().uid("agent_instance_id", identity.agent_instance_id).uid(
        "agent_provider_id",
        identity.agent_provider_id,
    ).uid("project_id", identity.project_id).uid("model_id", identity.model_id).string(
        "adapter_kind",
        identity.adapter_kind.as_str(),
    ).string("model", identity.model.as_str()).raw(
        "account",
        account_text(&identity.account).as_str(),
    ).finish()
}

/// What a launch plan says apart from its policy.
pub open spec fn plan_fields(plan: ProviderLaunchPlan) -> Seq<(Seq<char>, Seq<char>)> {
    fields().push(("version"@, decimal(plan.version as nat)))
        .push(("execution_id"@, json_uid(plan.execution_id)))
        .push(("node_id"@, json_uid(plan.node_id)))
        .push(("session_id"@, json_uid(plan.session_id)))
        .push(("run_id"@, json_uid(plan.run_id)))
        .push(("attempt"@, decimal(plan.attempt as nat)))
        .push(("role_id"@, json_uid(plan.role_id)))
        .push(("owner"@, json_string(plan.owner@)))
        .push(("identity"@, identity_json(plan.identity@)))
        .push(("workspace_root"@, json_string(plan.workspace_root@)))
        .push(("prompt"@, json_string(plan.prompt@)))
}

/// The JSON text of a launch plan. A plan without a policy does not mention one.
pub open spec fn plan_json(plan: ProviderLaunchPlan) -> Seq<char> {
    match plan.policy {
        None => object(plan_fields(plan)),
        Some(policy) => object(plan_fields(plan).push(("policy"@, policy_json(policy)))),
    }
}

/// The checksum of a launch plan: the digest of its JSON text.
pub open spec fn plan_hash(plan: ProviderLaunchPlan) -> Seq<char> {
    "sha256:"@ + sha256_hex(encode_utf8(plan_json(plan)))
}

impl ProviderLaunchPlan {
    pub fn json(&self) -> (r: String)
        ensures
            r@ == plan_json(*self),
    {
        let payload = Payload::new().number("version", self.version as u64).uid(
            "execution_id",
            self.execution_id,
        ).uid("node_id", self.node_id).uid("session_id", self.session_id).uid(
            "run_id",
            self.run_id,
        ).number("attempt", self.attempt).uid("role_id", self.role_id).string(
            "owner",
            self.owner.as_str(),
        ).raw("identity", identity_text(&self.identity).as_str()).string(
            "workspace_root",
            self.workspace_root.as_str(),
        ).string("prompt", self.prompt.as_str());
        match &self.policy {
            None => payload.finish(),
            Some(policy) => payload.raw("policy", policy_text(policy).as_str()).finish(),
        }
    }

    pub fn hash(&self) -> (r: String)
        ensures
            r@ == plan_hash(*self),
    {
        let json = self.json();
        let digest = sha256_text(json.as_str().as_bytes());
        let mut text = "sha256:".to_owned();
        text.append(digest.as_str());
        text
    }

    pub fn copy(&self) -> (r: Self)
        ensures
            r == *self,
    {
        ProviderLaunchPlan {
            version: self.version,
            execution_id: self.execution_id,
            node_id: self.node_id,
            session_id: self.session_id,
            run_id: self.run_id,
            attempt: self.attempt,
            role_id: self.role_id,
            owner: self.owner.clone(),
            identity: self.identity.copy(),
            workspace_root: self.workspace_root.clone(),
            prompt: self.prompt.clone(),
            policy: self.policy,
        }
    }
}

/// A recorded launch plan with the checksum under which it was recorded.
#[derive(Clone, Debug, PartialEq, Eq)]
pub struct PlanRow {
    pub run_id: RunId,
    pub plan: ProviderLaunchPlan,
    pub plan_hash: String,
}

impl Keyed for PlanRow {
    open spec fn key(&self) -> Uid {
        self.run_id
    }

    fn id(&self) -> (r: Uid) {
        self.run_id
    }
}

} // verus!
