use crate::identity::{same_optional_text, text_of, CredentialBackend, ScopedPolicy};
use crate::uid::{
    AccountId, AgentInstanceId, AgentProviderId, ApprovalRequestId, CredentialReferenceId, Keyed,
    ProjectId, RoleId, RunId, Uid,
};
use vstd::prelude::*;

verus! {

/// The exact credential that an approval is about.
#[derive(Clone, Debug, PartialEq, Eq)]
pub struct CredentialGrantBinding {
    pub agent_provider_id: AgentProviderId,
    pub account_id: AccountId,
    pub adapter_kind: String,
    pub provider_identity: String,
    pub credential_reference_id: CredentialReferenceId,
    pub backend: CredentialBackend,
    pub service: String,
    pub account_label: String,
    pub capability_key: String,
}

#[derive(Clone, Debug, PartialEq, Eq)]
pub struct ApprovalScope {
    pub project_id: ProjectId,
    pub run_id: Option<RunId>,
    pub filesystem_roots: Vec<String>,
    pub data_scopes: Vec<String>,
    pub network_destinations: Vec<String>,
    pub credential_reference_ids: Vec<CredentialReferenceId>,
    pub destination: Option<String>,
    pub credential_binding: Option<CredentialGrantBinding>,
}

/// What is to be approved. `risk` is the name under which the risk is recorded.
#[derive(Clone, Debug, PartialEq, Eq)]
pub struct ApprovalAction {
    pub agent_instance_id: AgentInstanceId,
    pub role_id: Option<RoleId>,
    pub action_key: String,
    pub reason_key: String,
    pub consequence_key: String,
    pub risk: String,
    pub scope: ApprovalScope,
    pub requested_policy: ScopedPolicy,
}

#[derive(Clone, Debug, PartialEq, Eq)]
pub struct ApprovalRequest {
    pub id: ApprovalRequestId,
    pub created_at_ms: u64,
    pub expires_at_ms: u64,
    pub action: ApprovalAction,
    pub request_hash: String,
}

#[derive(Clone, Copy, Debug, PartialEq, Eq, Structural)]
pub enum ApprovalDecisionKind {
    Approve,
    Deny,
}

#[derive(Clone, Debug, PartialEq, Eq)]
pub struct ApprovalDecision {
    pub request_id: ApprovalRequestId,
    pub request_hash: String,
    pub kind: ApprovalDecisionKind,
    pub decided_at_ms: u64,
    pub actor: String,
}

impl ApprovalDecision {
    pub fn copy(&self) -> (r: Self)
        ensures
            r == *self,
    {
        ApprovalDecision {
            request_id: self.request_id,
            request_hash: self.request_hash.clone(),
            kind: self.kind,
            decided_at_ms: self.decided_at_ms,
            actor: self.actor.clone(),
        }
    }
}

pub ghost struct BindingView {
    pub agent_provider_id: Uid,
    pub account_id: Uid,
    pub adapter_kind: Seq<char>,
    pub provider_identity: Seq<char>,
    pub credential_reference_id: Uid,
    pub backend: CredentialBackend,
    pub service: Seq<char>,
    pub account_label: Seq<char>,
    pub capability_key: Seq<char>,
}

impl View for CredentialGrantBinding {
    type V = BindingView;

    open spec fn view(&self) -> BindingView {
        BindingView {
            agent_provider_id: self.agent_provider_id,
            account_id: self.account_id,
            adapter_kind: self.adapter_kind@,
            provider_identity: self.provider_identity@,
            credential_reference_id: self.credential_reference_id,
            backend: self.backend,
            service: self.service@,
            account_label: self.account_label@,
            capability_key: self.capability_key@,
        }
    }
}

impl CredentialGrantBinding {
    pub fn same(&self, other: &Self) -> (r: bool)
        ensures
            r == (self@ == other@),
    {
        self.agent_provider_id == other.agent_provider_id && self.account_id == other.account_id
            && self.adapter_kind == other.adapter_kind && self.provider_identity
            == other.provider_identity && self.credential_reference_id
            == other.credential_reference_id && self.backend == other.backend && self.service
            == other.service && self.account_label == other.account_label && self.capability_key
            == other.capability_key
    }
}

/// The texts of a list, each character by character.
pub open spec fn texts(list: Seq<String>) -> Seq<Seq<char>> {
    Seq::new(list.len(), |i: int| list[i]@)
}

pub fn same_texts(a: &Vec<String>, b: &Vec<String>) -> (r: bool)
    ensures
        r == (texts(a@) == texts(b@)),
{
    if a.len() != b.len() {
        assert(texts(a@).len() != texts(b@).len());
        return false;
    }
    let mut i: usize = 0;
    while i < a.len()
        invariant
            i <= a@.len(),
            a@.len() == b@.len(),
            forall|j: int| 0 <= j < i ==> #[trigger] a@[j]@ == b@[j]@,
        decreases a@.len() - i,
    {
        if a[i] != b[i] {
            assert(texts(a@)[i as int] != texts(b@)[i as int]);
            return false;
        }
        i += 1;
    }
    assert(texts(a@) =~= texts(b@));
    true
}

fn same_ids(a: &Vec<Uid>, b: &Vec<Uid>) -> (r: bool)
    ensures
        r == (a@ == b@),
{
    if a.len() != b.len() {
        return false;
    }
    let mut i: usize = 0;
    while i < a.len()
        invariant
            i <= a@.len(),
            a@.len() == b@.len(),
            forall|j: int| 0 <= j < i ==> #[trigger] a@[j] == b@[j],
        decreases a@.len() - i,
    {
        if a[i] != b[i] {
            return false;
        }
        i += 1;
    }
    assert(a@ =~= b@);
    true
}

pub ghost struct ActionView {
    pub agent_instance_id: Uid,
    pub role_id: Option<Uid>,
    pub action_key: Seq<char>,
    pub reason_key: Seq<char>,
    pub consequence_key: Seq<char>,
    pub risk: Seq<char>,
    pub project_id: Uid,
    pub run_id: Option<Uid>,
    pub filesystem_roots: Seq<Seq<char>>,
    pub data_scopes: Seq<Seq<char>>,
    pub network_destinations: Seq<Seq<char>>,
    pub credential_reference_ids: Seq<Uid>,
    pub destination: Option<Seq<char>>,
    pub credential_binding: Option<BindingView>,
    pub requested_policy: ScopedPolicy,
}

pub open spec fn binding_of(binding: Option<CredentialGrantBinding>) -> Option<BindingView> {
    match binding {
        Some(binding) => Some(binding@),
        None => None,
    }
}

impl View for ApprovalAction {
    type V = ActionView;

    open spec fn view(&self) -> ActionView {
        ActionView {
            agent_instance_id: self.agent_instance_id,
            role_id: self.role_id,
            action_key: self.action_key@,
            reason_key: self.reason_key@,
            consequence_key: self.consequence_key@,
            risk: self.risk@,
            project_id: self.scope.project_id,
            run_id: self.scope.run_id,
            filesystem_roots: texts(self.scope.filesystem_roots@),
            data_scopes: texts(self.scope.data_scopes@),
            network_destinations: texts(self.scope.network_destinations@),
            credential_reference_ids: self.scope.credential_reference_ids@,
            destination: text_of(self.scope.destination),
            credential_binding: binding_of(self.scope.credential_binding),
            requested_policy: self.requested_policy,
        }
    }
}

impl ApprovalAction {
    pub fn same(&self, other: &Self) -> (r: bool)
        ensures
            r == (self@ == other@),
    {
        let same_role = match (self.role_id, other.role_id) {
            (Some(a), Some(b)) => a == b,
            (None, None) => true,
            _ => false,
        };
        let same_run = match (self.scope.run_id, other.scope.run_id) {
            (Some(a), Some(b)) => a == b,
            (None, None) => true,
            _ => false,
        };
        let same_binding = match (&self.scope.credential_binding, &other.scope.credential_binding) {
            (Some(a), Some(b)) => a.same(b),
            (None, None) => true,
            _ => false,
        };
        self.agent_instance_id == other.agent_instance_id && same_role && self.action_key
            == other.action_key && self.reason_key == other.reason_key && self.consequence_key
            == other.consequence_key && self.risk == other.risk && self.scope.project_id
            == other.scope.project_id && same_run && same_texts(
            &self.scope.filesystem_roots,
            &other.scope.filesystem_roots,
        ) && same_texts(&self.scope.data_scopes, &other.scope.data_scopes) && same_texts(
            &self.scope.network_destinations,
            &other.scope.network_destinations,
        ) && same_ids(
            &self.scope.credential_reference_ids,
            &other.scope.credential_reference_ids,
        ) && same_optional_text(&self.scope.destination, &other.scope.destination) && same_binding
            && self.requested_policy == other.requested_policy
    }
}

/// A request, with the decision on it once there is one.
#[derive(Clone, Debug, PartialEq, Eq)]
pub struct ApprovalRow {
    pub request: ApprovalRequest,
    pub decision: Option<ApprovalDecision>,
}

impl Keyed for ApprovalRow {
    open spec fn key(&self) -> Uid {
        self.request.id
    }

    fn id(&self) -> (r: Uid) {
        self.request.id
    }
}

} // verus!
