//! Durable selected-account launch approval coordination.
//!
//! This ledger records approval-gated launch intent only. It never reads a
//! credential, consumes a grant, or dispatches or cancels a provider process.
use crate::approval::{
    texts, ActionView, ApprovalAction, ApprovalDecision, ApprovalDecisionKind, ApprovalRequest,
    ApprovalScope, BindingView, CredentialGrantBinding,
};
use crate::attempts::{current_attempt, current_position};
use crate::binding::{resolve, resolve_provider_run_binding};
use crate::error::{invalid_run, ApprovalError, CatalogError, Refusal, StoreError};
use crate::graph::{GraphError, GraphExecution, GraphNodeState};
use crate::identity::{
    text_of, CatalogView, EntityLifecycle, NormalizedRunState, PermissionLevel, PolicyCeiling,
    PolicyLayer, Run, ScopedPolicy,
};
use crate::launch::{plan_hash, ProviderLaunchPlan};
use crate::policy::{online_launch_allowed, plan_allowed};
use crate::preflight::load_plan;
use crate::protocol::StagedLaunchState;
use crate::store::{GrantRow, NodeRun, StagedRow, Store, StoreView};
use crate::uid::{find, parsed_uid, position, ApprovalRequestId, RunId, Uid};
use vstd::prelude::*;
use vstd::string::*;

verus! {

/// How long the approval of a staged launch stays open, in milliseconds.
pub const APPROVAL_TTL_MS: u64 = 300_000;

/// What the domain rules find in what is stored about a staged launch: in the
/// catalog as it stands, in the request taken by itself and against the catalog,
/// and in the decision on it.
#[derive(Debug)]
pub struct StagedFindings {
    pub catalog_fault: Option<CatalogError>,
    pub request_fault: Option<ApprovalError>,
    pub authority_fault: Option<ApprovalError>,
    pub decision_fault: Option<ApprovalError>,
}

/// The policy that a staged launch asks for: the use of one credential, and
/// nothing else.
pub open spec fn credential_policy() -> ScopedPolicy {
    ScopedPolicy {
        layer: PolicyLayer::SingleRun,
        ceiling: PolicyCeiling {
            filesystem: PermissionLevel::Deny,
            network: PermissionLevel::Deny,
            process: PermissionLevel::Deny,
            device: PermissionLevel::Deny,
            credential: PermissionLevel::Use,
            persistent_approval: false,
        },
    }
}

/// What has to be approved before a plan may use the credential that it names.
pub open spec fn plan_action(plan: ProviderLaunchPlan) -> Result<ActionView, Refusal> {
    match plan.identity.account {
        None => Err(Refusal::CredentialGrantRejected),
        Some(account) => match account.credential {
            None => Err(Refusal::CredentialGrantRejected),
            Some(credential) => Ok(
                ActionView {
                    agent_instance_id: plan.identity.agent_instance_id,
                    role_id: Some(plan.role_id),
                    action_key: "credential.use"@,
                    reason_key: "provider.authentication"@,
                    consequence_key: "credential.single_run"@,
                    risk: "high"@,
                    project_id: plan.identity.project_id,
                    run_id: Some(plan.run_id),
                    filesystem_roots: seq![plan.workspace_root@],
                    data_scopes: seq!["provider_launch_plan:"@ + plan_hash(plan)],
                    network_destinations: Seq::empty(),
                    credential_reference_ids: seq![credential.reference_id],
                    destination: None,
                    credential_binding: Some(
                        BindingView {
                            agent_provider_id: plan.identity.agent_provider_id,
                            account_id: account.account_id,
                            adapter_kind: plan.identity.adapter_kind@,
                            provider_identity: account.provider_identity@,
                            credential_reference_id: credential.reference_id,
                            backend: credential.backend,
                            service: credential.service@,
                            account_label: credential.account_label@,
                            capability_key: "provider.authenticate"@,
                        },
                    ),
                    requested_policy: credential_policy(),
                },
            ),
        },
    }
}

pub fn approval_action(plan: &ProviderLaunchPlan) -> (r: Result<ApprovalAction, StoreError>)
    ensures
        match r {
            Ok(action) => plan_action(*plan) == Ok::<_, Refusal>(action@),
            Err(error) => plan_action(*plan) == Err::<ActionView, _>(error@),
        },
{
    let account = match &plan.identity.account {
        None => {
            return Err(StoreError::CredentialGrantRejected);
        },
        Some(account) => account,
    };
    let credential = match &account.credential {
        None => {
            return Err(StoreError::CredentialGrantRejected);
        },
        Some(credential) => credential,
    };
    let mut data_scope = "provider_launch_plan:".to_owned();
    data_scope.append(plan.hash().as_str());
    let mut filesystem_roots: Vec<String> = Vec::new();
    filesystem_roots.push(plan.workspace_root.clone());
    let mut data_scopes: Vec<String> = Vec::new();
    data_scopes.push(data_scope);
    let mut credential_reference_ids: Vec<Uid> = Vec::new();
    credential_reference_ids.push(credential.reference_id);
    let network_destinations: Vec<String> = Vec::new();
    proof {
        assert(texts(filesystem_roots@) =~= seq![plan.workspace_root@]);
        assert(texts(data_scopes@) =~= seq!["provider_launch_plan:"@ + plan_hash(*plan)]);
        assert(texts(network_destinations@) =~= Seq::<Seq<char>>::empty());
        assert(credential_reference_ids@ =~= seq![credential.reference_id]);
    }
    Ok(
        ApprovalAction {
            agent_instance_id: plan.identity.agent_instance_id,
            role_id: Some(plan.role_id),
            action_key: "credential.use".to_owned(),
            reason_key: "provider.authentication".to_owned(),
            consequence_key: "credential.single_run".to_owned(),
            risk: "high".to_owned(),
            scope: ApprovalScope {
                project_id: plan.identity.project_id,
                run_id: Some(plan.run_id),
                filesystem_roots,
                data_scopes,
                network_destinations,
                credential_reference_ids,
                destination: None,
                credential_binding: Some(
                    CredentialGrantBinding {
                        agent_provider_id: plan.identity.agent_provider_id,
                        account_id: account.account_id,
                        adapter_kind: plan.identity.adapter_kind.clone(),
                        provider_identity: account.provider_identity.clone(),
                        credential_reference_id: credential.reference_id,
                        backend: credential.backend,
                        service: credential.service.clone(),
                        account_label: credential.account_label.clone(),
                        capability_key: "provider.authenticate".to_owned(),
                    },
                ),
            },
            requested_policy: ScopedPolicy {
                layer: PolicyLayer::SingleRun,
                ceiling: PolicyCeiling {
                    filesystem: PermissionLevel::Deny,
                    network: PermissionLevel::Deny,
                    process: PermissionLevel::Deny,
                    device: PermissionLevel::Deny,
                    credential: PermissionLevel::Use,
                    persistent_approval: false,
                },
            },
        },
    )
}

/// Why a request is not the one that a plan calls for.
pub open spec fn request_refusal(
    plan: ProviderLaunchPlan,
    request: ApprovalRequest,
    fault: Option<ApprovalError>,
) -> Option<Refusal> {
    match plan_action(plan) {
        Err(refusal) => Some(refusal),
        Ok(action) => if request.expires_at_ms - request.created_at_ms != APPROVAL_TTL_MS {
            Some(Refusal::CredentialGrantRejected)
        } else if fault is Some {
            Some(Refusal::InvalidApproval(fault->0))
        } else if request.action@ != action {
            Some(Refusal::CredentialGrantRejected)
        } else {
            None
        },
    }
}

pub fn validate_request_for_plan(
    plan: &ProviderLaunchPlan,
    request: &ApprovalRequest,
    fault: &Option<ApprovalError>,
) -> (r: Result<(), StoreError>)
    ensures
        match r {
            Ok(_) => request_refusal(*plan, *request, *fault) is None,
            Err(error) => request_refusal(*plan, *request, *fault) == Some(error@),
        },
{
    let action = match approval_action(plan) {
        Ok(action) => action,
        Err(error) => {
            return Err(error);
        },
    };
    if request.expires_at_ms < request.created_at_ms || request.expires_at_ms
        - request.created_at_ms != APPROVAL_TTL_MS {
        return Err(StoreError::CredentialGrantRejected);
    }
    if let Some(fault) = fault {
        return Err(StoreError::InvalidApproval(fault.copy()));
    }
    if !request.action.same(&action) {
        return Err(StoreError::CredentialGrantRejected);
    }
    Ok(())
}

/// The policy of the role that a plan was made for, while the role is active
/// and the policies still allow the plan.
pub open spec fn role_policy(identity: CatalogView, plan: ProviderLaunchPlan) -> Result<ScopedPolicy, Refusal> {
    if !plan_allowed(identity, plan) {
        Err(Refusal::CredentialGrantRejected)
    } else {
        match find(identity.roles, plan.role_id) {
            None => Err(Refusal::CredentialGrantRejected),
            Some(i) => if identity.roles[i].metadata.lifecycle == EntityLifecycle::Active {
                Ok(identity.roles[i].policy)
            } else {
                Err(Refusal::CredentialGrantRejected)
            },
        }
    }
}

/// Why what is recorded of the decision on a staged launch, and of its grant,
/// does not fit its state.
pub open spec fn decision_refusal(
    state: StagedLaunchState,
    decision: Option<ApprovalDecision>,
    grant: Option<GrantRow>,
    fault: Option<ApprovalError>,
) -> Option<Refusal> {
    match (state, decision, grant) {
        (StagedLaunchState::AwaitingApproval, None, None) => None,
        (StagedLaunchState::Ready, Some(decision), Some(grant)) => if grant.consumed_at_ms is Some
            || grant.revoked_at_ms is Some {
            Some(Refusal::CredentialGrantRejected)
        } else if fault is Some {
            Some(Refusal::InvalidApproval(fault->0))
        } else if decision.kind == ApprovalDecisionKind::Approve && grant.issued_at_ms
            == decision.decided_at_ms {
            None
        } else {
            Some(Refusal::CredentialGrantRejected)
        },
        _ => Some(Refusal::CredentialGrantRejected),
    }
}

pub fn validate_decision_and_grant_state(
    state: StagedLaunchState,
    decision: &Option<ApprovalDecision>,
    grant: Option<&GrantRow>,
    fault: &Option<ApprovalError>,
) -> (r: Result<(), StoreError>)
    ensures
        match r {
            Ok(_) => decision_refusal(
                state,
                *decision,
                match grant {
                    Some(grant) => Some(*grant),
                    None => None,
                },
                *fault,
            ) is None,
            Err(error) => decision_refusal(
                state,
                *decision,
                match grant {
                    Some(grant) => Some(*grant),
                    None => None,
                },
                *fault,
            ) == Some(error@),
        },
{
    match (state, decision, grant) {
        (StagedLaunchState::AwaitingApproval, None, None) => Ok(()),
        (StagedLaunchState::Ready, Some(decision), Some(grant)) => {
            if grant.consumed_at_ms.is_some() || grant.revoked_at_ms.is_some() {
                return Err(StoreError::CredentialGrantRejected);
            }
            if let Some(fault) = fault {
                return Err(StoreError::InvalidApproval(fault.copy()));
            }
            if decision.kind == ApprovalDecisionKind::Approve && grant.issued_at_ms
                == decision.decided_at_ms {
                Ok(())
            } else {
                Err(StoreError::CredentialGrantRejected)
            }
        },
        _ => Err(StoreError::CredentialGrantRejected),
    }
}

/// Whether a ledger row is that of an unlaunched, undecided or approved launch.
pub open spec fn staging_open(row: StagedRow) -> bool {
    &&& row.state == StagedLaunchState::AwaitingApproval || row.state == StagedLaunchState::Ready
    &&& row.finished_at_ms is None
    &&& row.cancel_reason is None
}

/// Whether an attempt is the one that a plan was made for, and unfinished.
pub open spec fn attempt_open(row: NodeRun, plan: ProviderLaunchPlan) -> bool {
    &&& row.run_id == plan.run_id
    &&& row.attempt == plan.attempt
    &&& row.finished_at is None
    &&& row.terminal_state is None
    &&& row.failure is None
}

/// Why a run is not a soundly staged one: its timing, its ledger row, its plan,
/// its catalog entries, its graph node, its attempt or its request disagree. On
/// demand the live authority and the state of the decision are held against it
/// too.
pub open spec fn staged_refusal(
    s: StoreView,
    run: Run,
    decision_state: bool,
    live_authority: bool,
    f: StagedFindings,
) -> Option<Refusal> {
    if run.state != NormalizedRunState::AwaitingApproval || run.started_at is Some
        || run.finished_at is Some {
        Some(Refusal::InvalidRunState("staged run has invalid catalog timing"@))
    } else {
        match find(s.staged, run.metadata.id) {
            None => Some(Refusal::InvalidRunState("staged launch ledger is unavailable"@)),
            Some(t) => if !staging_open(s.staged[t]) {
                Some(Refusal::InvalidRunState("staged launch ledger is terminal or corrupt"@))
            } else {
                match load_plan(s, run.metadata.id) {
                    Err(refusal) => Some(refusal),
                    Ok(p) => staged_plan_refusal(
                        s,
                        run,
                        s.staged[t],
                        s.plans[p].plan,
                        decision_state,
                        live_authority,
                        f,
                    ),
                }
            },
        }
    }
}

/// The part of the check that holds the plan against the catalog.
pub open spec fn staged_plan_refusal(
    s: StoreView,
    run: Run,
    row: StagedRow,
    plan: ProviderLaunchPlan,
    decision_state: bool,
    live_authority: bool,
    f: StagedFindings,
) -> Option<Refusal> {
    if plan.run_id != run.metadata.id || plan.session_id != run.session_id
        || plan.identity.model_id != run.model_id {
        Some(Refusal::InvalidRunState("staged run differs from its launch plan"@))
    } else if f.catalog_fault is Some {
        Some(Refusal::InvalidCatalog(f.catalog_fault->0))
    } else {
        match find(s.identity.runs, run.metadata.id) {
            None => Some(Refusal::RunNotFound),
            Some(i) => if s.identity.runs[i]@ != run@ {
                Some(Refusal::InvalidRunState("staged run differs from the current catalog"@))
            } else {
                match find(s.identity.sessions, run.session_id) {
                    None => Some(Refusal::RunNotFound),
                    Some(j) => if s.identity.sessions[j].agent_instance_id
                        != plan.identity.agent_instance_id || s.identity.sessions[j].project_id
                        != plan.identity.project_id {
                        Some(
                            Refusal::InvalidRunState(
                                "staged session differs from its launch identity"@,
                            ),
                        )
                    } else {
                        staged_graph_refusal(s, row, plan, decision_state, live_authority, f)
                    },
                }
            },
        }
    }
}

/// The part of the check that holds the plan against the graph and its attempts.
pub open spec fn staged_graph_refusal(
    s: StoreView,
    row: StagedRow,
    plan: ProviderLaunchPlan,
    decision_state: bool,
    live_authority: bool,
    f: StagedFindings,
) -> Option<Refusal> {
    match find(s.graphs, plan.execution_id) {
        None => Some(Refusal::GraphNotFound),
        Some(g) => {
            let execution = s.graphs[g].graph.execution;
            let definition = find(execution.graph.nodes@, plan.node_id);
            let node = find(execution.nodes@, plan.node_id);
            let latest = current_attempt(s.node_runs, plan.execution_id, plan.node_id);
            if s.graphs[g].graph.fault is Some {
                Some(Refusal::InvalidGraph(s.graphs[g].graph.fault->0))
            } else if s.graphs[g].revision != execution.revision {
                Some(Refusal::InvalidGraph(GraphError::InvalidExecution))
            } else if definition is None || node is None {
                Some(Refusal::RunNotFound)
            } else if execution.graph.nodes@[definition->0].role_id != plan.role_id
                || execution.nodes@[node->0].state != GraphNodeState::AwaitingApproval || text_of(
                execution.nodes@[node->0].owner,
            ) != Some(plan.owner@) || execution.nodes@[node->0].run_id != Some(plan.run_id) {
                Some(Refusal::InvalidRunState("staged graph node differs from its launch plan"@))
            } else if latest is None || !attempt_open(s.node_runs[latest->0], plan) {
                Some(Refusal::InvalidRunState("staged run is not the current unfinished attempt"@))
            } else {
                staged_request_refusal(s, row, plan, execution, decision_state, live_authority, f)
            }
        },
    }
}

/// The part of the check that holds the plan against the approval request.
pub open spec fn staged_request_refusal(
    s: StoreView,
    row: StagedRow,
    plan: ProviderLaunchPlan,
    execution: GraphExecution,
    decision_state: bool,
    live_authority: bool,
    f: StagedFindings,
) -> Option<Refusal> {
    match find(s.approvals, row.request_id) {
        None => Some(Refusal::ApprovalNotFound),
        Some(a) => {
            let approval = s.approvals[a];
            let authority = authority_refusal(s, plan, execution, f);
            if request_refusal(plan, approval.request, f.request_fault) is Some {
                request_refusal(plan, approval.request, f.request_fault)
            } else if live_authority && authority is Some {
                authority
            } else if decision_state {
                decision_refusal(
                    row.state,
                    approval.decision,
                    match find(s.grants, row.request_id) {
                        Some(q) => Some(s.grants[q]),
                        None => None,
                    },
                    f.decision_fault,
                )
            } else {
                None
            }
        },
    }
}

/// Why the catalogs as they stand no longer authorize a plan.
pub open spec fn authority_refusal(
    s: StoreView,
    plan: ProviderLaunchPlan,
    execution: GraphExecution,
    f: StagedFindings,
) -> Option<Refusal> {
    if f.authority_fault is Some {
        Some(Refusal::InvalidApproval(f.authority_fault->0))
    } else {
        match role_policy(s.identity, plan) {
            Err(refusal) => Some(refusal),
            Ok(_) => match resolve(s.identity, s.m3, execution, plan.node_id) {
                Err(refusal) => Some(refusal),
                Ok(binding) => if binding.launch_identity != plan.identity@
                    || binding.workspace_root != plan.workspace_root@ || binding.prompt
                    != plan.prompt@ {
                    Some(
                        Refusal::InvalidRunState(
                            "current provider selection differs from the staged launch plan"@,
                        ),
                    )
                } else {
                    None
                },
            },
        }
    }
}

impl Store {
    pub fn current_role_policy(&self, plan: &ProviderLaunchPlan) -> (r: Result<
        ScopedPolicy,
        StoreError,
    >)
        ensures
            match r {
                Ok(policy) => role_policy(self@.identity, *plan) == Ok::<
                    _,
                    Refusal,
                >(policy),
                Err(error) => role_policy(self@.identity, *plan) == Err::<
                    ScopedPolicy,
                    _,
                >(error@),
            },
    {
        if !online_launch_allowed(plan, &self.identity) {
            return Err(StoreError::CredentialGrantRejected);
        }
        match position(&self.identity.roles, plan.role_id) {
            None => Err(StoreError::CredentialGrantRejected),
            Some(i) => if self.identity.roles[i].metadata.lifecycle == EntityLifecycle::Active {
                Ok(self.identity.roles[i].policy)
            } else {
                Err(StoreError::CredentialGrantRejected)
            },
        }
    }

    fn check_authority(&self, plan: &ProviderLaunchPlan, execution: &GraphExecution, f: &StagedFindings) -> (r:
        Result<(), StoreError>)
        ensures
            match r {
                Ok(_) => authority_refusal(self@, *plan, *execution, *f) is None,
                Err(error) => authority_refusal(self@, *plan, *execution, *f) == Some(error@),
            },
    {
        if let Some(fault) = &f.authority_fault {
            return Err(StoreError::InvalidApproval(fault.copy()));
        }
        match self.current_role_policy(plan) {
            Ok(_) => {},
            Err(error) => {
                return Err(error);
            },
        }
        let binding = match resolve_provider_run_binding(
            &self.identity,
            &self.m3,
            execution,
            plan.node_id,
        ) {
            Ok(binding) => binding,
            Err(error) => {
                return Err(error);
            },
        };
        if !binding.launch_identity.same(&plan.identity) || binding.workspace_root
            != plan.workspace_root || binding.prompt != plan.prompt {
            return Err(
                invalid_run("current provider selection differs from the staged launch plan"),
            );
        }
        Ok(())
    }

    fn check_staged_request(
        &self,
        row: &StagedRow,
        plan: &ProviderLaunchPlan,
        execution: &GraphExecution,
        decision_state: bool,
        live_authority: bool,
        f: &StagedFindings,
    ) -> (r: Result<(), StoreError>)
        ensures
            match r {
                Ok(_) => staged_request_refusal(
                    self@,
                    *row,
                    *plan,
                    *execution,
                    decision_state,
                    live_authority,
                    *f,
                ) is None,
                Err(error) => staged_request_refusal(
                    self@,
                    *row,
                    *plan,
                    *execution,
                    decision_state,
                    live_authority,
                    *f,
                ) == Some(error@),
            },
    {
        let approval = match position(&self.approvals, row.request_id) {
            None => {
                return Err(StoreError::ApprovalNotFound);
            },
            Some(a) => &self.approvals[a],
        };
        match validate_request_for_plan(plan, &approval.request, &f.request_fault) {
            Ok(_) => {},
            Err(error) => {
                return Err(error);
            },
        }
        if live_authority {
            match self.check_authority(plan, execution, f) {
                Ok(_) => {},
                Err(error) => {
                    return Err(error);
                },
            }
        }
        if decision_state {
            let grant = match position(&self.grants, row.request_id) {
                Some(q) => Some(&self.grants[q]),
                None => None,
            };
            return validate_decision_and_grant_state(
                row.state,
                &approval.decision,
                grant,
                &f.decision_fault,
            );
        }
        Ok(())
    }

    fn check_staged_graph(
        &self,
        row: &StagedRow,
        plan: &ProviderLaunchPlan,
        decision_state: bool,
        live_authority: bool,
        f: &StagedFindings,
    ) -> (r: Result<(), StoreError>)
        ensures
            match r {
                Ok(_) => staged_graph_refusal(
                    self@,
                    *row,
                    *plan,
                    decision_state,
                    live_authority,
                    *f,
                ) is None,
                Err(error) => staged_graph_refusal(
                    self@,
                    *row,
                    *plan,
                    decision_state,
                    live_authority,
                    *f,
                ) == Some(error@),
            },
    {
        let graph = match position(&self.graphs, plan.execution_id) {
            None => {
                return Err(StoreError::GraphNotFound);
            },
            Some(g) => &self.graphs[g],
        };
        let execution = &graph.graph.execution;
        if let Some(fault) = &graph.graph.fault {
            return Err(StoreError::InvalidGraph(fault.copy()));
        }
        if graph.revision != execution.revision {
            return Err(StoreError::InvalidGraph(GraphError::InvalidExecution));
        }
        let definition = match position(&execution.graph.nodes, plan.node_id) {
            None => {
                return Err(StoreError::RunNotFound);
            },
            Some(d) => &execution.graph.nodes[d],
        };
        let node = match position(&execution.nodes, plan.node_id) {
            None => {
                return Err(StoreError::RunNotFound);
            },
            Some(n) => &execution.nodes[n],
        };
        let owned = match &node.owner {
            Some(owner) => *owner == plan.owner,
            None => false,
        };
        let bound = match node.run_id {
            Some(run_id) => run_id == plan.run_id,
            None => false,
        };
        if definition.role_id != plan.role_id || node.state != GraphNodeState::AwaitingApproval
            || !owned || !bound {
            return Err(invalid_run("staged graph node differs from its launch plan"));
        }
        let current = match current_position(&self.node_runs, plan.execution_id, plan.node_id) {
            None => false,
            Some(k) => {
                let latest = &self.node_runs[k];
                latest.run_id == plan.run_id && latest.attempt == plan.attempt
                    && latest.finished_at.is_none() && latest.terminal_state.is_none()
                    && latest.failure.is_none()
            },
        };
        if !current {
            return Err(invalid_run("staged run is not the current unfinished attempt"));
        }
        self.check_staged_request(row, plan, execution, decision_state, live_authority, f)
    }

    /// Holds a staged run against everything that is recorded about it. Missing
    /// or inconsistent data is refused rather than inferred.
    pub fn validate_staged_context(
        &self,
        run: &Run,
        decision_state: bool,
        live_authority: bool,
        f: &StagedFindings,
    ) -> (r: Result<(), StoreError>)
        ensures
            match r {
                Ok(_) => staged_refusal(self@, *run, decision_state, live_authority, *f) is None,
                Err(error) => staged_refusal(self@, *run, decision_state, live_authority, *f)
                    == Some(error@),
            },
    {
        if run.state != NormalizedRunState::AwaitingApproval || run.started_at.is_some()
            || run.finished_at.is_some() {
            return Err(invalid_run("staged run has invalid catalog timing"));
        }
        let row = match position(&self.staged, run.metadata.id) {
            None => {
                return Err(invalid_run("staged launch ledger is unavailable"));
            },
            Some(t) => &self.staged[t],
        };
        if (row.state != StagedLaunchState::AwaitingApproval && row.state
            != StagedLaunchState::Ready) || row.finished_at_ms.is_some()
            || row.cancel_reason.is_some() {
            return Err(invalid_run("staged launch ledger is terminal or corrupt"));
        }
        let plan = match self.load_launch_plan(run.metadata.id) {
            Ok(plan) => plan,
            Err(error) => {
                return Err(error);
            },
        };
        if plan.run_id != run.metadata.id || plan.session_id != run.session_id
            || plan.identity.model_id != run.model_id {
            return Err(invalid_run("staged run differs from its launch plan"));
        }
        if let Some(fault) = &f.catalog_fault {
            return Err(StoreError::InvalidCatalog(fault.copy()));
        }
        let persisted = match position(&self.identity.runs, run.metadata.id) {
            None => {
                return Err(StoreError::RunNotFound);
            },
            Some(i) => &self.identity.runs[i],
        };
        if !persisted.same(run) {
            return Err(invalid_run("staged run differs from the current catalog"));
        }
        let session = match position(&self.identity.sessions, run.session_id) {
            None => {
                return Err(StoreError::RunNotFound);
            },
            Some(j) => &self.identity.sessions[j],
        };
        if session.agent_instance_id != plan.identity.agent_instance_id || session.project_id
            != plan.identity.project_id {
            return Err(invalid_run("staged session differs from its launch identity"));
        }
        self.check_staged_graph(row, plan, decision_state, live_authority, f)
    }

    /// Proof, for recovery, that a run that waits for approval was never
    /// dispatched.
    pub fn validate_staged_run(&self, run: &Run, f: &StagedFindings) -> (r: Result<(), StoreError>)
        ensures
            match r {
                Ok(_) => staged_refusal(self@, *run, true, false, *f) is None,
                Err(error) => staged_refusal(self@, *run, true, false, *f) == Some(error@),
            },
    {
        self.validate_staged_context(run, true, false, f)
    }
}

/// The run that a ledger text names.
pub fn parse_run_id(value: &str) -> (r: Result<RunId, StoreError>)
    ensures
        match r {
            Ok(id) => parsed_uid(value@) == Some(id),
            Err(error) => parsed_uid(value@) is None && error@ == Refusal::InvalidRunState(
                "staged launch contains an invalid run id"@,
            ),
        },
        forall|own: RunId| value@ == #[trigger] own.canonical() ==> r == Ok::<_, StoreError>(own),
{
    match Uid::parse(value) {
        Some(id) => Ok(id),
        None => Err(invalid_run("staged launch contains an invalid run id")),
    }
}

/// The approval request that a ledger text names.
pub fn parse_approval_request_id(value: &str) -> (r: Result<ApprovalRequestId, StoreError>)
    ensures
        match r {
            Ok(id) => parsed_uid(value@) == Some(id),
            Err(error) => parsed_uid(value@) is None && error@ == Refusal::CredentialGrantRejected,
        },
        forall|own: ApprovalRequestId|
            value@ == #[trigger] own.canonical() ==> r == Ok::<_, StoreError>(own),
{
    match Uid::parse(value) {
        Some(id) => Ok(id),
        None => Err(StoreError::CredentialGrantRejected),
    }
}

} // verus!
