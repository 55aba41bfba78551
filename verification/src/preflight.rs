use crate::binding::{resolve, resolve_provider_run_binding};
use crate::error::{invalid_run, Refusal, StoreError};
use crate::identity::NormalizedRunState;
use crate::launch::{plan_hash, LaunchIdentityView, ProviderLaunchIdentity, ProviderLaunchPlan};
use crate::policy::online_requirements;
use crate::protocol::BeginGraphNodeRunReceipt;
use crate::store::{constraint_failed, LaunchRecord, Store, StoreView};
use crate::uid::{find, position, RunId};
use vstd::prelude::*;

verus! {

/// The identity recorded for a run, where one is.
pub open spec fn launch_identity(s: StoreView, run_id: RunId) -> Result<
    Option<ProviderLaunchIdentity>,
    Refusal,
> {
    match find(s.node_runs, run_id) {
        None => Err(Refusal::Database),
        Some(k) => match s.node_runs[k].launch {
            LaunchRecord::Absent => Ok(None),
            LaunchRecord::Malformed(text) => Err(Refusal::Serialization(text@)),
            LaunchRecord::Selected(identity) => Ok(Some(identity)),
        },
    }
}

/// The index of the recorded plan of a run, where the plan is intact and agrees
/// with the attempt ledger; or what is wrong with it.
pub open spec fn load_plan(s: StoreView, run_id: RunId) -> Result<int, Refusal> {
    match find(s.plans, run_id) {
        None => Err(Refusal::InvalidRunState("launch plan unavailable"@)),
        Some(p) => {
            let plan = s.plans[p].plan;
            let attempt = find(s.node_runs, run_id);
            if plan.version != 1 || plan.run_id != run_id || plan_hash(plan)
                != s.plans[p].plan_hash@ {
                Err(Refusal::InvalidRunState("launch plan integrity check failed"@))
            } else if attempt is None || s.node_runs[attempt->0].execution_id != plan.execution_id
                || s.node_runs[attempt->0].node_id != plan.node_id
                || s.node_runs[attempt->0].attempt != plan.attempt {
                Err(Refusal::InvalidRunState("launch plan differs from attempt ledger"@))
            } else {
                match launch_identity(s, run_id) {
                    Err(refusal) => Err(refusal),
                    Ok(identity) => if identity is None || identity->0@ != plan.identity@ {
                        Err(Refusal::InvalidRunState("launch plan differs from attempt ledger"@))
                    } else {
                        Ok(p)
                    },
                }
            }
        },
    }
}

/// A plan that says what a receipt says.
pub open spec fn plan_matches(plan: ProviderLaunchPlan, receipt: BeginGraphNodeRunReceipt) -> bool {
    &&& plan.execution_id == receipt.execution_id
    &&& plan.node_id == receipt.node_id
    &&& plan.session_id == receipt.session_id
    &&& plan.run_id == receipt.run_id
    &&& receipt.launch_identity is Some
    &&& plan.identity@ == receipt.launch_identity->0@
    &&& plan.identity.adapter_kind@ == receipt.adapter_kind@
    &&& plan.identity.model@ == receipt.model@
    &&& plan.workspace_root@ == receipt.workspace_root@
    &&& plan.prompt@ == receipt.prompt@
}

impl ProviderLaunchPlan {
    pub fn matches_receipt(&self, receipt: &BeginGraphNodeRunReceipt) -> (r: bool)
        ensures
            r == plan_matches(*self, *receipt),
    {
        self.execution_id == receipt.execution_id && self.node_id == receipt.node_id
            && self.session_id == receipt.session_id && self.run_id == receipt.run_id
            && match &receipt.launch_identity {
            Some(identity) => self.identity.same(identity),
            None => false,
        } && self.identity.adapter_kind == receipt.adapter_kind && self.identity.model
            == receipt.model && self.workspace_root == receipt.workspace_root && self.prompt
            == receipt.prompt
    }
}

/// Why a launch may not go ahead: the receipt, the record of the selection, the
/// run, the plan or the current selection have parted.
pub open spec fn preflight_refusal(s: StoreView, receipt: BeginGraphNodeRunReceipt) -> Option<Refusal> {
    match launch_identity(s, receipt.run_id) {
        Err(refusal) => Some(refusal),
        Ok(None) => Some(Refusal::InvalidRunState("launch selection unavailable"@)),
        Ok(Some(selected)) => if receipt.launch_identity is None || receipt.launch_identity->0@
            != selected@ || receipt.adapter_kind@ != selected.adapter_kind@ || receipt.model@
            != selected.model@ {
            Some(Refusal::InvalidRunState("launch receipt differs from durable selection"@))
        } else {
            let row = s.node_runs[find(s.node_runs, receipt.run_id)->0];
            if row.execution_id != receipt.execution_id || row.node_id != receipt.node_id {
                Some(Refusal::InvalidRunState("launch receipt belongs to another node"@))
            } else {
                preflight_run_refusal(s, receipt, selected@)
            }
        },
    }
}

/// The part of the check that concerns the run and what it is to do.
pub open spec fn preflight_run_refusal(
    s: StoreView,
    receipt: BeginGraphNodeRunReceipt,
    selected: LaunchIdentityView,
) -> Option<Refusal> {
    match find(s.identity.runs, receipt.run_id) {
        None => Some(Refusal::RunNotFound),
        Some(i) => match find(s.identity.sessions, s.identity.runs[i].session_id) {
            None => Some(Refusal::RunNotFound),
            Some(j) => if s.identity.runs[i].state != NormalizedRunState::Starting
                || s.identity.runs[i].session_id != receipt.session_id
                || s.identity.runs[i].model_id != selected.model_id
                || s.identity.sessions[j].agent_instance_id != selected.agent_instance_id
                || s.identity.sessions[j].project_id != selected.project_id {
                Some(Refusal::InvalidRunState("launch run identity changed"@))
            } else {
                match find(s.graphs, receipt.execution_id) {
                    None => Some(Refusal::Database),
                    Some(g) => match resolve(
                        s.identity,
                        s.m3,
                        s.graphs[g].graph.execution,
                        receipt.node_id,
                    ) {
                        Err(refusal) => Some(refusal),
                        Ok(binding) => if binding.launch_identity != selected
                            || binding.workspace_root != receipt.workspace_root@ || binding.prompt
                            != receipt.prompt@ || s.graphs[g].graph.execution.spec_bound_run(
                            receipt.node_id,
                        ) != Some(receipt.run_id) {
                            Some(Refusal::InvalidRunState("provider launch inputs changed"@))
                        } else {
                            match load_plan(s, receipt.run_id) {
                                Err(refusal) => Some(refusal),
                                Ok(p) => if plan_matches(s.plans[p].plan, receipt) {
                                    None
                                } else {
                                    Some(
                                        Refusal::InvalidRunState("provider launch inputs changed"@),
                                    )
                                },
                            }
                        },
                    },
                }
            },
        },
    }
}

/// Why a checked launch may not go online: it may not go ahead at all, or its
/// plan was not made under a policy that allows it.
pub open spec fn online_refusal(s: StoreView, receipt: BeginGraphNodeRunReceipt) -> Option<Refusal> {
    if preflight_refusal(s, receipt) is Some {
        preflight_refusal(s, receipt)
    } else {
        match load_plan(s, receipt.run_id) {
            Err(refusal) => Some(refusal),
            Ok(p) => if online_requirements(s.plans[p].plan) {
                None
            } else {
                Some(Refusal::CredentialGrantRejected)
            },
        }
    }
}

impl Store {
    /// The identity recorded for a run. It is not an authentication grant.
    pub fn load_launch_identity(&self, run_id: RunId) -> (r: Result<
        Option<&ProviderLaunchIdentity>,
        StoreError,
    >)
        ensures
            match r {
                Ok(None) => launch_identity(self@, run_id) == Ok::<
                    Option<ProviderLaunchIdentity>,
                    Refusal,
                >(None),
                Ok(Some(identity)) => launch_identity(self@, run_id) == Ok::<
                    Option<ProviderLaunchIdentity>,
                    Refusal,
                >(Some(*identity)),
                Err(error) => launch_identity(self@, run_id) == Err::<
                    Option<ProviderLaunchIdentity>,
                    _,
                >(error@),
            },
    {
        match position(&self.node_runs, run_id) {
            None => Err(constraint_failed()),
            Some(k) => match &self.node_runs[k].launch {
                LaunchRecord::Absent => Ok(None),
                LaunchRecord::Malformed(text) => Err(StoreError::Serialization(text.clone())),
                LaunchRecord::Selected(identity) => Ok(Some(identity)),
            },
        }
    }

    /// The recorded plan of a run, after its checksum and its agreement with the
    /// attempt ledger have been tested.
    pub fn load_launch_plan(&self, run_id: RunId) -> (r: Result<&ProviderLaunchPlan, StoreError>)
        ensures
            match r {
                Ok(plan) => load_plan(self@, run_id) is Ok && *plan == self@.plans[load_plan(
                    self@,
                    run_id,
                )->Ok_0].plan,
                Err(error) => load_plan(self@, run_id) == Err::<int, _>(error@),
            },
    {
        let p = match position(&self.plans, run_id) {
            None => {
                return Err(invalid_run("launch plan unavailable"));
            },
            Some(p) => p,
        };
        let plan = &self.plans[p].plan;
        if plan.version != 1 || plan.run_id != run_id || plan.hash() != self.plans[p].plan_hash {
            return Err(invalid_run("launch plan integrity check failed"));
        }
        let in_ledger = match position(&self.node_runs, run_id) {
            None => false,
            Some(k) => self.node_runs[k].execution_id == plan.execution_id
                && self.node_runs[k].node_id == plan.node_id && self.node_runs[k].attempt
                == plan.attempt,
        };
        if !in_ledger {
            return Err(invalid_run("launch plan differs from attempt ledger"));
        }
        let same = match self.load_launch_identity(run_id) {
            Err(error) => {
                return Err(error);
            },
            Ok(None) => false,
            Ok(Some(identity)) => identity.same(&plan.identity),
        };
        if !same {
            return Err(invalid_run("launch plan differs from attempt ledger"));
        }
        Ok(plan)
    }

    /// Rechecks the receipt and the current selection just before work is handed
    /// to a provider runner.
    #[verifier::rlimit(30)]
    pub fn preflight_provider_launch(&self, receipt: &BeginGraphNodeRunReceipt) -> (r: Result<
        (),
        StoreError,
    >)
        ensures
            match r {
                Ok(_) => preflight_refusal(self@, *receipt) is None,
                Err(error) => preflight_refusal(self@, *receipt) == Some(error@),
            },
    {
        let selected = match self.load_launch_identity(receipt.run_id) {
            Err(error) => {
                return Err(error);
            },
            Ok(None) => {
                return Err(invalid_run("launch selection unavailable"));
            },
            Ok(Some(selected)) => selected,
        };
        let named = match &receipt.launch_identity {
            Some(identity) => identity.same(selected),
            None => false,
        };
        if !named || receipt.adapter_kind != selected.adapter_kind || receipt.model
            != selected.model {
            return Err(invalid_run("launch receipt differs from durable selection"));
        }
        let attempt = match position(&self.node_runs, receipt.run_id) {
            None => {
                return Err(constraint_failed());
            },
            Some(k) => &self.node_runs[k],
        };
        if attempt.execution_id != receipt.execution_id || attempt.node_id != receipt.node_id {
            return Err(invalid_run("launch receipt belongs to another node"));
        }
        let run = match position(&self.identity.runs, receipt.run_id) {
            None => {
                return Err(StoreError::RunNotFound);
            },
            Some(i) => &self.identity.runs[i],
        };
        let session = match position(&self.identity.sessions, run.session_id) {
            None => {
                return Err(StoreError::RunNotFound);
            },
            Some(j) => &self.identity.sessions[j],
        };
        if run.state != NormalizedRunState::Starting || run.session_id != receipt.session_id
            || run.model_id != selected.model_id || session.agent_instance_id
            != selected.agent_instance_id || session.project_id != selected.project_id {
            return Err(invalid_run("launch run identity changed"));
        }
        let execution = match position(&self.graphs, receipt.execution_id) {
            None => {
                return Err(constraint_failed());
            },
            Some(g) => &self.graphs[g].graph.execution,
        };
        let binding = match resolve_provider_run_binding(
            &self.identity,
            &self.m3,
            execution,
            receipt.node_id,
        ) {
            Ok(binding) => binding,
            Err(error) => {
                return Err(error);
            },
        };
        let bound = match execution.bound_run(receipt.node_id) {
            Some(run_id) => run_id == receipt.run_id,
            None => false,
        };
        if !binding.launch_identity.same(selected) || binding.workspace_root
            != receipt.workspace_root || binding.prompt != receipt.prompt || !bound {
            return Err(invalid_run("provider launch inputs changed"));
        }
        let plan = match self.load_launch_plan(receipt.run_id) {
            Ok(plan) => plan,
            Err(error) => {
                return Err(error);
            },
        };
        if !plan.matches_receipt(receipt) {
            return Err(invalid_run("provider launch inputs changed"));
        }
        Ok(())
    }

    /// Checks a launch before any executable is looked for or any ambient login
    /// is used.
    pub fn validate_online_cli_launch(&self, receipt: &BeginGraphNodeRunReceipt) -> (r: Result<
        (),
        StoreError,
    >)
        ensures
            match r {
                Ok(_) => online_refusal(self@, *receipt) is None,
                Err(error) => online_refusal(self@, *receipt) == Some(error@),
            },
    {
        match self.preflight_provider_launch(receipt) {
            Ok(_) => {},
            Err(error) => {
                return Err(error);
            },
        }
        match self.load_launch_plan(receipt.run_id) {
            Err(error) => Err(error),
            Ok(plan) => if plan.meets_online_requirements() {
                Ok(())
            } else {
                Err(StoreError::CredentialGrantRejected)
            },
        }
    }
}

} // verus!
