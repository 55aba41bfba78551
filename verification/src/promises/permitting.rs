//! What policies permit, and what is recorded of a launch.
use crate::error::StoreError;
use crate::identity::{IdentityCatalog, PermissionLevel};
use crate::launch::{ProviderLaunchIdentity, ProviderLaunchPlan};
use crate::policy::{
    current_launch_policy, online_launch_allowed, policy_text, LaunchCeiling, LaunchPolicy,
};
use crate::protocol::BeginGraphNodeRunReceipt;
use crate::store::Store;
use crate::uid::{find, lemma_find, Uid};
use vstd::prelude::*;

verus! {

/// A level that reaches as far as another, or farther.
pub open spec fn reaches(now: PermissionLevel, planned: PermissionLevel) -> bool {
    match planned {
        PermissionLevel::Deny => true,
        PermissionLevel::Observe => now != PermissionLevel::Deny,
        PermissionLevel::Use => now == PermissionLevel::Use,
    }
}

/// None of what was planned has been lowered since.
pub open spec fn holds_still(now: LaunchCeiling, planned: LaunchCeiling) -> bool {
    &&& reaches(now.filesystem, planned.filesystem)
    &&& reaches(now.network, planned.network)
    &&& reaches(now.credential, planned.credential)
}

/// Network and files are permitted, and so is a credential where one is used.
pub open spec fn opens(ceiling: LaunchCeiling, credential: bool) -> bool {
    &&& ceiling.network != PermissionLevel::Deny
    &&& ceiling.filesystem != PermissionLevel::Deny
    &&& (credential ==> ceiling.credential != PermissionLevel::Deny)
}

/// The policy of a launch is what its project and its role permit now.
pub proof fn law_launch_policy_is_that_of_project_and_role(
    identity: &IdentityCatalog,
    project_id: Uid,
    role_id: Uid,
    r: Option<LaunchPolicy>,
)
    requires
        call_ensures(current_launch_policy, (identity, project_id, role_id), r),
    ensures
        r is Some ==> exists|j: int, i: int|
            #![trigger identity.projects@[j], identity.roles@[i]]
            {
                &&& 0 <= j < identity.projects@.len()
                &&& identity.projects@[j].metadata.id == project_id
                &&& 0 <= i < identity.roles@.len()
                &&& identity.roles@[i].metadata.id == role_id
                &&& r->0.project.filesystem == identity.projects@[j].policy.ceiling.filesystem
                &&& r->0.project.network == identity.projects@[j].policy.ceiling.network
                &&& r->0.project.credential == identity.projects@[j].policy.ceiling.credential
                &&& r->0.role.filesystem == identity.roles@[i].policy.ceiling.filesystem
                &&& r->0.role.network == identity.roles@[i].policy.ceiling.network
                &&& r->0.role.credential == identity.roles@[i].policy.ceiling.credential
            },
        r is None ==> (forall|j: int|
            0 <= j < identity.projects@.len() ==> (#[trigger] identity.projects@[j]).metadata.id
                != project_id) || (forall|i: int|
            0 <= i < identity.roles@.len() ==> (#[trigger] identity.roles@[i]).metadata.id
                != role_id),
{
    lemma_find(identity@.projects, project_id);
    lemma_find(identity@.roles, role_id);
    assert(identity@.projects == identity.projects@);
    assert(identity@.roles == identity.roles@);
    if r is Some {
        let j = find(identity@.projects, project_id)->0;
        let i = find(identity@.roles, role_id)->0;
        assert(identity.projects@[j].metadata.id == project_id);
        assert(identity.roles@[i].metadata.id == role_id);
    }
}

/// A plan goes online only where both the policies planned for it let it.
pub proof fn law_plan_meets_requirements_of_both_policies(plan: &ProviderLaunchPlan, r: bool)
    requires
        call_ensures(ProviderLaunchPlan::meets_online_requirements, (plan,), r),
    ensures
        r <==> plan.policy is Some && opens(
            plan.policy->0.project,
            plan.identity.account is Some && plan.identity.account->0.credential is Some,
        ) && opens(
            plan.policy->0.role,
            plan.identity.account is Some && plan.identity.account->0.credential is Some,
        ),
{
}

/// A plan fits as long as neither policy has been lowered below what was planned.
pub proof fn law_plan_fits_unless_lowered(
    plan: &ProviderLaunchPlan,
    identity: &IdentityCatalog,
    r: bool,
    current: Option<LaunchPolicy>,
)
    requires
        call_ensures(ProviderLaunchPlan::fits_current_policy, (plan, identity), r),
        call_ensures(
            current_launch_policy,
            (identity, plan.identity.project_id, plan.role_id),
            current,
        ),
    ensures
        r <==> plan.policy is Some && current is Some && holds_still(
            current->0.project,
            plan.policy->0.project,
        ) && holds_still(current->0.role, plan.policy->0.role),
{
}

/// A plan is allowed online exactly when it fits what the policies say now and
/// meets what going online requires.
pub proof fn law_online_needs_both(
    plan: &ProviderLaunchPlan,
    identity: &IdentityCatalog,
    r: bool,
    fits: bool,
    meets: bool,
)
    requires
        call_ensures(online_launch_allowed, (plan, identity), r),
        call_ensures(ProviderLaunchPlan::fits_current_policy, (plan, identity), fits),
        call_ensures(ProviderLaunchPlan::meets_online_requirements, (plan,), meets),
    ensures
        r <==> fits && meets,
{
}

/// The name of a level in recorded texts.
pub open spec fn level_name(level: PermissionLevel) -> Seq<char> {
    match level {
        PermissionLevel::Deny => "deny"@,
        PermissionLevel::Observe => "observe"@,
        PermissionLevel::Use => "use"@,
    }
}

/// A policy is written down as its two ceilings, each with its three levels.
pub proof fn law_policy_text_tells_every_level(policy: &LaunchPolicy, r: String)
    requires
        call_ensures(policy_text, (policy,), r),
    ensures
        r@ == crate::json::object(
            crate::json::fields().push(("project"@, written(policy.project))).push(
                ("role"@, written(policy.role)),
            ),
        ),
{
}

/// A ceiling as it is written down.
pub open spec fn written(ceiling: LaunchCeiling) -> Seq<char> {
    crate::json::object(
        crate::json::fields().push(
            ("filesystem"@, crate::json::json_string(level_name(ceiling.filesystem))),
        ).push(("network"@, crate::json::json_string(level_name(ceiling.network)))).push(
            ("credential"@, crate::json::json_string(level_name(ceiling.credential))),
        ),
    )
}

/// The identity of a run is the one recorded with its attempt.
pub proof fn law_identity_is_the_one_recorded(
    store: &Store,
    run_id: Uid,
    r: Result<Option<&ProviderLaunchIdentity>, StoreError>,
)
    requires
        call_ensures(Store::load_launch_identity, (store, run_id), r),
    ensures
        r is Ok ==> exists|k: int|
            {
                &&& 0 <= k < store.node_runs@.len()
                &&& (#[trigger] store.node_runs@[k]).run_id == run_id
                &&& r->Ok_0 is None <==> store.node_runs@[k].launch is Absent
                &&& r->Ok_0 is Some ==> store.node_runs@[k].launch is Selected
                    && *r->Ok_0->0 == store.node_runs@[k].launch->Selected_0
            },
        (forall|k: int|
            0 <= k < store.node_runs@.len() ==> (#[trigger] store.node_runs@[k]).run_id != run_id)
            ==> r is Err && r->Err_0 is Database,
{
    lemma_find(store@.node_runs, run_id);
    assert(store@.node_runs == store.node_runs@);
    if r is Ok {
        let k = find(store@.node_runs, run_id)->0;
        assert(store.node_runs@[k].run_id == run_id);
    }
}

/// A plan is read only where it has the recorded hash and agrees with its attempt
/// in execution, node, number and identity.
pub proof fn law_plan_is_read_only_intact(
    store: &Store,
    run_id: Uid,
    r: Result<&ProviderLaunchPlan, StoreError>,
    hash: String,
)
    requires
        call_ensures(Store::load_launch_plan, (store, run_id), r),
        r is Ok,
        call_ensures(ProviderLaunchPlan::hash, (r->Ok_0,), hash),
    ensures
        exists|p: int, k: int|
            #![trigger store.plans@[p], store.node_runs@[k]]
            {
                &&& 0 <= p < store.plans@.len()
                &&& store.plans@[p].run_id == run_id
                &&& store.plans@[p].plan == *r->Ok_0
                &&& store.plans@[p].plan_hash@ == hash@
                &&& 0 <= k < store.node_runs@.len()
                &&& store.node_runs@[k].run_id == run_id
                &&& store.node_runs@[k].execution_id == r->Ok_0.execution_id
                &&& store.node_runs@[k].node_id == r->Ok_0.node_id
                &&& store.node_runs@[k].attempt == r->Ok_0.attempt
                &&& store.node_runs@[k].launch is Selected
                &&& store.node_runs@[k].launch->Selected_0@ == r->Ok_0.identity@
            },
        r->Ok_0.run_id == run_id,
        r->Ok_0.version == 1,
{
    let s = store@;
    lemma_find(s.plans, run_id);
    lemma_find(s.node_runs, run_id);
    let p = find(s.plans, run_id)->0;
    let k = find(s.node_runs, run_id)->0;
    assert(store.plans@[p].run_id == run_id);
    assert(store.node_runs@[k].run_id == run_id);
}

/// A plan matches a receipt exactly when they name the same work, identity,
/// workspace and prompt.
pub proof fn law_plan_matches_its_receipt(
    plan: &ProviderLaunchPlan,
    receipt: &BeginGraphNodeRunReceipt,
    r: bool,
)
    requires
        call_ensures(ProviderLaunchPlan::matches_receipt, (plan, receipt), r),
    ensures
        r <==> plan.execution_id == receipt.execution_id && plan.node_id == receipt.node_id
            && plan.session_id == receipt.session_id && plan.run_id == receipt.run_id
            && receipt.launch_identity is Some && plan.identity@ == receipt.launch_identity->0@
            && plan.identity.adapter_kind@ == receipt.adapter_kind@ && plan.identity.model@
            == receipt.model@ && plan.workspace_root@ == receipt.workspace_root@ && plan.prompt@
            == receipt.prompt@,
{
}

} // verus!
