//! What the policies allow a launch: when its plan is made, and when it is to go
//! ahead.
use crate::identity::{CatalogView, IdentityCatalog, PermissionLevel, ScopedPolicy};
use crate::json::{fields, json_string, object, Payload};
use crate::launch::ProviderLaunchPlan;
use crate::uid::{find, position, ProjectId, RoleId};
use vstd::prelude::*;

verus! {

/// What a ceiling says on what a launch needs.
#[derive(Clone, Copy, Debug, PartialEq, Eq, Structural)]
pub struct LaunchCeiling {
    pub filesystem: PermissionLevel,
    pub network: PermissionLevel,
    pub credential: PermissionLevel,
}

/// What the policies of a project and of a role say on a launch.
#[derive(Clone, Copy, Debug, PartialEq, Eq, Structural)]
pub struct LaunchPolicy {
    pub project: LaunchCeiling,
    pub role: LaunchCeiling,
}

pub open spec fn launch_ceiling(policy: ScopedPolicy) -> LaunchCeiling {
    LaunchCeiling {
        filesystem: policy.ceiling.filesystem,
        network: policy.ceiling.network,
        credential: policy.ceiling.credential,
    }
}

fn ceiling_of(policy: &ScopedPolicy) -> (r: LaunchCeiling)
    ensures
        r == launch_ceiling(*policy),
{
    LaunchCeiling {
        filesystem: policy.ceiling.filesystem,
        network: policy.ceiling.network,
        credential: policy.ceiling.credential,
    }
}

/// What the catalog as it stands says on a launch of a role in a project;
/// nothing where either is missing from it.
pub open spec fn launch_policy(identity: CatalogView, project_id: ProjectId, role_id: RoleId) -> Option<
    LaunchPolicy,
> {
    match (find(identity.projects, project_id), find(identity.roles, role_id)) {
        (Some(j), Some(i)) => Some(
            LaunchPolicy {
                project: launch_ceiling(identity.projects[j].policy),
                role: launch_ceiling(identity.roles[i].policy),
            },
        ),
        _ => None,
    }
}

pub fn current_launch_policy(
    identity: &IdentityCatalog,
    project_id: ProjectId,
    role_id: RoleId,
) -> (r: Option<LaunchPolicy>)
    ensures
        r == launch_policy(identity@, project_id, role_id),
{
    match (position(&identity.projects, project_id), position(&identity.roles, role_id)) {
        (Some(j), Some(i)) => Some(
            LaunchPolicy {
                project: ceiling_of(&identity.projects[j].policy),
                role: ceiling_of(&identity.roles[i].policy),
            },
        ),
        _ => None,
    }
}

pub open spec fn ceiling_json(ceiling: LaunchCeiling) -> Seq<char> {
    object(
        fields().push(("filesystem"@, json_string(ceiling.filesystem.spec_name())))
            .push(("network"@, json_string(ceiling.network.spec_name())))
            .push(("credential"@, json_string(ceiling.credential.spec_name()))),
    )
}

/// The JSON text of a launch policy.
pub open spec fn policy_json(policy: LaunchPolicy) -> Seq<char> {
    object(
        fields().push(("project"@, ceiling_json(policy.project))).push(
            ("role"@, ceiling_json(policy.role)),
        ),
    )
}

fn ceiling_text(ceiling: &LaunchCeiling) -> (r: String)
    ensures
        r@ == ceiling_json(*ceiling),
{
    Payload::new().string("filesystem", ceiling.filesystem.name()).string(
        "network",
        ceiling.network.name(),
    ).string("credential", ceiling.credential.name()).finish()
}

pub fn policy_text(policy: &LaunchPolicy) -> (r: String)
    ensures
        r@ == policy_json(*policy),
{
    Payload::new().raw("project", ceiling_text(&policy.project).as_str()).raw(
        "role",
        ceiling_text(&policy.role).as_str(),
    ).finish()
}

/// Whether a plan selects a credential.
pub open spec fn names_credential(plan: ProviderLaunchPlan) -> bool {
    plan.identity.account is Some && plan.identity.account->0.credential is Some
}

/// Whether a ceiling leaves what an online launch needs: the network, the
/// workspace, and the credential where one is to be used.
pub open spec fn lets_online(ceiling: LaunchCeiling, credential: bool) -> bool {
    &&& ceiling.network != PermissionLevel::Deny
    &&& ceiling.filesystem != PermissionLevel::Deny
    &&& credential ==> ceiling.credential != PermissionLevel::Deny
}

/// Whether a plan was made under a policy that allows an online launch.
pub open spec fn online_requirements(plan: ProviderLaunchPlan) -> bool {
    match plan.policy {
        None => false,
        Some(policy) => lets_online(policy.project, names_credential(plan)) && lets_online(
            policy.role,
            names_credential(plan),
        ),
    }
}

/// Whether nothing that a ceiling said has been lowered since.
pub open spec fn not_lowered(planned: LaunchCeiling, current: LaunchCeiling) -> bool {
    &&& planned.filesystem.rank() <= current.filesystem.rank()
    &&& planned.network.rank() <= current.network.rank()
    &&& planned.credential.rank() <= current.credential.rank()
}

/// Whether the catalog as it stands still allows what a plan was made under. A
/// plan that was made under no policy is not allowed again.
pub open spec fn policy_current(identity: CatalogView, plan: ProviderLaunchPlan) -> bool {
    match (plan.policy, launch_policy(identity, plan.identity.project_id, plan.role_id)) {
        (Some(planned), Some(current)) => not_lowered(planned.project, current.project)
            && not_lowered(planned.role, current.role),
        _ => false,
    }
}

/// Whether the policies allow an online launch with a plan: those that it was
/// made under, and the current ones no less.
pub open spec fn plan_allowed(identity: CatalogView, plan: ProviderLaunchPlan) -> bool {
    policy_current(identity, plan) && online_requirements(plan)
}

fn reaches(current: PermissionLevel, planned: PermissionLevel) -> (r: bool)
    ensures
        r == (planned.rank() <= current.rank()),
{
    match (planned, current) {
        (PermissionLevel::Deny, _) => true,
        (_, PermissionLevel::Deny) => false,
        (PermissionLevel::Observe, _) => true,
        (PermissionLevel::Use, _) => current == PermissionLevel::Use,
    }
}

impl LaunchCeiling {
    fn allows_online(&self, credential: bool) -> (r: bool)
        ensures
            r == lets_online(*self, credential),
    {
        self.network != PermissionLevel::Deny && self.filesystem != PermissionLevel::Deny && !(
        credential && self.credential == PermissionLevel::Deny)
    }

    fn still_holds(&self, current: &LaunchCeiling) -> (r: bool)
        ensures
            r == not_lowered(*self, *current),
    {
        reaches(current.filesystem, self.filesystem) && reaches(current.network, self.network)
            && reaches(current.credential, self.credential)
    }
}

impl ProviderLaunchPlan {
    pub fn meets_online_requirements(&self) -> (r: bool)
        ensures
            r == online_requirements(*self),
    {
        let named = match &self.identity.account {
            None => false,
            Some(account) => account.credential.is_some(),
        };
        match &self.policy {
            None => false,
            Some(policy) => policy.project.allows_online(named) && policy.role.allows_online(named),
        }
    }

    pub fn fits_current_policy(&self, identity: &IdentityCatalog) -> (r: bool)
        ensures
            r == policy_current(identity@, *self),
    {
        match (
            self.policy,
            current_launch_policy(identity, self.identity.project_id, self.role_id),
        ) {
            (Some(planned), Some(current)) => planned.project.still_holds(&current.project)
                && planned.role.still_holds(&current.role),
            _ => false,
        }
    }
}

pub fn online_launch_allowed(plan: &ProviderLaunchPlan, identity: &IdentityCatalog) -> (r: bool)
    ensures
        r == plan_allowed(identity@, *plan),
{
    plan.fits_current_policy(identity) && plan.meets_online_requirements()
}

} // verus!
