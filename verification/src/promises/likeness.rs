//! When two records are the same, and how records are written down.
use crate::approval::{same_texts, ApprovalAction, CredentialGrantBinding};
use crate::binding::ProviderRunBinding;
use crate::broker::BrokerError;
use crate::identity::{
    copy_optional_text, entity_metadata, same_optional_text, timestamp, CredentialBackend,
    EntityMetadata, IdentityCatalog, Moment, NormalizedRunState, PermissionLevel, Run, Session,
};
use crate::ipc::{Endpoint, EndpointError};
use crate::json::{fields, json_string, json_uid, object};
use crate::launch::{
    backend_name, identity_text, ProviderAccountSelection, ProviderCredentialSelection,
    ProviderLaunchIdentity, ProviderLaunchPlan,
};
use crate::m3::M3Catalog;
use crate::native_credentials::CredentialReadError;
use crate::promises::entered_now;
use crate::registry::RunControlError;
use crate::sandbox::SandboxError;
use crate::text::decimal;
use crate::uid::Uid;
use vstd::prelude::*;

verus! {

/// Two selections of a credential, alike in everything.
pub open spec fn same_credential(
    a: ProviderCredentialSelection,
    b: ProviderCredentialSelection,
) -> bool {
    &&& a.reference_id == b.reference_id
    &&& a.backend == b.backend
    &&& a.service@ == b.service@
    &&& a.account_label@ == b.account_label@
}

/// Two selections of an account, alike in everything.
pub open spec fn same_account(a: ProviderAccountSelection, b: ProviderAccountSelection) -> bool {
    &&& a.account_id == b.account_id
    &&& a.provider_identity@ == b.provider_identity@
    &&& a.credential is Some <==> b.credential is Some
    &&& a.credential is Some ==> same_credential(a.credential->0, b.credential->0)
}

/// Two identities of a launch, alike in everything.
pub open spec fn same_identity(a: ProviderLaunchIdentity, b: ProviderLaunchIdentity) -> bool {
    &&& a.agent_instance_id == b.agent_instance_id
    &&& a.agent_provider_id == b.agent_provider_id
    &&& a.project_id == b.project_id
    &&& a.model_id == b.model_id
    &&& a.adapter_kind@ == b.adapter_kind@
    &&& a.model@ == b.model@
    &&& a.account is Some <==> b.account is Some
    &&& a.account is Some ==> same_account(a.account->0, b.account->0)
}

/// Two credentials are the same exactly if they are alike in everything.
pub proof fn law_credentials_are_compared_whole(
    a: &ProviderCredentialSelection,
    b: &ProviderCredentialSelection,
    r: bool,
)
    requires
        call_ensures(ProviderCredentialSelection::same, (a, b), r),
    ensures
        r <==> same_credential(*a, *b),
{
}

/// Two accounts are the same exactly if they are alike in everything.
pub proof fn law_accounts_are_compared_whole(
    a: &ProviderAccountSelection,
    b: &ProviderAccountSelection,
    r: bool,
)
    requires
        call_ensures(ProviderAccountSelection::same, (a, b), r),
    ensures
        r <==> same_account(*a, *b),
{
}

/// Two identities are the same exactly if they are alike in everything.
pub proof fn law_identities_are_compared_whole(
    a: &ProviderLaunchIdentity,
    b: &ProviderLaunchIdentity,
    r: bool,
)
    requires
        call_ensures(ProviderLaunchIdentity::same, (a, b), r),
    ensures
        r <==> same_identity(*a, *b),
{
    lemma_identity(*a, *b);
}

proof fn lemma_identity(a: ProviderLaunchIdentity, b: ProviderLaunchIdentity)
    ensures
        a@ == b@ <==> same_identity(a, b),
{
    if a.account is Some && b.account is Some {
        let x = a.account->0;
        let y = b.account->0;
        assert(a@.account == Some(x@) && b@.account == Some(y@));
        assert(x@ == y@ <==> same_account(x, y));
    }
}

/// Two bindings are the same exactly if a provider would be told and given the
/// same under both.
pub proof fn law_bindings_are_compared_whole(
    a: &ProviderRunBinding,
    b: &ProviderRunBinding,
    r: bool,
)
    requires
        call_ensures(ProviderRunBinding::same, (a, b), r),
    ensures
        r <==> a.agent_instance_id == b.agent_instance_id && a.project_id == b.project_id
            && a.model_id == b.model_id && a.adapter_kind@ == b.adapter_kind@ && a.provider_model@
            == b.provider_model@ && a.workspace_root@ == b.workspace_root@ && a.prompt@ == b.prompt@
            && same_identity(a.launch_identity, b.launch_identity),
{
    lemma_identity(a.launch_identity, b.launch_identity);
}

/// Two bindings of a grant, alike in everything.
pub open spec fn same_grant_binding(a: CredentialGrantBinding, b: CredentialGrantBinding) -> bool {
    &&& a.agent_provider_id == b.agent_provider_id
    &&& a.account_id == b.account_id
    &&& a.adapter_kind@ == b.adapter_kind@
    &&& a.provider_identity@ == b.provider_identity@
    &&& a.credential_reference_id == b.credential_reference_id
    &&& a.backend == b.backend
    &&& a.service@ == b.service@
    &&& a.account_label@ == b.account_label@
    &&& a.capability_key@ == b.capability_key@
}

/// Two bindings of a grant are the same exactly if they are alike in everything.
pub proof fn law_grant_bindings_are_compared_whole(
    a: &CredentialGrantBinding,
    b: &CredentialGrantBinding,
    r: bool,
)
    requires
        call_ensures(CredentialGrantBinding::same, (a, b), r),
    ensures
        r <==> same_grant_binding(*a, *b),
{
}

/// Two lists with the same texts at the same places.
pub open spec fn same_list(a: Seq<String>, b: Seq<String>) -> bool {
    &&& a.len() == b.len()
    &&& forall|i: int| 0 <= i < a.len() ==> (#[trigger] a[i])@ == b[i]@
}

proof fn lemma_texts(a: Seq<String>, b: Seq<String>)
    ensures
        crate::approval::texts(a) == crate::approval::texts(b) <==> same_list(a, b),
{
    let x = crate::approval::texts(a);
    let y = crate::approval::texts(b);
    if x == y {
        assert(x.len() == y.len());
        assert forall|i: int| 0 <= i < a.len() implies (#[trigger] a[i])@ == b[i]@ by {
            assert(x[i] == y[i]);
        }
    }
    if same_list(a, b) {
        assert(x =~= y);
    }
}

/// Two lists of texts are the same exactly if they have the same texts at the
/// same places.
pub proof fn law_text_lists_are_compared_by_place(a: &Vec<String>, b: &Vec<String>, r: bool)
    requires
        call_ensures(same_texts, (a, b), r),
    ensures
        r <==> same_list(a@, b@),
{
    lemma_texts(a@, b@);
}

/// An action is the one that was approved exactly if it is alike in everything:
/// who acts, on what, where, with which credential, and under which policy.
pub proof fn law_actions_are_compared_whole(a: &ApprovalAction, b: &ApprovalAction, r: bool)
    requires
        call_ensures(ApprovalAction::same, (a, b), r),
    ensures
        r <==> {
            &&& a.agent_instance_id == b.agent_instance_id
            &&& a.role_id == b.role_id
            &&& a.action_key@ == b.action_key@
            &&& a.reason_key@ == b.reason_key@
            &&& a.consequence_key@ == b.consequence_key@
            &&& a.risk@ == b.risk@
            &&& a.scope.project_id == b.scope.project_id
            &&& a.scope.run_id == b.scope.run_id
            &&& same_list(a.scope.filesystem_roots@, b.scope.filesystem_roots@)
            &&& same_list(a.scope.data_scopes@, b.scope.data_scopes@)
            &&& same_list(a.scope.network_destinations@, b.scope.network_destinations@)
            &&& a.scope.credential_reference_ids@ == b.scope.credential_reference_ids@
            &&& a.scope.destination is Some <==> b.scope.destination is Some
            &&& a.scope.destination is Some ==> a.scope.destination->0@ == b.scope.destination->0@
            &&& a.scope.credential_binding is Some <==> b.scope.credential_binding is Some
            &&& a.scope.credential_binding is Some ==> same_grant_binding(
                a.scope.credential_binding->0,
                b.scope.credential_binding->0,
            )
            &&& a.requested_policy == b.requested_policy
        },
{
    lemma_texts(a.scope.filesystem_roots@, b.scope.filesystem_roots@);
    lemma_texts(a.scope.data_scopes@, b.scope.data_scopes@);
    lemma_texts(a.scope.network_destinations@, b.scope.network_destinations@);
    if a.scope.credential_binding is Some && b.scope.credential_binding is Some {
        assert(a@.credential_binding == Some(a.scope.credential_binding->0@));
        assert(b@.credential_binding == Some(b.scope.credential_binding->0@));
    }
}

/// Two metadata records, alike in everything.
pub open spec fn same_metadata(a: EntityMetadata, b: EntityMetadata) -> bool {
    &&& a.id == b.id
    &&& a.revision == b.revision
    &&& a.created_at@ == b.created_at@
    &&& a.updated_at@ == b.updated_at@
    &&& a.provenance.source_kind@ == b.provenance.source_kind@
    &&& a.provenance.source_id@ == b.provenance.source_id@
    &&& a.provenance.recorded_by@ == b.provenance.recorded_by@
    &&& a.lifecycle == b.lifecycle
}

/// Two optional texts, alike.
pub open spec fn same_option(a: Option<String>, b: Option<String>) -> bool {
    &&& a is Some <==> b is Some
    &&& a is Some ==> a->0@ == b->0@
}

/// Metadata, sessions and runs are each the same exactly if they are alike in
/// everything.
pub proof fn law_records_are_compared_whole(
    m: &EntityMetadata,
    n: &EntityMetadata,
    metadata: bool,
    s: &Session,
    t: &Session,
    session: bool,
    a: &Run,
    b: &Run,
    run: bool,
)
    requires
        call_ensures(EntityMetadata::same, (m, n), metadata),
        call_ensures(Session::same, (s, t), session),
        call_ensures(Run::same, (a, b), run),
    ensures
        metadata <==> same_metadata(*m, *n),
        session <==> same_metadata(s.metadata, t.metadata) && s.agent_instance_id
            == t.agent_instance_id && s.project_id == t.project_id && same_option(
            s.provider_session_id,
            t.provider_session_id,
        ),
        run <==> same_metadata(a.metadata, b.metadata) && a.session_id == b.session_id
            && a.model_id == b.model_id && a.state == b.state && same_option(
            a.started_at,
            b.started_at,
        ) && same_option(a.finished_at, b.finished_at),
{
}

/// Optional texts are compared by what they hold, and copied whole.
pub proof fn law_optional_texts(
    a: &Option<String>,
    b: &Option<String>,
    r: bool,
    copied: Option<String>,
)
    requires
        call_ensures(same_optional_text, (a, b), r),
        call_ensures(copy_optional_text, (a,), copied),
    ensures
        r <==> same_option(*a, *b),
        same_option(copied, *a),
{
}

/// A moment and a timestamp are written as the milliseconds they stand for.
pub proof fn law_moments_are_written_in_milliseconds(ms: u64, r: Moment, text: String)
    requires
        call_ensures(Moment::at, (ms,), r),
        call_ensures(timestamp, (ms,), text),
    ensures
        r.ms == ms,
        r.text@ == decimal(ms as nat),
        text@ == decimal(ms as nat),
{
}

/// What the daemon enters is marked as entered now, for its local user.
pub proof fn law_metadata_is_of_now(id: Uid, source: &str, now: &Moment, r: EntityMetadata)
    requires
        call_ensures(entity_metadata, (id, source, now), r),
    ensures
        entered_now(r, id, source@, *now),
{
}

/// The names of levels, of states and of credential stores.
pub proof fn law_names_are_fixed(
    level: &PermissionLevel,
    level_name: &'static str,
    state: &NormalizedRunState,
    state_name: &'static str,
    label: String,
    backend: CredentialBackend,
    backend_text: &'static str,
)
    requires
        call_ensures(PermissionLevel::name, (level,), level_name),
        call_ensures(NormalizedRunState::name, (state,), state_name),
        call_ensures(NormalizedRunState::label, (state,), label),
        call_ensures(backend_name, (backend,), backend_text),
    ensures
        *level == PermissionLevel::Deny ==> level_name@ == "deny"@,
        *level == PermissionLevel::Observe ==> level_name@ == "observe"@,
        *level == PermissionLevel::Use ==> level_name@ == "use"@,
        *state == NormalizedRunState::Starting ==> state_name@ == "starting"@,
        *state == NormalizedRunState::Running ==> state_name@ == "running"@,
        *state == NormalizedRunState::AwaitingApproval ==> state_name@ == "awaiting_approval"@
            && label@ == "awaitingapproval"@,
        *state == NormalizedRunState::Cancelling ==> state_name@ == "cancelling"@,
        *state == NormalizedRunState::Recovering ==> state_name@ == "recovering"@,
        *state == NormalizedRunState::Succeeded ==> state_name@ == "succeeded"@,
        *state == NormalizedRunState::Failed ==> state_name@ == "failed"@,
        *state == NormalizedRunState::Cancelled ==> state_name@ == "cancelled"@,
        *state == NormalizedRunState::Blocked ==> state_name@ == "blocked"@,
        *state == NormalizedRunState::Uncertain ==> state_name@ == "uncertain"@,
        *state != NormalizedRunState::AwaitingApproval ==> label@ == state_name@,
        backend == CredentialBackend::MacosKeychain ==> backend_text@ == "macos_keychain"@,
        backend == CredentialBackend::WindowsCredentialManager ==> backend_text@
            == "windows_credential_manager"@,
        backend == CredentialBackend::LinuxSecretService ==> backend_text@
            == "linux_secret_service"@,
{
}

/// A credential as it is written down.
pub open spec fn credential_text(c: ProviderCredentialSelection) -> Seq<char> {
    object(
        fields().push(("reference_id"@, json_uid(c.reference_id))).push(
            (
                "backend"@,
                json_string(
                    match c.backend {
                        CredentialBackend::MacosKeychain => "macos_keychain"@,
                        CredentialBackend::WindowsCredentialManager => {
                            "windows_credential_manager"@
                        },
                        CredentialBackend::LinuxSecretService => "linux_secret_service"@,
                    },
                ),
            ),
        ).push(("service"@, json_string(c.service@))).push(
            ("account_label"@, json_string(c.account_label@)),
        ),
    )
}

/// An account as it is written down.
pub open spec fn account_text(a: ProviderAccountSelection) -> Seq<char> {
    object(
        fields().push(("account_id"@, json_uid(a.account_id))).push(
            ("provider_identity"@, json_string(a.provider_identity@)),
        ).push(
            (
                "credential"@,
                match a.credential {
                    Some(c) => credential_text(c),
                    None => "null"@,
                },
            ),
        ),
    )
}

/// An identity is written down with all that it holds.
pub proof fn law_identity_text_tells_everything(identity: &ProviderLaunchIdentity, r: String)
    requires
        call_ensures(identity_text, (identity,), r),
    ensures
        r@ == object(
            fields().push(("agent_instance_id"@, json_uid(identity.agent_instance_id))).push(
                ("agent_provider_id"@, json_uid(identity.agent_provider_id)),
            ).push(("project_id"@, json_uid(identity.project_id))).push(
                ("model_id"@, json_uid(identity.model_id)),
            ).push(("adapter_kind"@, json_string(identity.adapter_kind@))).push(
                ("model"@, json_string(identity.model@)),
            ).push(
                (
                    "account"@,
                    match identity.account {
                        Some(a) => account_text(a),
                        None => "null"@,
                    },
                ),
            ),
        ),
{
    if identity.account is Some {
        let a = identity.account->0;
        assert(identity@.account == Some(a@));
        if a.credential is Some {
            assert(a@.credential == Some(a.credential->0@));
            assert(crate::launch::credential_json(a@.credential) == credential_text(
                a.credential->0,
            ));
        }
        assert(crate::launch::account_json(identity@.account) == account_text(a));
    }
}

/// A plan is written down with all that it holds, and its hash is that of what is
/// written.
pub proof fn law_plan_text_tells_everything(
    plan: &ProviderLaunchPlan,
    r: String,
    hash: String,
    identity: &ProviderLaunchIdentity,
    identity_says: String,
)
    requires
        call_ensures(ProviderLaunchPlan::json, (plan,), r),
        call_ensures(ProviderLaunchPlan::hash, (plan,), hash),
        *identity == plan.identity,
        call_ensures(identity_text, (identity,), identity_says),
    ensures
        hash@ == "sha256:"@ + crate::digest::hex(
            crate::digest::sha256(vstd::utf8::encode_utf8(r@)),
        ),
        plan.policy is None ==> r@ == object(
            fields().push(("version"@, decimal(plan.version as nat))).push(
                ("execution_id"@, json_uid(plan.execution_id)),
            ).push(("node_id"@, json_uid(plan.node_id))).push(
                ("session_id"@, json_uid(plan.session_id)),
            ).push(("run_id"@, json_uid(plan.run_id))).push(
                ("attempt"@, decimal(plan.attempt as nat)),
            ).push(("role_id"@, json_uid(plan.role_id))).push(
                ("owner"@, json_string(plan.owner@)),
            ).push(("identity"@, identity_says@)).push(
                ("workspace_root"@, json_string(plan.workspace_root@)),
            ).push(("prompt"@, json_string(plan.prompt@))),
        ),
        plan.policy is Some ==> r@ == object(
            fields().push(("version"@, decimal(plan.version as nat))).push(
                ("execution_id"@, json_uid(plan.execution_id)),
            ).push(("node_id"@, json_uid(plan.node_id))).push(
                ("session_id"@, json_uid(plan.session_id)),
            ).push(("run_id"@, json_uid(plan.run_id))).push(
                ("attempt"@, decimal(plan.attempt as nat)),
            ).push(("role_id"@, json_uid(plan.role_id))).push(
                ("owner"@, json_string(plan.owner@)),
            ).push(("identity"@, identity_says@)).push(
                ("workspace_root"@, json_string(plan.workspace_root@)),
            ).push(("prompt"@, json_string(plan.prompt@))).push(
                (
                    "policy"@,
                    object(
                        fields().push(
                            ("project"@, crate::promises::permitting::written(plan.policy->0.project)),
                        ).push(("role"@, crate::promises::permitting::written(plan.policy->0.role))),
                    ),
                ),
            ),
        ),
{
}

/// New catalogs are empty.
pub proof fn law_new_catalogs_are_empty(identity: IdentityCatalog, work: M3Catalog)
    requires
        call_ensures(IdentityCatalog::empty, (), identity),
        call_ensures(M3Catalog::empty, (), work),
    ensures
        identity.credential_references@.len() == 0,
        identity.agent_providers@.len() == 0,
        identity.model_providers@.len() == 0,
        identity.accounts@.len() == 0,
        identity.models@.len() == 0,
        identity.agent_instances@.len() == 0,
        identity.projects@.len() == 0,
        identity.roles@.len() == 0,
        identity.sessions@.len() == 0,
        identity.runs@.len() == 0,
        work.office.pet_profiles@.len() == 0,
        work.office.pet_assignments@.len() == 0,
        work.office.rooms@.len() == 0,
        work.meetings.meetings@.len() == 0,
        work.meetings.decision_baselines@.len() == 0,
        work.deliverables.documents@.len() == 0,
        work.deliverables.knowledge_deliveries@.len() == 0,
        work.deliverables.costs@.len() == 0,
{
    assert(identity@.runs == identity.runs@);
    assert(work@.costs == work.deliverables.costs@);
}

/// What is said where a credential is not read, a claim is not passed on, a run
/// is not controlled, an endpoint is not taken or a sandbox is not built.
pub proof fn law_refusals_say_what_is_wrong(
    read: &CredentialReadError,
    read_says: &'static str,
    broker: &BrokerError,
    broker_says: &'static str,
    control: &RunControlError,
    control_says: &'static str,
    endpoint: &EndpointError,
    endpoint_says: &'static str,
    sandbox: &SandboxError,
    sandbox_says: String,
)
    requires
        call_ensures(CredentialReadError::message, (read,), read_says),
        call_ensures(BrokerError::message, (broker,), broker_says),
        call_ensures(RunControlError::message, (control,), control_says),
        call_ensures(EndpointError::message, (endpoint,), endpoint_says),
        call_ensures(SandboxError::message, (sandbox,), sandbox_says),
    ensures
        *read == CredentialReadError::InvalidService ==> read_says@
            == "credential service locator is invalid"@,
        *read == CredentialReadError::InvalidAccount ==> read_says@
            == "credential account locator is invalid"@,
        *read == CredentialReadError::UnsupportedBackend ==> read_says@
            == "credential backend is unsupported on this host"@,
        *read == CredentialReadError::NotFound ==> read_says@ == "credential entry was not found"@,
        *read == CredentialReadError::NoStorageAccess ==> read_says@
            == "native credential store access was denied"@,
        *read == CredentialReadError::PlatformFailure ==> read_says@
            == "native credential store operation failed"@,
        *read == CredentialReadError::LocatorTooLong ==> read_says@
            == "credential locator exceeds a native platform limit"@,
        *read == CredentialReadError::InvalidPlatformLocator ==> read_says@
            == "native credential store rejected the locator"@,
        *read == CredentialReadError::Ambiguous ==> read_says@
            == "credential locator matched more than one native entry"@,
        *read == CredentialReadError::BadEncoding ==> read_says@
            == "native credential store returned invalidly encoded data"@,
        *read == CredentialReadError::EmptySecret ==> read_says@
            == "native credential store returned an empty secret"@,
        *read == CredentialReadError::SecretTooLarge ==> read_says@
            == "native credential store returned a secret larger than 64 KiB"@,
        *broker == BrokerError::Authorization ==> broker_says@
            == "launch authorization rejected"@,
        *broker == BrokerError::Credential ==> broker_says@ == "credential lookup failed"@,
        *broker == BrokerError::Recovery ==> broker_says@
            == "credential failure recovery unavailable"@,
        control_says@ == "provider run controller rejected cancellation"@,
        *endpoint == EndpointError::NotLocal ==> endpoint_says@
            == "only local Bastet named-pipe endpoints are accepted"@,
        *endpoint == EndpointError::InvalidName ==> endpoint_says@
            == "invalid Bastet named-pipe endpoint"@,
        *sandbox == SandboxError::NonAbsoluteWorkspace ==> sandbox_says@
            == "workspace root must be absolute"@,
        *sandbox == SandboxError::UnsafeWorkspace ==> sandbox_says@
            == "workspace root contains unsupported profile characters"@,
        sandbox is EnforcerUnavailable ==> sandbox_says@
            == "required sandbox enforcer is unavailable: "@ + sandbox->EnforcerUnavailable_0@,
{
}

/// A pipe is named by its prefix and a digest of 64 digits.
pub proof fn law_pipes_are_named_by_a_digest(sid: &[u8], identity: &[u16], r: Endpoint)
    requires
        call_ensures(Endpoint::for_database_pipe, (sid, identity), r),
    ensures
        r@ == "\\\\.\\pipe\\bastet-workstation-"@ + crate::digest::hex(
            crate::digest::sha256(crate::ipc::pipe_bytes(sid@, identity@)),
        ),
{
}

} // verus!
