use crate::identity::EntityMetadata;
use crate::text::same_text;
use crate::uid::{
    AgentInstanceId, DocumentVersionId, GraphNodeId, Keyed, MeetingId,
    ProjectId, RoleId, RunId, Uid,
};
use vstd::prelude::*;

verus! {

/// A pet of the office. `rest` is what a profile holds besides, as recorded.
#[derive(Clone, Debug, PartialEq, Eq)]
pub struct PetProfile {
    pub metadata: EntityMetadata,
    pub rest: String,
}

/// Which agent takes a role in a project.
#[derive(Clone, Debug, PartialEq, Eq)]
pub struct PetAssignment {
    pub metadata: EntityMetadata,
    pub project_id: ProjectId,
    pub role_id: RoleId,
    pub agent_instance_id: AgentInstanceId,
    pub rest: String,
}

#[derive(Clone, Debug, PartialEq, Eq)]
pub struct Room {
    pub metadata: EntityMetadata,
    pub rest: String,
}

#[derive(Clone, Debug, PartialEq, Eq)]
pub struct OfficeCatalog {
    pub pet_profiles: Vec<PetProfile>,
    pub pet_assignments: Vec<PetAssignment>,
    pub rooms: Vec<Room>,
}

#[derive(Clone, Debug, PartialEq, Eq)]
pub struct Meeting {
    pub metadata: EntityMetadata,
    pub project_id: ProjectId,
    pub rest: String,
}

#[derive(Clone, Debug, PartialEq, Eq)]
pub struct DecisionBaseline {
    pub metadata: EntityMetadata,
    pub meeting_id: MeetingId,
    pub content: String,
    pub accepted_by: String,
    pub accepted_at: String,
    pub rest: String,
}

#[derive(Clone, Debug, PartialEq, Eq)]
pub struct MeetingCatalog {
    pub meetings: Vec<Meeting>,
    pub decision_baselines: Vec<DecisionBaseline>,
}

#[derive(Clone, Debug, PartialEq, Eq)]
pub struct DocumentVersion {
    pub id: DocumentVersionId,
    pub content_hash: String,
    pub accepted_by: Option<String>,
    pub rest: String,
}

#[derive(Clone, Debug, PartialEq, Eq)]
pub struct DocumentArtifact {
    pub metadata: EntityMetadata,
    pub project_id: ProjectId,
    pub title: String,
    pub versions: Vec<DocumentVersion>,
}

#[derive(Clone, Debug, PartialEq, Eq)]
pub struct KnowledgeDelivery {
    pub metadata: EntityMetadata,
    pub state: String,
    pub rest: String,
}

#[derive(Clone, Copy, Debug, PartialEq, Eq, Structural)]
pub enum EvidenceClass {
    ProviderReported,
    Estimated,
    Unknown,
}

/// What a provider said a run cost. Amounts and confidences are carried as the
/// bit patterns of their double-precision values.
#[derive(Clone, Debug, PartialEq, Eq)]
pub struct CostEvidence {
    pub evidence_class: EvidenceClass,
    pub currency: Option<String>,
    pub amount_bits: Option<u64>,
    pub input_tokens: Option<u64>,
    pub output_tokens: Option<u64>,
    pub confidence_bits: u64,
}

#[derive(Clone, Debug, PartialEq, Eq)]
pub struct CostLedgerRecord {
    pub metadata: EntityMetadata,
    pub project_id: ProjectId,
    pub node_id: GraphNodeId,
    pub run_id: RunId,
    pub provider: String,
    pub account: String,
    pub model: String,
    pub currency: Option<String>,
    pub amount_bits: Option<u64>,
    pub input_tokens: Option<u64>,
    pub output_tokens: Option<u64>,
    pub evidence_class: EvidenceClass,
    pub source: String,
    pub formula_version: Option<String>,
    pub confidence_bits: u64,
    pub reconciliation_state: String,
}

#[derive(Clone, Debug, PartialEq, Eq)]
pub struct DeliverableCatalog {
    pub documents: Vec<DocumentArtifact>,
    pub knowledge_deliveries: Vec<KnowledgeDelivery>,
    pub costs: Vec<CostLedgerRecord>,
}

/// The office, its meetings, and what came of them.
#[derive(Clone, Debug, PartialEq, Eq)]
pub struct M3Catalog {
    pub office: OfficeCatalog,
    pub meetings: MeetingCatalog,
    pub deliverables: DeliverableCatalog,
}

#[verifier::ext_equal]
pub ghost struct M3View {
    pub pet_profiles: Seq<PetProfile>,
    pub pet_assignments: Seq<PetAssignment>,
    pub rooms: Seq<Room>,
    pub meetings: Seq<Meeting>,
    pub decision_baselines: Seq<DecisionBaseline>,
    pub documents: Seq<DocumentArtifact>,
    pub knowledge_deliveries: Seq<KnowledgeDelivery>,
    pub costs: Seq<CostLedgerRecord>,
}

impl View for M3Catalog {
    type V = M3View;

    open spec fn view(&self) -> M3View {
        M3View {
            pet_profiles: self.office.pet_profiles@,
            pet_assignments: self.office.pet_assignments@,
            rooms: self.office.rooms@,
            meetings: self.meetings.meetings@,
            decision_baselines: self.meetings.decision_baselines@,
            documents: self.deliverables.documents@,
            knowledge_deliveries: self.deliverables.knowledge_deliveries@,
            costs: self.deliverables.costs@,
        }
    }
}

impl M3Catalog {
    pub fn empty() -> (r: Self)
        ensures
            r@ == (M3View {
                pet_profiles: Seq::empty(),
                pet_assignments: Seq::empty(),
                rooms: Seq::empty(),
                meetings: Seq::empty(),
                decision_baselines: Seq::empty(),
                documents: Seq::empty(),
                knowledge_deliveries: Seq::empty(),
                costs: Seq::empty(),
            }),
    {
        M3Catalog {
            office: OfficeCatalog {
                pet_profiles: Vec::new(),
                pet_assignments: Vec::new(),
                rooms: Vec::new(),
            },
            meetings: MeetingCatalog { meetings: Vec::new(), decision_baselines: Vec::new() },
            deliverables: DeliverableCatalog {
                documents: Vec::new(),
                knowledge_deliveries: Vec::new(),
                costs: Vec::new(),
            },
        }
    }
}

/// The built-in pet profile as it is recorded today.
pub open spec fn is_builtin_pet(pet: PetProfile, builtin: PetProfile) -> bool {
    pet.metadata@ == builtin.metadata@ && pet.rest@ == builtin.rest@
}

/// The built-in pet profile as older desktops recorded it: the same, but for
/// two fixed texts in place of its times.
pub open spec fn is_legacy_pet(pet: PetProfile, builtin: PetProfile) -> bool {
    &&& pet.rest@ == builtin.rest@
    &&& pet.metadata.id == builtin.metadata.id
    &&& pet.metadata.revision == builtin.metadata.revision
    &&& pet.metadata.created_at@ == "builtin-v1"@
    &&& pet.metadata.updated_at@ == "builtin-v1"@
    &&& pet.metadata.provenance.source_kind@ == builtin.metadata.provenance.source_kind@
    &&& pet.metadata.provenance.source_id@ == builtin.metadata.provenance.source_id@
    &&& pet.metadata.provenance.recorded_by@ == builtin.metadata.provenance.recorded_by@
    &&& pet.metadata.lifecycle == builtin.metadata.lifecycle
}

/// A catalog that nobody has filled: nothing in it, or nothing but the one
/// built-in pet.
pub open spec fn unconfigured(m3: M3View, builtin: PetProfile) -> bool {
    &&& m3.pet_assignments.len() == 0
    &&& m3.rooms.len() == 0
    &&& m3.meetings.len() == 0
    &&& m3.decision_baselines.len() == 0
    &&& m3.documents.len() == 0
    &&& m3.knowledge_deliveries.len() == 0
    &&& m3.costs.len() == 0
    &&& m3.pet_profiles.len() == 0 || (m3.pet_profiles.len() == 1 && (is_builtin_pet(
        m3.pet_profiles[0],
        builtin,
    ) || is_legacy_pet(m3.pet_profiles[0], builtin)))
}

pub fn m3_is_unconfigured(catalog: &M3Catalog, builtin: &PetProfile) -> (r: bool)
    ensures
        r == unconfigured(catalog@, *builtin),
{
    if catalog.office.pet_assignments.len() != 0 || catalog.office.rooms.len() != 0
        || catalog.meetings.meetings.len() != 0 || catalog.meetings.decision_baselines.len() != 0
        || catalog.deliverables.documents.len() != 0
        || catalog.deliverables.knowledge_deliveries.len() != 0 || catalog.deliverables.costs.len()
        != 0 {
        return false;
    }
    if catalog.office.pet_profiles.len() == 0 {
        return true;
    }
    if catalog.office.pet_profiles.len() != 1 {
        return false;
    }
    let pet = &catalog.office.pet_profiles[0];
    if pet.rest != builtin.rest {
        return false;
    }
    pet.metadata.same(&builtin.metadata) || (pet.metadata.id == builtin.metadata.id
        && pet.metadata.revision == builtin.metadata.revision && same_text(
        pet.metadata.created_at.as_str(),
        "builtin-v1",
    ) && same_text(pet.metadata.updated_at.as_str(), "builtin-v1")
        && pet.metadata.provenance.source_kind == builtin.metadata.provenance.source_kind
        && pet.metadata.provenance.source_id == builtin.metadata.provenance.source_id
        && pet.metadata.provenance.recorded_by == builtin.metadata.provenance.recorded_by
        && pet.metadata.lifecycle == builtin.metadata.lifecycle)
}

/// Evidence of a run of which nothing is known.
pub open spec fn is_unknown_cost(cost: CostEvidence) -> bool {
    &&& cost.evidence_class == EvidenceClass::Unknown
    &&& cost.currency is None
    &&& cost.amount_bits is None
    &&& cost.input_tokens is None
    &&& cost.output_tokens is None
    &&& cost.confidence_bits == 0
}

pub fn unknown_cost() -> (r: CostEvidence)
    ensures
        is_unknown_cost(r),
{
    CostEvidence {
        evidence_class: EvidenceClass::Unknown,
        currency: None,
        amount_bits: None,
        input_tokens: None,
        output_tokens: None,
        confidence_bits: 0,
    }
}

impl Keyed for Meeting {
    open spec fn key(&self) -> Uid {
        self.metadata.id
    }

    fn id(&self) -> (r: Uid) {
        self.metadata.id
    }
}

impl Keyed for DecisionBaseline {
    open spec fn key(&self) -> Uid {
        self.metadata.id
    }

    fn id(&self) -> (r: Uid) {
        self.metadata.id
    }
}

impl Keyed for DocumentArtifact {
    open spec fn key(&self) -> Uid {
        self.metadata.id
    }

    fn id(&self) -> (r: Uid) {
        self.metadata.id
    }
}

impl Keyed for DocumentVersion {
    open spec fn key(&self) -> Uid {
        self.id
    }

    fn id(&self) -> (r: Uid) {
        self.id
    }
}

impl Keyed for KnowledgeDelivery {
    open spec fn key(&self) -> Uid {
        self.metadata.id
    }

    fn id(&self) -> (r: Uid) {
        self.metadata.id
    }
}

impl Keyed for CostLedgerRecord {
    open spec fn key(&self) -> Uid {
        self.metadata.id
    }

    fn id(&self) -> (r: Uid) {
        self.metadata.id
    }
}

} // verus!
