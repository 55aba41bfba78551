use crate::graph::GraphError;
use crate::text::{decimal, decimal_text};
use vstd::prelude::*;
use vstd::string::*;

verus! {

/// Why the identity rules refuse a catalog.
#[derive(Clone, Debug, PartialEq, Eq)]
pub struct CatalogError {
    pub message: String,
}

impl CatalogError {
    pub fn copy(&self) -> (r: Self)
        ensures
            r == *self,
    {
        CatalogError { message: self.message.clone() }
    }
}

/// Why the approval rules refuse a request or a decision.
#[derive(Clone, Debug, PartialEq, Eq)]
pub enum ApprovalError {
    HashMismatch,
    MissingReference,
    Expired,
    Other(String),
}

impl ApprovalError {
    pub fn copy(&self) -> (r: Self)
        ensures
            r == *self,
    {
        match self {
            ApprovalError::HashMismatch => ApprovalError::HashMismatch,
            ApprovalError::MissingReference => ApprovalError::MissingReference,
            ApprovalError::Expired => ApprovalError::Expired,
            ApprovalError::Other(text) => ApprovalError::Other(text.clone()),
        }
    }
}

/// Why the store refuses an operation.
#[derive(Debug, PartialEq, Eq)]
pub enum StoreError {
    Database(String),
    RevisionConflict { expected: u64, actual: u64 },
    UnsupportedSchemaVersion { actual: u32, supported: u32 },
    InvalidLifecycle { expected: &'static str, actual: String },
    Poisoned,
    InvalidCatalog(CatalogError),
    Serialization(String),
    InvalidApproval(ApprovalError),
    ApprovalNotFound,
    ApprovalConflict,
    CredentialGrantNotFound,
    CredentialGrantRejected,
    RevisionOverflow,
    RunNotFound,
    InvalidRunState(String),
    RunControlRejected,
    ProviderRunsActive,
    InvalidGraph(GraphError),
    InvalidM3(String),
    InvalidMvp(String),
    InvalidDocument(String),
    InvalidCost(String),
    GraphNotFound,
    GraphConflict,
}

/// What an error says, character by character. The text of a database error is
/// left out.
pub ghost enum Refusal {
    Database,
    RevisionConflict { expected: u64, actual: u64 },
    UnsupportedSchemaVersion { actual: u32, supported: u32 },
    InvalidLifecycle { expected: Seq<char>, actual: Seq<char> },
    Poisoned,
    InvalidCatalog(CatalogError),
    Serialization(Seq<char>),
    InvalidApproval(ApprovalError),
    ApprovalNotFound,
    ApprovalConflict,
    CredentialGrantNotFound,
    CredentialGrantRejected,
    RevisionOverflow,
    RunNotFound,
    InvalidRunState(Seq<char>),
    RunControlRejected,
    ProviderRunsActive,
    InvalidGraph(GraphError),
    InvalidM3(Seq<char>),
    InvalidMvp(Seq<char>),
    InvalidDocument(Seq<char>),
    InvalidCost(Seq<char>),
    GraphNotFound,
    GraphConflict,
}

impl View for StoreError {
    type V = Refusal;

    open spec fn view(&self) -> Refusal {
        match *self {
            StoreError::Database(_) => Refusal::Database,
            StoreError::RevisionConflict { expected, actual } => Refusal::RevisionConflict {
                expected,
                actual,
            },
            StoreError::UnsupportedSchemaVersion { actual, supported } => {
                Refusal::UnsupportedSchemaVersion { actual, supported }
            },
            StoreError::InvalidLifecycle { expected, actual } => Refusal::InvalidLifecycle {
                expected: expected@,
                actual: actual@,
            },
            StoreError::Poisoned => Refusal::Poisoned,
            StoreError::InvalidCatalog(error) => Refusal::InvalidCatalog(error),
            StoreError::Serialization(text) => Refusal::Serialization(text@),
            StoreError::InvalidApproval(error) => Refusal::InvalidApproval(error),
            StoreError::ApprovalNotFound => Refusal::ApprovalNotFound,
            StoreError::ApprovalConflict => Refusal::ApprovalConflict,
            StoreError::CredentialGrantNotFound => Refusal::CredentialGrantNotFound,
            StoreError::CredentialGrantRejected => Refusal::CredentialGrantRejected,
            StoreError::RevisionOverflow => Refusal::RevisionOverflow,
            StoreError::RunNotFound => Refusal::RunNotFound,
            StoreError::InvalidRunState(text) => Refusal::InvalidRunState(text@),
            StoreError::RunControlRejected => Refusal::RunControlRejected,
            StoreError::ProviderRunsActive => Refusal::ProviderRunsActive,
            StoreError::InvalidGraph(error) => Refusal::InvalidGraph(error),
            StoreError::InvalidM3(text) => Refusal::InvalidM3(text@),
            StoreError::InvalidMvp(text) => Refusal::InvalidMvp(text@),
            StoreError::InvalidDocument(text) => Refusal::InvalidDocument(text@),
            StoreError::InvalidCost(text) => Refusal::InvalidCost(text@),
            StoreError::GraphNotFound => Refusal::GraphNotFound,
            StoreError::GraphConflict => Refusal::GraphConflict,
        }
    }
}

/// The HTTP status with which a refusal is answered.
pub open spec fn spec_status(refusal: Refusal) -> u16 {
    match refusal {
        Refusal::RevisionConflict { .. }
        | Refusal::InvalidLifecycle { .. }
        | Refusal::ApprovalConflict
        | Refusal::CredentialGrantRejected
        | Refusal::GraphConflict
        | Refusal::InvalidRunState(_)
        | Refusal::ProviderRunsActive => 409,
        Refusal::ApprovalNotFound
        | Refusal::RunNotFound
        | Refusal::GraphNotFound
        | Refusal::CredentialGrantNotFound => 404,
        Refusal::RunControlRejected => 503,
        Refusal::InvalidCatalog(_)
        | Refusal::InvalidApproval(_)
        | Refusal::InvalidGraph(_)
        | Refusal::InvalidM3(_)
        | Refusal::InvalidMvp(_)
        | Refusal::InvalidDocument(_)
        | Refusal::InvalidCost(_)
        | Refusal::Serialization(_) => 400,
        _ => 500,
    }
}

impl GraphError {
    pub open spec fn spec_message(self) -> Seq<char> {
        match self {
            GraphError::InvalidExecution => "invalid execution"@,
            GraphError::InvalidOutput => "invalid output"@,
            GraphError::Other(text) => text@,
        }
    }

    pub fn message(&self) -> (r: String)
        ensures
            r@ == self.spec_message(),
    {
        match self {
            GraphError::InvalidExecution => "invalid execution".to_owned(),
            GraphError::InvalidOutput => "invalid output".to_owned(),
            GraphError::Other(text) => text.clone(),
        }
    }
}

impl ApprovalError {
    pub open spec fn spec_message(self) -> Seq<char> {
        match self {
            ApprovalError::HashMismatch => "hash mismatch"@,
            ApprovalError::MissingReference => "missing reference"@,
            ApprovalError::Expired => "expired"@,
            ApprovalError::Other(text) => text@,
        }
    }

    pub fn message(&self) -> (r: String)
        ensures
            r@ == self.spec_message(),
    {
        match self {
            ApprovalError::HashMismatch => "hash mismatch".to_owned(),
            ApprovalError::MissingReference => "missing reference".to_owned(),
            ApprovalError::Expired => "expired".to_owned(),
            ApprovalError::Other(text) => text.clone(),
        }
    }
}

fn join(prefix: &str, text: &str) -> (r: String)
    ensures
        r@ == prefix@ + text@,
{
    let mut r = prefix.to_owned();
    r.append(text);
    r
}

impl StoreError {
    /// The HTTP status with which this error is answered.
    pub fn status(&self) -> (r: u16)
        ensures
            r == spec_status(self@),
    {
        match self {
            StoreError::RevisionConflict { .. }
            | StoreError::InvalidLifecycle { .. }
            | StoreError::ApprovalConflict
            | StoreError::CredentialGrantRejected
            | StoreError::GraphConflict
            | StoreError::InvalidRunState(_)
            | StoreError::ProviderRunsActive => 409,
            StoreError::ApprovalNotFound
            | StoreError::RunNotFound
            | StoreError::GraphNotFound
            | StoreError::CredentialGrantNotFound => 404,
            StoreError::RunControlRejected => 503,
            StoreError::InvalidCatalog(_)
            | StoreError::InvalidApproval(_)
            | StoreError::InvalidGraph(_)
            | StoreError::InvalidM3(_)
            | StoreError::InvalidMvp(_)
            | StoreError::InvalidDocument(_)
            | StoreError::InvalidCost(_)
            | StoreError::Serialization(_) => 400,
            _ => 500,
        }
    }

    /// The text with which this error is reported.
    pub open spec fn spec_message(self) -> Seq<char> {
        match self {
            StoreError::Database(text) => "database error: "@ + text@,
            StoreError::RevisionConflict { expected, actual } => {
                "state revision conflict: expected "@ + decimal(expected as nat) + ", actual "@
                    + decimal(actual as nat)
            },
            StoreError::UnsupportedSchemaVersion { actual, supported } => {
                "database schema version "@ + decimal(actual as nat)
                    + " is newer than supported version "@ + decimal(supported as nat)
            },
            StoreError::InvalidLifecycle { expected, actual } => {
                "invalid daemon lifecycle: expected "@ + expected@ + ", actual "@ + actual@
            },
            StoreError::Poisoned => "store mutex was poisoned"@,
            StoreError::InvalidCatalog(error) => "identity catalog is invalid: "@
                + error.message@,
            StoreError::Serialization(text) => "identity catalog serialization failed: "@ + text@,
            StoreError::InvalidApproval(error) => "approval is invalid: "@ + error.spec_message(),
            StoreError::ApprovalNotFound => "approval request was not found"@,
            StoreError::ApprovalConflict => {
                "approval request already exists or has already been decided"@
            },
            StoreError::CredentialGrantNotFound => "credential grant was not found"@,
            StoreError::CredentialGrantRejected => {
                "credential grant is not usable for this request"@
            },
            StoreError::RevisionOverflow => "state revision overflow"@,
            StoreError::RunNotFound => "run was not found"@,
            StoreError::InvalidRunState(text) => "run cannot be cancelled from state "@ + text@,
            StoreError::RunControlRejected => "provider run controller rejected cancellation"@,
            StoreError::ProviderRunsActive => "provider runs are still active"@,
            StoreError::InvalidGraph(error) => "graph execution is invalid: "@
                + error.spec_message(),
            StoreError::InvalidM3(text) => "M3 catalog is invalid: "@ + text@,
            StoreError::InvalidMvp(text) => "MVP workflow is invalid: "@ + text@,
            StoreError::InvalidDocument(text) => "document workflow is invalid: "@ + text@,
            StoreError::InvalidCost(text) => "cost evidence is invalid: "@ + text@,
            StoreError::GraphNotFound => "graph execution was not found"@,
            StoreError::GraphConflict => "graph execution already exists"@,
        }
    }

    pub fn message(&self) -> (r: String)
        ensures
            r@ == self.spec_message(),
    {
        match self {
            StoreError::Database(text) => join("database error: ", text.as_str()),
            StoreError::RevisionConflict { expected, actual } => {
                let head = join("state revision conflict: expected ", decimal_text(*expected).as_str());
                let head = join(head.as_str(), ", actual ");
                join(head.as_str(), decimal_text(*actual).as_str())
            },
            StoreError::UnsupportedSchemaVersion { actual, supported } => {
                let head = join("database schema version ", decimal_text(*actual as u64).as_str());
                let head = join(head.as_str(), " is newer than supported version ");
                join(head.as_str(), decimal_text(*supported as u64).as_str())
            },
            StoreError::InvalidLifecycle { expected, actual } => {
                let head = join("invalid daemon lifecycle: expected ", expected);
                let head = join(head.as_str(), ", actual ");
                join(head.as_str(), actual.as_str())
            },
            StoreError::Poisoned => "store mutex was poisoned".to_owned(),
            StoreError::InvalidCatalog(error) => join(
                "identity catalog is invalid: ",
                error.message.as_str(),
            ),
            StoreError::Serialization(text) => join(
                "identity catalog serialization failed: ",
                text.as_str(),
            ),
            StoreError::InvalidApproval(error) => join(
                "approval is invalid: ",
                error.message().as_str(),
            ),
            StoreError::ApprovalNotFound => "approval request was not found".to_owned(),
            StoreError::ApprovalConflict => {
                "approval request already exists or has already been decided".to_owned()
            },
            StoreError::CredentialGrantNotFound => "credential grant was not found".to_owned(),
            StoreError::CredentialGrantRejected => {
                "credential grant is not usable for this request".to_owned()
            },
            StoreError::RevisionOverflow => "state revision overflow".to_owned(),
            StoreError::RunNotFound => "run was not found".to_owned(),
            StoreError::InvalidRunState(text) => join(
                "run cannot be cancelled from state ",
                text.as_str(),
            ),
            StoreError::RunControlRejected => {
                "provider run controller rejected cancellation".to_owned()
            },
            StoreError::ProviderRunsActive => "provider runs are still active".to_owned(),
            StoreError::InvalidGraph(error) => join(
                "graph execution is invalid: ",
                error.message().as_str(),
            ),
            StoreError::InvalidM3(text) => join("M3 catalog is invalid: ", text.as_str()),
            StoreError::InvalidMvp(text) => join("MVP workflow is invalid: ", text.as_str()),
            StoreError::InvalidDocument(text) => join(
                "document workflow is invalid: ",
                text.as_str(),
            ),
            StoreError::InvalidCost(text) => join("cost evidence is invalid: ", text.as_str()),
            StoreError::GraphNotFound => "graph execution was not found".to_owned(),
            StoreError::GraphConflict => "graph execution already exists".to_owned(),
        }
    }
}

/// The refusal of an operation on a run that is not in the state for it.
pub fn invalid_run(text: &str) -> (r: StoreError)
    ensures
        r@ == Refusal::InvalidRunState(text@),
{
    StoreError::InvalidRunState(text.to_owned())
}

} // verus!
