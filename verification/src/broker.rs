use crate::dispatch::{
    fail_refusal, fail_target, lookup_failed, DispatchClaim, LookupFindings,
};
use crate::error::StoreError;
use crate::identity::Moment;
use crate::native_credentials::{CredentialReadError, SecretBytes};
use crate::protocol::BeginGraphNodeRunReceipt;
use crate::store::Store;
use vstd::prelude::*;

verus! {

/// A launch with the credential that it was approved for.
pub struct PreparedLaunch {
    pub receipt: BeginGraphNodeRunReceipt,
    pub credential: SecretBytes,
}

/// Why no launch was prepared; without payload.
#[derive(Clone, Copy, Debug, PartialEq, Eq, Structural)]
pub enum BrokerError {
    Authorization,
    Credential,
    Recovery,
}

impl BrokerError {
    pub fn message(&self) -> (r: &'static str)
        ensures
            r@ == (match self {
                BrokerError::Authorization => "launch authorization rejected"@,
                BrokerError::Credential => "credential lookup failed"@,
                BrokerError::Recovery => "credential failure recovery unavailable"@,
            }),
    {
        match self {
            BrokerError::Authorization => "launch authorization rejected",
            BrokerError::Credential => "credential lookup failed",
            BrokerError::Recovery => "credential failure recovery unavailable",
        }
    }
}

/// What the broker passes on of a refused claim: nothing but that it was
/// refused.
pub fn broker_claim(claim: Result<DispatchClaim, StoreError>) -> (r: Result<
    DispatchClaim,
    BrokerError,
>)
    ensures
        match claim {
            Ok(claim) => r == Ok::<_, BrokerError>(claim),
            Err(_) => r is Err && r->Err_0 == BrokerError::Authorization,
        },
{
    match claim {
        Ok(claim) => Ok(claim),
        Err(_) => Err(BrokerError::Authorization),
    }
}

impl Store {
    /// What becomes of a claim after its one lookup: a launch with its
    /// credential, or, where nothing could be read, a run that ends uncertain.
    /// The grant is never refunded.
    pub fn prepare_staged_credentials(
        &mut self,
        claim: DispatchClaim,
        read: Result<SecretBytes, CredentialReadError>,
        findings: LookupFindings,
        now: &Moment,
    ) -> (r: Result<PreparedLaunch, BrokerError>)
        ensures
            final(self)@.grants == old(self)@.grants,
            match read {
                Ok(credential) => {
                    &&& *final(self) == *old(self)
                    &&& r == Ok::<_, BrokerError>(
                        (PreparedLaunch { receipt: claim.receipt, credential }),
                    )
                },
                Err(_) => match fail_target(old(self)@, claim.receipt.run_id) {
                    Err(_) => r is Err && r->Err_0 == BrokerError::Recovery && *final(self)
                        == *old(self),
                    Ok((i, g, _)) => if fail_refusal(
                        old(self)@,
                        claim.receipt.run_id,
                        i,
                        findings,
                    ) is Some {
                        r is Err && r->Err_0 == BrokerError::Recovery && *final(self)
                            == *old(self)
                    } else {
                        &&& r is Err && r->Err_0 == BrokerError::Credential
                        &&& lookup_failed(
                            old(self)@,
                            final(self)@,
                            claim.receipt.run_id,
                            i,
                            g,
                            findings.finished->Ok_0,
                            *now,
                        )
                    },
                },
            },
    {
        match read {
            Ok(credential) => Ok(PreparedLaunch { receipt: claim.receipt, credential }),
            Err(_) => match self.fail_dispatch_claim(claim.receipt.run_id, findings, now) {
                Ok(_) => Err(BrokerError::Credential),
                Err(_) => Err(BrokerError::Recovery),
            },
        }
    }
}

} // verus!
