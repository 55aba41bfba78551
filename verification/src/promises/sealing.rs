//! Credentials as they are looked up, sealed and handed on, and the controllers
//! of the runs that use them.
use crate::broker::{broker_claim, BrokerError};
use crate::dispatch::DispatchClaim;
use crate::error::StoreError;
use crate::identity::CredentialBackend;
use crate::launch::ProviderCredentialSelection;
use crate::native_credentials::{
    push_big_endian, sanitize_keyring_error, seal_found, validate_host_backend, validate_locator,
    windows_target, CredentialReadError, HostPlatform, KeyringFailure, NativeCredentialReader,
    SecretBytes,
};
use crate::registry::{RunControlError, RunControllerRegistry};
use crate::uid::Uid;
use vstd::prelude::*;
use vstd::utf8::encode_utf8;

verus! {

/// A locator that a native store can take.
pub open spec fn locates(text: Seq<char>) -> bool {
    text.len() > 0 && !text.contains('\0')
}

/// The native store of this host.
pub open spec fn store_of(host: HostPlatform, backend: CredentialBackend) -> bool {
    ||| host == HostPlatform::Macos && backend == CredentialBackend::MacosKeychain
    ||| host == HostPlatform::Windows && backend == CredentialBackend::WindowsCredentialManager
    ||| host == HostPlatform::Linux && backend == CredentialBackend::LinuxSecretService
}

/// A locator is taken exactly if it has something in it and no null.
pub proof fn law_locators_are_checked(
    value: &str,
    error: CredentialReadError,
    r: Result<(), CredentialReadError>,
)
    requires
        call_ensures(validate_locator, (value, error), r),
    ensures
        r is Ok <==> locates(value@),
        r is Err ==> r->Err_0 == error,
{
}

/// A backend is taken exactly if it is the native store of the host.
pub proof fn law_backends_belong_to_their_host(
    backend: CredentialBackend,
    host: HostPlatform,
    r: Result<(), CredentialReadError>,
)
    requires
        call_ensures(validate_host_backend, (backend, host), r),
    ensures
        r is Ok <==> store_of(host, backend),
        r is Err ==> r->Err_0 == CredentialReadError::UnsupportedBackend,
{
}

/// A selection is checked in its service, its account and its backend, and each
/// has its own refusal.
pub proof fn law_selections_are_checked(
    reader: &NativeCredentialReader,
    selection: &ProviderCredentialSelection,
    host: HostPlatform,
    r: Result<(), CredentialReadError>,
)
    requires
        call_ensures(NativeCredentialReader::validate, (reader, selection, host), r),
    ensures
        r is Ok <==> locates(selection.service@) && locates(selection.account_label@) && store_of(
            host,
            selection.backend,
        ),
        !locates(selection.service@) ==> r->Err_0 == CredentialReadError::InvalidService,
        locates(selection.service@) && !locates(selection.account_label@) ==> r->Err_0
            == CredentialReadError::InvalidAccount,
        locates(selection.service@) && locates(selection.account_label@) && !store_of(
            host,
            selection.backend,
        ) ==> r->Err_0 == CredentialReadError::UnsupportedBackend,
{
}

/// What is found is sealed as it is, unless it is empty or longer than 64 KiB;
/// a failure is passed on.
pub proof fn law_found_secrets_are_sealed_unchanged(
    found: Result<Vec<u8>, CredentialReadError>,
    r: Result<SecretBytes, CredentialReadError>,
)
    requires
        call_ensures(seal_found, (found,), r),
    ensures
        r is Ok <==> found is Ok && 0 < found->Ok_0@.len() && found->Ok_0@.len() <= 65536,
        r is Ok ==> r->Ok_0@ == found->Ok_0@,
        found is Err ==> r->Err_0 == found->Err_0,
        found is Ok && found->Ok_0@.len() == 0 ==> r->Err_0 == CredentialReadError::EmptySecret,
        found is Ok && found->Ok_0@.len() > 65536 ==> r->Err_0
            == CredentialReadError::SecretTooLarge,
{
}

/// A secret holds the bytes that it was made of.
pub proof fn law_secrets_hold_their_bytes(
    bytes: Vec<u8>,
    r: Result<SecretBytes, CredentialReadError>,
)
    requires
        call_ensures(SecretBytes::new, (bytes,), r),
    ensures
        r is Ok <==> 0 < bytes@.len() && bytes@.len() <= 65536,
        r is Ok ==> r->Ok_0@ == bytes@,
{
}

/// A secret never shows itself.
pub proof fn law_secrets_are_not_shown(secret: &SecretBytes, r: &'static str)
    requires
        call_ensures(SecretBytes::redacted, (secret,), r),
    ensures
        r@ == "SecretBytes([REDACTED])"@,
{
}

/// The store is asked for the service and the account of the selection, and for
/// no others; and what it finds there is what is read.
pub proof fn law_reading_asks_for_the_selection<
    F: FnOnce(&str, &str) -> Result<Vec<u8>, CredentialReadError>,
>(
    reader: &NativeCredentialReader,
    selection: &ProviderCredentialSelection,
    host: HostPlatform,
    lookup: F,
    r: Result<SecretBytes, CredentialReadError>,
)
    requires
        call_ensures(NativeCredentialReader::read::<F>, (reader, selection, host, lookup), r),
    ensures
        r is Ok ==> locates(selection.service@) && locates(selection.account_label@) && store_of(
            host,
            selection.backend,
        ),
        r is Ok ==> exists|service: &str, account: &str, found: Result<
            Vec<u8>,
            CredentialReadError,
        >|
            {
                &&& #[trigger] call_ensures(lookup, (service, account), found)
                &&& service@ == selection.service@
                &&& account@ == selection.account_label@
                &&& found is Ok
                &&& found->Ok_0@ == r->Ok_0@
            },
{
    if r is Ok {
        let (service, account, found) = choose|
            service: &str,
            account: &str,
            found: Result<Vec<u8>, CredentialReadError>,
        |
            {
                &&& service@ == selection.service@
                &&& account@ == selection.account_label@
                &&& #[trigger] call_ensures(lookup, (service, account), found)
                &&& crate::native_credentials::sealed_outcome(found, r)
            };
        assert(call_ensures(lookup, (service, account), found));
    }
}

/// What a native store reports is passed on without anything that it held.
pub proof fn law_store_failures_are_told_apart(failure: KeyringFailure, r: CredentialReadError)
    requires
        call_ensures(sanitize_keyring_error, (failure,), r),
    ensures
        failure is NoEntry <==> r == CredentialReadError::NotFound,
        failure is NoStorageAccess <==> r == CredentialReadError::NoStorageAccess,
        failure is BadEncoding <==> r == CredentialReadError::BadEncoding,
        failure is TooLong <==> r == CredentialReadError::LocatorTooLong,
        failure is Invalid <==> r == CredentialReadError::InvalidPlatformLocator,
        failure is Ambiguous <==> r == CredentialReadError::Ambiguous,
        failure is PlatformFailure || failure is Other <==> r
            == CredentialReadError::PlatformFailure,
{
}

/// A number is written as eight bytes, the highest first.
pub proof fn law_numbers_are_written_highest_first(out: &mut Vec<u8>, n: u64)
    requires
        call_ensures(push_big_endian, (out, n), ()),
    ensures
        final(out)@.len() == old(out)@.len() + 8,
        forall|i: int| 0 <= i < old(out)@.len() ==> #[trigger] final(out)@[i] == old(out)@[i],
        n < 256 ==> final(out)@.last() == n && forall|i: int|
            old(out)@.len() <= i < final(out)@.len() - 1 ==> #[trigger] final(out)@[i] == 0,
{
    let k = old(out)@.len() as int;
    reveal_with_fuel(crate::native_credentials::byte_weight, 9);
    assert(crate::native_credentials::byte_weight(0) == 1);
    assert(final(out)@[k + 7] == crate::native_credentials::big_endian(n)[7]);
    assert(final(out)@.last() == final(out)@[k + 7]);
    if n < 256 {
        assert((n as nat / 1) % 256 == n);
        assert(crate::native_credentials::big_endian(n)[7] == ((n as nat
            / crate::native_credentials::byte_weight((7 - 7) as nat)) % 256) as u8);
        assert forall|i: int| k <= i < final(out)@.len() - 1 implies #[trigger] final(out)@[i]
            == 0 by {
            assert(final(out)@[i] == crate::native_credentials::big_endian(n)[i - k]);
            let w = crate::native_credentials::byte_weight((7 - (i - k)) as nat);
            lemma_weight((7 - (i - k)) as nat);
            assert(n as nat / w == 0) by (nonlinear_arith)
                requires
                    0 <= n < 256,
                    w >= 256,
            ;
        }
    }
}

proof fn lemma_weight(k: nat)
    requires
        k >= 1,
    ensures
        crate::native_credentials::byte_weight(k) >= 256,
    decreases k,
{
    if k > 1 {
        lemma_weight((k - 1) as nat);
    } else {
        assert(crate::native_credentials::byte_weight(0) == 1);
    }
}

/// The entries of two selections have names of their own on Windows: they are
/// named alike only if the digests by which they are named are.
pub proof fn law_windows_targets_are_digests(
    service: &str,
    account: &str,
    r: String,
    other_service: &str,
    other_account: &str,
    other: String,
)
    requires
        call_ensures(windows_target, (service, account), r),
        call_ensures(windows_target, (other_service, other_account), other),
    ensures
        "bastet-workstation.v1:"@.is_prefix_of(r@),
        service@ == other_service@ && account@ == other_account@ ==> r@ == other@,
        r@ == other@ ==> crate::digest::sha256(
            crate::native_credentials::target_bytes(encode_utf8(service@), encode_utf8(account@)),
        ) == crate::digest::sha256(
            crate::native_credentials::target_bytes(
                encode_utf8(other_service@),
                encode_utf8(other_account@),
            ),
        ),
{
    let head = "bastet-workstation.v1:"@;
    let a = crate::digest::sha256(
        crate::native_credentials::target_bytes(encode_utf8(service@), encode_utf8(account@)),
    );
    let b = crate::digest::sha256(
        crate::native_credentials::target_bytes(
            encode_utf8(other_service@),
            encode_utf8(other_account@),
        ),
    );
    assert(r@ == head + crate::digest::hex(a));
    assert(r@.take(head.len() as int) == head);
    if r@ == other@ {
        assert(r@.skip(head.len() as int) == crate::digest::hex(a));
        assert(other@.skip(head.len() as int) == crate::digest::hex(b));
        crate::digest::law_hex_is_exact(a, b);
    }
}

/// A claim passes the broker as it is; any refusal of it says no more than that
/// the launch is not authorized.
pub proof fn law_broker_passes_claims_on(
    claim: Result<DispatchClaim, StoreError>,
    r: Result<DispatchClaim, BrokerError>,
)
    requires
        call_ensures(broker_claim, (claim,), r),
    ensures
        r is Ok <==> claim is Ok,
        r is Ok ==> r->Ok_0 == claim->Ok_0,
        r is Err ==> r->Err_0 == BrokerError::Authorization,
{
}

/// A controller that was registered for a run is found under it, and the others
/// stay as they were; a run has one controller at most.
pub proof fn law_registered_controllers_are_found<C>(
    registry: &mut RunControllerRegistry<C>,
    run_id: Uid,
    controller: C,
    r: Result<(), RunControlError>,
    later: &RunControllerRegistry<C>,
    asked: Uid,
    found: Result<&C, RunControlError>,
)
    requires
        call_ensures(
            RunControllerRegistry::<C>::register,
            (registry, run_id, controller),
            r,
        ),
        *later == *final(registry),
        call_ensures(RunControllerRegistry::<C>::controller, (later, asked), found),
    ensures
        r is Ok && asked == run_id ==> found is Ok && *found->Ok_0 == controller,
        r is Err && asked == run_id ==> found is Ok,
        asked != run_id ==> (found is Ok <==> old(registry)@.contains_key(asked)),
        asked != run_id && found is Ok ==> *found->Ok_0 == old(registry)@[asked],
{
}

/// A controller that was taken out is found no more, and the others stay.
pub proof fn law_unregistered_controllers_are_gone<C>(
    registry: &mut RunControllerRegistry<C>,
    run_id: Uid,
    r: bool,
    later: &RunControllerRegistry<C>,
    asked: Uid,
    found: Result<&C, RunControlError>,
)
    requires
        call_ensures(RunControllerRegistry::<C>::unregister, (registry, run_id), r),
        *later == *final(registry),
        call_ensures(RunControllerRegistry::<C>::controller, (later, asked), found),
    ensures
        asked == run_id ==> found is Err,
        asked != run_id ==> (found is Ok <==> old(registry)@.contains_key(asked)),
        asked != run_id && found is Ok ==> *found->Ok_0 == old(registry)@[asked],
        r <==> old(registry)@.contains_key(run_id),
{
}

/// A new registry knows no run.
pub proof fn law_new_registry_is_empty<C>(
    registry: RunControllerRegistry<C>,
    later: &RunControllerRegistry<C>,
    asked: Uid,
    found: Result<&C, RunControlError>,
)
    requires
        call_ensures(RunControllerRegistry::<C>::new, (), registry),
        *later == registry,
        call_ensures(RunControllerRegistry::<C>::controller, (later, asked), found),
    ensures
        found is Err,
{
}

} // verus!
