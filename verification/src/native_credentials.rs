//! Read-only access to explicitly selected entries of the host's credential
//! store. The store itself is read outside; what may be read, and what came of
//! it, is decided here.
use crate::digest::{push_bytes, sha256_hex, sha256_text};
use crate::identity::CredentialBackend;
use crate::launch::ProviderCredentialSelection;
use crate::text::has_char;
use vstd::arithmetic::div_mod::lemma_div_denominator;
use vstd::prelude::*;
use vstd::string::*;
use vstd::utf8::encode_utf8;
use zeroize::Zeroize;

verus! {

/// The largest secret that is taken, in bytes.
pub const MAX_SECRET_BYTES: usize = 65536;

/// The namespace of the workstation's own entries: a versioned mapping, not an
/// import of arbitrary login entries of command-line tools.
pub const NATIVE_NAMESPACE: &'static str = "bastet-workstation.v1";

/// Failures without payload, safe to be part of diagnostics.
#[derive(Clone, Copy, Debug, PartialEq, Eq, Structural)]
pub enum CredentialReadError {
    InvalidService,
    InvalidAccount,
    UnsupportedBackend,
    NotFound,
    NoStorageAccess,
    PlatformFailure,
    LocatorTooLong,
    InvalidPlatformLocator,
    Ambiguous,
    BadEncoding,
    EmptySecret,
    SecretTooLarge,
}

impl CredentialReadError {
    pub open spec fn spec_message(self) -> Seq<char> {
        match self {
            CredentialReadError::InvalidService => "credential service locator is invalid"@,
            CredentialReadError::InvalidAccount => "credential account locator is invalid"@,
            CredentialReadError::UnsupportedBackend => {
                "credential backend is unsupported on this host"@
            },
            CredentialReadError::NotFound => "credential entry was not found"@,
            CredentialReadError::NoStorageAccess => "native credential store access was denied"@,
            CredentialReadError::PlatformFailure => "native credential store operation failed"@,
            CredentialReadError::LocatorTooLong => {
                "credential locator exceeds a native platform limit"@
            },
            CredentialReadError::InvalidPlatformLocator => {
                "native credential store rejected the locator"@
            },
            CredentialReadError::Ambiguous => {
                "credential locator matched more than one native entry"@
            },
            CredentialReadError::BadEncoding => {
                "native credential store returned invalidly encoded data"@
            },
            CredentialReadError::EmptySecret => {
                "native credential store returned an empty secret"@
            },
            CredentialReadError::SecretTooLarge => {
                "native credential store returned a secret larger than 64 KiB"@
            },
        }
    }

    pub fn message(&self) -> (r: &'static str)
        ensures
            r@ == self.spec_message(),
    {
        match self {
            CredentialReadError::InvalidService => "credential service locator is invalid",
            CredentialReadError::InvalidAccount => "credential account locator is invalid",
            CredentialReadError::UnsupportedBackend => {
                "credential backend is unsupported on this host"
            },
            CredentialReadError::NotFound => "credential entry was not found",
            CredentialReadError::NoStorageAccess => "native credential store access was denied",
            CredentialReadError::PlatformFailure => "native credential store operation failed",
            CredentialReadError::LocatorTooLong => {
                "credential locator exceeds a native platform limit"
            },
            CredentialReadError::InvalidPlatformLocator => {
                "native credential store rejected the locator"
            },
            CredentialReadError::Ambiguous => {
                "credential locator matched more than one native entry"
            },
            CredentialReadError::BadEncoding => {
                "native credential store returned invalidly encoded data"
            },
            CredentialReadError::EmptySecret => {
                "native credential store returned an empty secret"
            },
            CredentialReadError::SecretTooLarge => {
                "native credential store returned a secret larger than 64 KiB"
            },
        }
    }
}

/// Bytes in a `zeroize::Zeroizing`, which erases them when it is dropped.
#[verifier::external_body]
pub struct SealedBytes {
    bytes: zeroize::Zeroizing<Vec<u8>>,
}

/// The bytes that are sealed.
pub uninterp spec fn sealed_bytes(secret: SealedBytes) -> Seq<u8>;

/// Calls `zeroize::Zeroizing::new`, which moves the bytes in unchanged.
#[verifier::external_body]
fn seal(bytes: Vec<u8>) -> (r: SealedBytes)
    ensures
        sealed_bytes(r) == bytes@,
{
    SealedBytes { bytes: zeroize::Zeroizing::new(bytes) }
}

/// Borrows the sealed bytes, by the `Deref` of `zeroize::Zeroizing`.
#[verifier::external_body]
fn unsealed(secret: &SealedBytes) -> (r: &[u8])
    ensures
        r@ == sealed_bytes(*secret),
{
    secret.bytes.as_slice()
}

/// Calls `zeroize::Zeroize::zeroize` on a vector: its bytes are overwritten with
/// zeros and it is left empty.
#[verifier::external_body]
fn erase(bytes: &mut Vec<u8>)
    ensures
        final(bytes)@.len() == 0,
{
    bytes.zeroize()
}

/// Secret material whose owned storage is erased when it is dropped.
pub struct SecretBytes {
    secret: SealedBytes,
}

impl View for SecretBytes {
    type V = Seq<u8>;

    closed spec fn view(&self) -> Seq<u8> {
        sealed_bytes(self.secret)
    }
}

impl SecretBytes {
    pub fn new(bytes: Vec<u8>) -> (r: Result<Self, CredentialReadError>)
        ensures
            if bytes@.len() == 0 {
                r is Err && r->Err_0 == CredentialReadError::EmptySecret
            } else if bytes@.len() > MAX_SECRET_BYTES {
                r is Err && r->Err_0 == CredentialReadError::SecretTooLarge
            } else {
                r is Ok && r->Ok_0@ == bytes@
            },
    {
        let secret = seal(bytes);
        let size = unsealed(&secret).len();
        if size == 0 {
            return Err(CredentialReadError::EmptySecret);
        }
        if size > MAX_SECRET_BYTES {
            return Err(CredentialReadError::SecretTooLarge);
        }
        Ok(SecretBytes { secret })
    }

    /// Limits ordinary callers to a temporary borrow rather than exposing the
    /// owned buffer or a broadly reusable accessor.
    pub fn with_bytes<T, F: FnOnce(&[u8]) -> T>(&self, use_secret: F) -> (r: T)
        requires
            forall|bytes: &[u8]| bytes@ == self@ ==> call_requires(use_secret, (bytes,)),
        ensures
            exists|bytes: &[u8]| bytes@ == self@ && call_ensures(use_secret, (bytes,), r),
    {
        let bytes = unsealed(&self.secret);
        use_secret(bytes)
    }

    /// The text that stands for a secret in diagnostics.
    pub fn redacted(&self) -> (r: &'static str)
        ensures
            r@ == "SecretBytes([REDACTED])"@,
    {
        "SecretBytes([REDACTED])"
    }
}

/// The operating systems with a credential store that can be read.
#[derive(Clone, Copy, Debug, PartialEq, Eq, Structural)]
pub enum HostPlatform {
    Macos,
    Windows,
    Linux,
    Other,
}

/// The credential store of a host.
pub open spec fn host_backend(host: HostPlatform) -> Option<CredentialBackend> {
    match host {
        HostPlatform::Macos => Some(CredentialBackend::MacosKeychain),
        HostPlatform::Windows => Some(CredentialBackend::WindowsCredentialManager),
        HostPlatform::Linux => Some(CredentialBackend::LinuxSecretService),
        HostPlatform::Other => None,
    }
}

/// A locator that can name an entry: it is not empty and holds no NUL.
pub open spec fn locator_sound(value: Seq<char>) -> bool {
    value.len() > 0 && !value.contains('\0')
}

pub fn validate_locator(value: &str, error: CredentialReadError) -> (r: Result<(), CredentialReadError>)
    ensures
        r == (if locator_sound(value@) {
            Ok::<(), CredentialReadError>(())
        } else {
            Err(error)
        }),
{
    if value.is_empty() || has_char(value, '\0') {
        Err(error)
    } else {
        Ok(())
    }
}

pub fn validate_host_backend(backend: CredentialBackend, host: HostPlatform) -> (r: Result<
    (),
    CredentialReadError,
>)
    ensures
        r == (if host_backend(host) == Some(backend) {
            Ok::<(), CredentialReadError>(())
        } else {
            Err(CredentialReadError::UnsupportedBackend)
        }),
{
    let supported = match host {
        HostPlatform::Macos => backend == CredentialBackend::MacosKeychain,
        HostPlatform::Windows => backend == CredentialBackend::WindowsCredentialManager,
        HostPlatform::Linux => backend == CredentialBackend::LinuxSecretService,
        HostPlatform::Other => false,
    };
    if supported {
        Ok(())
    } else {
        Err(CredentialReadError::UnsupportedBackend)
    }
}

/// Why a selected credential cannot be read on a host.
pub open spec fn selection_error(selection: ProviderCredentialSelection, host: HostPlatform) -> Option<
    CredentialReadError,
> {
    if !locator_sound(selection.service@) {
        Some(CredentialReadError::InvalidService)
    } else if !locator_sound(selection.account_label@) {
        Some(CredentialReadError::InvalidAccount)
    } else if host_backend(host) != Some(selection.backend) {
        Some(CredentialReadError::UnsupportedBackend)
    } else {
        None
    }
}

/// Reads the host's own credential store. It is created without touching the
/// store.
#[derive(Clone, Copy, Debug, PartialEq, Eq)]
pub struct NativeCredentialReader;

impl NativeCredentialReader {
    pub fn new() -> (r: Self) {
        NativeCredentialReader
    }

    /// Refuses a selection that cannot be read on the host, without touching the
    /// store. A dispatch asks this before it spends a grant.
    pub fn validate(&self, selection: &ProviderCredentialSelection, host: HostPlatform) -> (r: Result<
        (),
        CredentialReadError,
    >)
        ensures
            match r {
                Ok(_) => selection_error(*selection, host) is None,
                Err(error) => selection_error(*selection, host) == Some(error),
            },
    {
        match validate_locator(selection.service.as_str(), CredentialReadError::InvalidService) {
            Ok(_) => {},
            Err(error) => {
                return Err(error);
            },
        }
        match validate_locator(
            selection.account_label.as_str(),
            CredentialReadError::InvalidAccount,
        ) {
            Ok(_) => {},
            Err(error) => {
                return Err(error);
            },
        }
        validate_host_backend(selection.backend, host)
    }

    /// Reads a selected credential by one lookup of its service and account, as
    /// they stand in the selection. The selection is checked again at this
    /// boundary, so that no caller gets round the check, and the secret is
    /// sealed.
    pub fn read<F: FnOnce(&str, &str) -> Result<Vec<u8>, CredentialReadError>>(
        &self,
        selection: &ProviderCredentialSelection,
        host: HostPlatform,
        lookup: F,
    ) -> (r: Result<SecretBytes, CredentialReadError>)
        requires
            forall|service: &str, account: &str|
                service@ == selection.service@ && account@ == selection.account_label@
                    ==> call_requires(lookup, (service, account)),
        ensures
            match selection_error(*selection, host) {
                Some(error) => r is Err && r->Err_0 == error,
                None => exists|
                    service: &str,
                    account: &str,
                    found: Result<Vec<u8>, CredentialReadError>,
                |
                    {
                        &&& service@ == selection.service@
                        &&& account@ == selection.account_label@
                        &&& #[trigger] call_ensures(lookup, (service, account), found)
                        &&& sealed_outcome(found, r)
                    },
            },
    {
        match self.validate(selection, host) {
            Ok(_) => {},
            Err(error) => {
                return Err(error);
            },
        }
        let found = lookup(selection.service.as_str(), selection.account_label.as_str());
        seal_found(found)
    }
}

/// What a lookup comes to: its failure, or the secret that it found, where that
/// is of a size that is taken.
pub open spec fn sealed_outcome(
    found: Result<Vec<u8>, CredentialReadError>,
    r: Result<SecretBytes, CredentialReadError>,
) -> bool {
    match found {
        Err(error) => r is Err && r->Err_0 == error,
        Ok(bytes) => if bytes@.len() == 0 {
            r is Err && r->Err_0 == CredentialReadError::EmptySecret
        } else if bytes@.len() > MAX_SECRET_BYTES {
            r is Err && r->Err_0 == CredentialReadError::SecretTooLarge
        } else {
            r is Ok && r->Ok_0@ == bytes@
        },
    }
}

/// Seals what a lookup found.
pub fn seal_found(found: Result<Vec<u8>, CredentialReadError>) -> (r: Result<
    SecretBytes,
    CredentialReadError,
>)
    ensures
        sealed_outcome(found, r),
{
    match found {
        Ok(bytes) => SecretBytes::new(bytes),
        Err(error) => Err(error),
    }
}

/// What a credential store reports, with nothing but what has to be erased.
#[derive(Debug)]
pub enum KeyringFailure {
    PlatformFailure,
    NoStorageAccess,
    NoEntry,
    BadEncoding(Vec<u8>),
    TooLong,
    Invalid,
    Ambiguous,
    Other,
}

/// The failure that a report of the store is passed on as.
pub open spec fn sanitized_keyring_error(failure: KeyringFailure) -> CredentialReadError {
    match failure {
        KeyringFailure::PlatformFailure => CredentialReadError::PlatformFailure,
        KeyringFailure::NoStorageAccess => CredentialReadError::NoStorageAccess,
        KeyringFailure::NoEntry => CredentialReadError::NotFound,
        KeyringFailure::BadEncoding(_) => CredentialReadError::BadEncoding,
        KeyringFailure::TooLong => CredentialReadError::LocatorTooLong,
        KeyringFailure::Invalid => CredentialReadError::InvalidPlatformLocator,
        KeyringFailure::Ambiguous => CredentialReadError::Ambiguous,
        KeyringFailure::Other => CredentialReadError::PlatformFailure,
    }
}

/// Passes a report of the store on without its payload. Raw credential bytes in
/// it are erased before they are let go.
pub fn sanitize_keyring_error(failure: KeyringFailure) -> (r: CredentialReadError)
    ensures
        r == sanitized_keyring_error(failure),
{
    match failure {
        KeyringFailure::PlatformFailure => CredentialReadError::PlatformFailure,
        KeyringFailure::NoStorageAccess => CredentialReadError::NoStorageAccess,
        KeyringFailure::NoEntry => CredentialReadError::NotFound,
        KeyringFailure::BadEncoding(bytes) => {
            let mut bytes = bytes;
            erase(&mut bytes);
            CredentialReadError::BadEncoding
        },
        KeyringFailure::TooLong => CredentialReadError::LocatorTooLong,
        KeyringFailure::Invalid => CredentialReadError::InvalidPlatformLocator,
        KeyringFailure::Ambiguous => CredentialReadError::Ambiguous,
        KeyringFailure::Other => CredentialReadError::PlatformFailure,
    }
}

pub open spec fn byte_weight(k: nat) -> nat
    decreases k,
{
    if k == 0 {
        1
    } else {
        256 * byte_weight((k - 1) as nat)
    }
}

/// A number in eight bytes, the highest first.
pub open spec fn big_endian(n: u64) -> Seq<u8> {
    Seq::new(8, |i: int| ((n as nat / byte_weight((7 - i) as nat)) % 256) as u8)
}

pub fn push_big_endian(out: &mut Vec<u8>, n: u64)
    ensures
        final(out)@ == old(out)@ + big_endian(n),
{
    proof {
        reveal_with_fuel(byte_weight, 9);
    }
    out.push((n / 0x100_0000_0000_0000) as u8);
    out.push((n / 0x1_0000_0000_0000 % 256) as u8);
    out.push((n / 0x100_0000_0000 % 256) as u8);
    out.push((n / 0x1_0000_0000 % 256) as u8);
    out.push((n / 0x100_0000 % 256) as u8);
    out.push((n / 0x1_0000 % 256) as u8);
    out.push((n / 0x100 % 256) as u8);
    out.push((n % 256) as u8);
    assert(out@ =~= old(out)@ + big_endian(n));
}

/// A field with its length before it.
pub open spec fn framed(field: Seq<u8>) -> Seq<u8> {
    big_endian(field.len() as u64) + field
}

/// What the name of a native entry is the digest of. Both fields carry their
/// length, so that no delimiter in one of them can pass for another selection.
pub open spec fn target_bytes(service: Seq<u8>, account: Seq<u8>) -> Seq<u8> {
    framed(service) + framed(account)
}

/// The name of a native entry.
pub open spec fn spec_windows_target(service: Seq<char>, account: Seq<char>) -> Seq<char> {
    "bastet-workstation.v1:"@ + sha256_hex(
        target_bytes(encode_utf8(service), encode_utf8(account)),
    )
}

/// Numbers that agree in their higher bytes agree in what those bytes make.
pub proof fn lemma_same_high_bytes(n: u64, m: u64, k: nat)
    requires
        k <= 8,
        forall|j: nat|
            k <= j < 8 ==> (n as nat / #[trigger] byte_weight(j)) % 256 == (m as nat / byte_weight(
                j,
            )) % 256,
    ensures
        byte_weight(k) > 0,
        n as nat / byte_weight(k) == m as nat / byte_weight(k),
    decreases 8 - k,
{
    if k == 8 {
        reveal_with_fuel(byte_weight, 9);
        assert(byte_weight(8) == 0x1_0000_0000_0000_0000);
        assert(n as nat / byte_weight(8) == 0);
        assert(m as nat / byte_weight(8) == 0);
    } else {
        lemma_same_high_bytes(n, m, k + 1);
        let weight = byte_weight(k) as int;
        assert(byte_weight(k + 1) == 256 * byte_weight(k));
        assert(weight > 0);
        lemma_div_denominator(n as int, weight, 256);
        lemma_div_denominator(m as int, weight, 256);
        assert(weight * 256 == byte_weight(k + 1));
        let a = n as int / weight;
        let b = m as int / weight;
        assert(a / 256 == b / 256);
        assert((n as nat / byte_weight(k)) % 256 == (m as nat / byte_weight(k)) % 256);
        assert(a % 256 == b % 256);
        assert(a == b);
    }
}

/// Eight bytes show one number.
proof fn lemma_big_endian_is_exact(n: u64, m: u64)
    requires
        big_endian(n) == big_endian(m),
    ensures
        n == m,
{
    assert forall|j: nat| 0 <= j < 8 implies (n as nat / #[trigger] byte_weight(j)) % 256 == (
    m as nat / byte_weight(j)) % 256 by {
        let i = 7 - j;
        assert(big_endian(n)[i] == big_endian(m)[i]);
        assert(big_endian(n)[i] == ((n as nat / byte_weight(j)) % 256) as u8);
    }
    lemma_same_high_bytes(n, m, 0);
    assert(byte_weight(0) == 1);
    assert(n as nat / 1 == n);
    assert(m as nat / 1 == m);
}

/// Two selections whose entries are named by the digest of the same bytes are
/// the same selection.
pub proof fn law_selections_are_told_apart(
    service: Seq<u8>,
    account: Seq<u8>,
    other_service: Seq<u8>,
    other_account: Seq<u8>,
)
    requires
        service.len() <= u64::MAX,
        account.len() <= u64::MAX,
        other_service.len() <= u64::MAX,
        other_account.len() <= u64::MAX,
        target_bytes(service, account) == target_bytes(other_service, other_account),
    ensures
        service == other_service,
        account == other_account,
{
    let a = target_bytes(service, account);
    let b = target_bytes(other_service, other_account);
    assert(a.subrange(0, 8) =~= big_endian(service.len() as u64));
    assert(b.subrange(0, 8) =~= big_endian(other_service.len() as u64));
    lemma_big_endian_is_exact(service.len() as u64, other_service.len() as u64);
    let n = service.len() as int;
    assert(a.subrange(8, 8 + n) =~= service);
    assert(b.subrange(8, 8 + n) =~= other_service);
    assert(a.subrange(8 + n, 16 + n) =~= big_endian(account.len() as u64));
    assert(b.subrange(8 + n, 16 + n) =~= big_endian(other_account.len() as u64));
    lemma_big_endian_is_exact(account.len() as u64, other_account.len() as u64);
    assert(a.subrange(16 + n, a.len() as int) =~= account);
    assert(b.subrange(16 + n, a.len() as int) =~= other_account);
}

pub fn windows_target(service: &str, account: &str) -> (r: String)
    ensures
        r@ == spec_windows_target(service@, account@),
{
    let mut input: Vec<u8> = Vec::new();
    let service = service.as_bytes();
    let account = account.as_bytes();
    push_big_endian(&mut input, service.len() as u64);
    push_bytes(&mut input, service);
    push_big_endian(&mut input, account.len() as u64);
    push_bytes(&mut input, account);
    assert(input@ =~= target_bytes(service@, account@));
    let digest = sha256_text(input.as_slice());
    let mut text = "bastet-workstation.v1:".to_owned();
    text.append(digest.as_str());
    text
}

} // verus!
