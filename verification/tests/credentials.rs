use bastet_workstation::identity::CredentialBackend;
use bastet_workstation::launch::ProviderCredentialSelection;
use bastet_workstation::native_credentials::{
    sanitize_keyring_error, seal_found, validate_host_backend, validate_locator, windows_target,
    CredentialReadError, HostPlatform, KeyringFailure, NativeCredentialReader, SecretBytes,
    MAX_SECRET_BYTES, NATIVE_NAMESPACE,
};
use bastet_workstation::uid::Uid;
use std::cell::Cell;

fn selection(backend: CredentialBackend) -> ProviderCredentialSelection {
    ProviderCredentialSelection {
        reference_id: Uid {
            bits: u128::from_be_bytes([7; 16]),
        },
        backend,
        service: "bastet.test".to_string(),
        account_label: "test-account".to_string(),
    }
}

const HOSTS: [(HostPlatform, CredentialBackend, CredentialBackend); 3] = [
    (
        HostPlatform::Macos,
        CredentialBackend::MacosKeychain,
        CredentialBackend::WindowsCredentialManager,
    ),
    (
        HostPlatform::Windows,
        CredentialBackend::WindowsCredentialManager,
        CredentialBackend::MacosKeychain,
    ),
    (
        HostPlatform::Linux,
        CredentialBackend::LinuxSecretService,
        CredentialBackend::MacosKeychain,
    ),
];

fn failure(read: Result<SecretBytes, CredentialReadError>) -> CredentialReadError {
    match read {
        Ok(_) => panic!("a secret was read"),
        Err(error) => error,
    }
}

#[test]
fn native_namespace_avoids_legacy_fallback_and_ambiguous_windows_names() {
    assert_ne!(NATIVE_NAMESPACE, "default");
    assert_ne!(windows_target("c", "a.b"), windows_target("b.c", "a"));
    assert_ne!(
        windows_target("service", "account"),
        windows_target("account", "service")
    );
    assert_ne!(
        windows_target("service", "account"),
        windows_target("service", "account ")
    );
    assert_eq!(
        windows_target("service", "account"),
        "bastet-workstation.v1:adff881977b50c5c513322c07a5e2b1cc173820ff9598550c968c649fffa9c04"
    );
    assert_eq!(
        windows_target("service", "account").len(),
        "bastet-workstation.v1:".len() + 64
    );
}

#[test]
fn secret_bytes_are_redacted_and_available_only_during_closure_borrow() {
    let secret = SecretBytes::new(b"not-for-diagnostics".to_vec()).ok().unwrap();

    assert_eq!(secret.redacted(), "SecretBytes([REDACTED])");
    assert_eq!(secret.with_bytes(|bytes: &[u8]| bytes.len()), 19);
    assert_eq!(secret.with_bytes(|bytes: &[u8]| bytes[0]), b'n');
}

#[test]
fn secret_bytes_reject_empty_and_oversized_values() {
    assert_eq!(
        failure(SecretBytes::new(Vec::new())),
        CredentialReadError::EmptySecret
    );
    assert_eq!(
        failure(SecretBytes::new(vec![1; MAX_SECRET_BYTES + 1])),
        CredentialReadError::SecretTooLarge
    );
    assert!(SecretBytes::new(vec![1; MAX_SECRET_BYTES]).is_ok());
    assert_eq!(MAX_SECRET_BYTES, 65536);
}

#[test]
fn invalid_locators_are_rejected_before_the_platform_boundary() {
    for (host, backend, _) in HOSTS {
        for (service, account, expected) in [
            ("", "account", CredentialReadError::InvalidService),
            (
                "bad\0service",
                "account",
                CredentialReadError::InvalidService,
            ),
            ("service", "", CredentialReadError::InvalidAccount),
            (
                "service",
                "bad\0account",
                CredentialReadError::InvalidAccount,
            ),
        ] {
            let calls = Cell::new(0);
            let reader = NativeCredentialReader::new();
            let mut requested = selection(backend);
            requested.service = service.to_string();
            requested.account_label = account.to_string();

            let read = reader.read(&requested, host, |_: &str, _: &str| {
                calls.set(calls.get() + 1);
                Ok(b"unused".to_vec())
            });
            assert_eq!(failure(read), expected);
            assert_eq!(calls.get(), 0);
        }
    }
}

#[test]
fn mismatched_backends_are_rejected_before_the_platform_boundary() {
    for (host, _, mismatched) in HOSTS {
        let calls = Cell::new(0);
        let reader = NativeCredentialReader::new();
        let read = reader.read(&selection(mismatched), host, |_: &str, _: &str| {
            calls.set(calls.get() + 1);
            Ok(b"unused".to_vec())
        });
        assert_eq!(failure(read), CredentialReadError::UnsupportedBackend);
        assert_eq!(calls.get(), 0);
    }
}

#[test]
fn validation_of_a_supported_selection_does_not_touch_the_platform_boundary() {
    for (host, backend, mismatched) in HOSTS {
        let reader = NativeCredentialReader::new();
        assert!(reader.validate(&selection(backend), host).is_ok());
        assert_eq!(
            reader.validate(&selection(mismatched), host),
            Err(CredentialReadError::UnsupportedBackend)
        );
    }
}

#[test]
fn valid_fake_lookup_is_bounded_and_propagates_only_safe_errors() {
    for (host, backend, _) in HOSTS {
        let calls = Cell::new(0);
        let reader = NativeCredentialReader::new();
        let read = reader.read(&selection(backend), host, |_: &str, _: &str| {
            calls.set(calls.get() + 1);
            Err(CredentialReadError::NoStorageAccess)
        });
        assert_eq!(failure(read), CredentialReadError::NoStorageAccess);
        assert_eq!(calls.get(), 1);
    }
}

#[test]
fn service_and_account_locators_cross_the_fake_boundary_unchanged() {
    for (host, backend, _) in HOSTS {
        let reader = NativeCredentialReader::new();
        let mut requested = selection(backend);
        requested.service = "  bastet/服務  ".to_string();
        requested.account_label = "  account@example.test  ".to_string();

        let secret = reader
            .read(&requested, host, |service: &str, account: &str| {
                assert_eq!(service, "  bastet/服務  ");
                assert_eq!(account, "  account@example.test  ");
                Ok(b"fake-secret".to_vec())
            })
            .ok()
            .unwrap();
        assert_eq!(secret.with_bytes(|bytes: &[u8]| bytes.len()), 11);
    }
}

#[test]
fn keyring_errors_are_mapped_without_raw_payloads() {
    let cases = [
        (
            KeyringFailure::BadEncoding(b"RAW_BAD_ENCODING_PAYLOAD".to_vec()),
            CredentialReadError::BadEncoding,
        ),
        (
            KeyringFailure::PlatformFailure,
            CredentialReadError::PlatformFailure,
        ),
        (
            KeyringFailure::NoStorageAccess,
            CredentialReadError::NoStorageAccess,
        ),
    ];

    for (source, expected) in cases {
        let mapped = sanitize_keyring_error(source);
        assert_eq!(mapped, expected);
        let rendered = format!("{mapped:?} {}", mapped.message());
        assert!(!rendered.contains("RAW_"));
        assert!(!rendered.contains("PAYLOAD"));
    }
}

#[test]
fn every_report_of_the_store_has_one_mapping() {
    assert_eq!(
        sanitize_keyring_error(KeyringFailure::NoEntry),
        CredentialReadError::NotFound
    );
    assert_eq!(
        sanitize_keyring_error(KeyringFailure::TooLong),
        CredentialReadError::LocatorTooLong
    );
    assert_eq!(
        sanitize_keyring_error(KeyringFailure::Invalid),
        CredentialReadError::InvalidPlatformLocator
    );
    assert_eq!(
        sanitize_keyring_error(KeyringFailure::Ambiguous),
        CredentialReadError::Ambiguous
    );
    assert_eq!(
        sanitize_keyring_error(KeyringFailure::Other),
        CredentialReadError::PlatformFailure
    );
}

#[test]
fn native_constructor_does_not_touch_the_platform_store() {
    let _reader = NativeCredentialReader::new();
}

#[test]
fn a_host_without_a_store_reads_nothing() {
    for (_, backend, _) in HOSTS {
        assert_eq!(
            validate_host_backend(backend, HostPlatform::Other),
            Err(CredentialReadError::UnsupportedBackend)
        );
    }
    assert_eq!(
        validate_locator("", CredentialReadError::InvalidAccount),
        Err(CredentialReadError::InvalidAccount)
    );
    assert!(validate_locator(" ", CredentialReadError::InvalidAccount).is_ok());
}

#[test]
fn found_secrets_are_sealed_unchanged() {
    let secret = seal_found(Ok(vec![3, 1, 4])).ok().unwrap();
    assert_eq!(secret.with_bytes(|bytes: &[u8]| bytes.to_vec()), vec![3, 1, 4]);
    assert_eq!(
        failure(seal_found(Err(CredentialReadError::Ambiguous))),
        CredentialReadError::Ambiguous
    );
}

#[test]
fn errors_say_what_went_wrong_and_nothing_else() {
    assert_eq!(
        CredentialReadError::SecretTooLarge.message(),
        "native credential store returned a secret larger than 64 KiB"
    );
    assert_eq!(
        CredentialReadError::NotFound.message(),
        "credential entry was not found"
    );
}
