use bastet_workstation::digest::{hex_text, sha256_text};
use bastet_workstation::ipc::{
    bind_step, check_listen_setting, database_identity, identity_complete, owns_socket,
    pipe_descriptor, retries_connect, socket_directory_text, validate_directory,
    validate_endpoint, validate_lock, validate_socket, Answer, BindStep, DatabasePath, Endpoint,
    EndpointError, IdentityStep, Occupant, PathFacts, PIPE_PREFIX,
};
use bastet_workstation::sandbox::{
    require_executable, LaunchPlan, PathStyle, SandboxError, SandboxHost, SandboxLauncher,
    SandboxPlatform, SandboxProfile,
};

const ALL: SandboxHost = SandboxHost {
    paths: PathStyle::Unix,
    sandbox_exec: true,
    bubblewrap: true,
};

fn profile(roots: &[&str], write: bool, network: bool) -> SandboxProfile {
    SandboxProfile {
        workspace_root: "/workspace".to_string(),
        read_only_roots: roots.iter().map(|root| root.to_string()).collect(),
        allow_workspace_write: write,
        allow_network: network,
    }
}

fn bubblewrap(profile: &SandboxProfile, executable: &str) -> LaunchPlan {
    profile
        .launch_command(
            SandboxPlatform::LinuxBubblewrap,
            executable,
            &vec![],
            &vec![],
            ALL,
        )
        .unwrap()
}

#[test]
fn platform_plans_fail_closed_and_never_use_prompt_level_controls() {
    let mac = profile(&[], true, false).macos_profile(PathStyle::Unix);
    assert!(mac.contains("deny default"));
    assert!(mac.contains("(subpath \"/workspace\")"));
    assert!(!mac.contains("allow network"));
    assert!(!mac.contains("(allow file-read*)"));
    assert!(matches!(
        profile(&[], true, false).launch_command(
            SandboxPlatform::WindowsAppContainer,
            "agent.exe",
            &vec![],
            &vec![],
            ALL
        ),
        Err(SandboxError::EnforcerUnavailable(_))
    ));
}

#[test]
fn broad_relative_and_profile_injection_read_scopes_are_rejected() {
    for root in [
        "/",
        "relative",
        "/runtime/../",
        "/runtime\n",
        "/runtime\"",
        "/runtime\0",
    ] {
        assert!(
            profile(&[root], false, false).validate(PathStyle::Unix, &vec![]).is_err(),
            "{root:?}"
        );
    }
    assert!(profile(&["/runtime"], false, false).validate(PathStyle::Unix, &vec![]).is_ok());
}

#[test]
fn a_symlink_cannot_disguise_a_host_root_scope() {
    let disguised = profile(&["/workspace/host-root"], false, false);
    assert!(disguised.validate(PathStyle::Unix, &vec![false, false]).is_ok());
    assert_eq!(
        disguised.validate(PathStyle::Unix, &vec![false, true]),
        Err(SandboxError::UnsafeWorkspace)
    );
}

#[test]
fn read_only_plan_binds_explicit_roots_and_unshares_network() {
    let plan = bubblewrap(
        &profile(&["/usr", "/tmp/fixtures"], false, false),
        "/opt/provider/bin/agent",
    );
    let actual = &plan.args;

    assert_eq!(plan.program, "/usr/bin/bwrap");
    for flag in [
        "--die-with-parent",
        "--new-session",
        "--unshare-pid",
        "--unshare-ipc",
        "--unshare-uts",
        "--unshare-net",
    ] {
        assert!(actual.iter().any(|arg| arg == flag), "missing {flag}");
    }
    assert_eq!(
        actual
            .windows(3)
            .filter(|window| window[0] == "--ro-bind")
            .count(),
        3
    );
    assert!(!actual.iter().any(|arg| arg == "--bind"));
    assert!(!actual.iter().any(|arg| arg == "/"));
    assert!(!actual.iter().any(|arg| arg == "--proc"));
    assert!(!actual.iter().any(|arg| arg == "--dev"));
}

#[test]
fn writable_network_plan_only_relaxes_workspace_and_network() {
    let plan = bubblewrap(&profile(&["/usr"], true, true), "agent");
    let actual = &plan.args;

    assert!(actual.iter().any(|arg| arg == "--bind"));
    assert!(!actual.iter().any(|arg| arg == "--unshare-net"));
    assert_eq!(
        actual
            .windows(3)
            .filter(|window| window[0] == "--ro-bind")
            .count(),
        1
    );
    assert!(!actual.iter().any(|arg| arg == "/"));
    assert!(!actual.iter().any(|arg| arg == "--proc"));
    assert!(!actual.iter().any(|arg| arg == "--dev"));
}

#[test]
fn the_whole_command_of_each_enforcer_is_fixed() {
    let linux = profile(&["/usr"], false, false)
        .launch_command(
            SandboxPlatform::LinuxBubblewrap,
            "/bin/agent",
            &vec!["run".to_string()],
            &vec![],
            ALL,
        )
        .unwrap();
    assert_eq!(
        linux.args,
        [
            "--die-with-parent",
            "--new-session",
            "--unshare-pid",
            "--unshare-ipc",
            "--unshare-uts",
            "--ro-bind",
            "/usr",
            "/usr",
            "--ro-bind",
            "/workspace",
            "/workspace",
            "--unshare-net",
            "--",
            "/bin/agent",
            "run",
        ]
    );
    assert_eq!(linux.current_dir, "/workspace");

    let mac = profile(&["/a/b"], true, true)
        .launch_command(
            SandboxPlatform::MacosSeatbelt,
            "/bin/agent",
            &vec![],
            &vec![],
            ALL,
        )
        .unwrap();
    assert_eq!(mac.program, "/usr/bin/sandbox-exec");
    assert_eq!(
        mac.args,
        [
            "-p",
            "(version 1) (deny default) (allow process*) (allow sysctl-read) (allow mach-lookup) \
             (allow file-read* (subpath \"/workspace\")) \
             (allow file-read* (literal \"/\")) \
             (allow file-read* (subpath \"/a/b\")) \
             (allow file-read* (literal \"/a\")) \
             (allow file-read* (literal \"/\")) \
             (allow file-write* (subpath \"/workspace\")) \
             (allow network*)",
            "--",
            "/bin/agent",
        ]
    );
}

#[test]
fn the_ancestors_of_a_relative_path_end_in_the_empty_path() {
    let rules = |path: &str| {
        let profile = SandboxProfile {
            workspace_root: path.to_string(),
            ..profile(&[], false, false)
        };
        let text = profile.macos_profile(PathStyle::Unix);
        let start = text.find(" (allow file-read* (subpath").unwrap();
        text[start..].to_string()
    };
    let rule = |ancestor: &str| format!(" (allow file-read* (literal \"{ancestor}\"))");
    assert_eq!(
        rules("a/b"),
        format!(
            " (allow file-read* (subpath \"a/b\")){}{}",
            rule("a"),
            rule("")
        )
    );
    assert_eq!(
        rules("./a"),
        format!(
            " (allow file-read* (subpath \"./a\")){}{}",
            rule("."),
            rule("")
        )
    );
    assert_eq!(
        rules("/a//./b/"),
        format!(
            " (allow file-read* (subpath \"/a//./b/\")){}{}",
            rule("/a"),
            rule("/")
        )
    );
    assert_eq!(rules("/"), " (allow file-read* (subpath \"/\"))");
    assert_eq!(rules(""), " (allow file-read* (subpath \"\"))");
}

#[test]
fn paths_of_windows_are_read_as_windows_writes_them() {
    let refused = |path: &str| {
        SandboxProfile {
            workspace_root: path.to_string(),
            ..profile(&[], false, false)
        }
        .launch_command(
            SandboxPlatform::WindowsAppContainer,
            "agent.exe",
            &vec![],
            &vec![],
            SandboxHost {
                paths: PathStyle::Windows,
                sandbox_exec: false,
                bubblewrap: false,
            },
        )
        .unwrap_err()
    };
    for path in [
        "C:\\work",
        "c:/work/fixture",
        "\\\\server\\share\\work",
        "\\\\?\\C:\\work",
        "\\\\?\\UNC\\server\\share\\work",
    ] {
        assert_eq!(
            refused(path),
            SandboxError::EnforcerUnavailable("Windows AppContainer broker"),
            "{path:?}"
        );
    }
    for path in ["work", "C:work", "C:", "\\work", "/work", "\\\\server", "1:\\work", ""] {
        assert_eq!(refused(path), SandboxError::NonAbsoluteWorkspace, "{path:?}");
    }
    for path in [
        "C:\\",
        "C:\\.",
        "\\\\server\\share",
        "\\\\server\\share\\",
        "\\\\?\\C:\\",
        "\\\\?\\UNC\\server\\share",
        "C:\\work\\..",
        "C:\\work/../fixture",
        "C:\\work\n",
    ] {
        assert_eq!(refused(path), SandboxError::UnsafeWorkspace, "{path:?}");
    }
}

#[test]
fn nothing_is_launched_without_an_enforcer() {
    let none = SandboxHost {
        paths: PathStyle::Unix,
        sandbox_exec: false,
        bubblewrap: false,
    };
    for (platform, name) in [
        (SandboxPlatform::MacosSeatbelt, "sandbox-exec"),
        (SandboxPlatform::LinuxBubblewrap, "bubblewrap"),
        (
            SandboxPlatform::WindowsAppContainer,
            "Windows AppContainer broker",
        ),
    ] {
        let refused = profile(&[], false, false)
            .launch_command(platform, "agent", &vec![], &vec![], none)
            .unwrap_err();
        assert_eq!(refused, SandboxError::EnforcerUnavailable(name));
        assert_eq!(
            refused.message(),
            format!("required sandbox enforcer is unavailable: {name}")
        );
    }
    assert!(require_executable(true, "bubblewrap").is_ok());
    assert_eq!(
        require_executable(false, "bubblewrap"),
        Err(SandboxError::EnforcerUnavailable("bubblewrap"))
    );
    assert_eq!(
        SandboxError::NonAbsoluteWorkspace.message(),
        "workspace root must be absolute"
    );
    assert_eq!(
        SandboxError::UnsafeWorkspace.message(),
        "workspace root contains unsupported profile characters"
    );
}

#[test]
fn a_launcher_runs_under_its_profile_and_no_other() {
    let launcher = SandboxLauncher {
        platform: SandboxPlatform::LinuxBubblewrap,
        profile: profile(&["/usr"], false, false),
    };
    let plan = launcher.command("/bin/agent", &vec![], ALL).unwrap();
    assert_eq!(plan, bubblewrap(&launcher.profile, "/bin/agent"));
    assert!(launcher
        .command("/bin/agent", &vec![true, false], ALL)
        .is_err());
}

#[test]
fn nonlocal_and_unrecognized_pipe_names_are_refused() {
    let digest = "0".repeat(64);
    let remote = Endpoint::at(format!("\\\\server\\pipe\\bastet-workstation-{digest}"));
    let arbitrary = Endpoint::at("\\\\.\\pipe\\not-bastet".to_string());
    assert_eq!(validate_endpoint(&remote), Err(EndpointError::NotLocal));
    assert_eq!(validate_endpoint(&arbitrary), Err(EndpointError::NotLocal));
    assert_eq!(
        EndpointError::NotLocal.message(),
        "only local Bastet named-pipe endpoints are accepted"
    );
    for name in ["", "0", &"0".repeat(65), &"A".repeat(64)] {
        assert_eq!(
            validate_endpoint(&Endpoint::at(format!("{PIPE_PREFIX}{name}"))),
            Err(EndpointError::InvalidName)
        );
    }
    assert!(validate_endpoint(&Endpoint::at(format!("{PIPE_PREFIX}{digest}"))).is_ok());
    assert_eq!(
        EndpointError::InvalidName.message(),
        "invalid Bastet named-pipe endpoint"
    );
}

#[test]
fn an_endpoint_is_derived_from_the_database_and_the_user() {
    // The digest of "abc" is known.
    assert_eq!(
        sha256_text(b"abc"),
        "ba7816bf8f01cfea414140de5dae2223b00361a396177a9cb410ff61f20015ad"
    );
    let socket = Endpoint::for_database(b"abc", 501);
    assert_eq!(
        socket.path(),
        "/tmp/bastet-workstation-501/ba7816bf8f01cfea414140de5dae2223.sock"
    );
    assert_eq!(socket_directory_text(0), "/tmp/bastet-workstation-0");
    assert_eq!(Endpoint::for_database(b"abc", 501), socket);
    assert_ne!(Endpoint::for_database(b"abd", 501), socket);
    assert_ne!(Endpoint::for_database(b"abc", 502), socket);

    let mut input = b"bastet-workstation-local-ipc-v1\0".to_vec();
    input.extend_from_slice(&3u64.to_le_bytes());
    input.extend_from_slice(&[1, 2, 3]);
    input.extend_from_slice(&2u64.to_le_bytes());
    input.extend_from_slice(&[0x43, 0x00, 0x1f, 0x60]);
    let pipe = Endpoint::for_database_pipe(&[1, 2, 3], &[0x0043, 0x601f]);
    assert_eq!(pipe.path(), format!("{PIPE_PREFIX}{}", sha256_text(&input)));
    assert!(validate_endpoint(&pipe).is_ok());
    // What belongs to the user and what to the database cannot be shifted.
    assert_ne!(
        Endpoint::for_database_pipe(&[1, 2], &[0x0003]),
        Endpoint::for_database_pipe(&[1, 2, 3], &[])
    );
}

#[test]
fn hexadecimal_digits_are_lower_case() {
    assert_eq!(hex_text(&vec![0x00, 0x9f, 0xab], 3), "009fab");
    assert_eq!(hex_text(&vec![0x00, 0x9f, 0xab], 2), "009f");
}

const OWN: PathFacts = PathFacts {
    is_directory: false,
    is_socket: false,
    is_file: false,
    owner: 501,
    mode: 0o600,
    links: 1,
    device: 7,
    inode: 9,
};

#[test]
fn only_private_paths_of_the_user_are_trusted() {
    let directory = PathFacts {
        is_directory: true,
        mode: 0o700,
        ..OWN
    };
    assert!(validate_directory(&directory, 501));
    assert!(!validate_directory(&directory, 502));
    for mode in [0o755, 0o710, 0o701] {
        assert!(!validate_directory(&PathFacts { mode, ..directory }, 501));
    }
    assert!(!validate_directory(&OWN, 501));

    let socket = PathFacts {
        is_socket: true,
        ..OWN
    };
    assert!(validate_socket(&socket, 501));
    assert!(!validate_socket(&PathFacts { mode: 0o666, ..socket }, 501));
    assert!(!validate_socket(&OWN, 501));

    let lock = PathFacts {
        is_file: true,
        ..OWN
    };
    assert!(validate_lock(&lock, 501));
    assert!(!validate_lock(&PathFacts { links: 2, ..lock }, 501));
    assert!(!validate_lock(&OWN, 501));
}

#[test]
fn only_the_socket_that_was_bound_is_removed() {
    let socket = PathFacts {
        is_socket: true,
        ..OWN
    };
    assert!(owns_socket(&socket, 7, 9));
    assert!(!owns_socket(&socket, 7, 10));
    assert!(!owns_socket(&socket, 8, 9));
    assert!(!owns_socket(&OWN, 7, 9));
}

#[test]
fn only_a_stale_socket_is_recovered() {
    assert_eq!(bind_step(Occupant::Absent), BindStep::Bind);
    assert_eq!(bind_step(Occupant::Unknown), BindStep::Fail);
    for answers in [Answer::Connected, Answer::Refused, Answer::Failed] {
        assert_eq!(
            bind_step(Occupant::Present {
                sound: false,
                answers
            }),
            BindStep::Denied
        );
    }
    for (answers, step) in [
        (Answer::Connected, BindStep::InUse),
        (Answer::Refused, BindStep::RemoveThenBind),
        (Answer::Failed, BindStep::Fail),
    ] {
        assert_eq!(
            bind_step(Occupant::Present {
                sound: true,
                answers
            }),
            step
        );
    }
}

#[test]
fn a_database_has_one_identity_before_and_after_its_creation() {
    assert_eq!(
        database_identity(DatabasePath::Exists { is_file: true }),
        IdentityStep::Canonical
    );
    assert_eq!(
        database_identity(DatabasePath::Exists { is_file: false }),
        IdentityStep::NotAFile
    );
    assert_eq!(
        database_identity(DatabasePath::Missing {
            names_file: true,
            has_parent: true
        }),
        IdentityStep::ParentAndName
    );
    assert_eq!(
        database_identity(DatabasePath::Missing {
            names_file: false,
            has_parent: true
        }),
        IdentityStep::NoName
    );
    assert_eq!(
        database_identity(DatabasePath::Missing {
            names_file: true,
            has_parent: false
        }),
        IdentityStep::NoParent
    );
}

#[test]
fn a_pipe_grants_access_to_its_user_alone() {
    assert_eq!(
        pipe_descriptor("S-1-5-21-1"),
        "O:S-1-5-21-1D:P(A;;GA;;;S-1-5-21-1)"
    );
    assert!(retries_connect(0, true));
    assert!(retries_connect(99, true));
    assert!(!retries_connect(100, true));
    assert!(!retries_connect(0, false));
    assert!(identity_complete(40, 40, 16));
    assert!(!identity_complete(40, 41, 16));
    assert!(!identity_complete(40, 8, 16));
}

#[test]
fn the_daemon_listens_on_no_network_address() {
    assert!(check_listen_setting(false).is_ok());
    assert!(check_listen_setting(true)
        .unwrap_err()
        .contains("requires local IPC"));
}
