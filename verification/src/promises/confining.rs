//! What a sandbox is told, and what it refuses.
use crate::approval::texts;
use crate::sandbox::{
    absolute, all_path_rules, bind_args, bubblewrap_args, climbs, is_root, leads_up, part_ends,
    path_rules, read_paths, require_executable, root_len, subpath_rule, LaunchPlan, PathStyle,
    SandboxError, SandboxHost, SandboxPlatform, SandboxProfile,
};
use vstd::prelude::*;

verus! {

/// The first readable path of a profile is its workspace; its read-only roots
/// follow in their order.
pub proof fn law_workspace_is_read_first(profile: &SandboxProfile, r: Vec<&str>)
    requires
        call_ensures(SandboxProfile::read_paths, (profile,), r),
    ensures
        r@.len() == profile.read_only_roots@.len() + 1,
        r@[0]@ == profile.workspace_root@,
        forall|i: int|
            0 <= i < profile.read_only_roots@.len() ==> (#[trigger] r@[i + 1])@
                == profile.read_only_roots@[i]@,
{
    assert(r@[0]@ == read_paths(*profile)[0]);
    assert forall|i: int| 0 <= i < profile.read_only_roots@.len() implies (#[trigger] r@[i + 1])@
        == profile.read_only_roots@[i]@ by {
        assert(r@[i + 1]@ == read_paths(*profile)[i + 1]);
        assert(texts(profile.read_only_roots@)[i] == profile.read_only_roots@[i]@);
    }
}

/// This is one of the paths that a profile makes readable.
pub open spec fn readable(profile: SandboxProfile, path: Seq<char>) -> bool {
    ||| path == profile.workspace_root@
    ||| exists|i: int|
        0 <= i < profile.read_only_roots@.len() && path == (
        #[trigger] profile.read_only_roots@[i])@
}

proof fn lemma_readable(profile: SandboxProfile, path: Seq<char>)
    requires
        readable(profile, path),
    ensures
        exists|i: int|
            0 <= i < read_paths(profile).len() && #[trigger] read_paths(profile)[i] == path,
{
    if path == profile.workspace_root@ {
        assert(read_paths(profile)[0] == path);
    } else {
        let i = choose|i: int|
            0 <= i < profile.read_only_roots@.len() && path == (
            #[trigger] profile.read_only_roots@[i])@;
        assert(texts(profile.read_only_roots@)[i] == path);
        assert(read_paths(profile)[i + 1] == path);
    }
}

/// A profile is taken only if none of its readable paths could break out of it:
/// on Unix each starts at the root, is not the root itself and has neither a
/// quotation mark nor a line end nor a null in it.
pub proof fn law_unix_paths_are_confined(
    profile: &SandboxProfile,
    resolved: &Vec<bool>,
    r: Result<(), SandboxError>,
    path: Seq<char>,
)
    requires
        call_ensures(SandboxProfile::validate, (profile, PathStyle::Unix, resolved), r),
        readable(*profile, path),
    ensures
        r is Ok ==> path.len() > 1 && path[0] == '/' && !path.contains('"') && !path.contains('\n')
            && !path.contains('\r') && !path.contains('\0'),
        (path.len() == 0 || path[0] != '/') ==> r is Err && r->Err_0 is NonAbsoluteWorkspace,
        (r is Ok && path.len() >= 3) ==> !(path[path.len() - 1] == '.' && path[path.len() - 2]
            == '.' && path[path.len() - 3] == '/'),
        r is Ok ==> forall|k: int|
            1 <= k < path.len() - 2 ==> !(#[trigger] path[k] == '.' && path[k - 1] == '/' && path[k
                + 1] == '.' && path[k + 2] == '/'),
{
    lemma_readable(*profile, path);
    let i = choose|i: int|
        0 <= i < read_paths(*profile).len() && #[trigger] read_paths(*profile)[i] == path;
    let style = PathStyle::Unix;
    if path.len() == 0 || path[0] != '/' {
        assert(root_len(style, path) == 0);
        assert(!absolute(style, read_paths(*profile)[i]));
    }
    if r is Ok {
        assert(absolute(style, path));
        assert(root_len(style, path) == 1);
        assert(!is_root(style, path) && !climbs(style, path));
        if path.len() == 1 {
            assert forall|e: int| 0 <= e <= path.len() implies !#[trigger] part_ends(
                style,
                path,
                e,
            ) by {}
        }
        if path.len() >= 3 && path[path.len() - 1] == '.' && path[path.len() - 2] == '.' && path[
            path.len() - 3] == '/' {
            assert(leads_up(style, path, path.len() as int));
        }
        assert forall|k: int| 1 <= k < path.len() - 2 implies !(#[trigger] path[k] == '.' && path[k
            - 1] == '/' && path[k + 1] == '.' && path[k + 2] == '/') by {
            if path[k] == '.' && path[k - 1] == '/' && path[k + 1] == '.' && path[k + 2] == '/' {
                assert(leads_up(style, path, k + 2));
            }
        }
    }
}

/// On Unix a profile is taken if each of its readable paths starts at the root,
/// has no dot and no character that cannot be quoted in it, ends in a name, and
/// does not lead to the root.
pub proof fn law_plain_unix_paths_are_taken(
    profile: &SandboxProfile,
    resolved: &Vec<bool>,
    r: Result<(), SandboxError>,
)
    requires
        call_ensures(SandboxProfile::validate, (profile, PathStyle::Unix, resolved), r),
        forall|path: Seq<char>| #[trigger]
            readable(*profile, path) ==> path.len() > 1 && path[0] == '/' && path.last() != '/'
                && !path.contains('.') && !path.contains('"') && !path.contains('\n')
                && !path.contains('\r') && !path.contains('\0'),
        forall|i: int| 0 <= i < resolved@.len() ==> !#[trigger] resolved@[i],
    ensures
        r is Ok,
{
    let style = PathStyle::Unix;
    let paths = read_paths(*profile);
    assert forall|i: int| 0 <= i < paths.len() implies absolute(style, #[trigger] paths[i])
        && !crate::sandbox::unsafe_path(
        style,
        paths[i],
        crate::sandbox::resolves_to_root(resolved@, i),
    ) by {
        let path = paths[i];
        if i > 0 {
            assert(path == profile.read_only_roots@[i - 1]@);
        }
        assert(readable(*profile, path));
        assert(root_len(style, path) == 1);
        assert(path.last() != '.') by {
            if path.last() == '.' {
                assert(path.contains('.'));
            }
        }
        assert(part_ends(style, path, path.len() as int));
        assert forall|e: int| 0 <= e <= path.len() implies !#[trigger] leads_up(style, path, e) by {
            if leads_up(style, path, e) {
                assert(path.contains(path[e - 1]));
            }
        }
    }
}

/// Under Bubblewrap a process runs in its workspace, cut off from the host's
/// processes; each read-only root is bound at its own place, read-only; so is the
/// workspace, writable exactly if the profile says so; the network is cut off
/// unless the profile allows it; and the executable and its arguments come last.
#[verifier::rlimit(40)]
pub proof fn law_bubblewrap_is_told_the_profile(
    profile: &SandboxProfile,
    executable: &str,
    arguments: &Vec<String>,
    resolved: &Vec<bool>,
    host: SandboxHost,
    r: Result<LaunchPlan, SandboxError>,
)
    requires
        call_ensures(
            SandboxProfile::launch_command,
            (profile, SandboxPlatform::LinuxBubblewrap, executable, arguments, resolved, host),
            r,
        ),
    ensures
        !host.bubblewrap ==> r is Err,
        r is Ok ==> {
            let args = r->Ok_0.args@;
            let n = profile.read_only_roots@.len() as int;
            let net: int = if profile.allow_network {
                0
            } else {
                1
            };
            &&& r->Ok_0.program@ == "/usr/bin/bwrap"@
            &&& r->Ok_0.current_dir@ == profile.workspace_root@
            &&& args.len() == 5 + 3 * n + 3 + net + 2 + arguments@.len()
            &&& args[0]@ == "--die-with-parent"@
            &&& args[1]@ == "--new-session"@
            &&& args[2]@ == "--unshare-pid"@
            &&& args[3]@ == "--unshare-ipc"@
            &&& args[4]@ == "--unshare-uts"@
            &&& args[5 + 3 * n]@ == (if profile.allow_workspace_write {
                "--bind"@
            } else {
                "--ro-bind"@
            })
            &&& args[5 + 3 * n + 1]@ == profile.workspace_root@
            &&& args[5 + 3 * n + 2]@ == profile.workspace_root@
            &&& !profile.allow_network ==> args[5 + 3 * n + 3]@ == "--unshare-net"@
            &&& args[5 + 3 * n + 3 + net]@ == "--"@
            &&& args[5 + 3 * n + 4 + net]@ == executable@
        },
        r is Ok ==> forall|k: int|
            #![trigger profile.read_only_roots@[k]]
            0 <= k < profile.read_only_roots@.len() ==> r->Ok_0.args@[5 + 3 * k]@ == "--ro-bind"@
                && r->Ok_0.args@[5 + 3 * k + 1]@ == profile.read_only_roots@[k]@
                && r->Ok_0.args@[5 + 3 * k + 2]@ == profile.read_only_roots@[k]@,
        r is Ok ==> forall|k: int|
            #![trigger arguments@[k]]
            0 <= k < arguments@.len() ==> r->Ok_0.args@[r->Ok_0.args@.len() - arguments@.len()
                + k]@ == arguments@[k]@,
{
    if r is Ok {
        let args = r->Ok_0.args@;
        let roots = texts(profile.read_only_roots@);
        let n = roots.len();
        let head = bubblewrap_args(*profile, executable@);
        let more = texts(arguments@);
        lemma_binds(roots, n);
        let binds = bind_args(roots, n);
        assert(texts(args) == head + more);
        assert(args.len() == texts(args).len());
        assert forall|k: int| 0 <= k < args.len() implies (#[trigger] args[k])@ == (head + more)[k]
            by {
            assert(texts(args)[k] == args[k]@);
        }
        let start = seq![
            "--die-with-parent"@,
            "--new-session"@,
            "--unshare-pid"@,
            "--unshare-ipc"@,
            "--unshare-uts"@,
        ];
        assert(start.len() == 5);
        assert forall|j: int| 0 <= j < 3 * n implies (#[trigger] head[5 + j]) == binds[j] by {}
        assert forall|k: int|
            #![trigger profile.read_only_roots@[k]]
            0 <= k < profile.read_only_roots@.len() implies args[5 + 3 * k]@ == "--ro-bind"@
            && args[5 + 3 * k + 1]@ == profile.read_only_roots@[k]@ && args[5 + 3 * k + 2]@
            == profile.read_only_roots@[k]@ by {
            assert(roots[k] == profile.read_only_roots@[k]@);
            assert(binds[3 * k] == "--ro-bind"@);
            assert(args[5 + 3 * k]@ == head[5 + 3 * k]);
            assert(args[5 + (3 * k + 1)]@ == head[5 + (3 * k + 1)]);
            assert(args[5 + (3 * k + 2)]@ == head[5 + (3 * k + 2)]);
        }
        assert forall|k: int|
            #![trigger arguments@[k]]
            0 <= k < arguments@.len() implies args[args.len() - arguments@.len() + k]@
            == arguments@[k]@ by {
            assert(more[k] == arguments@[k]@);
        }
    }
}

proof fn lemma_binds(roots: Seq<Seq<char>>, n: nat)
    requires
        n <= roots.len(),
    ensures
        bind_args(roots, n).len() == 3 * n,
        forall|k: int|
            0 <= k < n ==> #[trigger] bind_args(roots, n)[3 * k] == "--ro-bind"@ && bind_args(
                roots,
                n,
            )[3 * k + 1] == roots[k] && bind_args(roots, n)[3 * k + 2] == roots[k],
    decreases n,
{
    if n > 0 {
        lemma_binds(roots, (n - 1) as nat);
        let before = bind_args(roots, (n - 1) as nat);
        let all = bind_args(roots, n);
        assert(all == before.push("--ro-bind"@).push(roots[n - 1]).push(roots[n - 1]));
        assert forall|k: int| 0 <= k < n implies #[trigger] all[3 * k] == "--ro-bind"@ && all[3 * k
            + 1] == roots[k] && all[3 * k + 2] == roots[k] by {
            if k < n - 1 {
                assert(before[3 * k] == "--ro-bind"@);
            }
        }
    }
}

/// Under Seatbelt a process runs in its workspace, under the profile that is
/// written for it, with its executable and its arguments last.
pub proof fn law_seatbelt_is_told_the_profile(
    profile: &SandboxProfile,
    executable: &str,
    arguments: &Vec<String>,
    resolved: &Vec<bool>,
    host: SandboxHost,
    r: Result<LaunchPlan, SandboxError>,
    text: String,
)
    requires
        call_ensures(
            SandboxProfile::launch_command,
            (profile, SandboxPlatform::MacosSeatbelt, executable, arguments, resolved, host),
            r,
        ),
        call_ensures(SandboxProfile::macos_profile, (profile, host.paths), text),
    ensures
        !host.sandbox_exec ==> r is Err,
        r is Ok ==> {
            let args = r->Ok_0.args@;
            &&& r->Ok_0.program@ == "/usr/bin/sandbox-exec"@
            &&& r->Ok_0.current_dir@ == profile.workspace_root@
            &&& args.len() == 4 + arguments@.len()
            &&& args[0]@ == "-p"@
            &&& args[1]@ == text@
            &&& args[2]@ == "--"@
            &&& args[3]@ == executable@
        },
        r is Ok ==> forall|k: int|
            #![trigger arguments@[k]]
            0 <= k < arguments@.len() ==> r->Ok_0.args@[4 + k]@ == arguments@[k]@,
{
    if r is Ok {
        let args = r->Ok_0.args@;
        let more = texts(arguments@);
        let all = seq!["-p"@, text@, "--"@, executable@] + more;
        assert(texts(args) == all);
        assert(args.len() == texts(args).len());
        assert forall|k: int| 0 <= k < args.len() implies (#[trigger] args[k])@ == all[k] by {
            assert(texts(args)[k] == args[k]@);
        }
        assert forall|k: int|
            #![trigger arguments@[k]]
            0 <= k < arguments@.len() implies args[4 + k]@ == arguments@[k]@ by {
            assert(more[k] == arguments@[k]@);
        }
    }
}

/// A process is never launched where no enforcer is known, nor under a profile
/// that is not taken.
pub proof fn law_unenforced_launches_are_refused(
    profile: &SandboxProfile,
    platform: SandboxPlatform,
    executable: &str,
    arguments: &Vec<String>,
    resolved: &Vec<bool>,
    host: SandboxHost,
    r: Result<LaunchPlan, SandboxError>,
    checked: Result<(), SandboxError>,
)
    requires
        call_ensures(
            SandboxProfile::launch_command,
            (profile, platform, executable, arguments, resolved, host),
            r,
        ),
        call_ensures(SandboxProfile::validate, (profile, host.paths, resolved), checked),
    ensures
        platform == SandboxPlatform::WindowsAppContainer ==> r is Err,
        checked is Err ==> r is Err,
        (checked is Ok && platform == SandboxPlatform::LinuxBubblewrap && host.bubblewrap)
            ==> r is Ok,
        (checked is Ok && platform == SandboxPlatform::MacosSeatbelt && host.sandbox_exec
            && forall|path: Seq<char>| #[trigger]
            readable(*profile, path) ==> !path.contains('\\')) ==> r is Ok,
{
    let paths = read_paths(*profile);
    assert forall|i: int| 0 <= i < paths.len() implies readable(*profile, #[trigger] paths[i]) by {
        if i > 0 {
            assert(paths[i] == profile.read_only_roots@[i - 1]@);
        }
    }
}

/// An enforcer that is not a file is not available, and the refusal names it.
pub proof fn law_enforcers_are_files(
    is_file: bool,
    name: &'static str,
    r: Result<(), SandboxError>,
)
    requires
        call_ensures(require_executable, (is_file, name), r),
    ensures
        r is Ok <==> is_file,
        r is Err ==> r->Err_0 is EnforcerUnavailable && r->Err_0->EnforcerUnavailable_0@ == name@,
{
}

/// What a Seatbelt profile says begins with the denial of everything; the right
/// to write to the workspace and the use of the network end it where they are
/// allowed.
pub proof fn law_seatbelt_profile_denies_by_default(
    profile: &SandboxProfile,
    style: PathStyle,
    r: String,
)
    requires
        call_ensures(SandboxProfile::macos_profile, (profile, style), r),
    ensures
        "(version 1) (deny default) (allow process*) (allow sysctl-read) (allow mach-lookup)"@
            .is_prefix_of(r@),
        profile.allow_network ==> " (allow network*)"@.is_suffix_of(r@),
        profile.allow_workspace_write && !profile.allow_network ==> (
        " (allow file-write* (subpath \""@ + profile.workspace_root@ + "\"))"@).is_suffix_of(r@),
{
    let paths = read_paths(*profile);
    let head =
        "(version 1) (deny default) (allow process*) (allow sysctl-read) (allow mach-lookup)"@;
    let write = if profile.allow_workspace_write {
        " (allow file-write* (subpath \""@ + profile.workspace_root@ + "\"))"@
    } else {
        Seq::<char>::empty()
    };
    let network = if profile.allow_network {
        " (allow network*)"@
    } else {
        Seq::<char>::empty()
    };
    let rules = all_path_rules(style, paths, paths.len());
    lemma_ends(head, rules, write, network);
    assert(r@ == head + rules + write + network);
}

proof fn lemma_ends(head: Seq<char>, rules: Seq<char>, write: Seq<char>, network: Seq<char>)
    ensures
        head.is_prefix_of(head + rules + write + network),
        network.is_suffix_of(head + rules + write + network),
        network.len() == 0 ==> write.is_suffix_of(head + rules + write + network),
{
    let whole = head + rules + write + network;
    assert(whole.take(head.len() as int) == head);
    assert(whole.skip(whole.len() - network.len()) == network);
    if network.len() == 0 {
        assert(whole == head + rules + write);
        assert(whole.skip(whole.len() - write.len()) == write);
    }
}

/// A Seatbelt profile names each readable path as one that may be read.
pub proof fn law_seatbelt_profile_names_readable_paths(
    profile: &SandboxProfile,
    style: PathStyle,
    r: String,
    path: Seq<char>,
)
    requires
        call_ensures(SandboxProfile::macos_profile, (profile, style), r),
        readable(*profile, path),
    ensures
        exists|before: Seq<char>, after: Seq<char>|
            r@ == #[trigger] (before + (" (allow file-read* (subpath \""@ + path + "\"))"@) + after),
{
    let paths = read_paths(*profile);
    let head =
        "(version 1) (deny default) (allow process*) (allow sysctl-read) (allow mach-lookup)"@;
    let write = if profile.allow_workspace_write {
        " (allow file-write* (subpath \""@ + profile.workspace_root@ + "\"))"@
    } else {
        Seq::<char>::empty()
    };
    let network = if profile.allow_network {
        " (allow network*)"@
    } else {
        Seq::<char>::empty()
    };
    let rules = all_path_rules(style, paths, paths.len());
    lemma_readable(*profile, path);
    let i = choose|i: int| 0 <= i < paths.len() && #[trigger] paths[i] == path;
    lemma_rule_stands(style, paths, paths.len(), i);
    let (before, after) = choose|before: Seq<char>, after: Seq<char>|
        rules == #[trigger] (before + subpath_rule(paths[i]) + after);
    let rule = " (allow file-read* (subpath \""@ + path + "\"))"@;
    assert(subpath_rule(paths[i]) == rule);
    lemma_within(head, before, rule, after, write, network);
    assert(r@ == head + rules + write + network);
    assert(r@ == (head + before) + rule + (after + write + network));
}

proof fn lemma_within(
    head: Seq<char>,
    before: Seq<char>,
    rule: Seq<char>,
    after: Seq<char>,
    write: Seq<char>,
    network: Seq<char>,
)
    ensures
        head + (before + rule + after) + write + network == (head + before) + rule + (after + write
            + network),
{
    assert(head + (before + rule + after) + write + network =~= (head + before) + rule + (after
        + write + network));
}

proof fn lemma_rule_stands(style: PathStyle, paths: Seq<Seq<char>>, n: nat, i: int)
    requires
        0 <= i < n <= paths.len(),
    ensures
        exists|before: Seq<char>, after: Seq<char>|
            all_path_rules(style, paths, n) == #[trigger] (before + subpath_rule(paths[i]) + after),
    decreases n,
{
    let earlier = all_path_rules(style, paths, (n - 1) as nat);
    let last = path_rules(style, paths[n - 1]);
    if i == n - 1 {
        let rest = last.skip(subpath_rule(paths[i]).len() as int);
        assert(last == subpath_rule(paths[i]) + rest);
        assert(all_path_rules(style, paths, n) == earlier + subpath_rule(paths[i]) + rest);
    } else {
        lemma_rule_stands(style, paths, (n - 1) as nat, i);
        let (before, after) = choose|before: Seq<char>, after: Seq<char>|
            earlier == #[trigger] (before + subpath_rule(paths[i]) + after);
        assert(all_path_rules(style, paths, n) == before + subpath_rule(paths[i]) + (after
            + last));
    }
}

/// A profile without the network says what the same profile says with it, less
/// the one rule that allows it.
pub proof fn law_network_is_one_rule(
    profile: &SandboxProfile,
    style: PathStyle,
    r: String,
    open: &SandboxProfile,
    open_r: String,
)
    requires
        call_ensures(SandboxProfile::macos_profile, (profile, style), r),
        call_ensures(SandboxProfile::macos_profile, (open, style), open_r),
        !profile.allow_network,
        *open == (SandboxProfile { allow_network: true, ..*profile }),
    ensures
        open_r@ == r@ + " (allow network*)"@,
{
    assert(read_paths(*open) == read_paths(*profile));
    assert(r@ + Seq::<char>::empty() == r@);
    let paths = read_paths(*profile);
    let write = if profile.allow_workspace_write {
        " (allow file-write* (subpath \""@ + profile.workspace_root@ + "\"))"@
    } else {
        Seq::<char>::empty()
    };
    let base =
        "(version 1) (deny default) (allow process*) (allow sysctl-read) (allow mach-lookup)"@
        + all_path_rules(style, paths, paths.len()) + write;
    assert(r@ == base + Seq::<char>::empty());
    assert(base + Seq::<char>::empty() == base);
    assert(open_r@ == base + " (allow network*)"@);
}

/// A profile that may not write to its workspace says what the same profile says
/// with it, less the one rule that lets it.
pub proof fn law_writing_is_one_rule(
    profile: &SandboxProfile,
    style: PathStyle,
    r: String,
    open: &SandboxProfile,
    open_r: String,
)
    requires
        call_ensures(SandboxProfile::macos_profile, (profile, style), r),
        call_ensures(SandboxProfile::macos_profile, (open, style), open_r),
        !profile.allow_network,
        !profile.allow_workspace_write,
        *open == (SandboxProfile { allow_workspace_write: true, ..*profile }),
    ensures
        open_r@ == r@ + " (allow file-write* (subpath \""@ + profile.workspace_root@ + "\"))"@,
{
    assert(read_paths(*open) == read_paths(*profile));
    let paths = read_paths(*profile);
    let base =
        "(version 1) (deny default) (allow process*) (allow sysctl-read) (allow mach-lookup)"@
        + all_path_rules(style, paths, paths.len());
    let write = " (allow file-write* (subpath \""@ + profile.workspace_root@ + "\"))"@;
    assert(r@ == base + Seq::<char>::empty() + Seq::<char>::empty());
    assert(base + Seq::<char>::empty() + Seq::<char>::empty() == base);
    assert(open_r@ == base + write + Seq::<char>::empty());
    assert(base + write + Seq::<char>::empty() == r@ + " (allow file-write* (subpath \""@
        + profile.workspace_root@ + "\"))"@);
}

/// One text stands in another.
pub open spec fn stands_in(part: Seq<char>, whole: Seq<char>) -> bool {
    exists|before: Seq<char>, after: Seq<char>| whole == #[trigger] (before + part + after)
}

proof fn lemma_stands(before: Seq<char>, part: Seq<char>, after: Seq<char>)
    ensures
        stands_in(part, before + part + after),
{
}

proof fn lemma_stands_on(part: Seq<char>, left: Seq<char>, whole: Seq<char>, right: Seq<char>)
    requires
        stands_in(part, whole),
    ensures
        stands_in(part, left + whole + right),
{
    let (before, after) = choose|before: Seq<char>, after: Seq<char>|
        whole == #[trigger] (before + part + after);
    assert(left + whole + right =~= (left + before) + part + (after + right));
}

/// A Seatbelt profile lets a process look at each directory above a readable path
/// of Unix, so that it can get there, and at nothing else in them.
pub proof fn law_seatbelt_profile_names_directories_above(
    profile: &SandboxProfile,
    r: String,
    path: Seq<char>,
    e: int,
)
    requires
        call_ensures(SandboxProfile::macos_profile, (profile, PathStyle::Unix), r),
        readable(*profile, path),
        1 < e < path.len(),
        path[0] == '/',
        path[e] == '/',
        path[e - 1] != '/',
        path[e - 1] != '.',
        path.last() != '/',
        path.last() != '.',
    ensures
        stands_in(" (allow file-read* (literal \""@ + path.take(e) + "\"))"@, r@),
        stands_in(" (allow file-read* (literal \""@ + path.take(1) + "\"))"@, r@),
{
    let style = PathStyle::Unix;
    assert(root_len(style, path) == 1);
    assert(part_ends(style, path, e));
    assert(part_ends(style, path, path.len() as int));
    let last = crate::sandbox::last_part(style, path, path.len() as int);
    assert(last == path.len());
    let rule = " (allow file-read* (literal \""@ + path.take(e) + "\"))"@;
    let root = " (allow file-read* (literal \""@ + path.take(1) + "\"))"@;
    let above = crate::sandbox::ancestor_rules(style, path, last - 1);
    lemma_above(style, path, last - 1, e);
    let rules = path_rules(style, path);
    assert(rules == subpath_rule(path) + above);
    assert(subpath_rule(path) + above + Seq::<char>::empty() =~= rules);
    lemma_stands_on(rule, subpath_rule(path), above, Seq::empty());
    lemma_stands_on(root, subpath_rule(path), above, Seq::empty());
    let paths = read_paths(*profile);
    lemma_readable(*profile, path);
    let i = choose|i: int| 0 <= i < paths.len() && #[trigger] paths[i] == path;
    lemma_rules_stand(style, paths, paths.len(), i);
    let all = all_path_rules(style, paths, paths.len());
    lemma_stands_within(rule, rules, all);
    lemma_stands_within(root, rules, all);
    let head =
        "(version 1) (deny default) (allow process*) (allow sysctl-read) (allow mach-lookup)"@;
    let write = if profile.allow_workspace_write {
        " (allow file-write* (subpath \""@ + profile.workspace_root@ + "\"))"@
    } else {
        Seq::<char>::empty()
    };
    let network = if profile.allow_network {
        " (allow network*)"@
    } else {
        Seq::<char>::empty()
    };
    assert(r@ == head + all + write + network);
    assert(r@ =~= head + all + (write + network));
    lemma_stands_on(rule, head, all, write + network);
    lemma_stands_on(root, head, all, write + network);
}

proof fn lemma_stands_within(part: Seq<char>, middle: Seq<char>, whole: Seq<char>)
    requires
        stands_in(part, middle),
        stands_in(middle, whole),
    ensures
        stands_in(part, whole),
{
    let (before, after) = choose|before: Seq<char>, after: Seq<char>|
        whole == #[trigger] (before + middle + after);
    lemma_stands_on(part, before, middle, after);
}

proof fn lemma_rules_stand(style: PathStyle, paths: Seq<Seq<char>>, n: nat, i: int)
    requires
        0 <= i < n <= paths.len(),
    ensures
        stands_in(path_rules(style, paths[i]), all_path_rules(style, paths, n)),
    decreases n,
{
    let earlier = all_path_rules(style, paths, (n - 1) as nat);
    let last = path_rules(style, paths[n - 1]);
    let all = all_path_rules(style, paths, n);
    assert(all == earlier + last);
    if i == n - 1 {
        assert(all =~= earlier + last + Seq::<char>::empty());
        lemma_stands(earlier, last, Seq::empty());
    } else {
        lemma_rules_stand(style, paths, (n - 1) as nat, i);
        lemma_stands_on(path_rules(style, paths[i]), Seq::empty(), earlier, last);
        assert(all =~= Seq::<char>::empty() + earlier + last);
    }
}

proof fn lemma_above(style: PathStyle, path: Seq<char>, top: int, e: int)
    requires
        style == PathStyle::Unix,
        root_len(style, path) == 1,
        1 <= top <= path.len(),
    ensures
        1 < e <= top && part_ends(style, path, e) ==> stands_in(
            " (allow file-read* (literal \""@ + path.take(e) + "\"))"@,
            crate::sandbox::ancestor_rules(style, path, top),
        ),
        stands_in(
            " (allow file-read* (literal \""@ + path.take(1) + "\"))"@,
            crate::sandbox::ancestor_rules(style, path, top),
        ),
    decreases top,
{
    let rule = " (allow file-read* (literal \""@ + path.take(e) + "\"))"@;
    let root = " (allow file-read* (literal \""@ + path.take(1) + "\"))"@;
    let rules = crate::sandbox::ancestor_rules(style, path, top);
    if top <= 1 {
        assert(rules == root);
        assert(rules =~= Seq::<char>::empty() + root + Seq::<char>::empty());
        lemma_stands(Seq::empty(), root, Seq::empty());
    } else {
        lemma_above(style, path, top - 1, e);
        let below = crate::sandbox::ancestor_rules(style, path, top - 1);
        if part_ends(style, path, top) {
            let own = crate::sandbox::literal_rule(path.take(top));
            assert(rules == own + below);
            assert(rules =~= own + below + Seq::<char>::empty());
            lemma_stands_on(root, own, below, Seq::empty());
            if e == top {
                assert(own == rule);
                assert(rules =~= Seq::<char>::empty() + rule + below);
                lemma_stands(Seq::empty(), rule, below);
            } else if 1 < e < top && part_ends(style, path, e) {
                lemma_stands_on(rule, own, below, Seq::empty());
            }
        } else {
            assert(rules == below);
        }
    }
}

} // verus!
