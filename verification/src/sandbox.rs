//! Launch plans for processes that the operating system keeps in a sandbox.
//! Where enforcement is not available the launch is refused.
use crate::approval::texts;
use crate::text::has_char;
use vstd::prelude::*;
use vstd::string::*;

verus! {

#[derive(Clone, Copy, Debug, PartialEq, Eq, Structural)]
pub enum SandboxPlatform {
    MacosSeatbelt,
    LinuxBubblewrap,
    WindowsAppContainer,
}

/// What a sandboxed process may touch. Paths are absolute, and written as the
/// host writes them.
#[derive(Clone, Debug, PartialEq, Eq)]
pub struct SandboxProfile {
    pub workspace_root: String,
    /// Explicit runtime and data mounts. No host-wide read permission is implied.
    pub read_only_roots: Vec<String>,
    pub allow_workspace_write: bool,
    /// A coarse switch, not enforcement of destinations: it must not be taken for
    /// the authorization of one provider endpoint.
    pub allow_network: bool,
}

#[derive(Clone, Copy, Debug, PartialEq, Eq)]
pub enum SandboxError {
    NonAbsoluteWorkspace,
    UnsafeWorkspace,
    EnforcerUnavailable(&'static str),
}

/// What an error says.
pub ghost enum SandboxRefusal {
    NonAbsoluteWorkspace,
    UnsafeWorkspace,
    EnforcerUnavailable(Seq<char>),
}

impl View for SandboxError {
    type V = SandboxRefusal;

    open spec fn view(&self) -> SandboxRefusal {
        match *self {
            SandboxError::NonAbsoluteWorkspace => SandboxRefusal::NonAbsoluteWorkspace,
            SandboxError::UnsafeWorkspace => SandboxRefusal::UnsafeWorkspace,
            SandboxError::EnforcerUnavailable(name) => SandboxRefusal::EnforcerUnavailable(name@),
        }
    }
}

impl SandboxError {
    pub open spec fn spec_message(self) -> Seq<char> {
        match self {
            SandboxError::NonAbsoluteWorkspace => "workspace root must be absolute"@,
            SandboxError::UnsafeWorkspace => {
                "workspace root contains unsupported profile characters"@
            },
            SandboxError::EnforcerUnavailable(name) => {
                "required sandbox enforcer is unavailable: "@ + name@
            },
        }
    }

    pub fn message(&self) -> (r: String)
        ensures
            r@ == self.spec_message(),
    {
        match self {
            SandboxError::NonAbsoluteWorkspace => "workspace root must be absolute".to_owned(),
            SandboxError::UnsafeWorkspace => {
                "workspace root contains unsupported profile characters".to_owned()
            },
            SandboxError::EnforcerUnavailable(name) => {
                let mut text = "required sandbox enforcer is unavailable: ".to_owned();
                text.append(name);
                text
            },
        }
    }
}

/// How the paths of a host are written.
#[derive(Clone, Copy, Debug, PartialEq, Eq, Structural)]
pub enum PathStyle {
    Unix,
    Windows,
}

/// Whether a path is one of Windows in the form that is taken word for word.
pub open spec fn verbatim(style: PathStyle, path: Seq<char>) -> bool {
    &&& style == PathStyle::Windows
    &&& path.len() >= 4
    &&& path[0] == '\\'
    &&& path[1] == '\\'
    &&& path[2] == '?'
    &&& path[3] == '\\'
}

/// Whether a character stands between two parts of a path.
pub open spec fn separates(style: PathStyle, path: Seq<char>, c: char) -> bool {
    c == '/' && !verbatim(style, path) || c == '\\' && style == PathStyle::Windows
}

/// Where the next separator of a path stands, at index `from` or after it; or
/// the path's end.
pub open spec fn next_separator(style: PathStyle, path: Seq<char>, from: int) -> int
    decreases path.len() - from,
{
    if from < 0 || from >= path.len() {
        path.len() as int
    } else if separates(style, path, path[from]) {
        from
    } else {
        next_separator(style, path, from + 1)
    }
}

/// Where the names of a server and of its share end that begin at index `from`;
/// zero where they are not both there.
pub open spec fn share_end(style: PathStyle, path: Seq<char>, from: int) -> int {
    let server = next_separator(style, path, from);
    let share = next_separator(style, path, server + 1);
    if from < server && server + 1 < share {
        share
    } else {
        0
    }
}

/// Whether a path of Windows goes through the word-for-word form to a share.
pub open spec fn verbatim_share(style: PathStyle, path: Seq<char>) -> bool {
    &&& verbatim(style, path)
    &&& path.len() >= 8
    &&& path[4] == 'U'
    &&& path[5] == 'N'
    &&& path[6] == 'C'
    &&& path[7] == '\\'
    &&& share_end(style, path, 8) > 0
}

pub open spec fn letter(c: char) -> bool {
    'a' <= c && c <= 'z' || 'A' <= c && c <= 'Z'
}

/// How long the part of a path is that names a drive, a share or a device.
pub open spec fn prefix_len(style: PathStyle, path: Seq<char>) -> int {
    if style == PathStyle::Unix || path.len() < 2 {
        0
    } else if verbatim_share(style, path) {
        share_end(style, path, 8)
    } else if separates(style, path, path[0]) && separates(style, path, path[1]) {
        share_end(style, path, 2)
    } else if letter(path[0]) && path[1] == ':' {
        2
    } else {
        0
    }
}

/// How long the part of a path is that says where it starts: the prefix, and
/// the root behind it.
pub open spec fn root_len(style: PathStyle, path: Seq<char>) -> int {
    let prefix = prefix_len(style, path);
    if 0 <= prefix < path.len() && separates(style, path, path[prefix]) {
        prefix + 1
    } else {
        prefix
    }
}

/// Whether a path says where it starts. A drive alone does not say it.
pub open spec fn absolute(style: PathStyle, path: Seq<char>) -> bool {
    let prefix = prefix_len(style, path);
    match style {
        PathStyle::Unix => root_len(style, path) > 0,
        PathStyle::Windows => prefix > 2 || prefix == 2 && root_len(style, path) > 2,
    }
}

/// Whether a named part of a path ends before index `e`. Empty parts name
/// nothing, nor does a single dot behind a separator.
pub open spec fn part_ends(style: PathStyle, path: Seq<char>, e: int) -> bool {
    &&& root_len(style, path) < e <= path.len()
    &&& e == path.len() || separates(style, path, path[e])
    &&& !separates(style, path, path[e - 1])
    &&& !(path[e - 1] == '.' && e >= 2 && separates(style, path, path[e - 2]) && !verbatim(
        style,
        path,
    ))
}

/// Whether the part that ends before index `e` leads up.
pub open spec fn leads_up(style: PathStyle, path: Seq<char>, e: int) -> bool {
    let root = root_len(style, path);
    &&& part_ends(style, path, e)
    &&& e >= root + 2
    &&& path[e - 1] == '.'
    &&& path[e - 2] == '.'
    &&& e == root + 2 || separates(style, path, path[e - 3])
}

/// Whether a path has no part below where it starts.
pub open spec fn is_root(style: PathStyle, path: Seq<char>) -> bool {
    forall|e: int| 0 <= e <= path.len() ==> !#[trigger] part_ends(style, path, e)
}

/// Whether some part of a path leads up.
pub open spec fn climbs(style: PathStyle, path: Seq<char>) -> bool {
    exists|e: int| 0 <= e <= path.len() && #[trigger] leads_up(style, path, e)
}

/// Whether a path holds a character that a profile cannot quote.
pub open spec fn unquotable(path: Seq<char>) -> bool {
    path.contains('\0') || path.contains('\n') || path.contains('\r') || path.contains('"')
}

/// The paths that a process may read: the workspace, then the other roots.
pub open spec fn read_paths(profile: SandboxProfile) -> Seq<Seq<char>> {
    seq![profile.workspace_root@] + texts(profile.read_only_roots@)
}

/// Whether the `i`-th readable path is the root once its links are resolved.
pub open spec fn resolves_to_root(resolved: Seq<bool>, i: int) -> bool {
    0 <= i < resolved.len() && resolved[i]
}

/// Whether a readable path would give away more than it names.
pub open spec fn unsafe_path(style: PathStyle, path: Seq<char>, at_root: bool) -> bool {
    is_root(style, path) || at_root || climbs(style, path) || unquotable(path)
}

/// Why a profile cannot be enforced.
pub open spec fn profile_refusal(style: PathStyle, profile: SandboxProfile, resolved: Seq<bool>) -> Option<
    SandboxRefusal,
> {
    let paths = read_paths(profile);
    if exists|i: int| 0 <= i < paths.len() && !absolute(style, #[trigger] paths[i]) {
        Some(SandboxRefusal::NonAbsoluteWorkspace)
    } else if exists|i: int|
        0 <= i < paths.len() && unsafe_path(
            style,
            #[trigger] paths[i],
            resolves_to_root(resolved, i),
        ) {
        Some(SandboxRefusal::UnsafeWorkspace)
    } else {
        None
    }
}

/// A path with what its reading needs to know about its start.
struct PathReader<'a> {
    style: PathStyle,
    path: &'a str,
    length: usize,
    literal: bool,
    prefix: usize,
    root: usize,
}

impl<'a> PathReader<'a> {
    spec fn shaped(self) -> bool {
        &&& self.length == self.path@.len()
        &&& self.literal == verbatim(self.style, self.path@)
    }

    spec fn wf(self) -> bool {
        &&& self.shaped()
        &&& self.prefix == prefix_len(self.style, self.path@)
        &&& self.root == root_len(self.style, self.path@)
        &&& self.root <= self.length
    }

    fn new(style: PathStyle, path: &'a str) -> (r: Self)
        ensures
            r.wf(),
            r.style == style,
            r.path@ == path@,
    {
        let length: usize = path.unicode_len();
        let literal = style == PathStyle::Windows && length >= 4 && path.get_char(0) == '\\'
            && path.get_char(1) == '\\' && path.get_char(2) == '?' && path.get_char(3) == '\\';
        let mut reader = PathReader { style, path, length, literal, prefix: 0, root: 0 };
        let prefix = reader.read_prefix();
        reader.prefix = prefix;
        reader.root = if prefix < length && reader.separator_at(prefix) {
            prefix + 1
        } else {
            prefix
        };
        reader
    }

    fn separator_at(&self, i: usize) -> (r: bool)
        requires
            self.shaped(),
            i < self.length,
        ensures
            r == separates(self.style, self.path@, self.path@[i as int]),
    {
        let c = self.path.get_char(i);
        c == '/' && !self.literal || c == '\\' && self.style == PathStyle::Windows
    }

    fn separator_from(&self, from: usize) -> (r: usize)
        requires
            self.shaped(),
            from <= self.length,
        ensures
            r == next_separator(self.style, self.path@, from as int),
            from <= r <= self.length,
    {
        let mut i: usize = from;
        while i < self.length && !self.separator_at(i)
            invariant
                self.shaped(),
                from <= i <= self.length,
                next_separator(self.style, self.path@, from as int) == next_separator(
                    self.style,
                    self.path@,
                    i as int,
                ),
            decreases self.length - i,
        {
            i += 1;
        }
        i
    }

    fn read_share(&self, from: usize) -> (r: usize)
        requires
            self.shaped(),
            from <= self.length,
        ensures
            r == share_end(self.style, self.path@, from as int),
            r <= self.length,
    {
        let server = self.separator_from(from);
        if server >= self.length {
            return 0;
        }
        let share = self.separator_from(server + 1);
        if from < server && server + 1 < share {
            share
        } else {
            0
        }
    }

    fn read_prefix(&self) -> (r: usize)
        requires
            self.shaped(),
        ensures
            r == prefix_len(self.style, self.path@),
            r <= self.length,
    {
        if self.style == PathStyle::Unix || self.length < 2 {
            return 0;
        }
        if self.literal && self.length >= 8 && self.path.get_char(4) == 'U' && self.path.get_char(5)
            == 'N' && self.path.get_char(6) == 'C' && self.path.get_char(7) == '\\' {
            let share = self.read_share(8);
            if share > 0 {
                return share;
            }
        }
        let first = self.path.get_char(0);
        if self.separator_at(0) && self.separator_at(1) {
            self.read_share(2)
        } else if ('a' <= first && first <= 'z' || 'A' <= first && first <= 'Z')
            && self.path.get_char(1) == ':' {
            2
        } else {
            0
        }
    }

    fn is_absolute(&self) -> (r: bool)
        requires
            self.wf(),
        ensures
            r == absolute(self.style, self.path@),
    {
        match self.style {
            PathStyle::Unix => self.root > 0,
            PathStyle::Windows => self.prefix > 2 || self.prefix == 2 && self.root > 2,
        }
    }

    fn ends_part(&self, e: usize) -> (r: bool)
        requires
            self.wf(),
            e <= self.length,
        ensures
            r == part_ends(self.style, self.path@, e as int),
    {
        if e <= self.root {
            return false;
        }
        if e < self.length && !self.separator_at(e) {
            return false;
        }
        if self.separator_at(e - 1) {
            return false;
        }
        !(self.path.get_char(e - 1) == '.' && e >= 2 && self.separator_at(e - 2) && !self.literal)
    }
}

fn is_absolute(style: PathStyle, path: &str) -> (r: bool)
    ensures
        r == absolute(style, path@),
{
    PathReader::new(style, path).is_absolute()
}

fn is_unsafe(style: PathStyle, path: &str, at_root: bool) -> (r: bool)
    ensures
        r == unsafe_path(style, path@, at_root),
{
    let reader = PathReader::new(style, path);
    let length: usize = reader.length;
    let start: usize = reader.root;
    let mut root = true;
    let mut up = false;
    let mut i: usize = 0;
    while i < length
        invariant
            reader.wf(),
            reader.style == style,
            reader.path@ == path@,
            length == path@.len(),
            start == root_len(style, path@),
            start <= length,
            i <= length,
            root == (forall|d: int| 0 <= d <= i ==> !#[trigger] part_ends(style, path@, d)),
            up == (exists|d: int| 0 <= d <= i && #[trigger] leads_up(style, path@, d)),
        decreases length - i,
    {
        let e: usize = i + 1;
        if reader.ends_part(e) {
            assert(part_ends(style, path@, e as int));
            root = false;
            if e - start >= 2 && path.get_char(e - 1) == '.' && path.get_char(e - 2) == '.' && (e
                - start == 2 || reader.separator_at(e - 3)) {
                assert(leads_up(style, path@, e as int));
                up = true;
            }
        }
        i += 1;
    }
    root || at_root || up || has_char(path, '\0') || has_char(path, '\n') || has_char(path, '\r')
        || has_char(path, '"')
}

/// A rule that lets a process read everything below a path.
pub open spec fn subpath_rule(path: Seq<char>) -> Seq<char> {
    " (allow file-read* (subpath \""@ + path + "\"))"@
}

/// A rule that lets a process read one path and nothing below it.
pub open spec fn literal_rule(path: Seq<char>) -> Seq<char> {
    " (allow file-read* (literal \""@ + path + "\"))"@
}

/// Rules for the ancestors of a path that end at index `e` or before it, the
/// longest first, and last the place where the path starts. For a relative path
/// that place is the empty path.
pub open spec fn ancestor_rules(style: PathStyle, path: Seq<char>, e: int) -> Seq<char>
    decreases e,
{
    let root = root_len(style, path);
    if e <= root || e <= 0 {
        literal_rule(path.take(root))
    } else if part_ends(style, path, e) {
        literal_rule(path.take(e)) + ancestor_rules(style, path, e - 1)
    } else {
        ancestor_rules(style, path, e - 1)
    }
}

/// Where the last part of a path ends, at index `e` or before it; zero where it
/// has no part.
pub open spec fn last_part(style: PathStyle, path: Seq<char>, e: int) -> int
    decreases e,
{
    if e <= 0 {
        0
    } else if part_ends(style, path, e) {
        e
    } else {
        last_part(style, path, e - 1)
    }
}

/// The rules for one readable path. Loaders open the directories above it on
/// their way; those are let through one by one, never what lies below them.
pub open spec fn path_rules(style: PathStyle, path: Seq<char>) -> Seq<char> {
    let last = last_part(style, path, path.len() as int);
    if last == 0 {
        subpath_rule(path)
    } else {
        subpath_rule(path) + ancestor_rules(style, path, last - 1)
    }
}

/// The rules for the first `n` readable paths.
pub open spec fn all_path_rules(style: PathStyle, paths: Seq<Seq<char>>, n: nat) -> Seq<char>
    decreases n,
{
    if n == 0 {
        Seq::empty()
    } else {
        all_path_rules(style, paths, (n - 1) as nat) + path_rules(style, paths[n - 1])
    }
}

/// The text of a profile for the sandbox of macOS: everything is denied that is
/// not allowed by a rule.
pub open spec fn profile_text(style: PathStyle, profile: SandboxProfile) -> Seq<char> {
    let paths = read_paths(profile);
    "(version 1) (deny default) (allow process*) (allow sysctl-read) (allow mach-lookup)"@
        + all_path_rules(style, paths, paths.len()) + (if profile.allow_workspace_write {
        " (allow file-write* (subpath \""@ + profile.workspace_root@ + "\"))"@
    } else {
        Seq::empty()
    }) + (if profile.allow_network {
        " (allow network*)"@
    } else {
        Seq::empty()
    })
}

fn push_path_rules(text: &mut String, style: PathStyle, path: &str)
    ensures
        final(text)@ == old(text)@ + path_rules(style, path@),
{
    let reader = PathReader::new(style, path);
    let length: usize = reader.length;
    let root: usize = reader.root;
    text.append(" (allow file-read* (subpath \"");
    text.append(path);
    text.append("\"))");
    let ghost head = old(text)@ + subpath_rule(path@);
    assert(text@ =~= head);
    let mut last: usize = length;
    while last > 0 && !reader.ends_part(last)
        invariant
            reader.wf(),
            reader.style == style,
            reader.path@ == path@,
            length == path@.len(),
            last <= length,
            last_part(style, path@, length as int) == last_part(style, path@, last as int),
        decreases last,
    {
        last -= 1;
    }
    if last == 0 {
        return ;
    }
    let mut e: usize = last - 1;
    let ghost rules = ancestor_rules(style, path@, last - 1);
    while e > root
        invariant
            reader.wf(),
            reader.style == style,
            reader.path@ == path@,
            length == path@.len(),
            root == root_len(style, path@),
            root <= e <= length,
            text@ + ancestor_rules(style, path@, e as int) =~= head + rules,
        decreases e,
    {
        if reader.ends_part(e) {
            let ghost before = text@;
            text.append(" (allow file-read* (literal \"");
            let parent = path.substring_char(0, e);
            assert(parent@ =~= path@.take(e as int));
            text.append(parent);
            text.append("\"))");
            assert(text@ =~= before + literal_rule(path@.take(e as int)));
        }
        e -= 1;
    }
    let ghost before = text@;
    text.append(" (allow file-read* (literal \"");
    let start = path.substring_char(0, root);
    assert(start@ =~= path@.take(root as int));
    text.append(start);
    text.append("\"))");
    assert(text@ =~= before + literal_rule(path@.take(root as int)));
}

/// What a launch depends on in its host: how paths are written there, and which
/// enforcers there are.
#[derive(Clone, Copy, Debug, PartialEq, Eq, Structural)]
pub struct SandboxHost {
    pub paths: PathStyle,
    pub sandbox_exec: bool,
    pub bubblewrap: bool,
}

/// A process to be started: a program, its arguments, and where it runs.
#[derive(Clone, Debug, PartialEq, Eq)]
pub struct LaunchPlan {
    pub program: String,
    pub args: Vec<String>,
    pub current_dir: String,
}

pub ghost struct PlanView {
    pub program: Seq<char>,
    pub args: Seq<Seq<char>>,
    pub current_dir: Seq<char>,
}

impl View for LaunchPlan {
    type V = PlanView;

    open spec fn view(&self) -> PlanView {
        PlanView {
            program: self.program@,
            args: texts(self.args@),
            current_dir: self.current_dir@,
        }
    }
}

/// The arguments that bind the first `n` read-only roots.
pub open spec fn bind_args(roots: Seq<Seq<char>>, n: nat) -> Seq<Seq<char>>
    decreases n,
{
    if n == 0 {
        Seq::empty()
    } else {
        bind_args(roots, (n - 1) as nat).push("--ro-bind"@).push(roots[n - 1]).push(roots[n - 1])
    }
}

/// The arguments of Bubblewrap, which starts from an empty file system. The host
/// root is never mounted, not even read-only, nor are `/proc` and `/dev`.
pub open spec fn bubblewrap_args(profile: SandboxProfile, executable: Seq<char>) -> Seq<Seq<char>> {
    let roots = texts(profile.read_only_roots@);
    let head = seq![
        "--die-with-parent"@,
        "--new-session"@,
        "--unshare-pid"@,
        "--unshare-ipc"@,
        "--unshare-uts"@,
    ] + bind_args(roots, roots.len());
    let workspace = seq![
        if profile.allow_workspace_write {
            "--bind"@
        } else {
            "--ro-bind"@
        },
        profile.workspace_root@,
        profile.workspace_root@,
    ];
    let network = if profile.allow_network {
        Seq::empty()
    } else {
        seq!["--unshare-net"@]
    };
    head + workspace + network + seq!["--"@, executable]
}

/// The process that runs an executable under a profile; or why there is none.
pub open spec fn launch_plan(
    profile: SandboxProfile,
    platform: SandboxPlatform,
    executable: Seq<char>,
    arguments: Seq<Seq<char>>,
    resolved: Seq<bool>,
    host: SandboxHost,
) -> Result<PlanView, SandboxRefusal> {
    let paths = read_paths(profile);
    match profile_refusal(host.paths, profile, resolved) {
        Some(refusal) => Err(refusal),
        None => match platform {
            SandboxPlatform::MacosSeatbelt => if exists|i: int|
                0 <= i < paths.len() && (#[trigger] paths[i]).contains('\\') {
                Err(SandboxRefusal::UnsafeWorkspace)
            } else if !host.sandbox_exec {
                Err(SandboxRefusal::EnforcerUnavailable("sandbox-exec"@))
            } else {
                Ok(
                    PlanView {
                        program: "/usr/bin/sandbox-exec"@,
                        args: seq!["-p"@, profile_text(host.paths, profile), "--"@, executable] + arguments,
                        current_dir: profile.workspace_root@,
                    },
                )
            },
            SandboxPlatform::LinuxBubblewrap => if !host.bubblewrap {
                Err(SandboxRefusal::EnforcerUnavailable("bubblewrap"@))
            } else {
                Ok(
                    PlanView {
                        program: "/usr/bin/bwrap"@,
                        args: bubblewrap_args(profile, executable) + arguments,
                        current_dir: profile.workspace_root@,
                    },
                )
            },
            SandboxPlatform::WindowsAppContainer => Err(
                SandboxRefusal::EnforcerUnavailable("Windows AppContainer broker"@),
            ),
        },
    }
}

/// Every path that an enforceable profile makes readable is absolute, is not the
/// root, leads up nowhere, and can be quoted.
pub proof fn law_readable_paths_are_confined(
    style: PathStyle,
    profile: SandboxProfile,
    resolved: Seq<bool>,
    i: int,
)
    requires
        profile_refusal(style, profile, resolved) is None,
        0 <= i < read_paths(profile).len(),
    ensures
        absolute(style, read_paths(profile)[i]),
        !is_root(style, read_paths(profile)[i]),
        !climbs(style, read_paths(profile)[i]),
        !unquotable(read_paths(profile)[i]),
        !resolves_to_root(resolved, i),
{
    let paths = read_paths(profile);
    assert(!unsafe_path(style, paths[i], resolves_to_root(resolved, i)));
}

/// A launch always goes through an enforcer that the host has; there is no
/// launch without one.
pub proof fn law_no_launch_without_an_enforcer(
    profile: SandboxProfile,
    platform: SandboxPlatform,
    executable: Seq<char>,
    arguments: Seq<Seq<char>>,
    resolved: Seq<bool>,
    host: SandboxHost,
)
    requires
        launch_plan(profile, platform, executable, arguments, resolved, host) is Ok,
    ensures
        profile_refusal(host.paths, profile, resolved) is None,
        platform == SandboxPlatform::MacosSeatbelt && host.sandbox_exec && launch_plan(
            profile,
            platform,
            executable,
            arguments,
            resolved,
            host,
        )->Ok_0.program == "/usr/bin/sandbox-exec"@ || platform
            == SandboxPlatform::LinuxBubblewrap && host.bubblewrap && launch_plan(
            profile,
            platform,
            executable,
            arguments,
            resolved,
            host,
        )->Ok_0.program == "/usr/bin/bwrap"@,
{
}

/// A word that mounts a path.
pub open spec fn mounts(word: Seq<char>) -> bool {
    word == "--bind"@ || word == "--ro-bind"@
}

proof fn lemma_words()
    ensures
        "--bind"@.len() == 6,
        "--ro-bind"@.len() == 9,
        "--unshare-net"@.len() == 13,
        "--bind"@[0] == '-',
        "--ro-bind"@[0] == '-',
        "--unshare-net"@[0] == '-',
        !mounts("--die-with-parent"@),
        !mounts("--new-session"@),
        !mounts("--unshare-pid"@),
        !mounts("--unshare-ipc"@),
        !mounts("--unshare-uts"@),
        !mounts("--unshare-net"@),
        "--die-with-parent"@ != "--unshare-net"@,
        "--new-session"@[2] != "--unshare-net"@[2],
        "--unshare-pid"@ != "--unshare-net"@,
        "--unshare-ipc"@ != "--unshare-net"@,
        "--unshare-uts"@ != "--unshare-net"@,
{
    reveal_strlit("--bind");
    reveal_strlit("--ro-bind");
    reveal_strlit("--die-with-parent");
    reveal_strlit("--new-session");
    reveal_strlit("--unshare-pid");
    reveal_strlit("--unshare-ipc");
    reveal_strlit("--unshare-uts");
    reveal_strlit("--unshare-net");
    assert("--bind"@[2] == 'b');
    assert("--ro-bind"@[2] == 'r');
    assert("--die-with-parent"@[2] == 'd');
    assert("--new-session"@[2] == 'n');
    assert("--unshare-pid"@[10] == 'p');
    assert("--unshare-ipc"@[10] == 'i');
    assert("--unshare-uts"@[10] == 'u');
    assert("--unshare-net"@[10] == 'n');
    assert("--unshare-pid"@[2] == 'u');
    assert("--unshare-ipc"@[2] == 'u');
    assert("--unshare-uts"@[2] == 'u');
    assert("--unshare-net"@[2] == 'u');
}

proof fn lemma_bind_args(roots: Seq<Seq<char>>, n: nat)
    requires
        n <= roots.len(),
    ensures
        bind_args(roots, n).len() == 3 * n,
        forall|k: int|
            0 <= k < n ==> #[trigger] bind_args(roots, n)[3 * k] == "--ro-bind"@ && bind_args(
                roots,
                n,
            )[3 * k + 1] == roots[k] && bind_args(roots, n)[3 * k + 2] == roots[k],
    decreases n,
{
    if n > 0 {
        lemma_bind_args(roots, (n - 1) as nat);
        let before = bind_args(roots, (n - 1) as nat);
        let all = bind_args(roots, n);
        assert forall|k: int| 0 <= k < n implies #[trigger] all[3 * k] == "--ro-bind"@ && all[3 * k
            + 1] == roots[k] && all[3 * k + 2] == roots[k] by {
            if k < n - 1 {
                assert(before[3 * k] == "--ro-bind"@);
            }
        }
    }
}

/// What Bubblewrap is told to mount is a readable path of the profile, at its
/// own place; so it is never the root.
pub proof fn law_only_readable_paths_are_mounted(
    style: PathStyle,
    profile: SandboxProfile,
    executable: Seq<char>,
    resolved: Seq<bool>,
    i: int,
)
    requires
        profile_refusal(style, profile, resolved) is None,
        0 <= i < bubblewrap_args(profile, executable).len() - 2,
        mounts(bubblewrap_args(profile, executable)[i]),
    ensures
        i + 2 < bubblewrap_args(profile, executable).len(),
        bubblewrap_args(profile, executable)[i + 1] == bubblewrap_args(profile, executable)[i + 2],
        read_paths(profile).contains(bubblewrap_args(profile, executable)[i + 1]),
        !is_root(style, bubblewrap_args(profile, executable)[i + 1]),
        bubblewrap_args(profile, executable)[i] == "--bind"@ ==> profile.allow_workspace_write
            && bubblewrap_args(profile, executable)[i + 1] == profile.workspace_root@,
{
    lemma_words();
    let args = bubblewrap_args(profile, executable);
    let roots = texts(profile.read_only_roots@);
    let paths = read_paths(profile);
    lemma_bind_args(roots, roots.len());
    let bound = bind_args(roots, roots.len());
    assert(paths[0] == profile.workspace_root@);
    law_readable_paths_are_confined(style, profile, resolved, 0);
    if i < 5 {
    } else if i < 5 + bound.len() {
        let k = (i - 5) / 3;
        assert(args[i] == bound[i - 5]);
        assert(paths[k + 1] == roots[k]);
        law_readable_paths_are_confined(style, profile, resolved, k + 1);
        assert(bound[3 * k] == "--ro-bind"@);
        if i - 5 == 3 * k {
            assert(args[i + 1] == bound[3 * k + 1]);
            assert(args[i + 2] == bound[3 * k + 2]);
            assert("--ro-bind"@ != "--bind"@);
        } else {
            assert(args[i] == roots[k]);
        }
    } else {
        let w = 5 + bound.len() as int;
        assert(args[w + 1] == profile.workspace_root@);
        assert(args[w + 2] == profile.workspace_root@);
        if i == w {
            assert("--ro-bind"@ != "--bind"@);
        }
    }
}

/// Bubblewrap is told to cut the network off exactly if the profile does not
/// allow it.
pub proof fn law_network_is_cut_off_unless_allowed(
    style: PathStyle,
    profile: SandboxProfile,
    executable: Seq<char>,
    resolved: Seq<bool>,
)
    requires
        profile_refusal(style, profile, resolved) is None,
    ensures
        profile.allow_network <==> !exists|i: int|
            0 <= i < bubblewrap_args(profile, executable).len() - 2 && #[trigger] bubblewrap_args(
                profile,
                executable,
            )[i] == "--unshare-net"@,
{
    lemma_words();
    let args = bubblewrap_args(profile, executable);
    let roots = texts(profile.read_only_roots@);
    let paths = read_paths(profile);
    lemma_bind_args(roots, roots.len());
    let bound = bind_args(roots, roots.len());
    let w = 5 + bound.len() as int;
    assert(paths[0] == profile.workspace_root@);
    law_readable_paths_are_confined(style, profile, resolved, 0);
    if profile.allow_network {
        assert forall|i: int| 0 <= i < args.len() - 2 implies #[trigger] args[i]
            != "--unshare-net"@ by {
            if i < 5 {
            } else if i < w {
                let k = (i - 5) / 3;
                assert(args[i] == bound[i - 5]);
                assert(paths[k + 1] == roots[k]);
                law_readable_paths_are_confined(style, profile, resolved, k + 1);
                assert(bound[3 * k] == "--ro-bind"@);
            } else {
                assert(args[w + 1] == profile.workspace_root@);
                assert(args[w + 2] == profile.workspace_root@);
            }
        }
    } else {
        assert(args[w + 3] == "--unshare-net"@);
    }
}

pub fn require_executable(is_file: bool, name: &'static str) -> (r: Result<(), SandboxError>)
    ensures
        match r {
            Ok(_) => is_file,
            Err(error) => !is_file && error@ == SandboxRefusal::EnforcerUnavailable(name@),
        },
{
    if is_file {
        Ok(())
    } else {
        Err(SandboxError::EnforcerUnavailable(name))
    }
}

fn push_arg(args: &mut Vec<String>, text: &str)
    ensures
        texts(final(args)@) == texts(old(args)@).push(text@),
{
    args.push(text.to_owned());
    assert(texts(args@) =~= texts(old(args)@).push(text@));
}

fn push_args(args: &mut Vec<String>, more: &Vec<String>)
    ensures
        texts(final(args)@) == texts(old(args)@) + texts(more@),
{
    let ghost before = texts(args@);
    let mut i: usize = 0;
    while i < more.len()
        invariant
            i <= more@.len(),
            texts(args@) =~= before + texts(more@).take(i as int),
        decreases more@.len() - i,
    {
        push_arg(args, more[i].as_str());
        i += 1;
    }
    assert(texts(more@).take(more@.len() as int) =~= texts(more@));
}

impl SandboxProfile {
    /// The paths that the process may read: the workspace, then the other roots.
    pub fn read_paths(&self) -> (r: Vec<&str>)
        ensures
            r@.len() == read_paths(*self).len(),
            forall|i: int| 0 <= i < r@.len() ==> (#[trigger] r@[i])@ == read_paths(*self)[i],
    {
        let mut paths: Vec<&str> = Vec::new();
        paths.push(self.workspace_root.as_str());
        let mut i: usize = 0;
        while i < self.read_only_roots.len()
            invariant
                i <= self.read_only_roots@.len(),
                paths@.len() == i + 1,
                forall|j: int| 0 <= j <= i ==> (#[trigger] paths@[j])@ == read_paths(*self)[j],
            decreases self.read_only_roots@.len() - i,
        {
            paths.push(self.read_only_roots[i].as_str());
            i += 1;
        }
        paths
    }

    /// Whether the profile can be enforced; `resolved` says of each readable path
    /// whether it is the root once its links are resolved.
    pub fn validate(&self, style: PathStyle, resolved: &Vec<bool>) -> (r: Result<(), SandboxError>)
        ensures
            match r {
                Ok(_) => profile_refusal(style, *self, resolved@) is None,
                Err(error) => profile_refusal(style, *self, resolved@) == Some(error@),
            },
    {
        if !self.all_absolute(style) {
            return Err(SandboxError::NonAbsoluteWorkspace);
        }
        self.check_paths(style, resolved)
    }

    fn all_absolute(&self, style: PathStyle) -> (r: bool)
        ensures
            r == (forall|j: int|
                0 <= j < read_paths(*self).len() ==> absolute(style, #[trigger] read_paths(*self)[j])),
    {
        let ghost paths = read_paths(*self);
        if !is_absolute(style, self.workspace_root.as_str()) {
            assert(!absolute(style, paths[0]));
            return false;
        }
        let mut i: usize = 0;
        while i < self.read_only_roots.len()
            invariant
                i <= self.read_only_roots@.len(),
                paths == read_paths(*self),
                forall|j: int| 0 <= j <= i ==> absolute(style, #[trigger] paths[j]),
            decreases self.read_only_roots@.len() - i,
        {
            if !is_absolute(style, self.read_only_roots[i].as_str()) {
                assert(!absolute(style, paths[i + 1]));
                return false;
            }
            i += 1;
        }
        true
    }

    fn check_paths(&self, style: PathStyle, resolved: &Vec<bool>) -> (r: Result<(), SandboxError>)
        requires
            forall|j: int|
                0 <= j < read_paths(*self).len() ==> absolute(style, #[trigger] read_paths(*self)[j]),
        ensures
            match r {
                Ok(_) => profile_refusal(style, *self, resolved@) is None,
                Err(error) => profile_refusal(style, *self, resolved@) == Some(error@),
            },
    {
        let ghost paths = read_paths(*self);
        let roots: usize = self.read_only_roots.len();
        if is_unsafe(style, self.workspace_root.as_str(), resolved.len() > 0 && resolved[0]) {
            assert(unsafe_path(style, paths[0], resolves_to_root(resolved@, 0)));
            return Err(SandboxError::UnsafeWorkspace);
        }
        let mut i: usize = 0;
        while i < roots
            invariant
                roots == self.read_only_roots@.len(),
                paths == read_paths(*self),
                i <= roots,
                forall|j: int|
                    0 <= j < read_paths(*self).len() ==> absolute(
                        style,
                        #[trigger] read_paths(*self)[j],
                    ),
                forall|j: int|
                    0 <= j <= i ==> !unsafe_path(
                        style,
                        #[trigger] paths[j],
                        resolves_to_root(resolved@, j),
                    ),
            decreases roots - i,
        {
            let at_root = i + 1 < resolved.len() && resolved[i + 1];
            if is_unsafe(style, self.read_only_roots[i].as_str(), at_root) {
                assert(unsafe_path(style, paths[i + 1], resolves_to_root(resolved@, i + 1)));
                return Err(SandboxError::UnsafeWorkspace);
            }
            i += 1;
        }
        Ok(())
    }

    /// The text of the profile for the sandbox of macOS.
    pub fn macos_profile(&self, style: PathStyle) -> (r: String)
        ensures
            r@ == profile_text(style, *self),
    {
        let ghost paths = read_paths(*self);
        let mut text =
            "(version 1) (deny default) (allow process*) (allow sysctl-read) (allow mach-lookup)".to_owned();
        let ghost head = text@;
        let roots: usize = self.read_only_roots.len();
        push_path_rules(&mut text, style, self.workspace_root.as_str());
        proof {
            reveal_with_fuel(all_path_rules, 2);
            assert(text@ =~= head + all_path_rules(style, paths, 1));
        }
        let mut i: usize = 0;
        while i < roots
            invariant
                roots == self.read_only_roots@.len(),
                paths == read_paths(*self),
                i <= roots,
                text@ =~= head + all_path_rules(style, paths, (i + 1) as nat),
            decreases roots - i,
        {
            push_path_rules(&mut text, style, self.read_only_roots[i].as_str());
            assert(paths[i + 1] == self.read_only_roots@[i as int]@);
            i += 1;
        }
        if self.allow_workspace_write {
            text.append(" (allow file-write* (subpath \"");
            text.append(self.workspace_root.as_str());
            text.append("\"))");
        }
        if self.allow_network {
            text.append(" (allow network*)");
        }
        assert(text@ =~= profile_text(style, *self));
        text
    }

    fn has_backslash(&self) -> (r: bool)
        ensures
            r == (exists|i: int|
                0 <= i < read_paths(*self).len() && (#[trigger] read_paths(*self)[i]).contains(
                    '\\',
                )),
    {
        let ghost paths = read_paths(*self);
        if has_char(self.workspace_root.as_str(), '\\') {
            assert(paths[0].contains('\\'));
            return true;
        }
        let mut i: usize = 0;
        while i < self.read_only_roots.len()
            invariant
                i <= self.read_only_roots@.len(),
                paths == read_paths(*self),
                forall|j: int| 0 <= j <= i ==> !(#[trigger] paths[j]).contains('\\'),
            decreases self.read_only_roots@.len() - i,
        {
            if has_char(self.read_only_roots[i].as_str(), '\\') {
                assert(paths[i + 1].contains('\\'));
                return true;
            }
            i += 1;
        }
        false
    }

    fn bubblewrap_arguments(&self, executable: &str) -> (r: Vec<String>)
        ensures
            texts(r@) == bubblewrap_args(*self, executable@),
    {
        let ghost roots = texts(self.read_only_roots@);
        let mut args: Vec<String> = Vec::new();
        assert(texts(args@) =~= Seq::empty());
        push_arg(&mut args, "--die-with-parent");
        push_arg(&mut args, "--new-session");
        push_arg(&mut args, "--unshare-pid");
        push_arg(&mut args, "--unshare-ipc");
        push_arg(&mut args, "--unshare-uts");
        let ghost head = texts(args@);
        let mut i: usize = 0;
        while i < self.read_only_roots.len()
            invariant
                i <= self.read_only_roots@.len(),
                roots == texts(self.read_only_roots@),
                texts(args@) =~= head + bind_args(roots, i as nat),
            decreases self.read_only_roots@.len() - i,
        {
            let root = self.read_only_roots[i].as_str();
            push_arg(&mut args, "--ro-bind");
            push_arg(&mut args, root);
            push_arg(&mut args, root);
            i += 1;
        }
        if self.allow_workspace_write {
            push_arg(&mut args, "--bind");
        } else {
            push_arg(&mut args, "--ro-bind");
        }
        push_arg(&mut args, self.workspace_root.as_str());
        push_arg(&mut args, self.workspace_root.as_str());
        if !self.allow_network {
            push_arg(&mut args, "--unshare-net");
        }
        push_arg(&mut args, "--");
        push_arg(&mut args, executable);
        assert(texts(args@) =~= bubblewrap_args(*self, executable@));
        args
    }

    /// The process that runs an executable under this profile.
    pub fn launch_command(
        &self,
        platform: SandboxPlatform,
        executable: &str,
        arguments: &Vec<String>,
        resolved: &Vec<bool>,
        host: SandboxHost,
    ) -> (r: Result<LaunchPlan, SandboxError>)
        ensures
            match r {
                Ok(plan) => launch_plan(
                    *self,
                    platform,
                    executable@,
                    texts(arguments@),
                    resolved@,
                    host,
                ) == Ok::<_, SandboxRefusal>(plan@),
                Err(error) => launch_plan(
                    *self,
                    platform,
                    executable@,
                    texts(arguments@),
                    resolved@,
                    host,
                ) == Err::<PlanView, _>(error@),
            },
    {
        match self.validate(host.paths, resolved) {
            Ok(_) => {},
            Err(error) => {
                return Err(error);
            },
        }
        match platform {
            SandboxPlatform::MacosSeatbelt => {
                if self.has_backslash() {
                    return Err(SandboxError::UnsafeWorkspace);
                }
                match require_executable(host.sandbox_exec, "sandbox-exec") {
                    Ok(_) => {},
                    Err(error) => {
                        return Err(error);
                    },
                }
                let mut args: Vec<String> = Vec::new();
                assert(texts(args@) =~= Seq::empty());
                push_arg(&mut args, "-p");
                push_arg(&mut args, self.macos_profile(host.paths).as_str());
                push_arg(&mut args, "--");
                push_arg(&mut args, executable);
                assert(texts(args@) =~= seq!["-p"@, profile_text(host.paths, *self), "--"@, executable@]);
                push_args(&mut args, arguments);
                Ok(
                    LaunchPlan {
                        program: "/usr/bin/sandbox-exec".to_owned(),
                        args,
                        current_dir: self.workspace_root.clone(),
                    },
                )
            },
            SandboxPlatform::LinuxBubblewrap => {
                match require_executable(host.bubblewrap, "bubblewrap") {
                    Ok(_) => {},
                    Err(error) => {
                        return Err(error);
                    },
                }
                let mut args = self.bubblewrap_arguments(executable);
                push_args(&mut args, arguments);
                Ok(
                    LaunchPlan {
                        program: "/usr/bin/bwrap".to_owned(),
                        args,
                        current_dir: self.workspace_root.clone(),
                    },
                )
            },
            SandboxPlatform::WindowsAppContainer => Err(
                SandboxError::EnforcerUnavailable("Windows AppContainer broker"),
            ),
        }
    }
}

/// Bridges an already selected scope to the construction of adapter processes.
/// How the policy is derived and approved is not its business.
#[derive(Clone, Debug, PartialEq, Eq)]
pub struct SandboxLauncher {
    pub platform: SandboxPlatform,
    pub profile: SandboxProfile,
}

impl SandboxLauncher {
    /// The process that runs an executable without arguments. A refusal gives
    /// away no native path, and is never answered by an unsandboxed process.
    pub fn command(&self, executable: &str, resolved: &Vec<bool>, host: SandboxHost) -> (r: Result<
        LaunchPlan,
        &'static str,
    >)
        ensures
            match launch_plan(
                self.profile,
                self.platform,
                executable@,
                Seq::empty(),
                resolved@,
                host,
            ) {
                Ok(plan) => r is Ok && r->Ok_0@ == plan,
                Err(_) => r is Err && r->Err_0@ == "sandbox command rejected"@,
            },
    {
        let arguments: Vec<String> = Vec::new();
        assert(texts(arguments@) =~= Seq::empty());
        match self.profile.launch_command(
            self.platform,
            executable,
            &arguments,
            resolved,
            host,
        ) {
            Ok(plan) => Ok(plan),
            Err(_) => Err("sandbox command rejected"),
        }
    }
}

} // verus!
