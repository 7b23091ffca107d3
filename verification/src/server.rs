use vstd::prelude::*;

verus! {

/// The name of the language server, which is also the name of the npm
/// package that ships it.
pub open spec fn pyright() -> Seq<char> {
    "pyright"@
}

/// The command-line flag that makes Pyright talk over standard input/output.
pub open spec fn stdio_flag() -> Seq<char> {
    "--stdio"@
}

/// Where the server script lies inside the directory it is installed in.
pub open spec fn server_script() -> Seq<char> {
    "node_modules/pyright/langserver.index.js"@
}

/// The name under which the editor knows the language server.
pub fn server_name() -> (name: String)
    ensures
        name@ == pyright(),
{
    String::from_str("pyright")
}

/// The npm package that provides the language server.
pub fn package_name() -> (name: String)
    ensures
        name@ == pyright(),
{
    String::from_str("pyright")
}

/// The path of the server script relative to the installation directory.
pub fn server_script_path() -> (path: &'static str)
    ensures
        path@ == server_script(),
{
    "node_modules/pyright/langserver.index.js"
}

/// The arguments with which the Node binary launches the server script found
/// at `server_path`: the script itself, then the stdio flag.
pub fn server_binary_arguments(server_path: &str) -> (args: Vec<String>)
    ensures
        args@.len() == 2,
        args@[0]@ == server_path@,
        args@[1]@ == stdio_flag(),
{
    let mut args: Vec<String> = Vec::new();
    args.push(String::from_str(server_path));
    args.push(String::from_str("--stdio"));
    args
}

/// How to start the language server: the program, the environment it gets
/// (`None`: the editor's own) and its arguments.
pub struct ServerBinary {
    pub path: String,
    pub env: Option<Vec<(String, String)>>,
    pub arguments: Vec<String>,
}

/// `binary` starts the script at `server_path` with the Node binary found
/// at `node_path`, in the editor's environment.
pub open spec fn launches(binary: ServerBinary, node_path: Seq<char>, server_path: Seq<char>) -> bool {
    &&& binary.path@ == node_path
    &&& binary.env is None
    &&& binary.arguments@.len() == 2
    &&& binary.arguments@[0]@ == server_path
    &&& binary.arguments@[1]@ == stdio_flag()
}

fn launch_binary(node_path: String, server_path: &str) -> (binary: ServerBinary)
    ensures
        launches(binary, node_path@, server_path@),
{
    ServerBinary { path: node_path, env: None, arguments: server_binary_arguments(server_path) }
}

/// An npm package at a given version.
pub struct NpmPackage {
    pub name: String,
    pub version: String,
}

/// Where a fetch of the server stands.
#[derive(Clone, Copy, Debug)]
pub enum FetchPhase {
    /// Waiting to learn whether the latest version must be installed.
    AwaitingInstallDecision,
    /// Waiting for the installation to end.
    AwaitingInstall,
    /// Waiting for the path of the Node binary.
    AwaitingNodePath,
    /// Done: the server binary was handed out, or the fetch failed.
    Finished,
}

/// What the editor reports back to a fetch of the server.
pub enum FetchEvent {
    /// Whether the package must be (re)installed in the container directory.
    InstallDecision(bool),
    /// Whether the installation succeeded.
    InstallFinished(bool),
    /// The path of the Node binary, or `None` when it could not be found.
    NodePath(Option<String>),
}

/// What a fetch of the server asks the editor to do next.
pub enum FetchAction {
    /// Ask whether `package` at `version` must be installed into
    /// `container_dir`, where its script is expected at `server_path`.
    CheckInstall { package: String, server_path: String, container_dir: String, version: String },
    /// Install `packages` into `container_dir`.
    Install { container_dir: String, packages: Vec<NpmPackage> },
    /// Look up the path of the Node binary.
    ResolveNodePath,
    /// The server is ready: start it with this binary.
    Complete(ServerBinary),
    /// The fetch failed: report the error that the last step met.
    Abort,
}

/// A fetch of the latest Pyright into a container directory: it installs
/// the package when the editor says it must, then hands out the command
/// that runs the server script with Node.
pub struct ServerFetch {
    pub container_dir: String,
    pub server_path: String,
    pub version: String,
    pub phase: FetchPhase,
}

/// The phase a fetch moves to when `event` arrives in `phase`.
pub open spec fn next_fetch_phase(phase: FetchPhase, event: FetchEvent) -> FetchPhase {
    match (phase, event) {
        (FetchPhase::AwaitingInstallDecision, FetchEvent::InstallDecision(true)) => FetchPhase::AwaitingInstall,
        (FetchPhase::AwaitingInstallDecision, FetchEvent::InstallDecision(false)) => FetchPhase::AwaitingNodePath,
        (FetchPhase::AwaitingInstall, FetchEvent::InstallFinished(true)) => FetchPhase::AwaitingNodePath,
        _ => FetchPhase::Finished,
    }
}

/// `action` asks to install exactly the Pyright package at the fetch's
/// version into the fetch's container directory.
pub open spec fn installs_pyright(action: FetchAction, fetch: ServerFetch) -> bool {
    action matches FetchAction::Install { container_dir, packages } && {
        &&& container_dir@ == fetch.container_dir@
        &&& packages@.len() == 1
        &&& packages@[0].name@ == pyright()
        &&& packages@[0].version@ == fetch.version@
    }
}

/// The action that a fetch in `fetch.phase` takes when `event` arrives.
pub open spec fn fetch_action_for(fetch: ServerFetch, event: FetchEvent, action: FetchAction) -> bool {
    match (fetch.phase, event) {
        (FetchPhase::AwaitingInstallDecision, FetchEvent::InstallDecision(true)) => installs_pyright(action, fetch),
        (FetchPhase::AwaitingInstallDecision, FetchEvent::InstallDecision(false)) => action is ResolveNodePath,
        (FetchPhase::AwaitingInstall, FetchEvent::InstallFinished(true)) => action is ResolveNodePath,
        (FetchPhase::AwaitingNodePath, FetchEvent::NodePath(Some(node_path))) => action matches FetchAction::Complete(
            binary,
        ) && launches(binary, node_path@, fetch.server_path@),
        _ => action is Abort,
    }
}

/// Order of the phases, in which a fetch only moves forward.
pub open spec fn fetch_rank(phase: FetchPhase) -> nat {
    match phase {
        FetchPhase::AwaitingInstallDecision => 0,
        FetchPhase::AwaitingInstall => 1,
        FetchPhase::AwaitingNodePath => 2,
        FetchPhase::Finished => 3,
    }
}

impl ServerFetch {
    /// Starts fetching `version` of Pyright into `container_dir`, where the
    /// server script will lie at `server_path`: first ask whether it must be
    /// installed.
    pub fn start(container_dir: String, server_path: String, version: String) -> (started: (
        ServerFetch,
        FetchAction,
    ))
        ensures
            started.0.container_dir@ == container_dir@,
            started.0.server_path@ == server_path@,
            started.0.version@ == version@,
            started.0.phase is AwaitingInstallDecision,
            started.1 matches FetchAction::CheckInstall { package, server_path: p, container_dir: d, version: v } && {
                &&& package@ == pyright()
                &&& p@ == server_path@
                &&& d@ == container_dir@
                &&& v@ == version@
            },
    {
        let action = FetchAction::CheckInstall {
            package: package_name(),
            server_path: server_path.clone(),
            container_dir: container_dir.clone(),
            version: version.clone(),
        };
        (ServerFetch { container_dir, server_path, version, phase: FetchPhase::AwaitingInstallDecision }, action)
    }

    /// Takes in what the editor reports and says what to do next.
    pub fn step(&mut self, event: FetchEvent) -> (action: FetchAction)
        ensures
            final(self).container_dir == old(self).container_dir,
            final(self).server_path == old(self).server_path,
            final(self).version == old(self).version,
            final(self).phase == next_fetch_phase(old(self).phase, event),
            fetch_action_for(*old(self), event, action),
            event matches FetchEvent::InstallDecision(install) ==> (old(
                self,
            ).phase is AwaitingInstallDecision ==> (action is Install <==> install)),
            action is Install ==> old(self).phase is AwaitingInstallDecision && installs_pyright(
                action,
                *old(self),
            ),
            action is Complete ==> old(self).phase is AwaitingNodePath && (event matches FetchEvent::NodePath(
                Some(_),
            )),
            old(self).phase is Finished ==> action is Abort && final(self).phase is Finished,
            event matches FetchEvent::NodePath(Some(node_path)) ==> (old(self).phase is AwaitingNodePath
                ==> (action matches FetchAction::Complete(binary) && launches(
                binary,
                node_path@,
                old(self).server_path@,
            ))),
    {
        match (self.phase, event) {
            (FetchPhase::AwaitingInstallDecision, FetchEvent::InstallDecision(install)) => {
                if install {
                    self.phase = FetchPhase::AwaitingInstall;
                    let mut packages: Vec<NpmPackage> = Vec::new();
                    packages.push(NpmPackage { name: package_name(), version: self.version.clone() });
                    FetchAction::Install { container_dir: self.container_dir.clone(), packages }
                } else {
                    self.phase = FetchPhase::AwaitingNodePath;
                    FetchAction::ResolveNodePath
                }
            },
            (FetchPhase::AwaitingInstall, FetchEvent::InstallFinished(true)) => {
                self.phase = FetchPhase::AwaitingNodePath;
                FetchAction::ResolveNodePath
            },
            (FetchPhase::AwaitingNodePath, FetchEvent::NodePath(Some(node_path))) => {
                self.phase = FetchPhase::Finished;
                FetchAction::Complete(launch_binary(node_path, self.server_path.as_str()))
            },
            _ => {
                self.phase = FetchPhase::Finished;
                FetchAction::Abort
            },
        }
    }
}

/// A fetch only moves forward: every event takes it to a later phase, and a
/// finished fetch stays finished. So every fetch finishes after at most
/// three events.
pub proof fn lemma_fetch_moves_forward(phase: FetchPhase, event: FetchEvent)
    ensures
        phase is Finished ==> next_fetch_phase(phase, event) is Finished,
        !(phase is Finished) ==> fetch_rank(next_fetch_phase(phase, event)) > fetch_rank(phase),
{
}

/// Where a lookup of an already installed server stands.
#[derive(Clone, Copy, Debug)]
pub enum CachedPhase {
    /// Waiting to learn whether the server script is on disk.
    AwaitingScriptCheck,
    /// Waiting for the path of the Node binary.
    AwaitingNodePath,
    /// Done: the server binary was found, or there is none.
    Finished,
}

/// What the editor reports back to a lookup of an installed server.
pub enum CachedEvent {
    /// Whether the server script exists.
    ScriptExists(bool),
    /// The path of the Node binary, or `None` when it could not be found.
    NodePath(Option<String>),
}

/// What a lookup of an installed server asks the editor to do next.
pub enum CachedAction {
    /// Check whether a file exists at `server_path`.
    CheckScript { server_path: String },
    /// Look up the path of the Node binary.
    ResolveNodePath,
    /// The installed server can be started with this binary.
    Found(ServerBinary),
    /// No server script lies at `server_path`: report it; there is no binary.
    ReportMissing { server_path: String },
    /// There is no binary (the failure to find Node has been reported).
    NotFound,
}

/// A lookup of a Pyright installed earlier, whose script is expected at
/// `server_path`.
pub struct CachedLookup {
    pub server_path: String,
    pub phase: CachedPhase,
}

/// The phase a lookup moves to when `event` arrives in `phase`.
pub open spec fn next_cached_phase(phase: CachedPhase, event: CachedEvent) -> CachedPhase {
    match (phase, event) {
        (CachedPhase::AwaitingScriptCheck, CachedEvent::ScriptExists(true)) => CachedPhase::AwaitingNodePath,
        _ => CachedPhase::Finished,
    }
}

/// The action that a lookup in `lookup.phase` takes when `event` arrives.
pub open spec fn cached_action_for(lookup: CachedLookup, event: CachedEvent, action: CachedAction) -> bool {
    match (lookup.phase, event) {
        (CachedPhase::AwaitingScriptCheck, CachedEvent::ScriptExists(true)) => action is ResolveNodePath,
        (CachedPhase::AwaitingScriptCheck, CachedEvent::ScriptExists(false)) => action matches CachedAction::ReportMissing {
            server_path,
        } && server_path@ == lookup.server_path@,
        (CachedPhase::AwaitingNodePath, CachedEvent::NodePath(Some(node_path))) => action matches CachedAction::Found(
            binary,
        ) && launches(binary, node_path@, lookup.server_path@),
        _ => action is NotFound,
    }
}

/// Order of the phases, in which a lookup only moves forward.
pub open spec fn cached_rank(phase: CachedPhase) -> nat {
    match phase {
        CachedPhase::AwaitingScriptCheck => 0,
        CachedPhase::AwaitingNodePath => 1,
        CachedPhase::Finished => 2,
    }
}

impl CachedLookup {
    /// Starts looking for a server installed with its script at
    /// `server_path`: first check that the script is there.
    pub fn start(server_path: String) -> (started: (CachedLookup, CachedAction))
        ensures
            started.0.server_path@ == server_path@,
            started.0.phase is AwaitingScriptCheck,
            started.1 matches CachedAction::CheckScript { server_path: p } && p@ == server_path@,
    {
        let action = CachedAction::CheckScript { server_path: server_path.clone() };
        (CachedLookup { server_path, phase: CachedPhase::AwaitingScriptCheck }, action)
    }

    /// Takes in what the editor reports and says what to do next.
    pub fn step(&mut self, event: CachedEvent) -> (action: CachedAction)
        ensures
            final(self).server_path == old(self).server_path,
            final(self).phase == next_cached_phase(old(self).phase, event),
            cached_action_for(*old(self), event, action),
            action is Found ==> old(self).phase is AwaitingNodePath && (event matches CachedEvent::NodePath(
                Some(_),
            )),
            event matches CachedEvent::ScriptExists(exists) ==> (old(self).phase is AwaitingScriptCheck
                ==> (action is ResolveNodePath <==> exists)),
            (old(self).phase is AwaitingScriptCheck && (event matches CachedEvent::ScriptExists(false)))
                ==> (action matches CachedAction::ReportMissing { server_path } && server_path@ == old(
                self,
            ).server_path@),
            old(self).phase is Finished ==> action is NotFound && final(self).phase is Finished,
            event matches CachedEvent::NodePath(Some(node_path)) ==> (old(self).phase is AwaitingNodePath
                ==> (action matches CachedAction::Found(binary) && launches(
                binary,
                node_path@,
                old(self).server_path@,
            ))),
    {
        match (self.phase, event) {
            (CachedPhase::AwaitingScriptCheck, CachedEvent::ScriptExists(exists)) => {
                if exists {
                    self.phase = CachedPhase::AwaitingNodePath;
                    CachedAction::ResolveNodePath
                } else {
                    self.phase = CachedPhase::Finished;
                    CachedAction::ReportMissing { server_path: self.server_path.clone() }
                }
            },
            (CachedPhase::AwaitingNodePath, CachedEvent::NodePath(Some(node_path))) => {
                self.phase = CachedPhase::Finished;
                CachedAction::Found(launch_binary(node_path, self.server_path.as_str()))
            },
            _ => {
                self.phase = CachedPhase::Finished;
                CachedAction::NotFound
            },
        }
    }
}

/// A lookup only moves forward: every event takes it to a later phase, and
/// a finished lookup stays finished. So every lookup finishes after at most
/// two events.
pub proof fn lemma_lookup_moves_forward(phase: CachedPhase, event: CachedEvent)
    ensures
        phase is Finished ==> next_cached_phase(phase, event) is Finished,
        !(phase is Finished) ==> cached_rank(next_cached_phase(phase, event)) > cached_rank(phase),
{
}

} // verus!
