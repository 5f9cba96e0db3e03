//! Language servers: one external process per language.
//!
//! The manager keeps the table of running servers and decides what a start
//! or stop request leads to. Creating and ending the processes is the
//! caller's part: the manager says which command to launch and hands back
//! the process to end, and the caller tells it what came of the launch.
//! A caller that shares the manager holds its lock from the request to the
//! report, so that no two requests for one language both launch.

pub mod commands;
pub mod lifecycle;

use vstd::prelude::*;
use crate::registry::Registry;

verus! {

/// How severe a diagnostic is.
#[derive(Clone, Copy, Debug, PartialEq, Eq, Structural)]
pub enum DiagnosticSeverity {
    Error,
    Warning,
    Information,
    Hint,
}

/// A message of a language server about a range of a file.
#[derive(Clone, Debug, PartialEq, Eq)]
pub struct Diagnostic {
    pub line: u32,
    pub column: u32,
    pub end_line: u32,
    pub end_column: u32,
    pub severity: DiagnosticSeverity,
    pub code: Option<String>,
    pub source: Option<String>,
    pub message: String,
}

/// A diagnostic with its texts as sequences of characters.
pub struct DiagnosticView {
    pub line: u32,
    pub column: u32,
    pub end_line: u32,
    pub end_column: u32,
    pub severity: DiagnosticSeverity,
    pub code: Option<Seq<char>>,
    pub source: Option<Seq<char>>,
    pub message: Seq<char>,
}

impl DeepView for Diagnostic {
    type V = DiagnosticView;

    open spec fn deep_view(&self) -> DiagnosticView {
        DiagnosticView {
            line: self.line,
            column: self.column,
            end_line: self.end_line,
            end_column: self.end_column,
            severity: self.severity,
            code: self.code.deep_view(),
            source: self.source.deep_view(),
            message: self.message@,
        }
    }
}

/// The executable of a language server and the arguments to start it with.
#[derive(Clone, Debug, PartialEq, Eq)]
pub struct LaunchCommand {
    pub program: String,
    pub args: Vec<String>,
}

/// A launch command with its texts as sequences of characters.
pub struct LaunchView {
    pub program: Seq<char>,
    pub args: Seq<Seq<char>>,
}

impl DeepView for LaunchCommand {
    type V = LaunchView;

    open spec fn deep_view(&self) -> LaunchView {
        LaunchView { program: self.program@, args: self.args.deep_view() }
    }
}

/// The server that is configured for a language: its executable and
/// arguments, or nothing for a language without one. Only the Java server
/// is told the project root.
pub open spec fn configured_command(language_id: Seq<char>, root_path: Seq<char>) -> Option<
    LaunchView,
> {
    if language_id == "typescript"@ || language_id == "javascript"@ {
        Some(LaunchView { program: "typescript-language-server"@, args: seq!["--stdio"@] })
    } else if language_id == "python"@ {
        Some(LaunchView { program: "pylsp"@, args: Seq::empty() })
    } else if language_id == "rust"@ {
        Some(LaunchView { program: "rust-analyzer"@, args: Seq::empty() })
    } else if language_id == "go"@ {
        Some(LaunchView { program: "gopls"@, args: seq!["serve"@, "-rpc.trace"@] })
    } else if language_id == "java"@ {
        Some(LaunchView { program: "jdtls"@, args: seq!["-data"@, root_path] })
    } else if language_id == "html"@ || language_id == "css"@ {
        Some(LaunchView { program: "vscode-html-language-server"@, args: seq!["--stdio"@] })
    } else {
        None
    }
}

fn command(program: &str, args: Vec<String>) -> (r: LaunchCommand)
    ensures
        r.deep_view() == (LaunchView { program: program@, args: args.deep_view() }),
{
    LaunchCommand { program: program.to_owned(), args }
}

fn no_args() -> (r: Vec<String>)
    ensures
        r.deep_view() == Seq::<Seq<char>>::empty(),
{
    let r: Vec<String> = Vec::new();
    assert(r.deep_view() =~= Seq::<Seq<char>>::empty());
    r
}

fn one_arg(first: &str) -> (r: Vec<String>)
    ensures
        r.deep_view() == seq![first@],
{
    let mut r: Vec<String> = Vec::new();
    r.push(first.to_owned());
    assert(r.deep_view() =~= seq![first@]);
    r
}

fn two_args(first: &str, second: &str) -> (r: Vec<String>)
    ensures
        r.deep_view() == seq![first@, second@],
{
    let mut r: Vec<String> = Vec::new();
    r.push(first.to_owned());
    r.push(second.to_owned());
    assert(r.deep_view() =~= seq![first@, second@]);
    r
}

/// Looks up the server that is configured for `language_id`.
pub fn server_command(language_id: &str, root_path: &str) -> (r: Option<LaunchCommand>)
    ensures
        r.deep_view() == configured_command(language_id@, root_path@),
{
    if language_id.eq("typescript") || language_id.eq("javascript") {
        Some(command("typescript-language-server", one_arg("--stdio")))
    } else if language_id.eq("python") {
        Some(command("pylsp", no_args()))
    } else if language_id.eq("rust") {
        Some(command("rust-analyzer", no_args()))
    } else if language_id.eq("go") {
        Some(command("gopls", two_args("serve", "-rpc.trace")))
    } else if language_id.eq("java") {
        Some(command("jdtls", two_args("-data", root_path)))
    } else if language_id.eq("html") || language_id.eq("css") {
        Some(command("vscode-html-language-server", one_arg("--stdio")))
    } else {
        None
    }
}

/// Why a request to the manager failed.
#[derive(Clone, Debug, PartialEq, Eq)]
pub enum LspError {
    /// No server is known for the language; holds the language.
    NoServerConfigured(String),
    /// The server's process could not be created; holds the system's reason.
    SpawnFailed(String),
    /// No server is registered for the language; holds the language.
    NotRunning(String),
    /// The server's process could not be ended; holds the system's reason.
    StopFailed(String),
}

/// An error with its text as a sequence of characters.
pub enum LspErrorView {
    NoServerConfigured(Seq<char>),
    SpawnFailed(Seq<char>),
    NotRunning(Seq<char>),
    StopFailed(Seq<char>),
}

impl DeepView for LspError {
    type V = LspErrorView;

    open spec fn deep_view(&self) -> LspErrorView {
        match self {
            LspError::NoServerConfigured(l) => LspErrorView::NoServerConfigured(l@),
            LspError::SpawnFailed(m) => LspErrorView::SpawnFailed(m@),
            LspError::NotRunning(l) => LspErrorView::NotRunning(l@),
            LspError::StopFailed(m) => LspErrorView::StopFailed(m@),
        }
    }
}

/// The message that an error is shown with.
pub open spec fn error_message(error: LspErrorView) -> Seq<char> {
    match error {
        LspErrorView::NoServerConfigured(l) => "No language server configured for "@ + l,
        LspErrorView::SpawnFailed(m) => "Failed to start language server: "@ + m,
        LspErrorView::NotRunning(l) => "No language server running for "@ + l,
        LspErrorView::StopFailed(m) => "Failed to stop language server: "@ + m,
    }
}

impl LspError {
    /// The message to show to the user.
    pub fn message(&self) -> (r: String)
        ensures
            r@ == error_message(self.deep_view()),
    {
        match self {
            LspError::NoServerConfigured(l) => "No language server configured for ".to_owned().concat(
                l.as_str(),
            ),
            LspError::SpawnFailed(m) => "Failed to start language server: ".to_owned().concat(
                m.as_str(),
            ),
            LspError::NotRunning(l) => "No language server running for ".to_owned().concat(
                l.as_str(),
            ),
            LspError::StopFailed(m) => "Failed to stop language server: ".to_owned().concat(
                m.as_str(),
            ),
        }
    }
}

/// What the caller of `start_server` has to do next.
#[derive(Clone, Debug, PartialEq, Eq)]
pub enum StartStep {
    /// A server is registered for the language: nothing is launched.
    AlreadyRunning,
    /// Launch this command and report what came of it.
    Launch(LaunchCommand),
}

/// A start step with its texts as sequences of characters.
pub enum StartStepView {
    AlreadyRunning,
    Launch(LaunchView),
}

impl DeepView for StartStep {
    type V = StartStepView;

    open spec fn deep_view(&self) -> StartStepView {
        match self {
            StartStep::AlreadyRunning => StartStepView::AlreadyRunning,
            StartStep::Launch(c) => StartStepView::Launch(c.deep_view()),
        }
    }
}

/// What a request to start a server for `language_id` leads to when the
/// languages in `running` have a server: nothing where one is running, the
/// configured command where the language has one, an error where it has
/// none.
pub open spec fn start_decision(
    running: Set<Seq<char>>,
    language_id: Seq<char>,
    root_path: Seq<char>,
) -> Result<StartStepView, LspErrorView> {
    if running.contains(language_id) {
        Ok(StartStepView::AlreadyRunning)
    } else {
        match configured_command(language_id, root_path) {
            Some(c) => Ok(StartStepView::Launch(c)),
            None => Err(LspErrorView::NoServerConfigured(language_id)),
        }
    }
}

/// The views of a start decision's two sides.
pub open spec fn start_view(r: Result<StartStep, LspError>) -> Result<StartStepView, LspErrorView> {
    match r {
        Ok(step) => Ok(step.deep_view()),
        Err(e) => Err(e.deep_view()),
    }
}

/// The root URI of a project root: the path behind the `file` scheme.
pub open spec fn root_uri_of(root_path: Seq<char>) -> Seq<char> {
    "file://"@ + root_path
}

/// The root URI registered for a language, if a server is running for it.
pub open spec fn registered_root<H>(
    servers: Map<Seq<char>, ServerView<H>>,
    language_id: Seq<char>,
) -> Option<Seq<char>> {
    if servers.contains_key(language_id) {
        Some(servers[language_id].root_uri)
    } else {
        None
    }
}

/// One running server: its process and the root URI it was started for.
pub struct ManagedProcess<H> {
    process: H,
    root_uri: String,
}

/// A running server as the contracts see it.
pub struct ServerView<H> {
    pub process: H,
    pub root_uri: Seq<char>,
}

/// The table of running language servers, at most one per language. `H` is
/// the handle of a server's process; the manager owns it from the report of
/// the launch until the server is stopped.
pub struct LanguageServerManager<H> {
    servers: Registry<ManagedProcess<H>>,
}

impl<H> LanguageServerManager<H> {
    /// The running servers by language.
    pub closed spec fn view(&self) -> Map<Seq<char>, ServerView<H>> {
        Map::new(
            |l: Seq<char>| self.servers@.contains_key(l),
            |l: Seq<char>|
                ServerView { process: self.servers@[l].process, root_uri: self.servers@[l].root_uri@ },
        )
    }

    /// A manager without servers.
    pub fn new() -> (r: Self)
        ensures
            r@ == Map::<Seq<char>, ServerView<H>>::empty(),
    {
        let r = LanguageServerManager { servers: Registry::new() };
        assert(r@ =~= Map::<Seq<char>, ServerView<H>>::empty());
        r
    }

    /// Decides what a request to start the server of `language_id` for the
    /// project at `root_path` leads to. The table is not changed: a launch
    /// is registered when its outcome is reported.
    pub fn start_server(&self, language_id: &str, root_path: &str) -> (r: Result<
        StartStep,
        LspError,
    >)
        ensures
            start_view(r) == start_decision(self@.dom(), language_id@, root_path@),
    {
        if self.servers.contains_key(language_id) {
            Ok(StartStep::AlreadyRunning)
        } else {
            match server_command(language_id, root_path) {
                Some(c) => Ok(StartStep::Launch(c)),
                None => Err(LspError::NoServerConfigured(language_id.to_owned())),
            }
        }
    }

    /// Takes the report of a launch. A process that was created is
    /// registered under `language_id` with the root URI of `root_path`; a
    /// failure leaves the table as it is and becomes a spawn error with the
    /// system's reason.
    pub fn server_started(
        &mut self,
        language_id: &str,
        root_path: &str,
        spawned: Result<H, String>,
    ) -> (r: Result<(), LspError>)
        ensures
            match spawned {
                Ok(process) => r is Ok && final(self)@ == old(self)@.insert(
                    language_id@,
                    ServerView { process, root_uri: root_uri_of(root_path@) },
                ),
                Err(reason) => r is Err && r->Err_0.deep_view() == LspErrorView::SpawnFailed(
                    reason@,
                ) && final(self)@ == old(self)@,
            },
    {
        match spawned {
            Ok(process) => {
                let ghost before = self@;
                let root_uri = "file://".to_owned().concat(root_path);
                self.servers.insert(language_id.to_owned(), ManagedProcess { process, root_uri });
                assert(self@ =~= before.insert(
                    language_id@,
                    ServerView { process, root_uri: root_uri_of(root_path@) },
                ));
                Ok(())
            },
            Err(reason) => Err(LspError::SpawnFailed(reason)),
        }
    }

    /// Takes the server of `language_id` out of the table and hands its
    /// process to the caller, who ends it. Without such a server the table
    /// stays as it is and the request fails.
    pub fn stop_server(&mut self, language_id: &str) -> (r: Result<H, LspError>)
        ensures
            final(self)@ == old(self)@.remove(language_id@),
            match r {
                Ok(process) => old(self)@.contains_key(language_id@) && process == old(
                    self,
                )@[language_id@].process,
                Err(e) => !old(self)@.contains_key(language_id@) && e.deep_view()
                    == LspErrorView::NotRunning(language_id@),
            },
    {
        let ghost before = self@;
        let removed = self.servers.remove(language_id);
        assert(self@ =~= before.remove(language_id@));
        match removed {
            Some(server) => Ok(server.process),
            None => Err(LspError::NotRunning(language_id.to_owned())),
        }
    }

    /// The root URI that the server of `language_id` was started for, if one
    /// is registered.
    pub fn get_root_uri(&self, language_id: &str) -> (r: Option<String>)
        ensures
            r.deep_view() == registered_root(self@, language_id@),
    {
        match self.servers.get(language_id) {
            Some(server) => Some(server.root_uri.clone()),
            None => None,
        }
    }
}

/// Takes the report of an attempt to end a stopped server's process. The
/// server is out of the table either way; a failure becomes a termination
/// error with the system's reason.
pub fn server_stopped(ended: Result<(), String>) -> (r: Result<(), LspError>)
    ensures
        match ended {
            Ok(_) => r is Ok,
            Err(reason) => r is Err && r->Err_0.deep_view() == LspErrorView::StopFailed(reason@),
        },
{
    match ended {
        Ok(_) => Ok(()),
        Err(reason) => Err(LspError::StopFailed(reason)),
    }
}

} // verus!
