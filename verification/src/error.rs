//! The failures that a command reports, and the messages that describe them.

use vstd::prelude::*;
use vstd::string::StringExecFns;

verus! {

/// A prerequisite of the browser subprocess.
#[derive(Debug, Clone, Copy, PartialEq, Eq, Structural)]
pub enum Component {
    /// The browser binary that the script drives.
    TargetBinary,
    /// The automation script.
    Script,
    /// The runtime that executes the script.
    Runtime,
}

/// An operation on the file system or on the operating system that may fail.
#[derive(Debug, Clone, Copy, PartialEq, Eq, Structural)]
pub enum IoOperation {
    LocateConfigDir,
    LocateDataDir,
    CreateConfigDir,
    EncodeConfig,
    WriteConfig,
    ReadApiKey,
    WriteApiKey,
    OpenUrl,
    SendRequest,
    ParseResponse,
}

/// An operation that failed, with the cause as the system described it.
#[derive(Debug, PartialEq, Eq)]
pub struct IoFault {
    pub operation: IoOperation,
    pub cause: String,
}

/// The values of an `IoFault`.
pub struct IoFaultView {
    pub operation: IoOperation,
    pub cause: Seq<char>,
}

impl View for IoFault {
    type V = IoFaultView;

    open spec fn view(&self) -> IoFaultView {
        IoFaultView { operation: self.operation, cause: self.cause@ }
    }
}

/// Why a command failed.
#[derive(Debug, PartialEq, Eq)]
pub enum LaunchError {
    /// A prerequisite was not found at any of the places checked.
    EnvironmentMissing { component: Component, checked: Vec<String> },
    /// An operation failed, for the cause given.
    Io { operation: IoOperation, cause: String },
    /// The subprocess could not be started.
    SpawnFailure { cause: String, program: String, script: String },
    /// Waiting for the subprocess to end failed.
    ProcessWait { cause: String },
}

/// The values of a `LaunchError`.
pub enum LaunchErrorView {
    EnvironmentMissing { component: Component, checked: Seq<Seq<char>> },
    Io { operation: IoOperation, cause: Seq<char> },
    SpawnFailure { cause: Seq<char>, program: Seq<char>, script: Seq<char> },
    ProcessWait { cause: Seq<char> },
}

impl View for LaunchError {
    type V = LaunchErrorView;

    open spec fn view(&self) -> LaunchErrorView {
        match self {
            LaunchError::EnvironmentMissing { component, checked } => {
                LaunchErrorView::EnvironmentMissing {
                    component: *component,
                    checked: checked.deep_view(),
                }
            },
            LaunchError::Io { operation, cause } => LaunchErrorView::Io {
                operation: *operation,
                cause: cause@,
            },
            LaunchError::SpawnFailure { cause, program, script } => LaunchErrorView::SpawnFailure {
                cause: cause@,
                program: program@,
                script: script@,
            },
            LaunchError::ProcessWait { cause } => LaunchErrorView::ProcessWait { cause: cause@ },
        }
    }
}

impl Component {
    /// What the component is called.
    pub open spec fn spec_name(self) -> Seq<char> {
        match self {
            Component::TargetBinary => "target binary"@,
            Component::Script => "script"@,
            Component::Runtime => "runtime"@,
        }
    }

    /// The sentence that says that the component is missing.
    pub open spec fn spec_headline(self) -> Seq<char> {
        match self {
            Component::TargetBinary => "Chrome not found."@,
            Component::Script => "Puppeteer script not found."@,
            Component::Runtime =>
                "Node.js not found in PATH. Please ensure Node.js is installed and accessible."@,
        }
    }

    pub fn name(&self) -> (name: &'static str)
        ensures
            name@ == self.spec_name(),
    {
        match self {
            Component::TargetBinary => "target binary",
            Component::Script => "script",
            Component::Runtime => "runtime",
        }
    }

    pub fn headline(&self) -> (text: &'static str)
        ensures
            text@ == self.spec_headline(),
    {
        match self {
            Component::TargetBinary => "Chrome not found.",
            Component::Script => "Puppeteer script not found.",
            Component::Runtime =>
                "Node.js not found in PATH. Please ensure Node.js is installed and accessible.",
        }
    }
}

impl IoOperation {
    /// The sentence that says that the operation failed.
    pub open spec fn spec_headline(self) -> Seq<char> {
        match self {
            IoOperation::LocateConfigDir => "Config directory not found"@,
            IoOperation::LocateDataDir => "Data directory not found"@,
            IoOperation::CreateConfigDir => "Failed to create config directory"@,
            IoOperation::EncodeConfig => "Failed to encode config"@,
            IoOperation::WriteConfig => "Failed to write config"@,
            IoOperation::ReadApiKey => "Failed to read API key"@,
            IoOperation::WriteApiKey => "Failed to write API key"@,
            IoOperation::OpenUrl => "Failed to open URL"@,
            IoOperation::SendRequest => "Failed to send request to Groq API"@,
            IoOperation::ParseResponse => "Failed to parse response"@,
        }
    }

    pub fn headline(&self) -> (text: &'static str)
        ensures
            text@ == self.spec_headline(),
    {
        match self {
            IoOperation::LocateConfigDir => "Config directory not found",
            IoOperation::LocateDataDir => "Data directory not found",
            IoOperation::CreateConfigDir => "Failed to create config directory",
            IoOperation::EncodeConfig => "Failed to encode config",
            IoOperation::WriteConfig => "Failed to write config",
            IoOperation::ReadApiKey => "Failed to read API key",
            IoOperation::WriteApiKey => "Failed to write API key",
            IoOperation::OpenUrl => "Failed to open URL",
            IoOperation::SendRequest => "Failed to send request to Groq API",
            IoOperation::ParseResponse => "Failed to parse response",
        }
    }
}

/// The paths one below the other, each on a line of its own and indented.
pub open spec fn listing(paths: Seq<Seq<char>>) -> Seq<char>
    decreases paths.len(),
{
    if paths.len() == 0 {
        Seq::empty()
    } else {
        listing(paths.drop_last()) + "\n  "@ + paths.last()
    }
}

/// The headline of a failed operation, followed by its cause if one is
/// known.
pub open spec fn with_cause(headline: Seq<char>, cause: Seq<char>) -> Seq<char> {
    if cause.len() == 0 {
        headline
    } else {
        headline + ": "@ + cause
    }
}

impl LaunchErrorView {
    /// The message shown for the error.
    pub open spec fn message(self) -> Seq<char> {
        match self {
            LaunchErrorView::EnvironmentMissing { component, checked } => {
                component.spec_headline() + " Checked:"@ + listing(checked)
            },
            LaunchErrorView::Io { operation, cause } => with_cause(
                operation.spec_headline(),
                cause,
            ),
            LaunchErrorView::SpawnFailure { cause, program, script } => {
                "Failed to spawn puppeteer process: "@ + cause + ". Node path: \""@ + program
                    + "\", Script path: \""@ + script + "\""@
            },
            LaunchErrorView::ProcessWait { cause } => {
                "Error waiting for puppeteer process: "@ + cause
            },
        }
    }
}

/// The part stands somewhere in the text.
pub open spec fn occurs(text: Seq<char>, part: Seq<char>) -> bool {
    exists|at: int|
        0 <= at && at + part.len() <= text.len() && #[trigger] text.subrange(
            at,
            at + part.len(),
        ) == part
}

/// Every path of a listing stands in it.
pub proof fn lemma_listing_names_every_path(paths: Seq<Seq<char>>, i: int)
    requires
        0 <= i < paths.len(),
    ensures
        occurs(listing(paths), paths[i]),
    decreases paths.len(),
{
    let front = listing(paths.drop_last()) + "\n  "@;
    let whole = listing(paths);
    assert(whole == front + paths.last());
    if i == paths.len() - 1 {
        assert(whole.subrange(front.len() as int, (front.len() + paths[i].len()) as int) =~= paths[i]);
    } else {
        lemma_listing_names_every_path(paths.drop_last(), i);
        let inner = listing(paths.drop_last());
        let at = choose|at: int|
            0 <= at && at + paths[i].len() <= inner.len() && #[trigger] inner.subrange(
                at,
                at + paths[i].len(),
            ) == paths[i];
        assert(paths.drop_last()[i] == paths[i]);
        assert(whole.subrange(at, at + paths[i].len()) =~= inner.subrange(
            at,
            at + paths[i].len(),
        ));
    }
}

/// The message for a missing prerequisite names every place that was
/// checked.
pub proof fn lemma_message_names_every_path(
    component: Component,
    checked: Seq<Seq<char>>,
    i: int,
)
    requires
        0 <= i < checked.len(),
    ensures
        occurs(LaunchErrorView::EnvironmentMissing { component, checked }.message(), checked[i]),
{
    lemma_listing_names_every_path(checked, i);
    let list = listing(checked);
    let head = component.spec_headline() + " Checked:"@;
    let whole = head + list;
    let at = choose|at: int|
        0 <= at && at + checked[i].len() <= list.len() && #[trigger] list.subrange(
            at,
            at + checked[i].len(),
        ) == checked[i];
    assert(whole.subrange(head.len() + at, head.len() + at + checked[i].len()) =~= list.subrange(
        at,
        at + checked[i].len(),
    ));
}

fn list_paths(text: &mut String, paths: &Vec<String>)
    ensures
        final(text)@ == old(text)@ + listing(paths.deep_view()),
{
    let mut i: usize = 0;
    assert(paths.deep_view().take(0) =~= Seq::<Seq<char>>::empty());
    assert(text@ =~= old(text)@ + listing(paths.deep_view().take(0)));
    while i < paths.len()
        invariant
            i <= paths.len(),
            text@ == old(text)@ + listing(paths.deep_view().take(i as int)),
        decreases paths.len() - i,
    {
        text.append("\n  ");
        text.append(paths[i].as_str());
        proof {
            let all = paths.deep_view();
            assert(all.take(i + 1).drop_last() =~= all.take(i as int));
            assert(all.take(i + 1).last() == paths[i as int]@);
            assert(text@ =~= old(text)@ + listing(all.take(i + 1)));
        }
        i = i + 1;
    }
    assert(paths.deep_view().take(paths.len() as int) =~= paths.deep_view());
}

/// The message for a failed operation.
pub fn io_message(operation: IoOperation, cause: &str) -> (text: String)
    ensures
        text@ == with_cause(operation.spec_headline(), cause@),
{
    let mut text = String::from_str(operation.headline());
    if cause.unicode_len() > 0 {
        text.append(": ");
        text.append(cause);
    }
    text
}

impl LaunchError {
    /// The message shown for the error.
    pub fn message(&self) -> (text: String)
        ensures
            text@ == self@.message(),
    {
        match self {
            LaunchError::EnvironmentMissing { component, checked } => {
                let mut text = String::from_str(component.headline());
                text.append(" Checked:");
                list_paths(&mut text, checked);
                text
            },
            LaunchError::Io { operation, cause } => io_message(*operation, cause.as_str()),
            LaunchError::SpawnFailure { cause, program, script } => {
                let mut text = String::from_str("Failed to spawn puppeteer process: ");
                text.append(cause.as_str());
                text.append(". Node path: \"");
                text.append(program.as_str());
                text.append("\", Script path: \"");
                text.append(script.as_str());
                text.append("\"");
                text
            },
            LaunchError::ProcessWait { cause } => {
                let mut text = String::from_str("Error waiting for puppeteer process: ");
                text.append(cause.as_str());
                text
            },
        }
    }
}

} // verus!
