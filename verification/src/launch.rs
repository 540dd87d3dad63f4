//! The workflow that opens the automation browser.
//!
//! The workflow alternates between decisions and work that only the running
//! system can do: probing the file system, writing a file, notifying the user
//! interface, starting a process. The decisions are here, as a machine: it is
//! told what happened and answers with what is to be done next. Whoever
//! drives it performs the action and reports the result.

use vstd::prelude::*;
use vstd::string::StringExecFns;
use crate::config::{TypeConfig, TypeConfigView};
use crate::config_file::{holds, rendered, type_config_text};
use crate::discovery::{runtime_name, spec_runtime_name};
use crate::error::{
    lemma_message_names_every_path, occurs, Component, IoFault, IoFaultView, IoOperation,
    LaunchError, LaunchErrorView,
};
use crate::events::ProcessEvent;
use crate::supervisor::PuppeteerProcess;

verus! {

/// A program and the arguments it is started with.
#[derive(Debug, PartialEq, Eq)]
pub struct CommandLine {
    pub program: String,
    pub args: Vec<String>,
}

/// The values of a `CommandLine`.
pub struct CommandLineView {
    pub program: Seq<char>,
    pub args: Seq<Seq<char>>,
}

impl View for CommandLine {
    type V = CommandLineView;

    open spec fn view(&self) -> CommandLineView {
        CommandLineView { program: self.program@, args: self.args.deep_view() }
    }
}

/// What the workflow needs of the application's own files.
#[derive(Debug, PartialEq, Eq)]
pub struct LaunchContext {
    /// The directory for the browser's data.
    pub data_dir: String,
    /// The path of the configuration file.
    pub config_path: String,
    /// The API key, if one is stored.
    pub secret: Option<String>,
}

/// The values of a `LaunchContext`.
pub struct LaunchContextView {
    pub data_dir: Seq<char>,
    pub config_path: Seq<char>,
    pub secret: Option<Seq<char>>,
}

impl View for LaunchContext {
    type V = LaunchContextView;

    open spec fn view(&self) -> LaunchContextView {
        LaunchContextView {
            data_dir: self.data_dir@,
            config_path: self.config_path@,
            secret: match self.secret {
                Some(secret) => Some(secret@),
                None => None,
            },
        }
    }
}

/// What the driver reports.
pub enum LaunchEvent<H> {
    /// The answer to `Locate`: the path found, or every place checked.
    Located(Result<String, Vec<String>>),
    /// The answer to `Prepare`: the application's files, or what failed.
    Prepared(Result<LaunchContext, IoFault>),
    /// The answer to `Snapshot`: the configuration as it is now.
    Snapshot(TypeConfig),
    /// The answer to `Persist`: done, or the cause of the failure.
    Persisted(Result<(), String>),
    /// The answer to `Emit`: the emission was attempted.
    Announced,
    /// The answer to `Lookup`: where the search path has the program, if it
    /// has it.
    LookedUp(Option<String>),
    /// The answer to `Spawn`: the handle, or the cause of the failure.
    Spawned(Result<H, String>),
}

/// The values of a `LaunchEvent`.
pub enum LaunchEventView<H> {
    Located(Result<Seq<char>, Seq<Seq<char>>>),
    Prepared(Result<LaunchContextView, IoFaultView>),
    Snapshot(TypeConfigView),
    Persisted(Result<(), Seq<char>>),
    Announced,
    LookedUp(Option<Seq<char>>),
    Spawned(Result<H, Seq<char>>),
}

impl<H> View for LaunchEvent<H> {
    type V = LaunchEventView<H>;

    open spec fn view(&self) -> LaunchEventView<H> {
        match self {
            LaunchEvent::Located(Ok(path)) => LaunchEventView::Located(Ok(path@)),
            LaunchEvent::Located(Err(checked)) => LaunchEventView::Located(
                Err(checked.deep_view()),
            ),
            LaunchEvent::Prepared(Ok(context)) => LaunchEventView::Prepared(Ok(context@)),
            LaunchEvent::Prepared(Err(failure)) => LaunchEventView::Prepared(Err(failure@)),
            LaunchEvent::Snapshot(config) => LaunchEventView::Snapshot(config@),
            LaunchEvent::Persisted(Ok(_)) => LaunchEventView::Persisted(Ok(())),
            LaunchEvent::Persisted(Err(cause)) => LaunchEventView::Persisted(Err(cause@)),
            LaunchEvent::Announced => LaunchEventView::Announced,
            LaunchEvent::LookedUp(Some(program)) => LaunchEventView::LookedUp(Some(program@)),
            LaunchEvent::LookedUp(None) => LaunchEventView::LookedUp(None),
            LaunchEvent::Spawned(Ok(handle)) => LaunchEventView::Spawned(Ok(*handle)),
            LaunchEvent::Spawned(Err(cause)) => LaunchEventView::Spawned(Err(cause@)),
        }
    }
}

/// What the driver is to do next.
#[derive(Debug, PartialEq, Eq)]
pub enum LaunchAction {
    /// Search the component among its candidates and report `Located`.
    Locate(Component),
    /// Resolve the data directory and the configuration file, creating the
    /// configuration directory if it is absent, read the API key if it is
    /// stored, and report `Prepared`.
    Prepare,
    /// Take a snapshot of the configuration and report `Snapshot`.
    Snapshot,
    /// Write the text to the file and report `Persisted`.
    Persist { path: String, text: String },
    /// Try to send the event and report `Announced`, whether or not the
    /// event went out.
    Emit(ProcessEvent),
    /// Look the program up on the search path and report `LookedUp`.
    Lookup { program: String },
    /// Start the program with its output streams captured and report
    /// `Spawned`.
    Spawn(CommandLine),
    /// The subprocess is registered: start its monitor. The command has
    /// succeeded.
    Monitor,
    /// The command has failed.
    Fail(LaunchError),
    /// The event was not the answer awaited: nothing changed and nothing is
    /// to be done.
    Idle,
}

/// The values of a `LaunchAction`.
pub enum LaunchActionView {
    Locate(Component),
    Prepare,
    Snapshot,
    Persist { path: Seq<char>, text: Seq<char> },
    Emit(ProcessEvent),
    Lookup { program: Seq<char> },
    Spawn(CommandLineView),
    Monitor,
    Fail(LaunchErrorView),
    Idle,
}

impl View for LaunchAction {
    type V = LaunchActionView;

    open spec fn view(&self) -> LaunchActionView {
        match self {
            LaunchAction::Locate(component) => LaunchActionView::Locate(*component),
            LaunchAction::Prepare => LaunchActionView::Prepare,
            LaunchAction::Snapshot => LaunchActionView::Snapshot,
            LaunchAction::Persist { path, text } => LaunchActionView::Persist {
                path: path@,
                text: text@,
            },
            LaunchAction::Emit(event) => LaunchActionView::Emit(*event),
            LaunchAction::Lookup { program } => LaunchActionView::Lookup { program: program@ },
            LaunchAction::Spawn(command) => LaunchActionView::Spawn(command@),
            LaunchAction::Monitor => LaunchActionView::Monitor,
            LaunchAction::Fail(error) => LaunchActionView::Fail(error@),
            LaunchAction::Idle => LaunchActionView::Idle,
        }
    }
}

/// What the workflow has gathered once the script is found.
#[derive(Debug, PartialEq, Eq)]
pub struct Ready {
    pub target: String,
    pub context: LaunchContext,
    pub script: String,
}

/// The values of a `Ready`.
pub struct ReadyView {
    pub target: Seq<char>,
    pub context: LaunchContextView,
    pub script: Seq<char>,
}

impl View for Ready {
    type V = ReadyView;

    open spec fn view(&self) -> ReadyView {
        ReadyView { target: self.target@, context: self.context@, script: self.script@ }
    }
}

/// One run of the workflow: the answer it awaits, and what it has learnt so
/// far.
#[derive(Debug, PartialEq, Eq)]
pub enum Launch {
    /// Awaits the browser binary.
    Target,
    /// Awaits the application's files.
    Prepare { target: String },
    /// Awaits the script.
    Script { target: String, context: LaunchContext },
    /// Awaits the configuration.
    Snapshot(Ready),
    /// Awaits the writing of the configuration file.
    Persist(Ready),
    /// Awaits the attempt to announce the opening.
    Announce(Ready),
    /// Awaits the runtime from the search path.
    Lookup(Ready),
    /// Awaits the runtime from its fallback places.
    Runtime(Ready),
    /// Awaits the subprocess.
    Spawn { program: String, script: String },
    /// Has ended, with success or with a failure.
    Done,
}

/// The values of a `Launch`.
pub enum LaunchView {
    Target,
    Prepare { target: Seq<char> },
    Script { target: Seq<char>, context: LaunchContextView },
    Snapshot(ReadyView),
    Persist(ReadyView),
    Announce(ReadyView),
    Lookup(ReadyView),
    Runtime(ReadyView),
    Spawn { program: Seq<char>, script: Seq<char> },
    Done,
}

impl View for Launch {
    type V = LaunchView;

    open spec fn view(&self) -> LaunchView {
        match self {
            Launch::Target => LaunchView::Target,
            Launch::Prepare { target } => LaunchView::Prepare { target: target@ },
            Launch::Script { target, context } => LaunchView::Script {
                target: target@,
                context: context@,
            },
            Launch::Snapshot(ready) => LaunchView::Snapshot(ready@),
            Launch::Persist(ready) => LaunchView::Persist(ready@),
            Launch::Announce(ready) => LaunchView::Announce(ready@),
            Launch::Lookup(ready) => LaunchView::Lookup(ready@),
            Launch::Runtime(ready) => LaunchView::Runtime(ready@),
            Launch::Spawn { program, script } => LaunchView::Spawn {
                program: program@,
                script: script@,
            },
            Launch::Done => LaunchView::Done,
        }
    }
}

/// The machine after an event, with what is to be done.
pub struct Step<H> {
    pub launch: Launch,
    pub action: LaunchAction,
    /// A handle that the slot does not track: the one that a new subprocess
    /// displaced, or one that was reported out of turn. It is the driver's
    /// to dispose of.
    pub untracked: Option<H>,
}

/// The values of a `Step`, together with the slot after it.
pub struct StepView<H> {
    pub launch: LaunchView,
    pub slot: Option<H>,
    pub action: LaunchActionView,
    pub untracked: Option<H>,
}

/// The arguments of the subprocess, in their fixed order: the script, the
/// browser binary, the data directory, the configuration file, and the API
/// key or the empty text.
pub open spec fn spawn_args(ready: ReadyView) -> Seq<Seq<char>> {
    seq![
        ready.script,
        ready.target,
        ready.context.data_dir,
        ready.context.config_path,
        match ready.context.secret {
            Some(secret) => secret,
            None => Seq::empty(),
        },
    ]
}

/// The step that leaves everything as it is.
pub open spec fn stay<H>(launch: LaunchView, slot: Option<H>, untracked: Option<H>) -> StepView<
    H,
> {
    StepView { launch, slot, action: LaunchActionView::Idle, untracked }
}

/// The step to the next state.
pub open spec fn go<H>(slot: Option<H>, launch: LaunchView, action: LaunchActionView) -> StepView<
    H,
> {
    StepView { launch, slot, action, untracked: None }
}

/// The step that ends the workflow with an error.
pub open spec fn fail<H>(slot: Option<H>, error: LaunchErrorView) -> StepView<H> {
    go(slot, LaunchView::Done, LaunchActionView::Fail(error))
}

/// The step that asks for the subprocess to be started.
pub open spec fn start<H>(slot: Option<H>, ready: ReadyView, program: Seq<char>) -> StepView<H> {
    go(
        slot,
        LaunchView::Spawn { program, script: ready.script },
        LaunchActionView::Spawn(CommandLineView { program, args: spawn_args(ready) }),
    )
}

/// What an event does to the machine and to the slot.
pub open spec fn step<H>(launch: LaunchView, slot: Option<H>, event: LaunchEventView<H>) -> StepView<
    H,
> {
    match (launch, event) {
        (LaunchView::Target, LaunchEventView::Located(Ok(target))) => go(
            slot,
            LaunchView::Prepare { target },
            LaunchActionView::Prepare,
        ),
        (LaunchView::Target, LaunchEventView::Located(Err(checked))) => fail(
            slot,
            LaunchErrorView::EnvironmentMissing { component: Component::TargetBinary, checked },
        ),
        (LaunchView::Prepare { target }, LaunchEventView::Prepared(Ok(context))) => go(
            slot,
            LaunchView::Script { target, context },
            LaunchActionView::Locate(Component::Script),
        ),
        (LaunchView::Prepare { target }, LaunchEventView::Prepared(Err(failure))) => fail(
            slot,
            LaunchErrorView::Io { operation: failure.operation, cause: failure.cause },
        ),
        (LaunchView::Script { target, context }, LaunchEventView::Located(Ok(script))) => go(
            slot,
            LaunchView::Snapshot(ReadyView { target, context, script }),
            LaunchActionView::Snapshot,
        ),
        (LaunchView::Script { target, context }, LaunchEventView::Located(Err(checked))) => fail(
            slot,
            LaunchErrorView::EnvironmentMissing { component: Component::Script, checked },
        ),
        (LaunchView::Snapshot(ready), LaunchEventView::Snapshot(config)) => {
            match rendered(config) {
                Some(text) if holds(text, config) => go(
                    slot,
                    LaunchView::Persist(ready),
                    LaunchActionView::Persist { path: ready.context.config_path, text },
                ),
                _ => fail(
                    slot,
                    LaunchErrorView::Io {
                        operation: IoOperation::EncodeConfig,
                        cause: Seq::empty(),
                    },
                ),
            }
        },
        (LaunchView::Persist(ready), LaunchEventView::Persisted(Ok(_))) => go(
            slot,
            LaunchView::Announce(ready),
            LaunchActionView::Emit(ProcessEvent::Opening),
        ),
        (LaunchView::Persist(ready), LaunchEventView::Persisted(Err(cause))) => fail(
            slot,
            LaunchErrorView::Io { operation: IoOperation::WriteConfig, cause },
        ),
        (LaunchView::Announce(ready), LaunchEventView::Announced) => go(
            slot,
            LaunchView::Lookup(ready),
            LaunchActionView::Lookup { program: spec_runtime_name() },
        ),
        (LaunchView::Lookup(ready), LaunchEventView::LookedUp(Some(program))) => start(
            slot,
            ready,
            program,
        ),
        (LaunchView::Lookup(ready), LaunchEventView::LookedUp(None)) => go(
            slot,
            LaunchView::Runtime(ready),
            LaunchActionView::Locate(Component::Runtime),
        ),
        (LaunchView::Runtime(ready), LaunchEventView::Located(Ok(program))) => start(
            slot,
            ready,
            program,
        ),
        (LaunchView::Runtime(ready), LaunchEventView::Located(Err(checked))) => fail(
            slot,
            LaunchErrorView::EnvironmentMissing {
                component: Component::Runtime,
                checked: seq![spec_runtime_name()] + checked,
            },
        ),
        (LaunchView::Spawn { program, script }, LaunchEventView::Spawned(Ok(handle))) => StepView {
            launch: LaunchView::Done,
            slot: Some(handle),
            action: LaunchActionView::Monitor,
            untracked: slot,
        },
        (LaunchView::Spawn { program, script }, LaunchEventView::Spawned(Err(cause))) => fail(
            slot,
            LaunchErrorView::SpawnFailure { cause, program, script },
        ),
        (_, LaunchEventView::Spawned(Ok(handle))) => stay(launch, slot, Some(handle)),
        _ => stay(launch, slot, None),
    }
}

/// Starts the workflow. The first thing to do is to find the browser binary.
pub fn open_browser() -> (start: (Launch, LaunchAction))
    ensures
        start.0@ == LaunchView::Target,
        start.1@ == LaunchActionView::Locate(Component::TargetBinary),
{
    (Launch::Target, LaunchAction::Locate(Component::TargetBinary))
}

fn failed<H>(error: LaunchError) -> (next: Step<H>)
    ensures
        next.launch@ == LaunchView::Done,
        next.action@ == LaunchActionView::Fail(error@),
        next.untracked is None,
{
    Step { launch: Launch::Done, action: LaunchAction::Fail(error), untracked: None }
}

fn started<H>(ready: Ready, program: String) -> (next: Step<H>)
    ensures
        next.launch@ == (LaunchView::Spawn { program: program@, script: ready.script@ }),
        next.action@ == LaunchActionView::Spawn(
            CommandLineView { program: program@, args: spawn_args(ready@) },
        ),
        next.untracked is None,
{
    let Ready { target, context, script } = ready;
    let LaunchContext { data_dir, config_path, secret } = context;
    let secret = match secret {
        Some(secret) => secret,
        None => String::new(),
    };
    let args = vec![script.clone(), target, data_dir, config_path, secret];
    assert(args.deep_view() =~= spawn_args(ready@));
    Step {
        launch: Launch::Spawn { program: program.clone(), script },
        action: LaunchAction::Spawn(CommandLine { program, args }),
        untracked: None,
    }
}

impl Launch {
    /// Takes an event and says what is to be done next. Only the handle of a
    /// subprocess that was started in turn enters the slot.
    pub fn step<H>(self, event: LaunchEvent<H>, slot: &mut PuppeteerProcess<H>) -> (next: Step<H>)
        ensures
            ({
                let model = step(self@, old(slot)@, event@);
                &&& next.launch@ == model.launch
                &&& next.action@ == model.action
                &&& next.untracked == model.untracked
                &&& final(slot)@ == model.slot
            }),
    {
        match (self, event) {
            (Launch::Target, LaunchEvent::Located(Ok(target))) => Step {
                launch: Launch::Prepare { target },
                action: LaunchAction::Prepare,
                untracked: None,
            },
            (Launch::Target, LaunchEvent::Located(Err(checked))) => failed(
                LaunchError::EnvironmentMissing { component: Component::TargetBinary, checked },
            ),
            (Launch::Prepare { target }, LaunchEvent::Prepared(Ok(context))) => Step {
                launch: Launch::Script { target, context },
                action: LaunchAction::Locate(Component::Script),
                untracked: None,
            },
            (Launch::Prepare { target }, LaunchEvent::Prepared(Err(failure))) => failed(
                LaunchError::Io { operation: failure.operation, cause: failure.cause },
            ),
            (Launch::Script { target, context }, LaunchEvent::Located(Ok(script))) => Step {
                launch: Launch::Snapshot(Ready { target, context, script }),
                action: LaunchAction::Snapshot,
                untracked: None,
            },
            (Launch::Script { target, context }, LaunchEvent::Located(Err(checked))) => failed(
                LaunchError::EnvironmentMissing { component: Component::Script, checked },
            ),
            (Launch::Snapshot(ready), LaunchEvent::Snapshot(config)) => {
                match type_config_text(&config) {
                    Ok(text) => {
                        let path = ready.context.config_path.clone();
                        Step {
                            launch: Launch::Persist(ready),
                            action: LaunchAction::Persist { path, text },
                            untracked: None,
                        }
                    },
                    Err(_) => failed(
                        LaunchError::Io {
                            operation: IoOperation::EncodeConfig,
                            cause: String::new(),
                        },
                    ),
                }
            },
            (Launch::Persist(ready), LaunchEvent::Persisted(Ok(_))) => Step {
                launch: Launch::Announce(ready),
                action: LaunchAction::Emit(ProcessEvent::Opening),
                untracked: None,
            },
            (Launch::Persist(ready), LaunchEvent::Persisted(Err(cause))) => failed(
                LaunchError::Io { operation: IoOperation::WriteConfig, cause },
            ),
            (Launch::Announce(ready), LaunchEvent::Announced) => Step {
                launch: Launch::Lookup(ready),
                action: LaunchAction::Lookup { program: String::from_str(runtime_name()) },
                untracked: None,
            },
            (Launch::Lookup(ready), LaunchEvent::LookedUp(Some(program))) => started(
                ready,
                program,
            ),
            (Launch::Lookup(ready), LaunchEvent::LookedUp(None)) => Step {
                launch: Launch::Runtime(ready),
                action: LaunchAction::Locate(Component::Runtime),
                untracked: None,
            },
            (Launch::Runtime(ready), LaunchEvent::Located(Ok(program))) => started(ready, program),
            (Launch::Runtime(ready), LaunchEvent::Located(Err(checked))) => {
                let mut all = checked;
                all.insert(0, String::from_str(runtime_name()));
                assert(all.deep_view() =~= seq![spec_runtime_name()] + checked.deep_view());
                failed(
                    LaunchError::EnvironmentMissing { component: Component::Runtime, checked: all },
                )
            },
            (Launch::Spawn { program, script }, LaunchEvent::Spawned(Ok(handle))) => {
                let displaced = slot.install(handle);
                Step { launch: Launch::Done, action: LaunchAction::Monitor, untracked: displaced }
            },
            (Launch::Spawn { program, script }, LaunchEvent::Spawned(Err(cause))) => failed(
                LaunchError::SpawnFailure { cause, program, script },
            ),
            (launch, LaunchEvent::Spawned(Ok(handle))) => Step {
                launch,
                action: LaunchAction::Idle,
                untracked: Some(handle),
            },
            (launch, _) => Step { launch, action: LaunchAction::Idle, untracked: None },
        }
    }
}

/// How far the workflow has come.
pub open spec fn rank(launch: LaunchView) -> nat {
    match launch {
        LaunchView::Target => 0,
        LaunchView::Prepare { .. } => 1,
        LaunchView::Script { .. } => 2,
        LaunchView::Snapshot(_) => 3,
        LaunchView::Persist(_) => 4,
        LaunchView::Announce(_) => 5,
        LaunchView::Lookup(_) => 6,
        LaunchView::Runtime(_) => 7,
        LaunchView::Spawn { .. } => 8,
        LaunchView::Done => 9,
    }
}

/// The place of an action in the workflow. Failing and idling have none.
pub open spec fn stage(action: LaunchActionView) -> Option<nat> {
    match action {
        LaunchActionView::Locate(Component::TargetBinary) => Some(0),
        LaunchActionView::Prepare => Some(1),
        LaunchActionView::Locate(Component::Script) => Some(2),
        LaunchActionView::Snapshot => Some(3),
        LaunchActionView::Persist { .. } => Some(4),
        LaunchActionView::Emit(ProcessEvent::Opening) => Some(5),
        LaunchActionView::Lookup { .. } => Some(6),
        LaunchActionView::Locate(Component::Runtime) => Some(7),
        LaunchActionView::Spawn(_) => Some(8),
        LaunchActionView::Monitor => Some(9),
        _ => None,
    }
}

/// The place `next` comes directly behind the place `done`: it is the next
/// one, or the fallback search for the runtime is left out because the
/// search path had it.
pub open spec fn follows(done: nat, next: nat) -> bool {
    next == done + 1 || (done == 6 && next == 8)
}

/// The actions follow one another as the workflow orders them, the first
/// one directly behind the place `done`; a failure may only be the last.
pub open spec fn in_order(done: nat, actions: Seq<LaunchActionView>) -> bool
    decreases actions.len(),
{
    if actions.len() == 0 {
        true
    } else if actions[0] is Fail {
        actions.len() == 1
    } else {
        match stage(actions[0]) {
            Some(next) => follows(done, next) && in_order(next, actions.drop_first()),
            None => false,
        }
    }
}

/// The actions, other than idling, with which the machine answers a
/// sequence of events.
pub open spec fn effects<H>(
    launch: LaunchView,
    slot: Option<H>,
    events: Seq<LaunchEventView<H>>,
) -> Seq<LaunchActionView>
    decreases events.len(),
{
    if events.len() == 0 {
        Seq::empty()
    } else {
        let next = step(launch, slot, events[0]);
        let rest = effects(next.launch, next.slot, events.drop_first());
        if next.action is Idle {
            rest
        } else {
            seq![next.action] + rest
        }
    }
}

/// The slot after a sequence of events.
pub open spec fn slot_after<H>(
    launch: LaunchView,
    slot: Option<H>,
    events: Seq<LaunchEventView<H>>,
) -> Option<H>
    decreases events.len(),
{
    if events.len() == 0 {
        slot
    } else {
        let next = step(launch, slot, events[0]);
        slot_after(next.launch, next.slot, events.drop_first())
    }
}

/// A workflow that has ended answers nothing any more and leaves the slot
/// alone.
pub proof fn lemma_done_is_final<H>(slot: Option<H>, events: Seq<LaunchEventView<H>>)
    ensures
        effects(LaunchView::Done, slot, events) == Seq::<LaunchActionView>::empty(),
        slot_after(LaunchView::Done, slot, events) == slot,
    decreases events.len(),
{
    if events.len() > 0 {
        lemma_done_is_final(slot, events.drop_first());
    }
}

/// Whatever is reported and in whatever order, the machine asks for its
/// actions in one order only: the configuration is written before the
/// opening is announced, the opening is announced before the subprocess is
/// started, and the subprocess is started before it is registered. No action
/// is asked for twice, none but the fallback search for the runtime is left
/// out, and nothing follows a failure. The slot changes only if the run
/// reaches the monitor.
pub proof fn lemma_effects_in_order<H>(
    launch: LaunchView,
    slot: Option<H>,
    events: Seq<LaunchEventView<H>>,
)
    ensures
        in_order(rank(launch), effects(launch, slot, events)),
        effects(launch, slot, events).len() + rank(launch) <= 9,
        slot_after(launch, slot, events) != slot ==> effects(launch, slot, events).len() > 0
            && effects(launch, slot, events).last() is Monitor,
    decreases events.len(),
{
    if events.len() > 0 {
        let next = step(launch, slot, events[0]);
        let rest = effects(next.launch, next.slot, events.drop_first());
        lemma_effects_in_order(next.launch, next.slot, events.drop_first());
        if next.launch is Done {
            lemma_done_is_final(next.slot, events.drop_first());
        }
        if !(next.action is Idle) {
            let all = seq![next.action] + rest;
            assert(all.drop_first() =~= rest);
            if rest.len() > 0 {
                assert(all.last() == rest.last());
            }
        }
    }
}

/// The events of a run in which nothing is missing and nothing fails. The
/// runtime is found on the search path or, failing that, at a fallback
/// place.
pub open spec fn smooth_run<H>(
    ready: ReadyView,
    config: TypeConfigView,
    program: Seq<char>,
    on_path: bool,
    handle: H,
) -> Seq<LaunchEventView<H>> {
    if on_path {
        seq![
            LaunchEventView::Located(Ok(ready.target)),
            LaunchEventView::Prepared(Ok(ready.context)),
            LaunchEventView::Located(Ok(ready.script)),
            LaunchEventView::Snapshot(config),
            LaunchEventView::Persisted(Ok(())),
            LaunchEventView::Announced,
            LaunchEventView::LookedUp(Some(program)),
            LaunchEventView::Spawned(Ok(handle)),
        ]
    } else {
        seq![
            LaunchEventView::Located(Ok(ready.target)),
            LaunchEventView::Prepared(Ok(ready.context)),
            LaunchEventView::Located(Ok(ready.script)),
            LaunchEventView::Snapshot(config),
            LaunchEventView::Persisted(Ok(())),
            LaunchEventView::Announced,
            LaunchEventView::LookedUp(None),
            LaunchEventView::Located(Ok(program)),
            LaunchEventView::Spawned(Ok(handle)),
        ]
    }
}

/// The actions of a run in which nothing is missing and nothing fails.
pub open spec fn smooth_actions(
    ready: ReadyView,
    text: Seq<char>,
    program: Seq<char>,
    on_path: bool,
) -> Seq<LaunchActionView> {
    if on_path {
        seq![
            LaunchActionView::Prepare,
            LaunchActionView::Locate(Component::Script),
            LaunchActionView::Snapshot,
            LaunchActionView::Persist { path: ready.context.config_path, text },
            LaunchActionView::Emit(ProcessEvent::Opening),
            LaunchActionView::Lookup { program: spec_runtime_name() },
            LaunchActionView::Spawn(CommandLineView { program, args: spawn_args(ready) }),
            LaunchActionView::Monitor,
        ]
    } else {
        seq![
            LaunchActionView::Prepare,
            LaunchActionView::Locate(Component::Script),
            LaunchActionView::Snapshot,
            LaunchActionView::Persist { path: ready.context.config_path, text },
            LaunchActionView::Emit(ProcessEvent::Opening),
            LaunchActionView::Lookup { program: spec_runtime_name() },
            LaunchActionView::Locate(Component::Runtime),
            LaunchActionView::Spawn(CommandLineView { program, args: spawn_args(ready) }),
            LaunchActionView::Monitor,
        ]
    }
}

/// The step that answers event `i` in state `i`.
spec fn turn<H>(
    states: Seq<LaunchView>,
    slot: Option<H>,
    events: Seq<LaunchEventView<H>>,
    i: int,
) -> StepView<H> {
    step(states[i], slot, events[i])
}

/// A run whose events are all answered in turn, and of which only the last
/// one changes the slot, gives their actions one by one.
proof fn lemma_run_in_turn<H>(
    slot: Option<H>,
    events: Seq<LaunchEventView<H>>,
    actions: Seq<LaunchActionView>,
    states: Seq<LaunchView>,
    last: Option<H>,
)
    requires
        actions.len() == events.len(),
        states.len() == events.len() + 1,
        forall|i: int|
            0 <= i < events.len() ==> {
                let next = #[trigger] turn(states, slot, events, i);
                &&& next.launch == states[i + 1]
                &&& next.action == actions[i]
                &&& !(next.action is Idle)
                &&& next.slot == if i == events.len() - 1 {
                    last
                } else {
                    slot
                }
            },
        events.len() == 0 ==> last == slot,
    ensures
        effects(states[0], slot, events) == actions,
        slot_after(states[0], slot, events) == last,
    decreases events.len(),
{
    if events.len() > 0 {
        let next = turn(states, slot, events, 0);
        let rest = events.drop_first();
        let later = states.drop_first();
        if rest.len() == 0 {
            assert(effects(next.launch, next.slot, rest) == Seq::<LaunchActionView>::empty());
            assert(slot_after(next.launch, next.slot, rest) == next.slot);
            assert(effects(states[0], slot, events) =~= actions);
        } else {
            assert forall|i: int| 0 <= i < rest.len() implies {
                let after = #[trigger] turn(later, slot, rest, i);
                &&& after.launch == later[i + 1]
                &&& after.action == actions.drop_first()[i]
                &&& !(after.action is Idle)
                &&& after.slot == if i == rest.len() - 1 {
                    last
                } else {
                    slot
                }
            } by {
                assert(turn(later, slot, rest, i) == turn(states, slot, events, i + 1));
            }
            lemma_run_in_turn(slot, rest, actions.drop_first(), later, last);
            assert(later[0] == next.launch);
            assert(effects(states[0], slot, events) =~= actions);
        }
    } else {
        assert(actions =~= Seq::<LaunchActionView>::empty());
    }
}

/// With the browser binary, the script and the runtime all found, the file
/// written and the subprocess started, the command succeeds: the file is
/// written with the text of the snapshot, the opening is announced, the
/// subprocess gets its five arguments in their order, and in the end the
/// slot holds the new handle and the monitor is asked for.
pub proof fn lemma_smooth_run_registers<H>(
    slot: Option<H>,
    ready: ReadyView,
    config: TypeConfigView,
    text: Seq<char>,
    program: Seq<char>,
    on_path: bool,
    handle: H,
)
    ensures
        rendered(config) == Some(text) && holds(text, config) ==> effects(
            LaunchView::Target,
            slot,
            smooth_run(ready, config, program, on_path, handle),
        ) == smooth_actions(ready, text, program, on_path) && slot_after(
            LaunchView::Target,
            slot,
            smooth_run(ready, config, program, on_path, handle),
        ) == Some(handle),
{
    if rendered(config) == Some(text) && holds(text, config) {
        let events = smooth_run(ready, config, program, on_path, handle);
        let actions = smooth_actions(ready, text, program, on_path);
        let spawning = LaunchView::Spawn { program, script: ready.script };
        let states = if on_path {
            seq![
                LaunchView::Target,
                LaunchView::Prepare { target: ready.target },
                LaunchView::Script { target: ready.target, context: ready.context },
                LaunchView::Snapshot(ready),
                LaunchView::Persist(ready),
                LaunchView::Announce(ready),
                LaunchView::Lookup(ready),
                spawning,
                LaunchView::Done,
            ]
        } else {
            seq![
                LaunchView::Target,
                LaunchView::Prepare { target: ready.target },
                LaunchView::Script { target: ready.target, context: ready.context },
                LaunchView::Snapshot(ready),
                LaunchView::Persist(ready),
                LaunchView::Announce(ready),
                LaunchView::Lookup(ready),
                LaunchView::Runtime(ready),
                spawning,
                LaunchView::Done,
            ]
        };
        assert forall|i: int| 0 <= i < events.len() implies {
            let next = #[trigger] turn(states, slot, events, i);
            &&& next.launch == states[i + 1]
            &&& next.action == actions[i]
            &&& !(next.action is Idle)
            &&& next.slot == if i == events.len() - 1 {
                Some(handle)
            } else {
                slot
            }
        } by {
            let next = turn(states, slot, events, i);
        }
        lemma_run_in_turn(slot, events, actions, states, Some(handle));
    }
}

/// With the browser binary found and the script found at none of its
/// candidates, the command fails with the error that names every candidate
/// checked. Nothing was written, announced or started before, and whatever
/// is reported afterwards, nothing is: the slot stays as it was.
pub proof fn lemma_missing_script_fails<H>(
    slot: Option<H>,
    target: Seq<char>,
    context: LaunchContextView,
    checked: Seq<Seq<char>>,
    later: Seq<LaunchEventView<H>>,
)
    ensures
        ({
            let events = seq![
                LaunchEventView::Located(Ok(target)),
                LaunchEventView::Prepared(Ok(context)),
                LaunchEventView::Located(Err(checked)),
            ] + later;
            let error = LaunchErrorView::EnvironmentMissing {
                component: Component::Script,
                checked,
            };
            &&& effects(LaunchView::Target, slot, events) == seq![
                LaunchActionView::Prepare,
                LaunchActionView::Locate(Component::Script),
                LaunchActionView::Fail(error),
            ]
            &&& slot_after(LaunchView::Target, slot, events) == slot
            &&& forall|i: int| 0 <= i < checked.len() ==> occurs(error.message(), checked[i])
        }),
{
    let events = seq![
        LaunchEventView::Located(Ok(target)),
        LaunchEventView::Prepared(Ok(context)),
        LaunchEventView::Located(Err(checked)),
    ] + later;
    let error = LaunchErrorView::EnvironmentMissing { component: Component::Script, checked };
    assert(events.len() == 3 + later.len());
    assert(events[0] == LaunchEventView::<H>::Located(Ok(target)));
    let n1 = step(LaunchView::Target, slot, events[0]);
    let e1 = events.drop_first();
    assert(e1[0] == LaunchEventView::<H>::Prepared(Ok(context)));
    let n2 = step(n1.launch, n1.slot, e1[0]);
    let e2 = e1.drop_first();
    assert(e2[0] == LaunchEventView::<H>::Located(Err(checked)));
    let n3 = step(n2.launch, n2.slot, e2[0]);
    let e3 = e2.drop_first();
    assert(e3 =~= later);
    lemma_done_is_final(slot, later);
    assert(effects(n2.launch, n2.slot, e2) =~= seq![n3.action]);
    assert(effects(n1.launch, n1.slot, e1) =~= seq![n2.action, n3.action]);
    assert(effects(LaunchView::Target, slot, events) =~= seq![n1.action, n2.action, n3.action]);
    assert(slot_after(n2.launch, n2.slot, e2) == slot);
    assert(slot_after(n1.launch, n1.slot, e1) == slot);
    assert(slot_after(LaunchView::Target, slot, events) == slot);
    assert forall|i: int| 0 <= i < checked.len() implies occurs(error.message(), checked[i]) by {
        lemma_message_names_every_path(Component::Script, checked, i);
    }
}

} // verus!
