use typewinner::commands::open_external;
use typewinner::config::TypeConfig;
use typewinner::discovery::Platform;
use typewinner::error::{io_message, Component, IoFault, IoOperation, LaunchError};
use typewinner::events::ProcessEvent;
use typewinner::launch::{
    open_browser, CommandLine, Launch, LaunchAction, LaunchContext, LaunchEvent,
};
use typewinner::supervisor::PuppeteerProcess;

fn context(secret: Option<&str>) -> LaunchContext {
    LaunchContext {
        data_dir: "/data/TypeWinner".to_string(),
        config_path: "/config/TypeWinner/typeConfig.json".to_string(),
        secret: secret.map(|s| s.to_string()),
    }
}

fn default_text() -> String {
    "{\n  \"errorRate\": 0,\n  \"maxDelay\": 25,\n  \"minDelay\": 20\n}".to_string()
}

fn run(
    launch: Launch,
    slot: &mut PuppeteerProcess<u32>,
    events: Vec<LaunchEvent<u32>>,
) -> (Launch, Vec<LaunchAction>) {
    let mut launch = launch;
    let mut actions = Vec::new();
    for event in events {
        let next = launch.step(event, slot);
        launch = next.launch;
        actions.push(next.action);
    }
    (launch, actions)
}

fn strings(items: &[&str]) -> Vec<String> {
    items.iter().map(|s| s.to_string()).collect()
}

fn until_lookup(secret: Option<&str>) -> Vec<LaunchEvent<u32>> {
    vec![
        LaunchEvent::Located(Ok("chrome".to_string())),
        LaunchEvent::Prepared(Ok(context(secret))),
        LaunchEvent::Located(Ok("script".to_string())),
        LaunchEvent::Snapshot(TypeConfig::default()),
        LaunchEvent::Persisted(Ok(())),
        LaunchEvent::Announced,
    ]
}

fn command(program: &str, secret: &str) -> CommandLine {
    CommandLine {
        program: program.to_string(),
        args: strings(&[
            "script",
            "chrome",
            "/data/TypeWinner",
            "/config/TypeWinner/typeConfig.json",
            secret,
        ]),
    }
}

#[test]
fn open_browser_starts_by_locating_the_target_binary() {
    let (launch, action) = open_browser();
    assert_eq!(action, LaunchAction::Locate(Component::TargetBinary));
    assert_eq!(launch, Launch::Target);
}

#[test]
fn open_browser_with_everything_present_registers_the_subprocess() {
    let (launch, _) = open_browser();
    let mut slot = PuppeteerProcess::new();
    let (launch, actions) = run(
        launch,
        &mut slot,
        vec![
            LaunchEvent::Located(Ok("/usr/bin/google-chrome".to_string())),
            LaunchEvent::Prepared(Ok(context(Some("key")))),
            LaunchEvent::Located(Ok("/app/puppeteer-node.cjs".to_string())),
            LaunchEvent::Snapshot(TypeConfig::default()),
            LaunchEvent::Persisted(Ok(())),
            LaunchEvent::Announced,
            LaunchEvent::LookedUp(Some("/usr/bin/node".to_string())),
            LaunchEvent::Spawned(Ok(42)),
        ],
    );
    assert_eq!(
        actions,
        vec![
            LaunchAction::Prepare,
            LaunchAction::Locate(Component::Script),
            LaunchAction::Snapshot,
            LaunchAction::Persist {
                path: "/config/TypeWinner/typeConfig.json".to_string(),
                text: default_text(),
            },
            LaunchAction::Emit(ProcessEvent::Opening),
            LaunchAction::Lookup { program: "node".to_string() },
            LaunchAction::Spawn(CommandLine {
                program: "/usr/bin/node".to_string(),
                args: strings(&[
                    "/app/puppeteer-node.cjs",
                    "/usr/bin/google-chrome",
                    "/data/TypeWinner",
                    "/config/TypeWinner/typeConfig.json",
                    "key",
                ]),
            }),
            LaunchAction::Monitor,
        ]
    );
    assert_eq!(launch, Launch::Done);
    assert!(slot.is_running());
    assert_eq!(slot.kill().terminate, Some(42));
}

#[test]
fn runtime_is_taken_from_a_fallback_when_the_path_lacks_it() {
    let (launch, _) = open_browser();
    let mut slot = PuppeteerProcess::new();
    let mut events = until_lookup(Some("key"));
    events.push(LaunchEvent::LookedUp(None));
    events.push(LaunchEvent::Located(Ok("/opt/homebrew/bin/node".to_string())));
    events.push(LaunchEvent::Spawned(Ok(5)));
    let (launch, actions) = run(launch, &mut slot, events);
    assert_eq!(actions[5], LaunchAction::Lookup { program: "node".to_string() });
    assert_eq!(actions[6], LaunchAction::Locate(Component::Runtime));
    assert_eq!(actions[7], LaunchAction::Spawn(command("/opt/homebrew/bin/node", "key")));
    assert_eq!(actions[8], LaunchAction::Monitor);
    assert_eq!(launch, Launch::Done);
    assert_eq!(slot.kill().terminate, Some(5));
}

#[test]
fn opening_is_emitted_before_the_spawn() {
    let (launch, _) = open_browser();
    let mut slot = PuppeteerProcess::new();
    let mut events = until_lookup(None);
    events.push(LaunchEvent::LookedUp(Some("node".to_string())));
    let (_, actions) = run(launch, &mut slot, events);
    let persist = actions.iter().position(|a| matches!(a, LaunchAction::Persist { .. })).unwrap();
    let opening =
        actions.iter().position(|a| *a == LaunchAction::Emit(ProcessEvent::Opening)).unwrap();
    let spawn = actions.iter().position(|a| matches!(a, LaunchAction::Spawn(_))).unwrap();
    assert!(persist < opening);
    assert!(opening < spawn);
    assert!(!slot.is_running());
}

#[test]
fn missing_secret_becomes_the_empty_argument() {
    let (launch, _) = open_browser();
    let mut slot = PuppeteerProcess::new();
    let mut events = until_lookup(None);
    events.push(LaunchEvent::LookedUp(Some("node".to_string())));
    let (_, actions) = run(launch, &mut slot, events);
    assert_eq!(actions[6], LaunchAction::Spawn(command("node", "")));
}

#[test]
fn persisted_text_is_that_of_the_snapshot() {
    let (launch, _) = open_browser();
    let mut slot = PuppeteerProcess::new();
    let (_, actions) = run(
        launch,
        &mut slot,
        vec![
            LaunchEvent::Located(Ok("chrome".to_string())),
            LaunchEvent::Prepared(Ok(context(None))),
            LaunchEvent::Located(Ok("script".to_string())),
            LaunchEvent::Snapshot(TypeConfig::new(370, 390, 55).unwrap()),
        ],
    );
    assert_eq!(
        actions[3],
        LaunchAction::Persist {
            path: "/config/TypeWinner/typeConfig.json".to_string(),
            text: "{\n  \"errorRate\": 55,\n  \"maxDelay\": 390,\n  \"minDelay\": 370\n}"
                .to_string(),
        }
    );
}

#[test]
fn missing_target_binary_fails_at_once() {
    let (launch, _) = open_browser();
    let mut slot = PuppeteerProcess::new();
    let checked = strings(&["/usr/bin/google-chrome", "/snap/bin/chromium"]);
    let (launch, actions) = run(
        launch,
        &mut slot,
        vec![
            LaunchEvent::Located(Err(checked.clone())),
            LaunchEvent::Located(Ok("late".to_string())),
            LaunchEvent::Prepared(Ok(context(None))),
            LaunchEvent::Snapshot(TypeConfig::default()),
            LaunchEvent::Persisted(Ok(())),
            LaunchEvent::Announced,
            LaunchEvent::LookedUp(None),
        ],
    );
    assert_eq!(
        actions,
        vec![
            LaunchAction::Fail(LaunchError::EnvironmentMissing {
                component: Component::TargetBinary,
                checked,
            }),
            LaunchAction::Idle,
            LaunchAction::Idle,
            LaunchAction::Idle,
            LaunchAction::Idle,
            LaunchAction::Idle,
            LaunchAction::Idle,
        ]
    );
    assert_eq!(launch, Launch::Done);
    assert!(!slot.is_running());
}

#[test]
fn failed_preparation_fails_with_its_operation() {
    let (launch, _) = open_browser();
    let mut slot = PuppeteerProcess::new();
    let (launch, actions) = run(
        launch,
        &mut slot,
        vec![
            LaunchEvent::Located(Ok("chrome".to_string())),
            LaunchEvent::Prepared(Err(IoFault {
                operation: IoOperation::LocateDataDir,
                cause: String::new(),
            })),
        ],
    );
    let expected =
        LaunchError::Io { operation: IoOperation::LocateDataDir, cause: String::new() };
    assert_eq!(expected.message(), "Data directory not found");
    assert_eq!(actions, vec![LaunchAction::Prepare, LaunchAction::Fail(expected)]);
    assert_eq!(launch, Launch::Done);
}

#[test]
fn missing_script_fails_with_all_candidates_and_no_opening() {
    let (launch, _) = open_browser();
    let mut slot = PuppeteerProcess::new();
    let checked = strings(&["/app/puppeteer-node.cjs", "/app/resources/puppeteer-node.cjs", "x"]);
    let (launch, actions) = run(
        launch,
        &mut slot,
        vec![
            LaunchEvent::Located(Ok("/usr/bin/google-chrome".to_string())),
            LaunchEvent::Prepared(Ok(context(None))),
            LaunchEvent::Located(Err(checked.clone())),
        ],
    );
    assert_eq!(actions.len(), 3);
    assert_eq!(actions[0], LaunchAction::Prepare);
    assert_eq!(actions[1], LaunchAction::Locate(Component::Script));
    let error = match &actions[2] {
        LaunchAction::Fail(error) => error,
        other => panic!("unexpected action {:?}", other),
    };
    assert_eq!(
        *error,
        LaunchError::EnvironmentMissing { component: Component::Script, checked: checked.clone() }
    );
    let message = error.message();
    assert_eq!(
        message,
        "Puppeteer script not found. Checked:\n  /app/puppeteer-node.cjs\n  /app/resources/puppeteer-node.cjs\n  x"
    );
    for path in &checked {
        assert!(message.contains(path.as_str()));
    }
    assert!(!actions.contains(&LaunchAction::Emit(ProcessEvent::Opening)));
    assert!(!slot.is_running());
    assert_eq!(launch, Launch::Done);
}

#[test]
fn failed_write_fails_before_the_opening() {
    let (launch, _) = open_browser();
    let mut slot = PuppeteerProcess::new();
    let (_, actions) = run(
        launch,
        &mut slot,
        vec![
            LaunchEvent::Located(Ok("chrome".to_string())),
            LaunchEvent::Prepared(Ok(context(None))),
            LaunchEvent::Located(Ok("script".to_string())),
            LaunchEvent::Snapshot(TypeConfig::default()),
            LaunchEvent::Persisted(Err("disk full".to_string())),
            LaunchEvent::Announced,
        ],
    );
    assert_eq!(
        actions[4],
        LaunchAction::Fail(LaunchError::Io {
            operation: IoOperation::WriteConfig,
            cause: "disk full".to_string(),
        })
    );
    assert_eq!(actions[5], LaunchAction::Idle);
    assert!(!actions.contains(&LaunchAction::Emit(ProcessEvent::Opening)));
}

#[test]
fn missing_runtime_fails_after_the_opening() {
    let (launch, _) = open_browser();
    let mut slot = PuppeteerProcess::new();
    let mut events = until_lookup(None);
    events.push(LaunchEvent::LookedUp(None));
    events.push(LaunchEvent::Located(Err(strings(&[
        "/usr/local/bin/node",
        "/opt/homebrew/bin/node",
    ]))));
    events.push(LaunchEvent::Spawned(Ok(1)));
    let (launch, actions) = run(launch, &mut slot, events);
    assert_eq!(actions[4], LaunchAction::Emit(ProcessEvent::Opening));
    let expected = LaunchError::EnvironmentMissing {
        component: Component::Runtime,
        checked: strings(&["node", "/usr/local/bin/node", "/opt/homebrew/bin/node"]),
    };
    assert_eq!(
        expected.message(),
        "Node.js not found in PATH. Please ensure Node.js is installed and accessible. Checked:\n  node\n  /usr/local/bin/node\n  /opt/homebrew/bin/node"
    );
    assert_eq!(actions[7], LaunchAction::Fail(expected));
    assert_eq!(actions[8], LaunchAction::Idle);
    assert_eq!(launch, Launch::Done);
    assert!(!slot.is_running());
}

#[test]
fn failed_spawn_leaves_the_slot_empty() {
    let (launch, _) = open_browser();
    let mut slot = PuppeteerProcess::new();
    let mut events = until_lookup(None);
    events.push(LaunchEvent::LookedUp(Some("node".to_string())));
    events.push(LaunchEvent::Spawned(Err("no such file".to_string())));
    let (_, actions) = run(launch, &mut slot, events);
    let expected = LaunchError::SpawnFailure {
        cause: "no such file".to_string(),
        program: "node".to_string(),
        script: "script".to_string(),
    };
    assert_eq!(
        expected.message(),
        "Failed to spawn puppeteer process: no such file. Node path: \"node\", Script path: \"script\""
    );
    assert_eq!(actions[7], LaunchAction::Fail(expected));
    assert!(!slot.is_running());
}

#[test]
fn second_launch_displaces_the_running_handle() {
    let mut slot = PuppeteerProcess::new();
    slot.install(1u32);
    let (launch, _) = open_browser();
    let mut launch = launch;
    let mut events = until_lookup(None);
    events.push(LaunchEvent::LookedUp(Some("node".to_string())));
    for event in events {
        let next = launch.step(event, &mut slot);
        assert_eq!(next.untracked, None);
        launch = next.launch;
    }
    let last = launch.step(LaunchEvent::Spawned(Ok(2)), &mut slot);
    assert_eq!(last.action, LaunchAction::Monitor);
    assert_eq!(last.untracked, Some(1));
    assert_eq!(slot.kill().terminate, Some(2));
}

#[test]
fn handle_reported_out_of_turn_is_handed_back() {
    let (launch, _) = open_browser();
    let mut slot = PuppeteerProcess::new();
    let next = launch.step(LaunchEvent::Spawned(Ok(9u32)), &mut slot);
    assert_eq!(next.action, LaunchAction::Idle);
    assert_eq!(next.untracked, Some(9));
    assert_eq!(next.launch, Launch::Target);
    assert!(!slot.is_running());
}

#[test]
fn events_out_of_turn_change_nothing() {
    let (launch, _) = open_browser();
    let mut slot: PuppeteerProcess<u32> = PuppeteerProcess::new();
    let (launch, actions) = run(
        launch,
        &mut slot,
        vec![
            LaunchEvent::Announced,
            LaunchEvent::Persisted(Ok(())),
            LaunchEvent::Snapshot(TypeConfig::default()),
            LaunchEvent::Prepared(Ok(context(None))),
            LaunchEvent::LookedUp(Some("node".to_string())),
            LaunchEvent::Spawned(Err("x".to_string())),
        ],
    );
    assert_eq!(actions, vec![
        LaunchAction::Idle,
        LaunchAction::Idle,
        LaunchAction::Idle,
        LaunchAction::Idle,
        LaunchAction::Idle,
        LaunchAction::Idle,
    ]);
    assert_eq!(launch, Launch::Target);
}

#[test]
fn messages_of_the_errors() {
    assert_eq!(
        LaunchError::EnvironmentMissing { component: Component::TargetBinary, checked: vec![] }
            .message(),
        "Chrome not found. Checked:"
    );
    assert_eq!(
        LaunchError::EnvironmentMissing {
            component: Component::Runtime,
            checked: strings(&["node"]),
        }
        .message(),
        "Node.js not found in PATH. Please ensure Node.js is installed and accessible. Checked:\n  node"
    );
    assert_eq!(
        LaunchError::Io { operation: IoOperation::WriteConfig, cause: "denied".to_string() }
            .message(),
        "Failed to write config: denied"
    );
    assert_eq!(
        LaunchError::Io { operation: IoOperation::EncodeConfig, cause: String::new() }.message(),
        "Failed to encode config"
    );
    assert_eq!(
        LaunchError::ProcessWait { cause: "gone".to_string() }.message(),
        "Error waiting for puppeteer process: gone"
    );
}

#[test]
fn messages_of_failed_operations() {
    assert_eq!(io_message(IoOperation::LocateConfigDir, ""), "Config directory not found");
    assert_eq!(io_message(IoOperation::LocateDataDir, ""), "Data directory not found");
    assert_eq!(
        io_message(IoOperation::CreateConfigDir, "denied"),
        "Failed to create config directory: denied"
    );
    assert_eq!(io_message(IoOperation::ReadApiKey, "e"), "Failed to read API key: e");
    assert_eq!(io_message(IoOperation::WriteApiKey, "e"), "Failed to write API key: e");
    assert_eq!(io_message(IoOperation::OpenUrl, "e"), "Failed to open URL: e");
    assert_eq!(
        io_message(IoOperation::SendRequest, "e"),
        "Failed to send request to Groq API: e"
    );
    assert_eq!(io_message(IoOperation::ParseResponse, "e"), "Failed to parse response: e");
    assert_eq!(io_message(IoOperation::WriteConfig, "e"), "Failed to write config: e");
    assert_eq!(io_message(IoOperation::EncodeConfig, ""), "Failed to encode config");
}

#[test]
fn component_names() {
    assert_eq!(Component::TargetBinary.name(), "target binary");
    assert_eq!(Component::Script.name(), "script");
    assert_eq!(Component::Runtime.name(), "runtime");
}

#[test]
fn open_external_by_platform() {
    let url = "https://example.com/a?b=c".to_string();
    assert_eq!(
        open_external(Platform::Windows, url.clone()),
        Some(CommandLine {
            program: "cmd".to_string(),
            args: strings(&["/C", "start", "https://example.com/a?b=c"]),
        })
    );
    assert_eq!(
        open_external(Platform::MacOs, url.clone()),
        Some(CommandLine { program: "open".to_string(), args: vec![url.clone()] })
    );
    assert_eq!(
        open_external(Platform::Linux, url.clone()),
        Some(CommandLine { program: "xdg-open".to_string(), args: vec![url.clone()] })
    );
    assert_eq!(open_external(Platform::Other, url), None);
}
