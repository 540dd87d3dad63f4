use typewinner::events::{startup_event, ProcessEvent};
use typewinner::supervisor::{PuppeteerProcess, Trigger};

#[test]
fn new_slot_is_empty() {
    let slot: PuppeteerProcess<u32> = PuppeteerProcess::new();
    assert!(!slot.is_running());
}

#[test]
fn normal_exit_gives_one_enabled_and_an_empty_slot() {
    let mut slot = PuppeteerProcess::new();
    assert_eq!(slot.install(7u32), None);
    assert!(slot.is_running());
    assert_eq!(slot.exited(), Some(ProcessEvent::Enabled));
    assert!(!slot.is_running());
    assert_eq!(slot.exited(), None);
}

#[test]
fn kill_gives_one_enabled_and_hands_out_the_handle() {
    let mut slot = PuppeteerProcess::new();
    slot.install(7u32);
    let todo = slot.kill();
    assert_eq!(todo.terminate, Some(7));
    assert_eq!(todo.notify, Some(ProcessEvent::Enabled));
    assert!(!slot.is_running());
    let again = slot.kill();
    assert_eq!(again.terminate, None);
    assert_eq!(again.notify, None);
}

#[test]
fn kill_and_exit_in_either_order_give_one_enabled() {
    for order in [[Trigger::Kill, Trigger::Exit], [Trigger::Exit, Trigger::Kill]] {
        let mut slot = PuppeteerProcess::new();
        slot.install(1u32);
        let mut enabled = 0;
        for trigger in order {
            if slot.settle(trigger).notify == Some(ProcessEvent::Enabled) {
                enabled += 1;
            }
        }
        assert_eq!(enabled, 1);
        assert!(!slot.is_running());
    }
}

#[test]
fn many_triggers_never_give_two_enabled() {
    let triggers = [
        Trigger::Exit,
        Trigger::Kill,
        Trigger::Kill,
        Trigger::Exit,
        Trigger::Exit,
        Trigger::Kill,
    ];
    for start in 0..triggers.len() {
        let mut slot = PuppeteerProcess::new();
        slot.install(1u32);
        let mut enabled = 0;
        let mut terminated = 0;
        for trigger in &triggers[start..] {
            let todo = slot.settle(*trigger);
            if todo.notify.is_some() {
                enabled += 1;
            }
            if todo.terminate.is_some() {
                terminated += 1;
            }
        }
        assert_eq!(enabled, 1);
        assert_eq!(terminated, if triggers[start] == Trigger::Kill { 1 } else { 0 });
        assert!(!slot.is_running());
    }
}

#[test]
fn exit_does_not_hand_out_the_handle() {
    let mut slot = PuppeteerProcess::new();
    slot.install(3u32);
    let todo = slot.settle(Trigger::Exit);
    assert_eq!(todo.terminate, None);
    assert_eq!(todo.notify, Some(ProcessEvent::Enabled));
}

#[test]
fn empty_slot_is_silent() {
    let mut slot: PuppeteerProcess<u32> = PuppeteerProcess::new();
    assert_eq!(slot.exited(), None);
    let todo = slot.kill();
    assert_eq!(todo.terminate, None);
    assert_eq!(todo.notify, None);
}

#[test]
fn second_install_displaces_the_first_handle() {
    let mut slot = PuppeteerProcess::new();
    assert_eq!(slot.install(1u32), None);
    assert_eq!(slot.install(2u32), Some(1));
    assert!(slot.is_running());
    assert_eq!(slot.kill().terminate, Some(2));
}

#[test]
fn each_subprocess_gets_its_own_enabled() {
    let mut slot = PuppeteerProcess::new();
    slot.install(1u32);
    assert_eq!(slot.exited(), Some(ProcessEvent::Enabled));
    slot.install(2u32);
    assert_eq!(slot.kill().notify, Some(ProcessEvent::Enabled));
    assert_eq!(slot.exited(), None);
}

#[test]
fn event_names_and_payloads() {
    assert_eq!(ProcessEvent::Opening.name(), "browser-opening");
    assert_eq!(ProcessEvent::Enabled.name(), "enableBrowser");
    assert_eq!(ProcessEvent::ChromeMissing.name(), "chrome-error");
    assert_eq!(ProcessEvent::Opening.payload(), None);
    assert_eq!(ProcessEvent::Enabled.payload(), None);
    assert_eq!(
        ProcessEvent::ChromeMissing.payload(),
        Some("Google Chrome could not be found on this system.")
    );
}

#[test]
fn startup_reports_a_missing_browser_only() {
    assert_eq!(startup_event(true), None);
    assert_eq!(startup_event(false), Some(ProcessEvent::ChromeMissing));
}

#[test]
fn every_subprocess_is_accounted_for() {
    // 0 = exit, 1 = kill, 2 = install
    let runs: [&[u8]; 5] = [
        &[2, 0, 2, 1, 0, 1],
        &[2, 2, 2, 0, 0],
        &[0, 1, 2, 1, 2, 0, 2],
        &[2, 1, 2, 2, 0, 2, 1, 1],
        &[],
    ];
    for run in runs {
        let mut slot = PuppeteerProcess::new();
        let (mut installed, mut displaced, mut enabled) = (0, 0, 0);
        for (i, op) in run.iter().enumerate() {
            match op {
                2 => {
                    installed += 1;
                    if slot.install(i).is_some() {
                        displaced += 1;
                    }
                }
                1 => {
                    if slot.kill().notify.is_some() {
                        enabled += 1;
                    }
                }
                _ => {
                    if slot.exited().is_some() {
                        enabled += 1;
                    }
                }
            }
        }
        let held = if slot.is_running() { 1 } else { 0 };
        assert_eq!(installed, enabled + displaced + held);
    }
}
