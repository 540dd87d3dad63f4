use typewinner::discovery::{
    chrome_candidates, get_api_key_path, get_config_dir, get_data_dir, get_type_config_path,
    runtime_fallbacks, runtime_name, script_candidates, Anchor, Location, Platform,
};

fn at(anchor: Anchor, ascend: usize, segments: &[&'static str]) -> Location {
    Location { anchor, ascend, segments: segments.to_vec() }
}

#[test]
fn chrome_candidates_on_windows() {
    let chrome = ["Google", "Chrome", "Application", "chrome.exe"];
    assert_eq!(
        chrome_candidates(Platform::Windows),
        vec![at(Anchor::ProgramFiles, 0, &chrome), at(Anchor::ProgramFilesX86, 0, &chrome)]
    );
}

#[test]
fn chrome_candidates_on_macos() {
    assert_eq!(
        chrome_candidates(Platform::MacOs),
        vec![at(
            Anchor::Bare,
            0,
            &["/Applications/Google Chrome.app/Contents/MacOS/Google Chrome"]
        )]
    );
}

#[test]
fn chrome_candidates_on_linux() {
    assert_eq!(
        chrome_candidates(Platform::Linux),
        vec![
            at(Anchor::Bare, 0, &["/usr/bin/google-chrome"]),
            at(Anchor::Bare, 0, &["/usr/bin/google-chrome-stable"]),
            at(Anchor::Bare, 0, &["/snap/bin/chromium"]),
        ]
    );
}

#[test]
fn chrome_candidates_elsewhere() {
    assert_eq!(chrome_candidates(Platform::Other), Vec::new());
}

#[test]
fn script_candidates_on_linux_and_windows() {
    let expected = vec![
        at(Anchor::ExeDir, 0, &["puppeteer-node.cjs"]),
        at(Anchor::ExeDir, 0, &["resources", "puppeteer-node.cjs"]),
        at(
            Anchor::ExeDir,
            0,
            &["resources", "_up_", "src", "main", "utils", "puppeteer-node.cjs"],
        ),
        at(Anchor::CurrentDir, 0, &["src", "main", "utils", "puppeteer-node.cjs"]),
        at(Anchor::CurrentDir, 0, &["..", "src", "main", "utils", "puppeteer-node.cjs"]),
        at(Anchor::Bare, 0, &["src", "main", "utils", "puppeteer-node.cjs"]),
        at(Anchor::Bare, 0, &["../src", "main", "utils", "puppeteer-node.cjs"]),
    ];
    assert_eq!(script_candidates(Platform::Linux), expected);
    assert_eq!(script_candidates(Platform::Windows), expected);
    assert_eq!(script_candidates(Platform::Other), expected);
}

#[test]
fn script_candidates_on_macos() {
    assert_eq!(
        script_candidates(Platform::MacOs),
        vec![
            at(Anchor::ExeDir, 0, &["puppeteer-node.cjs"]),
            at(Anchor::ExeDir, 0, &["resources", "puppeteer-node.cjs"]),
            at(Anchor::ExeDir, 3, &["Resources", "puppeteer-node.cjs"]),
            at(
                Anchor::ExeDir,
                3,
                &["Resources", "_up_", "src", "main", "utils", "puppeteer-node.cjs"],
            ),
            at(Anchor::CurrentDir, 0, &["src", "main", "utils", "puppeteer-node.cjs"]),
            at(Anchor::CurrentDir, 0, &["..", "src", "main", "utils", "puppeteer-node.cjs"]),
            at(Anchor::Bare, 0, &["src", "main", "utils", "puppeteer-node.cjs"]),
            at(Anchor::Bare, 0, &["../src", "main", "utils", "puppeteer-node.cjs"]),
        ]
    );
}

#[test]
fn runtime_is_node_with_fallbacks_on_macos_only() {
    assert_eq!(runtime_name(), "node");
    assert_eq!(
        runtime_fallbacks(Platform::MacOs),
        vec![
            at(Anchor::Bare, 0, &["/usr/local/bin/node"]),
            at(Anchor::Bare, 0, &["/opt/homebrew/bin/node"]),
        ]
    );
    assert_eq!(runtime_fallbacks(Platform::Linux), Vec::new());
    assert_eq!(runtime_fallbacks(Platform::Windows), Vec::new());
    assert_eq!(runtime_fallbacks(Platform::Other), Vec::new());
}

#[test]
fn application_directories_and_files() {
    assert_eq!(get_config_dir(), at(Anchor::ConfigDir, 0, &["TypeWinner"]));
    assert_eq!(get_data_dir(), at(Anchor::DataDir, 0, &["TypeWinner"]));
    assert_eq!(get_api_key_path(), at(Anchor::ConfigDir, 0, &["TypeWinner", "grokKey"]));
    assert_eq!(
        get_type_config_path(),
        at(Anchor::ConfigDir, 0, &["TypeWinner", "typeConfig.json"])
    );
}

#[test]
fn program_files_anchors_have_a_variable_and_a_fallback() {
    assert_eq!(Anchor::ProgramFiles.variable(), Some("PROGRAMFILES"));
    assert_eq!(Anchor::ProgramFiles.fallback(), Some("C:\\Program Files"));
    assert_eq!(Anchor::ProgramFilesX86.variable(), Some("PROGRAMFILES(X86)"));
    assert_eq!(Anchor::ProgramFilesX86.fallback(), Some("C:\\Program Files (x86)"));
    for anchor in [Anchor::Bare, Anchor::ExeDir, Anchor::CurrentDir, Anchor::ConfigDir, Anchor::DataDir]
    {
        assert_eq!(anchor.variable(), None);
        assert_eq!(anchor.fallback(), None);
    }
}
