//! Where the things this application needs may be found: the browser binary,
//! the automation script, the script runtime, and the application's own
//! directories and files.
//!
//! A location is a recipe, not a path: an anchor that only the running
//! system can resolve, and the segments to append to it. The lists here give
//! the order in which candidates are tried.

use vstd::prelude::*;
use crate::search::{is_first_match, locate, none_match};

verus! {

/// The operating system family this build runs on.
#[derive(Debug, Clone, Copy, PartialEq, Eq, Structural)]
pub enum Platform {
    Windows,
    MacOs,
    Linux,
    Other,
}

/// A directory that the running system resolves.
#[derive(Debug, Clone, Copy, PartialEq, Eq, Structural)]
pub enum Anchor {
    /// Nothing: the segments are a path by themselves.
    Bare,
    /// The directory that holds the running executable.
    ExeDir,
    /// The working directory.
    CurrentDir,
    /// The program files directory of Windows.
    ProgramFiles,
    /// The 32-bit program files directory of Windows.
    ProgramFilesX86,
    /// The user's configuration directory.
    ConfigDir,
    /// The user's data directory.
    DataDir,
}

impl Anchor {
    /// The environment variable that names the anchor's directory, for the
    /// anchors that have one.
    pub open spec fn spec_variable(self) -> Option<Seq<char>> {
        match self {
            Anchor::ProgramFiles => Some("PROGRAMFILES"@),
            Anchor::ProgramFilesX86 => Some("PROGRAMFILES(X86)"@),
            _ => None,
        }
    }

    /// The directory taken where the anchor's variable is not set.
    pub open spec fn spec_fallback(self) -> Option<Seq<char>> {
        match self {
            Anchor::ProgramFiles => Some("C:\\Program Files"@),
            Anchor::ProgramFilesX86 => Some("C:\\Program Files (x86)"@),
            _ => None,
        }
    }

    pub fn variable(&self) -> (name: Option<&'static str>)
        ensures
            name is Some <==> self.spec_variable() is Some,
            name matches Some(n) ==> Some(n@) == self.spec_variable(),
    {
        match self {
            Anchor::ProgramFiles => Some("PROGRAMFILES"),
            Anchor::ProgramFilesX86 => Some("PROGRAMFILES(X86)"),
            _ => None,
        }
    }

    pub fn fallback(&self) -> (dir: Option<&'static str>)
        ensures
            dir is Some <==> self.spec_fallback() is Some,
            dir matches Some(d) ==> Some(d@) == self.spec_fallback(),
    {
        match self {
            Anchor::ProgramFiles => Some("C:\\Program Files"),
            Anchor::ProgramFilesX86 => Some("C:\\Program Files (x86)"),
            _ => None,
        }
    }
}

/// A recipe for a path: start at the anchor, go up `ascend` parents, then
/// append the segments one by one.
#[derive(Debug, PartialEq, Eq)]
pub struct Location {
    pub anchor: Anchor,
    pub ascend: usize,
    pub segments: Vec<&'static str>,
}

/// The values of a `Location`.
pub struct LocationView {
    pub anchor: Anchor,
    pub ascend: nat,
    pub segments: Seq<Seq<char>>,
}

impl DeepView for Location {
    type V = LocationView;

    open spec fn deep_view(&self) -> LocationView {
        LocationView {
            anchor: self.anchor,
            ascend: self.ascend as nat,
            segments: self.segments.deep_view(),
        }
    }
}

/// The recipe with the given anchor and segments, and no ascent.
pub open spec fn at(anchor: Anchor, segments: Seq<Seq<char>>) -> LocationView {
    LocationView { anchor, ascend: 0, segments }
}

/// The name of the application's directory under the user's configuration
/// and data directories.
pub open spec fn app_dir() -> Seq<char> {
    "TypeWinner"@
}

/// The file name of the automation script.
pub open spec fn script_name() -> Seq<char> {
    "puppeteer-node.cjs"@
}

/// Where the script lies in a source checkout, below the directory given by
/// the first segment.
pub open spec fn checkout_script(first: Seq<char>) -> Seq<Seq<char>> {
    seq![first, "main"@, "utils"@, script_name()]
}

/// Where the browser binary is looked for, in this order.
pub open spec fn spec_chrome_candidates(platform: Platform) -> Seq<LocationView> {
    match platform {
        Platform::Windows => seq![
            at(Anchor::ProgramFiles, seq!["Google"@, "Chrome"@, "Application"@, "chrome.exe"@]),
            at(Anchor::ProgramFilesX86, seq!["Google"@, "Chrome"@, "Application"@, "chrome.exe"@]),
        ],
        Platform::MacOs => seq![
            at(Anchor::Bare, seq!["/Applications/Google Chrome.app/Contents/MacOS/Google Chrome"@]),
        ],
        Platform::Linux => seq![
            at(Anchor::Bare, seq!["/usr/bin/google-chrome"@]),
            at(Anchor::Bare, seq!["/usr/bin/google-chrome-stable"@]),
            at(Anchor::Bare, seq!["/snap/bin/chromium"@]),
        ],
        Platform::Other => seq![],
    }
}

/// Where the automation script is looked for, in this order: first beside
/// the executable, as an installed bundle lays it out, then in a source
/// checkout around the working directory.
pub open spec fn spec_script_candidates(platform: Platform) -> Seq<LocationView> {
    let bundled = if platform == Platform::MacOs {
        seq![
            LocationView {
                anchor: Anchor::ExeDir,
                ascend: 3,
                segments: seq!["Resources"@, script_name()],
            },
            LocationView {
                anchor: Anchor::ExeDir,
                ascend: 3,
                segments: seq!["Resources"@, "_up_"@, "src"@, "main"@, "utils"@, script_name()],
            },
        ]
    } else {
        seq![
            at(
                Anchor::ExeDir,
                seq!["resources"@, "_up_"@, "src"@, "main"@, "utils"@, script_name()],
            ),
        ]
    };
    seq![
        at(Anchor::ExeDir, seq![script_name()]),
        at(Anchor::ExeDir, seq!["resources"@, script_name()]),
    ] + bundled + seq![
        at(Anchor::CurrentDir, checkout_script("src"@)),
        at(Anchor::CurrentDir, seq![".."@, "src"@, "main"@, "utils"@, script_name()]),
        at(Anchor::Bare, checkout_script("src"@)),
        at(Anchor::Bare, checkout_script("../src"@)),
    ]
}

/// Where the script runtime is looked for when the search path does not have
/// it, in this order.
pub open spec fn spec_runtime_fallbacks(platform: Platform) -> Seq<LocationView> {
    if platform == Platform::MacOs {
        seq![
            at(Anchor::Bare, seq!["/usr/local/bin/node"@]),
            at(Anchor::Bare, seq!["/opt/homebrew/bin/node"@]),
        ]
    } else {
        seq![]
    }
}

/// The name under which the script runtime is looked up on the search path.
pub open spec fn spec_runtime_name() -> Seq<char> {
    "node"@
}

/// The name under which the script runtime is looked up on the search path.
pub fn runtime_name() -> (name: &'static str)
    ensures
        name@ == spec_runtime_name(),
{
    "node"
}

fn bare(path: &'static str) -> (location: Location)
    ensures
        location.deep_view() == at(Anchor::Bare, seq![path@]),
{
    let location = Location { anchor: Anchor::Bare, ascend: 0, segments: vec![path] };
    assert(location.segments.deep_view() =~= seq![path@]);
    location
}

fn under(anchor: Anchor, ascend: usize, segments: Vec<&'static str>) -> (location: Location)
    ensures
        location.deep_view() == (LocationView {
            anchor,
            ascend: ascend as nat,
            segments: segments.deep_view(),
        }),
{
    Location { anchor, ascend, segments }
}

/// The candidates for the browser binary.
pub fn chrome_candidates(platform: Platform) -> (candidates: Vec<Location>)
    ensures
        candidates.deep_view() == spec_chrome_candidates(platform),
{
    let candidates = match platform {
        Platform::Windows => {
            let first = vec!["Google", "Chrome", "Application", "chrome.exe"];
            let second = vec!["Google", "Chrome", "Application", "chrome.exe"];
            assert(first.deep_view() =~= seq!["Google"@, "Chrome"@, "Application"@, "chrome.exe"@]);
            assert(second.deep_view() =~= seq![
                "Google"@,
                "Chrome"@,
                "Application"@,
                "chrome.exe"@,
            ]);
            vec![under(Anchor::ProgramFiles, 0, first), under(Anchor::ProgramFilesX86, 0, second)]
        },
        Platform::MacOs => vec![
            bare("/Applications/Google Chrome.app/Contents/MacOS/Google Chrome"),
        ],
        Platform::Linux => vec![
            bare("/usr/bin/google-chrome"),
            bare("/usr/bin/google-chrome-stable"),
            bare("/snap/bin/chromium"),
        ],
        Platform::Other => Vec::new(),
    };
    assert(candidates.deep_view() =~= spec_chrome_candidates(platform));
    candidates
}

/// The candidates for the automation script.
pub fn script_candidates(platform: Platform) -> (candidates: Vec<Location>)
    ensures
        candidates.deep_view() == spec_script_candidates(platform),
{
    let beside = vec!["puppeteer-node.cjs"];
    let resources = vec!["resources", "puppeteer-node.cjs"];
    let working = vec!["src", "main", "utils", "puppeteer-node.cjs"];
    let above = vec!["..", "src", "main", "utils", "puppeteer-node.cjs"];
    let relative = vec!["src", "main", "utils", "puppeteer-node.cjs"];
    let relative_above = vec!["../src", "main", "utils", "puppeteer-node.cjs"];
    proof {
        assert(beside.deep_view() =~= seq![script_name()]);
        assert(resources.deep_view() =~= seq!["resources"@, script_name()]);
        assert(working.deep_view() =~= checkout_script("src"@));
        assert(above.deep_view() =~= seq![".."@, "src"@, "main"@, "utils"@, script_name()]);
        assert(relative.deep_view() =~= checkout_script("src"@));
        assert(relative_above.deep_view() =~= checkout_script("../src"@));
    }
    let mut candidates = vec![
        under(Anchor::ExeDir, 0, beside),
        under(Anchor::ExeDir, 0, resources),
    ];
    match platform {
        Platform::MacOs => {
            let plain = vec!["Resources", "puppeteer-node.cjs"];
            let kept = vec!["Resources", "_up_", "src", "main", "utils", "puppeteer-node.cjs"];
            proof {
                assert(plain.deep_view() =~= seq!["Resources"@, script_name()]);
                assert(kept.deep_view() =~= seq![
                    "Resources"@,
                    "_up_"@,
                    "src"@,
                    "main"@,
                    "utils"@,
                    script_name(),
                ]);
            }
            candidates.push(under(Anchor::ExeDir, 3, plain));
            candidates.push(under(Anchor::ExeDir, 3, kept));
        },
        _ => {
            let kept = vec!["resources", "_up_", "src", "main", "utils", "puppeteer-node.cjs"];
            proof {
                assert(kept.deep_view() =~= seq![
                    "resources"@,
                    "_up_"@,
                    "src"@,
                    "main"@,
                    "utils"@,
                    script_name(),
                ]);
            }
            candidates.push(under(Anchor::ExeDir, 0, kept));
        },
    }
    candidates.push(under(Anchor::CurrentDir, 0, working));
    candidates.push(under(Anchor::CurrentDir, 0, above));
    candidates.push(under(Anchor::Bare, 0, relative));
    candidates.push(under(Anchor::Bare, 0, relative_above));
    assert(candidates.deep_view() =~= spec_script_candidates(platform));
    candidates
}

/// The fallback candidates for the script runtime.
pub fn runtime_fallbacks(platform: Platform) -> (candidates: Vec<Location>)
    ensures
        candidates.deep_view() == spec_runtime_fallbacks(platform),
{
    let candidates = match platform {
        Platform::MacOs => vec![bare("/usr/local/bin/node"), bare("/opt/homebrew/bin/node")],
        _ => Vec::new(),
    };
    assert(candidates.deep_view() =~= spec_runtime_fallbacks(platform));
    candidates
}

/// The application's directory for configuration files. It is created
/// before anything is written below it.
pub fn get_config_dir() -> (dir: Location)
    ensures
        dir.deep_view() == at(Anchor::ConfigDir, seq![app_dir()]),
{
    let segments = vec!["TypeWinner"];
    assert(segments.deep_view() =~= seq![app_dir()]);
    under(Anchor::ConfigDir, 0, segments)
}

/// The application's directory for the browser's data.
pub fn get_data_dir() -> (dir: Location)
    ensures
        dir.deep_view() == at(Anchor::DataDir, seq![app_dir()]),
{
    let segments = vec!["TypeWinner"];
    assert(segments.deep_view() =~= seq![app_dir()]);
    under(Anchor::DataDir, 0, segments)
}

/// The file that holds the API key, in the configuration directory.
pub fn get_api_key_path() -> (file: Location)
    ensures
        file.deep_view() == at(Anchor::ConfigDir, seq![app_dir(), "grokKey"@]),
{
    let segments = vec!["TypeWinner", "grokKey"];
    assert(segments.deep_view() =~= seq![app_dir(), "grokKey"@]);
    under(Anchor::ConfigDir, 0, segments)
}

/// The file that holds the typing configuration, in the configuration
/// directory. The subprocess reads it.
pub fn get_type_config_path() -> (file: Location)
    ensures
        file.deep_view() == at(Anchor::ConfigDir, seq![app_dir(), "typeConfig.json"@]),
{
    let segments = vec!["TypeWinner", "typeConfig.json"];
    assert(segments.deep_view() =~= seq![app_dir(), "typeConfig.json"@]);
    under(Anchor::ConfigDir, 0, segments)
}

/// The browser binary: the first of the resolved candidates that exists.
/// `found` holds, for each candidate in order, whether it exists.
pub fn get_chrome_path(candidates: Vec<String>, found: &Vec<bool>) -> (path: Option<String>)
    ensures
        match path {
            Some(p) => exists|i: int|
                is_first_match(found@, candidates.len() as nat, i) && p@
                    == #[trigger] candidates[i]@,
            None => none_match(found@, candidates.len() as nat),
        },
{
    match locate(candidates, found) {
        Ok(path) => Some(path),
        Err(_) => None,
    }
}

/// Whether any candidate for the browser binary exists.
pub fn check_chrome_exists(candidates: Vec<String>, found: &Vec<bool>) -> (present: bool)
    ensures
        present == !none_match(found@, candidates.len() as nat),
{
    get_chrome_path(candidates, found).is_some()
}

} // verus!
