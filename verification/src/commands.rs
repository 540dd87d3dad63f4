//! The commands of the user interface, as far as they decide anything.
//!
//! A command that changes the configuration hands back the text to write to
//! the configuration file, so that the subprocess sees the change.

use vstd::prelude::*;
use vstd::string::StringExecFns;
use crate::config::{ConfigError, TypeConfig, UpdateSpeedArgs};
use crate::config_file::{holds, rendered, type_config_text};
use crate::discovery::Platform;
use crate::launch::{CommandLine, CommandLineView};

verus! {

/// The text handed back is the file for the configuration, or no such text
/// could be had.
pub open spec fn is_file_for(res: Result<String, ConfigError>, config: &TypeConfig) -> bool {
    match res {
        Ok(text) => rendered(config@) == Some(text@) && holds(text@, config@),
        Err(e) => e == ConfigError::Unserializable && !(rendered(config@) matches Some(text)
            && holds(text, config@)),
    }
}

/// Sets the typing speed. A speed range `min <= max <= MAX_DELAY` becomes
/// the delay range from `MAX_DELAY - max` to `MAX_DELAY - min`; any other
/// range is refused and changes nothing.
pub fn update_type_speed(args: UpdateSpeedArgs, type_config: &mut TypeConfig) -> (res: Result<
    String,
    ConfigError,
>)
    ensures
        args.in_range() ==> final(type_config)@ == old(type_config)@.with_speed(args)
            && is_file_for(res, final(type_config)),
        !args.in_range() ==> final(type_config)@ == old(type_config)@ && (res matches Err(e) && e
            == ConfigError::SpeedOutOfRange { min: args.min, max: args.max }),
        final(type_config)@.wf(),
{
    match type_config.set_speed(args) {
        Ok(_) => type_config_text(type_config),
        Err(e) => Err(e),
    }
}

/// Sets the error rate, whatever its value.
pub fn update_err_rate(err_rate: u32, type_config: &mut TypeConfig) -> (res: Result<
    String,
    ConfigError,
>)
    ensures
        final(type_config)@ == old(type_config)@.with_error_rate(err_rate),
        is_file_for(res, final(type_config)),
{
    type_config.set_error_rate(err_rate);
    type_config_text(type_config)
}

/// The command that opens a URL in the system's browser.
pub open spec fn spec_open_external(platform: Platform, url: Seq<char>) -> Option<
    CommandLineView,
> {
    match platform {
        Platform::Windows => Some(
            CommandLineView { program: "cmd"@, args: seq!["/C"@, "start"@, url] },
        ),
        Platform::MacOs => Some(CommandLineView { program: "open"@, args: seq![url] }),
        Platform::Linux => Some(CommandLineView { program: "xdg-open"@, args: seq![url] }),
        Platform::Other => None,
    }
}

/// The command to start so that the system opens the URL. On a platform
/// without such a command there is nothing to start.
pub fn open_external(platform: Platform, url: String) -> (command: Option<CommandLine>)
    ensures
        command is Some <==> spec_open_external(platform, url@) is Some,
        command matches Some(c) ==> Some(c@) == spec_open_external(platform, url@),
{
    match platform {
        Platform::Windows => {
            let args = vec![String::from_str("/C"), String::from_str("start"), url];
            assert(args.deep_view() =~= seq!["/C"@, "start"@, url@]);
            Some(CommandLine { program: String::from_str("cmd"), args })
        },
        Platform::MacOs => {
            let args = vec![url];
            assert(args.deep_view() =~= seq![url@]);
            Some(CommandLine { program: String::from_str("open"), args })
        },
        Platform::Linux => {
            let args = vec![url];
            assert(args.deep_view() =~= seq![url@]);
            Some(CommandLine { program: String::from_str("xdg-open"), args })
        },
        Platform::Other => None,
    }
}

} // verus!
