//! The daemon's settings: as the user gives them, and checked.

use crate::chars::is_blank;
use crate::command::{must_to_command, words, CommandLine};
use crate::error::ConfigError;
use vstd::prelude::*;

verus! {

/// The settings as the user gives them, unchecked.
#[derive(Clone, Debug, PartialEq, Eq)]
pub struct Options {
    /// Seconds between two checks for logged-on users.
    pub check_interval: u64,
    /// Seconds without any user after which the machine is suspended.
    pub sec_to_suspend: u64,
    /// Whether to power the machine off when a suspend seems to have failed.
    pub force_shutdown: bool,
    /// The command line that suspends the machine.
    pub suspend_command: String,
}

impl Default for Options {
    /// A check every minute, a suspend after an hour without users, no
    /// forced power-off, and systemd's suspend.
    fn default() -> (r: Options)
        ensures
            r.check_interval == 60,
            r.sec_to_suspend == 3600,
            !r.force_shutdown,
            r.suspend_command@ == "/usr/bin/systemctl suspend"@,
    {
        Options {
            check_interval: 60,
            sec_to_suspend: 3600,
            force_shutdown: false,
            suspend_command: "/usr/bin/systemctl suspend".to_owned(),
        }
    }
}

/// Checked settings, with the suspend command cut into its words.
#[derive(Clone, Debug, PartialEq, Eq)]
pub struct Config {
    /// Seconds between two checks for logged-on users.
    pub check_interval: u64,
    /// Seconds without any user after which the machine is suspended.
    pub sec_to_suspend: u64,
    /// Whether to power the machine off when a suspend seems to have failed.
    pub force_shutdown: bool,
    /// The command that suspends the machine.
    pub suspend_command: CommandLine,
}

impl Config {
    /// The checks come at a pace, and the suspend command names a program.
    pub open spec fn wf(self) -> bool {
        &&& self.check_interval > 0
        &&& self.suspend_command.wf()
    }

    /// Checks the settings. A check interval of zero is refused, then a
    /// suspend command that names no program; everything else is taken
    /// as it is given.
    pub fn new(options: &Options) -> (r: Result<Config, ConfigError>)
        ensures
            r is Ok <==> options.check_interval > 0 && !is_blank(options.suspend_command@),
            r matches Err(e) ==> e == (if options.check_interval == 0 {
                ConfigError::ZeroCheckInterval
            } else {
                ConfigError::EmptyCommand
            }),
            r matches Ok(config) ==> {
                &&& config.wf()
                &&& config.check_interval == options.check_interval
                &&& config.sec_to_suspend == options.sec_to_suspend
                &&& config.force_shutdown == options.force_shutdown
                &&& config.suspend_command.words() == words(options.suspend_command@)
            },
    {
        if options.check_interval == 0 {
            return Err(ConfigError::ZeroCheckInterval);
        }
        match must_to_command(options.suspend_command.as_str()) {
            Err(e) => Err(e),
            Ok(suspend_command) => Ok(
                Config {
                    check_interval: options.check_interval,
                    sec_to_suspend: options.sec_to_suspend,
                    force_shutdown: options.force_shutdown,
                    suspend_command,
                },
            ),
        }
    }
}

} // verus!
