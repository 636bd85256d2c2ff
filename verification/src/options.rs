//! The configuration that every component reads and none changes.

use vstd::prelude::*;

verus! {

/// The configuration of the dispatcher, fixed when the process starts.
#[derive(Debug)]
pub struct Options {
    /// Seconds after which the sandbox gives up on starting the unit.
    pub timeout: usize,
    /// The shell that reads the snippet.
    pub shell: String,
    /// Name of the unprivileged user.
    pub user_mode_user: String,
    /// Name of the unprivileged group.
    pub user_mode_group: String,
    /// Home directory of the unprivileged user, as seen inside the sandbox.
    pub user_guest_home: String,
    /// The same directory, as seen by this process.
    pub user_host_home: String,
    /// Name of the sandbox.
    pub machine: String,
    /// File whose creation marks that a reset was asked for.
    pub reset_indicator: String,
    /// Service unit that runs the sandbox.
    pub machine_unit: String,
}

/// What an `Options` holds, as mathematical values.
pub struct OptionsView {
    pub timeout: nat,
    pub shell: Seq<char>,
    pub user_mode_user: Seq<char>,
    pub user_mode_group: Seq<char>,
    pub user_guest_home: Seq<char>,
    pub user_host_home: Seq<char>,
    pub machine: Seq<char>,
    pub reset_indicator: Seq<char>,
    pub machine_unit: Seq<char>,
}

impl View for Options {
    type V = OptionsView;

    open spec fn view(&self) -> OptionsView {
        OptionsView {
            timeout: self.timeout as nat,
            shell: self.shell@,
            user_mode_user: self.user_mode_user@,
            user_mode_group: self.user_mode_group@,
            user_guest_home: self.user_guest_home@,
            user_host_home: self.user_host_home@,
            machine: self.machine@,
            reset_indicator: self.reset_indicator@,
            machine_unit: self.machine_unit@,
        }
    }
}

impl Clone for Options {
    fn clone(&self) -> (r: Self)
        ensures
            r@ == self@,
    {
        Options {
            timeout: self.timeout,
            shell: self.shell.clone(),
            user_mode_user: self.user_mode_user.clone(),
            user_mode_group: self.user_mode_group.clone(),
            user_guest_home: self.user_guest_home.clone(),
            user_host_home: self.user_host_home.clone(),
            machine: self.machine.clone(),
            reset_indicator: self.reset_indicator.clone(),
            machine_unit: self.machine_unit.clone(),
        }
    }
}

/// The timeout that is used where none is configured, in seconds.
pub const DEFAULT_TIMEOUT: usize = 60;

/// The shell that is used where none is configured.
pub open spec fn default_shell_spec() -> Seq<char> {
    "/bin/sh"@
}

/// The shell that is used where none is configured.
pub fn default_shell() -> (r: &'static str)
    ensures
        r@ == default_shell_spec(),
{
    "/bin/sh"
}

} // verus!
