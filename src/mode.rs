//! The sub-command that the daemon binary is started with.

use vstd::prelude::*;
use crate::text::same_text;

verus! {

/// One of the daemon's three sub-commands. `Init` and `AddAccount` always
/// need the user at a terminal; only `Daemon` may start silently.
#[derive(PartialEq, Eq, Structural, Clone, Copy, Debug)]
pub enum LaunchMode {
    Init,
    Daemon,
    AddAccount,
}

/// The word that names `m` on the daemon's command line.
pub open spec fn mode_word(m: LaunchMode) -> Seq<char> {
    match m {
        LaunchMode::Init => "init"@,
        LaunchMode::Daemon => "daemon"@,
        LaunchMode::AddAccount => "add-account"@,
    }
}

/// Why a launch did not end with a live daemon or an open terminal.
#[derive(Debug)]
pub enum LaunchError {
    /// The requested mode is none of the three sub-commands.
    InvalidMode(String),
    /// The daemon binary could not be started in the background.
    SpawnFailed(String),
    /// None of the terminal hosts could be started.
    NoInteractiveHost,
}

impl LaunchMode {
    /// The sub-command argument for this mode.
    pub fn subcommand(&self) -> (r: &'static str)
        ensures
            r@ == mode_word(*self),
    {
        match self {
            LaunchMode::Init => "init",
            LaunchMode::Daemon => "daemon",
            LaunchMode::AddAccount => "add-account",
        }
    }

    /// Whether this mode can only be served at an interactive terminal.
    pub fn is_interactive_only(&self) -> (r: bool)
        ensures
            r == (*self != LaunchMode::Daemon),
    {
        !matches!(self, LaunchMode::Daemon)
    }
}

/// Reads a mode from its command-line word; any other text is refused.
pub fn parse_launch_mode(text: &str) -> (r: Result<LaunchMode, LaunchError>)
    ensures
        r matches Ok(m) ==> text@ == mode_word(m),
        r is Err <==> (forall|m: LaunchMode| text@ != #[trigger] mode_word(m)),
        r matches Err(e) ==> (e matches LaunchError::InvalidMode(t) && t@ == text@),
{
    if same_text(text, "init") {
        assert(text@ == mode_word(LaunchMode::Init));
        Ok(LaunchMode::Init)
    } else if same_text(text, "daemon") {
        assert(text@ == mode_word(LaunchMode::Daemon));
        Ok(LaunchMode::Daemon)
    } else if same_text(text, "add-account") {
        assert(text@ == mode_word(LaunchMode::AddAccount));
        Ok(LaunchMode::AddAccount)
    } else {
        assert forall|m: LaunchMode| text@ != #[trigger] mode_word(m) by {
            match m {
                LaunchMode::Init => {},
                LaunchMode::Daemon => {},
                LaunchMode::AddAccount => {},
            }
        }
        Err(LaunchError::InvalidMode(String::from_str(text)))
    }
}

impl LaunchError {
    /// A sentence describing the error for the user.
    pub fn message(&self) -> (r: String)
        ensures
            self matches LaunchError::InvalidMode(t) ==> r@ == "Invalid mode: "@ + t@,
            self matches LaunchError::SpawnFailed(d) ==> r@ == "Failed to launch NoorSigner in background: "@ + d@,
            self is NoInteractiveHost ==> r@ == "No terminal emulator could be started to run NoorSigner"@,
    {
        match self {
            LaunchError::InvalidMode(t) => String::from_str("Invalid mode: ").concat(t.as_str()),
            LaunchError::SpawnFailed(d) => String::from_str("Failed to launch NoorSigner in background: ").concat(d.as_str()),
            LaunchError::NoInteractiveHost => String::from_str("No terminal emulator could be started to run NoorSigner"),
        }
    }
}

} // verus!
