//! The tool's command surface: which operation to run and the options that
//! shape it, with a rendering of an invocation back to the command line that
//! would produce it.
use vstd::prelude::*;
use vstd::string::*;

verus! {

/// What to do: check every discovered version, swap one version in, swap
/// then launch, or launch what is already staged.
pub enum Command {
    Check,
    Run { version: String },
    Swap { version: String },
    Launch,
}

/// The options of one invocation.
pub struct Args {
    /// Run the game directly, without the script extender.
    pub no_skse: bool,
    /// Print more information as the tool runs.
    pub verbose: bool,
    /// Print only very important information.
    pub quiet: bool,
    /// Wait for enter before quitting.
    pub wait: bool,
    /// The game directory to target.
    pub gamedir: String,
    /// Turn off logging to a file.
    pub nolog: bool,
    /// What to do.
    pub cmd: Command,
}

/// The command as it would be typed.
pub open spec fn spec_command_text(c: Command) -> Seq<char> {
    match c {
        Command::Check => "check"@,
        Command::Run { version } => "run "@ + version@,
        Command::Swap { version } => "swap "@ + version@,
        Command::Launch => "launch"@,
    }
}

/// The invocation as it would be typed: the tool name, the flags that are
/// set, the game directory when it is not the default, then the command.
pub open spec fn spec_args_text(a: Args) -> Seq<char> {
    "version-swap "@ + (if a.no_skse {
        "--no-skse"@
    } else {
        Seq::<char>::empty()
    }) + (if a.verbose {
        "--verbose"@
    } else {
        Seq::<char>::empty()
    }) + (if a.quiet {
        "--quiet"@
    } else {
        Seq::<char>::empty()
    }) + (if a.wait {
        "--wait"@
    } else {
        Seq::<char>::empty()
    }) + (if a.nolog {
        "--nolog"@
    } else {
        Seq::<char>::empty()
    }) + (if a.gamedir@ == "."@ {
        Seq::<char>::empty()
    } else {
        "--gamedir '"@ + a.gamedir@ + "'"@
    }) + " "@ + spec_command_text(a.cmd)
}

impl Command {
    /// Renders the command as it would be typed.
    pub fn render(&self) -> (r: String)
        ensures
            r@ == spec_command_text(*self),
    {
        match self {
            Command::Check => String::from_str("check"),
            Command::Run { version } => String::from_str("run ").concat(version.as_str()),
            Command::Swap { version } => String::from_str("swap ").concat(version.as_str()),
            Command::Launch => String::from_str("launch"),
        }
    }
}

impl Args {
    /// Renders the whole invocation as it would be typed.
    pub fn render(&self) -> (r: String)
        ensures
            r@ == spec_args_text(*self),
    {
        let mut s = String::from_str("version-swap ");
        if self.no_skse {
            s.append("--no-skse");
        }
        if self.verbose {
            s.append("--verbose");
        }
        if self.quiet {
            s.append("--quiet");
        }
        if self.wait {
            s.append("--wait");
        }
        if self.nolog {
            s.append("--nolog");
        }
        let dot = String::from_str(".");
        if !self.gamedir.eq(&dot) {
            s.append("--gamedir '");
            s.append(self.gamedir.as_str());
            s.append("'");
        }
        s.append(" ");
        let c = self.cmd.render();
        let r = s.concat(c.as_str());
        proof {
            assert(r@ =~= spec_args_text(*self));
        }
        r
    }
}

} // verus!
