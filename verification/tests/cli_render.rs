use version_swap::cli::{Args, Command};
use version_swap::fsmodel::FsNode;
use version_swap::swap::{launch_exe, run_version};

fn default_args(cmd: Command) -> Args {
    Args {
        no_skse: false,
        verbose: false,
        quiet: false,
        wait: false,
        gamedir: ".".to_string(),
        nolog: false,
        cmd,
    }
}

#[test]
fn commands_render_as_typed() {
    assert_eq!(Command::Check.render(), "check");
    assert_eq!(Command::Launch.render(), "launch");
    assert_eq!(Command::Run { version: "1.6.640".to_string() }.render(), "run 1.6.640");
    assert_eq!(Command::Swap { version: "1.5.97".to_string() }.render(), "swap 1.5.97");
}

#[test]
fn default_invocation_renders_tool_name_and_command() {
    let args = default_args(Command::Check);
    assert_eq!(args.render(), "version-swap  check");
}

#[test]
fn set_flags_render_in_order() {
    let mut args = default_args(Command::Swap { version: "1.5.97".to_string() });
    args.verbose = true;
    args.wait = true;
    assert_eq!(args.render(), "version-swap --verbose--wait swap 1.5.97");
}

#[test]
fn non_default_gamedir_renders_quoted() {
    let mut args = default_args(Command::Launch);
    args.gamedir = "C:/games/skyrim".to_string();
    assert_eq!(args.render(), "version-swap --gamedir 'C:/games/skyrim' launch");
}

#[test]
fn launch_exe_honors_the_skse_choice() {
    assert_eq!(launch_exe(false), "./skse64_loader.exe");
    assert_eq!(launch_exe(true), "./SkyrimSE.exe");
}

#[test]
fn run_plan_couples_swap_and_launch() {
    let payload = vec![
        FsNode::File { name: "SkyrimSE.exe".to_string() },
        FsNode::File { name: "steam_api64.dll".to_string() },
    ];
    let plan = run_version(&payload, false);
    let copies: Vec<Vec<String>> = plan.copies.iter().map(|p| p.segments.clone()).collect();
    assert_eq!(
        copies,
        vec![vec!["SkyrimSE.exe".to_string()], vec!["steam_api64.dll".to_string()]]
    );
    assert_eq!(plan.exe, "./skse64_loader.exe");
}
