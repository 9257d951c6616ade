use benchrun::config::BenchConfig;
use benchrun::invocation::{materialize, Platform};

fn config(cmd: &str, shell: bool, nullpipe: bool) -> BenchConfig {
    BenchConfig::new(1, String::from(cmd), shell, nullpipe, None).unwrap()
}

#[test]
fn shell_mode_wraps_in_sh_dash_c() {
    let inv = materialize(&config("echo hi", true, false), Platform::Posix);
    assert_eq!(inv.program, "sh");
    assert_eq!(inv.args, vec!["-c".to_string(), "echo hi".to_string()]);
}

#[test]
fn suppression_appends_posix_redirection() {
    let inv = materialize(&config("echo hi", false, true), Platform::Posix);
    assert_eq!(inv.program, "sh");
    assert_eq!(
        inv.args,
        vec!["-c".to_string(), "echo hi 2>&1 > /dev/null".to_string()]
    );
}

#[test]
fn suppression_with_shell_flag_set_too() {
    let inv = materialize(&config("echo hi", true, true), Platform::Posix);
    assert_eq!(inv.program, "sh");
    assert_eq!(
        inv.args,
        vec!["-c".to_string(), "echo hi 2>&1 > /dev/null".to_string()]
    );
}

#[test]
fn direct_mode_passes_command_unsplit() {
    let inv = materialize(&config("echo hi", false, false), Platform::Posix);
    assert_eq!(inv.program, "echo hi");
    assert!(inv.args.is_empty());
}

#[test]
fn windows_shell_uses_cmd_exe() {
    let inv = materialize(&config("echo hi", true, false), Platform::Windows);
    assert_eq!(inv.program, "cmd.exe");
    assert_eq!(inv.args, vec!["/c".to_string(), "echo hi".to_string()]);
}

#[test]
fn windows_suppression_has_no_effect() {
    let inv = materialize(&config("echo hi", false, true), Platform::Windows);
    assert_eq!(inv.program, "cmd.exe");
    assert_eq!(inv.args, vec!["/c".to_string(), "echo hi".to_string()]);
}
