use hypo::error::{ErrorKind, HypoError};
use hypo::executor::powershell::{
    confirmation_outcome, exit_outcome, powershell_args, PowerShellExecutor,
};

fn executor() -> PowerShellExecutor {
    PowerShellExecutor::new("test-pkg", "1.0.0", "/tmp/install".into(), "/tmp/content".into())
}

#[test]
fn test_executor_clone() {
    let exe = executor();
    let exe2 = exe.clone();
    assert_eq!(exe.package_name, exe2.package_name);
}

#[test]
fn test_skip_confirm() {
    let mut exe = executor();
    exe.skip_confirm = true;
    assert!(exe.skip_confirm);
}

#[test]
fn test_with_sandbox() {
    let exe = executor().with_sandbox("allowed_write_paths: [~/test]");
    assert!(exe.sandbox_info.contains("allowed_write_paths"));
}

#[test]
fn new_executor_asks_before_installing() {
    let exe = executor();
    assert!(!exe.skip_confirm);
    assert_eq!(exe.sandbox_info, "");
    assert_eq!(exe.install_dir, "/tmp/install");
    assert_eq!(exe.content_dir, "/tmp/content");
}

#[test]
fn confirmation_lines_show_the_sandbox_only_when_declared() {
    let lines = executor().confirm_lines();
    assert_eq!(
        lines,
        vec![
            "".to_string(),
            "═══ hypo 安装确认 ═══".to_string(),
            "  包名:    test-pkg".to_string(),
            "  版本:    1.0.0".to_string(),
            "  目标:    /tmp/install".to_string(),
            "══════════════════════".to_string(),
            "".to_string(),
        ]
    );
    let lines = executor().with_sandbox("写入: [\"a\"]").confirm_lines();
    assert_eq!(lines.len(), 8);
    assert_eq!(lines[5], "  沙箱声明: 写入: [\"a\"]");
}

#[test]
fn script_environment_and_arguments() {
    let extra = vec![("EXTRA".to_string(), "1".to_string())];
    let env = executor().script_env(&extra);
    assert_eq!(
        env,
        vec![
            ("HYPO_PKG_NAME".to_string(), "test-pkg".to_string()),
            ("HYPO_PKG_VERSION".to_string(), "1.0.0".to_string()),
            ("HYPO_INSTALL_DIR".to_string(), "/tmp/install".to_string()),
            ("HYPO_CONTENT_DIR".to_string(), "/tmp/content".to_string()),
            ("EXTRA".to_string(), "1".to_string()),
        ]
    );
    assert_eq!(
        powershell_args("C:\\x\\install.ps1"),
        vec!["-ExecutionPolicy", "Bypass", "-NoProfile", "-NonInteractive", "-File", "C:\\x\\install.ps1"]
    );
}

#[test]
fn confirmation_and_exit_outcomes() {
    assert!(confirmation_outcome(Ok(true)).is_ok());
    let e = confirmation_outcome(Ok(false)).unwrap_err();
    assert_eq!(e.kind(), ErrorKind::PowerShell);
    assert_eq!(e.detail(), "用户取消了安装");
    let e = confirmation_outcome(Err(HypoError::PowerShell("用户确认对话框失败: x".into()))).unwrap_err();
    assert_eq!(e.detail(), "用户确认对话框失败: x");
    assert!(exit_outcome(true, Some(0)).is_ok());
    assert_eq!(exit_outcome(false, Some(3)).unwrap_err().detail(), "PowerShell 脚本以退出码 3 结束");
    assert_eq!(exit_outcome(false, None).unwrap_err().detail(), "PowerShell 脚本以退出码 -1 结束");
}

#[test]
fn script_runs_only_when_confirmed() {
    let x = PowerShellExecutor::new("@alice/tool", "1.0.0", "/apps/tool".into(), "/tmp/c".into());
    let extra = vec![("EXTRA".to_string(), "1".to_string())];
    let run = x.plan_run("/tmp/install.ps1", &extra, Some(Ok(true))).unwrap();
    assert_eq!(run.program, "powershell.exe");
    assert_eq!(run.args, powershell_args("/tmp/install.ps1"));
    assert_eq!(run.env, x.script_env(&extra));
    assert_eq!(run.env.len(), 5);
    let e = x.plan_run("/tmp/install.ps1", &extra, Some(Ok(false))).unwrap_err();
    assert_eq!(e.detail(), "用户取消了安装");
    let e = x.plan_run("/tmp/install.ps1", &extra, Some(Err(HypoError::PowerShell("对话框失败".into())))).unwrap_err();
    assert_eq!(e.detail(), "对话框失败");
    let mut yes = x.clone();
    yes.skip_confirm = true;
    assert!(yes.plan_run("/tmp/install.ps1", &[], None).is_ok());
}
