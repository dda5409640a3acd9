//! The Windows PowerShell executor, the default one, and the stubs of the others.
//!
//! Running the process and asking the user are left to the caller; this module
//! says what is asked, what is run with which environment, and what the answer
//! and the exit status mean.

use vstd::prelude::*;

use crate::error::{ErrorKind, HypoError};
use crate::text::{concat, i32_text, signed_decimal_text};

verus! {

/// Runs install scripts with `powershell.exe`.
#[derive(Debug)]
pub struct PowerShellExecutor {
    /// Package name, such as `@alice/my-tool`.
    pub package_name: String,
    /// Package version.
    pub package_version: String,
    /// Summary of the sandbox declaration, shown before installing.
    pub sandbox_info: String,
    /// Installation directory.
    pub install_dir: String,
    /// The package's `content/` directory.
    pub content_dir: String,
    /// Whether the confirmation before installing is skipped (`--yes`).
    pub skip_confirm: bool,
}

impl Clone for PowerShellExecutor {
    fn clone(&self) -> (r: PowerShellExecutor)
        ensures
            r.package_name@ == self.package_name@,
            r.package_version@ == self.package_version@,
            r.sandbox_info@ == self.sandbox_info@,
            r.install_dir@ == self.install_dir@,
            r.content_dir@ == self.content_dir@,
            r.skip_confirm == self.skip_confirm,
    {
        PowerShellExecutor {
            package_name: self.package_name.clone(),
            package_version: self.package_version.clone(),
            sandbox_info: self.sandbox_info.clone(),
            install_dir: self.install_dir.clone(),
            content_dir: self.content_dir.clone(),
            skip_confirm: self.skip_confirm,
        }
    }
}

/// The lines shown before an install is confirmed.
pub open spec fn confirm_lines_of(e: PowerShellExecutor) -> Seq<Seq<char>> {
    seq![
        Seq::empty(),
        "═══ hypo 安装确认 ═══"@,
        "  包名:    "@ + e.package_name@,
        "  版本:    "@ + e.package_version@,
        "  目标:    "@ + e.install_dir@,
    ] + (if e.sandbox_info@.len() > 0 {
        seq!["  沙箱声明: "@ + e.sandbox_info@]
    } else {
        Seq::empty()
    }) + seq!["══════════════════════"@, Seq::empty()]
}

/// The environment given to a script: the four `HYPO_*` variables, then the
/// extra ones in order (a later entry overrides an earlier one of the same name).
pub open spec fn script_env_of(e: PowerShellExecutor, extra: Seq<(Seq<char>, Seq<char>)>) -> Seq<(Seq<char>, Seq<char>)> {
    seq![
        ("HYPO_PKG_NAME"@, e.package_name@),
        ("HYPO_PKG_VERSION"@, e.package_version@),
        ("HYPO_INSTALL_DIR"@, e.install_dir@),
        ("HYPO_CONTENT_DIR"@, e.content_dir@),
    ] + extra
}

/// The views of a list of name/value pairs.
pub open spec fn pair_views(s: Seq<(String, String)>) -> Seq<(Seq<char>, Seq<char>)> {
    s.map_values(|p: (String, String)| (p.0@, p.1@))
}

/// The arguments of `powershell.exe` that run `script`.
pub open spec fn powershell_args_of(script: Seq<char>) -> Seq<Seq<char>> {
    seq!["-ExecutionPolicy"@, "Bypass"@, "-NoProfile"@, "-NonInteractive"@, "-File"@, script]
}

fn push_pair(v: &mut Vec<(String, String)>, k: &str, val: &str)
    ensures
        pair_views(final(v)@) == pair_views(old(v)@).push((k@, val@)),
{
    v.push((String::from_str(k), String::from_str(val)));
    assert(pair_views(v@) =~= pair_views(old(v)@).push((k@, val@)));
}

impl PowerShellExecutor {
    /// An executor for one package, with no sandbox summary, asking before it
    /// installs.
    pub fn new(package_name: &str, package_version: &str, install_dir: String, content_dir: String) -> (r: PowerShellExecutor)
        ensures
            r.package_name@ == package_name@,
            r.package_version@ == package_version@,
            r.sandbox_info@ == Seq::<char>::empty(),
            r.install_dir == install_dir,
            r.content_dir == content_dir,
            !r.skip_confirm,
    {
        PowerShellExecutor {
            package_name: String::from_str(package_name),
            package_version: String::from_str(package_version),
            sandbox_info: String::new(),
            install_dir,
            content_dir,
            skip_confirm: false,
        }
    }

    /// Sets the sandbox summary.
    pub fn with_sandbox(self, info: &str) -> (r: PowerShellExecutor)
        ensures
            r.sandbox_info@ == info@,
            r.package_name == self.package_name,
            r.package_version == self.package_version,
            r.install_dir == self.install_dir,
            r.content_dir == self.content_dir,
            r.skip_confirm == self.skip_confirm,
    {
        PowerShellExecutor { sandbox_info: String::from_str(info), ..self }
    }

    /// The lines shown before asking whether to run the install script; the
    /// sandbox line only when there is a sandbox summary.
    pub fn confirm_lines(&self) -> (r: Vec<String>)
        ensures
            r@.map_values(|s: String| s@) == confirm_lines_of(*self),
    {
        let mut v: Vec<String> = Vec::new();
        v.push(String::new());
        v.push(String::from_str("═══ hypo 安装确认 ═══"));
        v.push(concat("  包名:    ", self.package_name.as_str()));
        v.push(concat("  版本:    ", self.package_version.as_str()));
        v.push(concat("  目标:    ", self.install_dir.as_str()));
        if !self.sandbox_info.as_str().is_empty() {
            v.push(concat("  沙箱声明: ", self.sandbox_info.as_str()));
        }
        v.push(String::from_str("══════════════════════"));
        v.push(String::new());
        assert(v@.map_values(|s: String| s@) =~= confirm_lines_of(*self));
        v
    }

    /// The environment for a script run: the package's `HYPO_*` variables, then
    /// `extra`.
    pub fn script_env(&self, extra: &[(String, String)]) -> (r: Vec<(String, String)>)
        ensures
            pair_views(r@) == script_env_of(*self, pair_views(extra@)),
    {
        let mut v: Vec<(String, String)> = Vec::new();
        push_pair(&mut v, "HYPO_PKG_NAME", self.package_name.as_str());
        push_pair(&mut v, "HYPO_PKG_VERSION", self.package_version.as_str());
        push_pair(&mut v, "HYPO_INSTALL_DIR", self.install_dir.as_str());
        push_pair(&mut v, "HYPO_CONTENT_DIR", self.content_dir.as_str());
        let mut i: usize = 0;
        while i < extra.len()
            invariant
                i <= extra@.len(),
                pair_views(v@) == script_env_of(*self, pair_views(extra@).take(i as int)),
            decreases extra@.len() - i,
        {
            push_pair(&mut v, extra[i].0.as_str(), extra[i].1.as_str());
            assert(pair_views(extra@).take(i as int + 1) =~= pair_views(extra@).take(i as int).push(
                (extra@[i as int].0@, extra@[i as int].1@),
            ));
            assert(script_env_of(*self, pair_views(extra@).take(i as int + 1)) =~= script_env_of(
                *self,
                pair_views(extra@).take(i as int),
            ).push((extra@[i as int].0@, extra@[i as int].1@)));
            i = i + 1;
        }
        assert(pair_views(extra@).take(extra@.len() as int) =~= pair_views(extra@));
        v
    }
}

/// The arguments of `powershell.exe` that run `script` without a profile, without
/// interaction and with the execution policy bypassed.
pub fn powershell_args(script: &str) -> (r: Vec<String>)
    ensures
        r@.map_values(|s: String| s@) == powershell_args_of(script@),
{
    let mut v: Vec<String> = Vec::new();
    v.push(String::from_str("-ExecutionPolicy"));
    v.push(String::from_str("Bypass"));
    v.push(String::from_str("-NoProfile"));
    v.push(String::from_str("-NonInteractive"));
    v.push(String::from_str("-File"));
    v.push(String::from_str(script));
    assert(v@.map_values(|s: String| s@) =~= powershell_args_of(script@));
    v
}

/// What the user's answer to the confirmation means: go on when they agreed, stop
/// with "cancelled" when they refused, and pass on a failure of the dialog.
pub fn confirmation_outcome(answer: Result<bool, HypoError>) -> (r: Result<(), HypoError>)
    ensures
        match answer {
            Ok(true) => r is Ok,
            Ok(false) => r matches Err(e) && e@ == (ErrorKind::PowerShell, "用户取消了安装"@),
            Err(e0) => r matches Err(e) && e@ == e0@,
        },
{
    match answer {
        Ok(true) => Ok(()),
        Ok(false) => Err(HypoError::PowerShell(String::from_str("用户取消了安装"))),
        Err(e) => Err(e),
    }
}

/// What a finished script run means: success, or an error naming the exit code
/// (-1 when the process gave none).
pub fn exit_outcome(success: bool, code: Option<i32>) -> (r: Result<(), HypoError>)
    ensures
        success ==> r is Ok,
        !success ==> (r matches Err(e) && e@ == (
            ErrorKind::PowerShell,
            "PowerShell 脚本以退出码 "@ + signed_decimal_text(
                match code {
                    Some(c) => c as int,
                    None => -1,
                },
            ) + " 结束"@,
        )),
{
    if success {
        return Ok(());
    }
    let c: i32 = match code {
        Some(c) => c,
        None => -1,
    };
    let t = i32_text(c);
    let a = concat("PowerShell 脚本以退出码 ", t.as_str());
    Err(HypoError::PowerShell(concat(a.as_str(), " 结束")))
}

/// A script run that was decided on: the program, its arguments and its
/// environment.
#[derive(Debug)]
pub struct ScriptRun {
    /// The program to start.
    pub program: String,
    /// Its arguments.
    pub args: Vec<String>,
    /// The variables added to its environment, in order.
    pub env: Vec<(String, String)>,
}

impl PowerShellExecutor {
    /// Decides whether the install script `script` runs and how. Unless the
    /// confirmation is skipped, `answer` is the user's answer to it: the script
    /// runs only when they agreed. It runs as `powershell.exe` with the arguments
    /// of [`powershell_args`] and the environment of [`PowerShellExecutor::script_env`];
    /// when it has finished, [`exit_outcome`] says what its exit status means.
    pub fn plan_run(&self, script: &str, extra: &[(String, String)], answer: Option<Result<bool, HypoError>>) -> (r: Result<
        ScriptRun,
        HypoError,
    >)
        requires
            self.skip_confirm || answer is Some,
        ensures
            (self.skip_confirm || answer matches Some(Ok(true))) ==> (r matches Ok(run) && run.program@
                == "powershell.exe"@ && run.args@.map_values(|s: String| s@) == powershell_args_of(script@)
                && pair_views(run.env@) == script_env_of(*self, pair_views(extra@))),
            !self.skip_confirm ==> match answer {
                Some(Ok(false)) => r matches Err(e) && e@ == (ErrorKind::PowerShell, "用户取消了安装"@),
                Some(Err(e0)) => r matches Err(e) && e@ == e0@,
                _ => true,
            },
    {
        if !self.skip_confirm {
            match answer {
                Some(a) => confirmation_outcome(a)?,
                None => {
                    assert(false);
                    return Err(HypoError::PowerShell(String::from_str("用户取消了安装")));
                },
            }
        }
        Ok(
            ScriptRun {
                program: String::from_str("powershell.exe"),
                args: powershell_args(script),
                env: self.script_env(extra),
            },
        )
    }
}

/// Bash script executor, not available yet.
#[derive(Clone)]
pub struct BashExecutor;

/// Zsh script executor, not available yet.
#[derive(Clone)]
pub struct ZshExecutor;

/// Python script executor, not available yet.
#[derive(Clone)]
pub struct PythonExecutor;

} // verus!
