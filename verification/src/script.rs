//! Credential Injector: generates the automation script that waits for the
//! client's login window, focuses it, and pastes the credentials, and wraps
//! it in a spawn request for the platform's script interpreter.
//!
//! The script is fire and forget: it synchronizes with the launched client
//! only through fixed delays, carried here as configuration so they can be
//! tuned without touching the logic. Window-activation failure makes the
//! script exit silently rather than type into whatever window has focus.

use vstd::prelude::*;
use crate::decimal::{dec_rep, format_u64};
use crate::escape::{escape_credential, escape_seq};
use crate::spawn::SpawnRequest;

verus! {

/// The fixed delays the generated script sleeps for: once before trying to
/// activate the login window, once for focus to settle after activation,
/// and once between the later input steps.
#[derive(Debug, Clone, Copy, PartialEq, Eq, Structural)]
pub struct AutomationDelays {
    pub startup_seconds: u64,
    pub focus_settle_millis: u64,
    pub step_millis: u64,
}

impl Default for AutomationDelays {
    /// The empirically chosen stock delays.
    fn default() -> (d: Self)
        ensures
            d == (AutomationDelays { startup_seconds: 6, focus_settle_millis: 700, step_millis: 100 }),
    {
        AutomationDelays { startup_seconds: 6, focus_settle_millis: 700, step_millis: 100 }
    }
}

/// The full text of the automation script for the given delays and
/// credentials: sleep, activate the client window (exiting silently if it
/// is not found), then clipboard-paste the username, tab to the password
/// field, paste the password, and submit. The credentials appear escaped
/// inside the script's double-quoted literals.
pub open spec fn spec_login_script(d: AutomationDelays, u: Seq<char>, p: Seq<char>) -> Seq<char> {
    "Start-Sleep -Seconds "@ + dec_rep(d.startup_seconds as nat)
        + "\n$wshell = New-Object -ComObject WScript.Shell\nif (-not $wshell.AppActivate('Riot Client')) { exit 0 }\nStart-Sleep -Milliseconds "@
        + dec_rep(d.focus_settle_millis as nat) + "\nSet-Clipboard -Value \""@ + escape_seq(u)
        + "\"\n$wshell.SendKeys('^v')\nStart-Sleep -Milliseconds "@ + dec_rep(d.step_millis as nat)
        + "\n$wshell.SendKeys('{TAB}')\nStart-Sleep -Milliseconds "@ + dec_rep(
        d.step_millis as nat,
    ) + "\nSet-Clipboard -Value \""@ + escape_seq(p)
        + "\"\n$wshell.SendKeys('^v')\nStart-Sleep -Milliseconds "@ + dec_rep(d.step_millis as nat)
        + "\n$wshell.SendKeys('{ENTER}')"@
}

/// Builds the automation script text.
pub fn build_login_script(d: &AutomationDelays, username: &str, password: &str) -> (r: String)
    ensures
        r@ == spec_login_script(*d, username@, password@),
{
    let mut s = String::from_str("Start-Sleep -Seconds ");
    let startup = format_u64(d.startup_seconds);
    s.append(startup.as_str());
    s.append(
        "\n$wshell = New-Object -ComObject WScript.Shell\nif (-not $wshell.AppActivate('Riot Client')) { exit 0 }\nStart-Sleep -Milliseconds ",
    );
    let settle = format_u64(d.focus_settle_millis);
    s.append(settle.as_str());
    s.append("\nSet-Clipboard -Value \"");
    let user = escape_credential(username);
    s.append(user.as_str());
    s.append("\"\n$wshell.SendKeys('^v')\nStart-Sleep -Milliseconds ");
    let step = format_u64(d.step_millis);
    s.append(step.as_str());
    s.append("\n$wshell.SendKeys('{TAB}')\nStart-Sleep -Milliseconds ");
    s.append(step.as_str());
    s.append("\nSet-Clipboard -Value \"");
    let pass = escape_credential(password);
    s.append(pass.as_str());
    s.append("\"\n$wshell.SendKeys('^v')\nStart-Sleep -Milliseconds ");
    s.append(step.as_str());
    s.append("\n$wshell.SendKeys('{ENTER}')");
    proof {
        assert(s@ =~= spec_login_script(*d, username@, password@));
    }
    s
}

/// The argument list of the script-interpreter invocation: run without
/// profile or execution-policy restrictions, with no visible window, the
/// script itself as the final argument.
pub open spec fn spec_automation_args(script: Seq<char>) -> Seq<Seq<char>> {
    seq![
        "-NoProfile"@,
        "-ExecutionPolicy"@,
        "Bypass"@,
        "-WindowStyle"@,
        "Hidden"@,
        "-Command"@,
        script,
    ]
}

/// The Injector's decision: the detached spawn of the script interpreter
/// carrying the generated login script.
pub fn run_windows_login_automation(
    d: &AutomationDelays,
    username: &str,
    password: &str,
) -> (r: SpawnRequest)
    ensures
        r.program_view() == "powershell"@,
        r.args_view() == spec_automation_args(spec_login_script(*d, username@, password@)),
{
    let script = build_login_script(d, username, password);
    let program = String::from_str("powershell");
    let mut args: Vec<String> = Vec::new();
    args.push(String::from_str("-NoProfile"));
    args.push(String::from_str("-ExecutionPolicy"));
    args.push(String::from_str("Bypass"));
    args.push(String::from_str("-WindowStyle"));
    args.push(String::from_str("Hidden"));
    args.push(String::from_str("-Command"));
    args.push(script);
    let r = SpawnRequest { program, args };
    proof {
        assert(r.args_view() =~= spec_automation_args(
            spec_login_script(*d, username@, password@),
        ));
    }
    r
}

} // verus!
