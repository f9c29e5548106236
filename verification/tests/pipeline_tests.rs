use riot_switcher::pipeline::{AccountSwitcher, PipelineStage, SwitchError};
use riot_switcher::platform::{platform_supports_automation, Platform};
use riot_switcher::script::AutomationDelays;

fn fresh(platform: Platform) -> AccountSwitcher {
    AccountSwitcher::new(
        platform,
        "user1".to_string(),
        "pass1".to_string(),
        AutomationDelays::default(),
    )
}

#[test]
fn only_windows_supports_automation() {
    assert!(platform_supports_automation(Platform::Windows));
    assert!(!platform_supports_automation(Platform::MacOs));
    assert!(!platform_supports_automation(Platform::Linux));
}

#[test]
fn windows_termination_commands() {
    let mut m = fresh(Platform::Windows);
    let reqs = m.termination_requests();
    let names = [
        "RiotClientServices.exe",
        "RiotClientUx.exe",
        "RiotClientUxRender.exe",
        "LeagueClient.exe",
        "LeagueClientUx.exe",
        "LeagueClientUxRender.exe",
    ];
    assert_eq!(reqs.len(), names.len());
    for (req, name) in reqs.iter().zip(names.iter()) {
        assert_eq!(req.program, "taskkill");
        assert_eq!(req.args, vec!["/F".to_string(), "/IM".to_string(), name.to_string()]);
    }
    assert_eq!(m.stage, PipelineStage::Locating);
}

#[test]
fn macos_termination_commands() {
    let mut m = fresh(Platform::MacOs);
    let reqs = m.termination_requests();
    let names = [
        "Riot Client",
        "RiotClientServices",
        "RiotClientUx",
        "RiotClientUxRender",
        "LeagueClient",
        "LeagueClientUx",
        "LeagueClientUxRender",
    ];
    assert_eq!(reqs.len(), names.len());
    for (req, name) in reqs.iter().zip(names.iter()) {
        assert_eq!(req.program, "pkill");
        assert_eq!(req.args, vec!["-f".to_string(), name.to_string()]);
    }
}

#[test]
fn linux_termination_commands() {
    let mut m = fresh(Platform::Linux);
    let reqs = m.termination_requests();
    assert_eq!(reqs.len(), 6);
    for req in reqs.iter() {
        assert_eq!(req.program, "pkill");
        assert_eq!(req.args.len(), 2);
        assert_eq!(req.args[0], "-f");
    }
}

#[test]
fn termination_with_no_running_processes_is_harmless() {
    // The Terminator's decision never depends on what is running: the
    // machine takes no report back from the kill step, so a driver that
    // found nothing to kill proceeds exactly like one that killed six
    // processes, and a repeat invocation issues the same commands.
    let mut first = fresh(Platform::Windows);
    let mut second = fresh(Platform::Windows);
    let a = first.termination_requests();
    let b = second.termination_requests();
    assert_eq!(a, b);
    assert_eq!(first.stage, PipelineStage::Locating);
    assert!(first.outcome.is_none());
}

#[test]
fn locator_failure_aborts_before_any_spawn() {
    let mut m = fresh(Platform::Windows);
    let _ = m.termination_requests();
    let launch = m.installation_report(None, false, &vec![false, false, false]);
    assert!(launch.is_none());
    assert_eq!(m.stage, PipelineStage::Done);
    assert_eq!(m.outcome, Some(Err(SwitchError::InstallationNotFound)));
    assert_eq!(
        SwitchError::InstallationNotFound.message(),
        "Unable to find Riot Client installation path"
    );
}

#[test]
fn resolved_override_becomes_launch_request() {
    let mut m = fresh(Platform::Windows);
    let _ = m.termination_requests();
    let launch = m
        .installation_report(Some("/custom/riot".to_string()), true, &vec![true, true, true])
        .expect("a launch request");
    assert_eq!(launch.program, "/custom/riot");
    assert_eq!(launch.args, vec!["--allow-multiple-clients".to_string()]);
    assert_eq!(m.stage, PipelineStage::Launching);
    assert_eq!(m.resolved_path, Some("/custom/riot".to_string()));
}

#[test]
fn launch_rejection_stops_pipeline_before_automation() {
    let mut m = fresh(Platform::Windows);
    let _ = m.termination_requests();
    let _ = m
        .installation_report(None, false, &vec![true, false, false])
        .expect("a launch request");
    let automation = m.launch_report(Some("Permission denied (os error 13)".to_string()));
    assert!(automation.is_none());
    assert_eq!(m.stage, PipelineStage::Done);
    let err = SwitchError::LaunchFailure("Permission denied (os error 13)".to_string());
    assert_eq!(m.outcome, Some(Err(err.clone())));
    assert_eq!(
        err.message(),
        "Failed to launch Riot Client: Permission denied (os error 13)"
    );
}

#[test]
fn non_automation_platform_succeeds_on_launch_alone() {
    for platform in [Platform::MacOs, Platform::Linux] {
        let mut m = fresh(platform);
        let _ = m.termination_requests();
        let _ = m
            .installation_report(None, false, &vec![false, false, true])
            .expect("a launch request");
        let automation = m.launch_report(None);
        assert!(automation.is_none());
        assert_eq!(m.stage, PipelineStage::Done);
        assert_eq!(m.outcome, Some(Ok(())));
    }
}

#[test]
fn windows_success_path_runs_automation() {
    let mut m = fresh(Platform::Windows);
    let _ = m.termination_requests();
    let _ = m
        .installation_report(None, false, &vec![true, true, true])
        .expect("a launch request");
    let automation = m.launch_report(None).expect("an automation request");
    assert_eq!(automation.program, "powershell");
    assert_eq!(automation.args.len(), 7);
    assert_eq!(automation.args[5], "-Command");
    assert!(automation.args[6].contains("Set-Clipboard -Value \"user1\""));
    assert!(automation.args[6].contains("Set-Clipboard -Value \"pass1\""));
    assert_eq!(m.stage, PipelineStage::Injecting);
    m.automation_report(None);
    assert_eq!(m.stage, PipelineStage::Done);
    assert_eq!(m.outcome, Some(Ok(())));
}

#[test]
fn automation_spawn_rejection_is_reported() {
    let mut m = fresh(Platform::Windows);
    let _ = m.termination_requests();
    let _ = m
        .installation_report(Some("/custom/riot".to_string()), true, &vec![false, false, false])
        .expect("a launch request");
    let _ = m.launch_report(None).expect("an automation request");
    m.automation_report(Some("spawn refused".to_string()));
    let err = SwitchError::AutomationFailure("spawn refused".to_string());
    assert_eq!(m.outcome, Some(Err(err.clone())));
    assert_eq!(
        err.message(),
        "Failed to automate Riot login on Windows: spawn refused"
    );
}
