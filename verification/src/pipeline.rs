//! Pipeline orchestration: terminate running clients, locate the launcher,
//! relaunch it, and — only where the platform supports it — inject the
//! credentials.
//!
//! The pipeline is a state machine driven by an unverified driver. Each
//! step hands the driver the spawn requests to perform and takes back only
//! what the step's contract needs: nothing for termination (its failures
//! are swallowed by design), the filesystem existence checks for location,
//! and the OS accept/reject outcome for each spawn. Location failure stops
//! the pipeline before any launch; launch failure stops it before any
//! automation; a launched client is never rolled back by a later failure.

use vstd::prelude::*;
use crate::locate::{find_riot_client_path, spec_install_candidates, spec_resolve};
use crate::platform::{
    automation_capable, close_riot_clients, platform_supports_automation, spec_kill_requests_ok,
    Platform,
};
use crate::script::{
    run_windows_login_automation, spec_automation_args, spec_login_script, AutomationDelays,
};
use crate::spawn::SpawnRequest;

verus! {

/// The failure reasons the pipeline can report. Termination failures are
/// deliberately not represented: that step is advisory cleanup.
#[derive(Debug, Clone, PartialEq, Eq)]
pub enum SwitchError {
    /// Neither the override nor any candidate installation path exists.
    InstallationNotFound,
    /// The OS rejected the spawn of the launcher executable; carries the
    /// OS-reported error text.
    LaunchFailure(String),
    /// The OS rejected the spawn of the automation script process.
    AutomationFailure(String),
}

/// The single human-readable message each failure surfaces as.
pub open spec fn spec_message(e: SwitchError) -> Seq<char> {
    match e {
        SwitchError::InstallationNotFound => "Unable to find Riot Client installation path"@,
        SwitchError::LaunchFailure(os) => "Failed to launch Riot Client: "@ + os@,
        SwitchError::AutomationFailure(os) => "Failed to automate Riot login on Windows: "@ + os@,
    }
}

impl SwitchError {
    /// Renders the failure for display to the caller.
    pub fn message(&self) -> (r: String)
        ensures
            r@ == spec_message(*self),
    {
        match self {
            SwitchError::InstallationNotFound => String::from_str(
                "Unable to find Riot Client installation path",
            ),
            SwitchError::LaunchFailure(os) => {
                let mut s = String::from_str("Failed to launch Riot Client: ");
                s.append(os.as_str());
                s
            },
            SwitchError::AutomationFailure(os) => {
                let mut s = String::from_str("Failed to automate Riot login on Windows: ");
                s.append(os.as_str());
                s
            },
        }
    }
}

/// Where the pipeline stands between driver interactions.
#[derive(Debug, Clone, Copy, PartialEq, Eq, Structural)]
pub enum PipelineStage {
    Terminating,
    Locating,
    Launching,
    Injecting,
    Done,
}

/// One invocation of the session-switching pipeline.
///
/// The credential pair lives only as long as this value; it is read by
/// nothing but the automation-script builder.
#[derive(Debug)]
pub struct AccountSwitcher {
    pub platform: Platform,
    pub username: String,
    pub password: String,
    pub delays: AutomationDelays,
    pub stage: PipelineStage,
    pub resolved_path: Option<String>,
    pub outcome: Option<Result<(), SwitchError>>,
}

impl AccountSwitcher {
    /// The configuration a step must not touch.
    pub open spec fn same_config(self, other: Self) -> bool {
        &&& self.platform == other.platform
        &&& self.username@ == other.username@
        &&& self.password@ == other.password@
        &&& self.delays == other.delays
    }

    /// The pipeline reports an outcome exactly when it is done.
    pub open spec fn wf(self) -> bool {
        self.outcome is Some <==> self.stage is Done
    }

    /// A fresh pipeline for one invocation, ready to terminate running
    /// clients.
    pub fn new(platform: Platform, username: String, password: String, delays: AutomationDelays) -> (s: Self)
        ensures
            s.platform == platform,
            s.username@ == username@,
            s.password@ == password@,
            s.delays == delays,
            s.stage is Terminating,
            s.resolved_path is None,
            s.outcome is None,
            s.wf(),
    {
        AccountSwitcher {
            platform,
            username,
            password,
            delays,
            stage: PipelineStage::Terminating,
            resolved_path: None,
            outcome: None,
        }
    }

    /// Terminator step: the commands that stop every process in the
    /// platform's process-name set. The driver runs each and ignores every
    /// outcome — the machine accepts no report for this step, so no kill
    /// failure or absent process can influence what follows.
    pub fn termination_requests(&mut self) -> (r: Vec<SpawnRequest>)
        requires
            old(self).stage is Terminating,
            old(self).wf(),
        ensures
            spec_kill_requests_ok(old(self).platform, r@),
            final(self).same_config(*old(self)),
            final(self).stage is Locating,
            final(self).resolved_path == old(self).resolved_path,
            final(self).outcome is None,
            final(self).wf(),
    {
        self.stage = PipelineStage::Locating;
        close_riot_clients(self.platform)
    }

    /// Locator step: takes the driver's filesystem report — the override
    /// path with its existence check, and one existence flag per built-in
    /// candidate — and either moves on to launching, returning the launch
    /// request, or finishes with `InstallationNotFound`, returning no
    /// request: nothing is ever spawned for a failed resolution.
    pub fn installation_report(
        &mut self,
        override_path: Option<String>,
        override_exists: bool,
        candidates_exist: &Vec<bool>,
    ) -> (r: Option<SpawnRequest>)
        requires
            old(self).stage is Locating,
            old(self).wf(),
            candidates_exist@.len() == spec_install_candidates().len(),
        ensures
            final(self).same_config(*old(self)),
            final(self).wf(),
            match spec_resolve(
                override_path.deep_view(),
                override_exists,
                spec_install_candidates(),
                candidates_exist@,
            ) {
                Some(path) => {
                    &&& final(self).stage is Launching
                    &&& final(self).resolved_path.deep_view() == Some(path)
                    &&& final(self).outcome is None
                    &&& r matches Some(req) && req.program_view() == path && req.args_view()
                        == seq!["--allow-multiple-clients"@]
                },
                None => {
                    &&& final(self).stage is Done
                    &&& final(self).outcome == Some(
                        Err::<(), SwitchError>(SwitchError::InstallationNotFound),
                    )
                    &&& r is None
                },
            },
    {
        let resolved = find_riot_client_path(override_path, override_exists, candidates_exist);
        match resolved {
            Some(path) => {
                let req = launch_riot_client(&path);
                self.resolved_path = Some(path);
                self.stage = PipelineStage::Launching;
                Some(req)
            },
            None => {
                self.stage = PipelineStage::Done;
                self.outcome = Some(Err(SwitchError::InstallationNotFound));
                None
            },
        }
    }

    /// Launcher step: takes the OS verdict on the launcher spawn — `None`
    /// when the spawn was accepted, `Some` with the OS error text when it
    /// was rejected. Rejection finishes the pipeline with `LaunchFailure`
    /// and nothing further runs. Acceptance finishes it successfully on
    /// platforms without the automation capability; on the capable
    /// platform it returns the automation spawn request instead.
    pub fn launch_report(&mut self, error: Option<String>) -> (r: Option<SpawnRequest>)
        requires
            old(self).stage is Launching,
            old(self).wf(),
        ensures
            final(self).same_config(*old(self)),
            final(self).resolved_path == old(self).resolved_path,
            final(self).wf(),
            match error {
                Some(os) => {
                    &&& final(self).stage is Done
                    &&& final(self).outcome == Some(
                        Err::<(), SwitchError>(SwitchError::LaunchFailure(os)),
                    )
                    &&& r is None
                },
                None => {
                    if automation_capable(old(self).platform) {
                        &&& final(self).stage is Injecting
                        &&& final(self).outcome is None
                        &&& r matches Some(req) && req.program_view() == "powershell"@
                            && req.args_view() == spec_automation_args(
                            spec_login_script(
                                old(self).delays,
                                old(self).username@,
                                old(self).password@,
                            ),
                        )
                    } else {
                        &&& final(self).stage is Done
                        &&& final(self).outcome == Some(Ok::<(), SwitchError>(()))
                        &&& r is None
                    }
                },
            },
    {
        match error {
            Some(os) => {
                self.stage = PipelineStage::Done;
                self.outcome = Some(Err(SwitchError::LaunchFailure(os)));
                None
            },
            None => {
                if platform_supports_automation(self.platform) {
                    let req = run_windows_login_automation(
                        &self.delays,
                        self.username.as_str(),
                        self.password.as_str(),
                    );
                    self.stage = PipelineStage::Injecting;
                    Some(req)
                } else {
                    self.stage = PipelineStage::Done;
                    self.outcome = Some(Ok(()));
                    None
                }
            },
        }
    }

    /// Injector step: takes the OS verdict on the automation-script spawn.
    /// Rejection surfaces as `AutomationFailure` — though the client, once
    /// launched, stays running — and acceptance is overall success; what
    /// the script itself later does is unobservable by design.
    pub fn automation_report(&mut self, error: Option<String>)
        requires
            old(self).stage is Injecting,
            old(self).wf(),
        ensures
            final(self).same_config(*old(self)),
            final(self).resolved_path == old(self).resolved_path,
            final(self).stage is Done,
            final(self).wf(),
            match error {
                Some(os) => final(self).outcome == Some(
                    Err::<(), SwitchError>(SwitchError::AutomationFailure(os)),
                ),
                None => final(self).outcome == Some(Ok::<(), SwitchError>(())),
            },
    {
        self.stage = PipelineStage::Done;
        match error {
            Some(os) => {
                self.outcome = Some(Err(SwitchError::AutomationFailure(os)));
            },
            None => {
                self.outcome = Some(Ok(()));
            },
        }
    }
}

/// The Launcher's decision: start the resolved launcher executable,
/// detached, with the flag that allows multiple concurrent client
/// instances.
pub fn launch_riot_client(riot_client_path: &String) -> (r: SpawnRequest)
    ensures
        r.program_view() == riot_client_path@,
        r.args_view() == seq!["--allow-multiple-clients"@],
{
    let program = riot_client_path.clone();
    let mut args: Vec<String> = Vec::new();
    args.push(String::from_str("--allow-multiple-clients"));
    let r = SpawnRequest { program, args };
    proof {
        assert(r.args_view() =~= seq!["--allow-multiple-clients"@]);
    }
    r
}

} // verus!
