//! Platform model: which host platform the pipeline runs on, whether that
//! platform offers an automation (synthetic input) interface, and the
//! compiled-in set of client process names the Terminator stops.

use vstd::prelude::*;
use crate::spawn::SpawnRequest;

verus! {

/// The host platform the pipeline was configured for.
#[derive(Debug, Clone, Copy, PartialEq, Eq, Structural)]
pub enum Platform {
    Windows,
    MacOs,
    Linux,
}

/// Only Windows exposes the scripting interface used for credential
/// injection; on the other platforms that step is skipped.
pub open spec fn automation_capable(p: Platform) -> bool {
    p is Windows
}

/// Runtime check matching `automation_capable`.
pub fn platform_supports_automation(p: Platform) -> (r: bool)
    ensures
        r == automation_capable(p),
{
    match p {
        Platform::Windows => true,
        Platform::MacOs => false,
        Platform::Linux => false,
    }
}

/// The fixed, ordered set of process names belonging to the client and its
/// sub-processes, per platform.
pub open spec fn spec_process_names(p: Platform) -> Seq<Seq<char>> {
    match p {
        Platform::Windows => seq![
            "RiotClientServices.exe"@,
            "RiotClientUx.exe"@,
            "RiotClientUxRender.exe"@,
            "LeagueClient.exe"@,
            "LeagueClientUx.exe"@,
            "LeagueClientUxRender.exe"@,
        ],
        Platform::MacOs => seq![
            "Riot Client"@,
            "RiotClientServices"@,
            "RiotClientUx"@,
            "RiotClientUxRender"@,
            "LeagueClient"@,
            "LeagueClientUx"@,
            "LeagueClientUxRender"@,
        ],
        Platform::Linux => seq![
            "RiotClientServices"@,
            "RiotClientUx"@,
            "RiotClientUxRender"@,
            "LeagueClient"@,
            "LeagueClientUx"@,
            "LeagueClientUxRender"@,
        ],
    }
}

/// The platform's process-termination program.
pub open spec fn spec_kill_program(p: Platform) -> Seq<char> {
    if p is Windows {
        "taskkill"@
    } else {
        "pkill"@
    }
}

/// The argument list handed to the termination program for one process name.
pub open spec fn spec_kill_args(p: Platform, name: Seq<char>) -> Seq<Seq<char>> {
    if p is Windows {
        seq!["/F"@, "/IM"@, name]
    } else {
        seq!["-f"@, name]
    }
}

/// The full, ordered list of termination commands the Terminator issues:
/// one per process name, in the declared order.
pub open spec fn spec_kill_requests_ok(p: Platform, r: Seq<SpawnRequest>) -> bool {
    &&& r.len() == spec_process_names(p).len()
    &&& forall|i: int|
        0 <= i < r.len() ==> {
            &&& (#[trigger] r[i]).program_view() == spec_kill_program(p)
            &&& r[i].args_view() == spec_kill_args(p, spec_process_names(p)[i])
        }
}

/// One termination command.
fn kill_request(p: Platform, name: &str) -> (r: SpawnRequest)
    ensures
        r.program_view() == spec_kill_program(p),
        r.args_view() == spec_kill_args(p, name@),
{
    let mut args: Vec<String> = Vec::new();
    match p {
        Platform::Windows => {
            let program = String::from_str("taskkill");
            args.push(String::from_str("/F"));
            args.push(String::from_str("/IM"));
            args.push(String::from_str(name));
            let r = SpawnRequest { program, args };
            proof {
                assert(r.args_view() =~= spec_kill_args(p, name@));
            }
            r
        },
        Platform::MacOs | Platform::Linux => {
            let program = String::from_str("pkill");
            args.push(String::from_str("-f"));
            args.push(String::from_str(name));
            let r = SpawnRequest { program, args };
            proof {
                assert(r.args_view() =~= spec_kill_args(p, name@));
            }
            r
        },
    }
}

/// The Terminator's decision: the ordered list of termination commands for
/// the platform's process-name set. The driver runs each command and ignores
/// its outcome entirely — absence of a process or failure of a kill is not
/// an error, so the pipeline takes no report back from this step.
pub fn close_riot_clients(p: Platform) -> (r: Vec<SpawnRequest>)
    ensures
        spec_kill_requests_ok(p, r@),
{
    let mut r: Vec<SpawnRequest> = Vec::new();
    let names: Vec<&str> = process_names(p);
    let mut i: usize = 0;
    while i < names.len()
        invariant
            0 <= i <= names.len(),
            names.deep_view() == spec_process_names(p),
            r@.len() == i,
            forall|j: int|
                0 <= j < i ==> {
                    &&& (#[trigger] r@[j]).program_view() == spec_kill_program(p)
                    &&& r@[j].args_view() == spec_kill_args(p, spec_process_names(p)[j])
                },
        decreases names.len() - i,
    {
        proof {
            assert(names.deep_view()[i as int] == names@[i as int]@);
        }
        let req = kill_request(p, names[i]);
        r.push(req);
        i += 1;
    }
    r
}

/// The platform's process-name set, in its fixed order.
pub fn process_names(p: Platform) -> (r: Vec<&'static str>)
    ensures
        r.deep_view() == spec_process_names(p),
{
    let mut r: Vec<&'static str> = Vec::new();
    match p {
        Platform::Windows => {
            r.push("RiotClientServices.exe");
            r.push("RiotClientUx.exe");
            r.push("RiotClientUxRender.exe");
            r.push("LeagueClient.exe");
            r.push("LeagueClientUx.exe");
            r.push("LeagueClientUxRender.exe");
        },
        Platform::MacOs => {
            r.push("Riot Client");
            r.push("RiotClientServices");
            r.push("RiotClientUx");
            r.push("RiotClientUxRender");
            r.push("LeagueClient");
            r.push("LeagueClientUx");
            r.push("LeagueClientUxRender");
        },
        Platform::Linux => {
            r.push("RiotClientServices");
            r.push("RiotClientUx");
            r.push("RiotClientUxRender");
            r.push("LeagueClient");
            r.push("LeagueClientUx");
            r.push("LeagueClientUxRender");
        },
    }
    proof {
        assert(r.deep_view() =~= spec_process_names(p));
    }
    r
}

} // verus!
