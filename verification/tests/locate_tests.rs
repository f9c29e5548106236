use riot_switcher::locate::{find_riot_client_path, install_candidates, resolve_install_path};

const WIN_MAIN: &str = "C:\\Riot Games\\Riot Client\\RiotClientServices.exe";
const WIN_PROGRAM_FILES: &str = "C:\\Program Files\\Riot Games\\Riot Client\\RiotClientServices.exe";
const MAC_APP: &str = "/Applications/Riot Client.app/Contents/MacOS/Riot Client";

#[test]
fn candidate_list_is_fixed_and_ordered() {
    let cands = install_candidates();
    assert_eq!(cands.len(), 3);
    assert_eq!(cands[0], WIN_MAIN);
    assert_eq!(cands[1], WIN_PROGRAM_FILES);
    assert_eq!(cands[2], MAC_APP);
}

#[test]
fn override_existing_wins_over_candidates() {
    // Every candidate exists too; the override must still be returned.
    let r = find_riot_client_path(
        Some("/custom/riot/client".to_string()),
        true,
        &vec![true, true, true],
    );
    assert_eq!(r, Some("/custom/riot/client".to_string()));
}

#[test]
fn override_absent_falls_through_to_candidates() {
    let r = find_riot_client_path(
        Some("/custom/riot/client".to_string()),
        false,
        &vec![false, true, false],
    );
    assert_eq!(r, Some(WIN_PROGRAM_FILES.to_string()));
}

#[test]
fn no_override_no_candidate_fails() {
    let r = find_riot_client_path(None, false, &vec![false, false, false]);
    assert_eq!(r, None);
}

#[test]
fn first_existing_candidate_wins() {
    let r = find_riot_client_path(None, false, &vec![true, true, true]);
    assert_eq!(r, Some(WIN_MAIN.to_string()));
}

#[test]
fn last_candidate_found() {
    let r = find_riot_client_path(None, false, &vec![false, false, true]);
    assert_eq!(r, Some(MAC_APP.to_string()));
}

#[test]
fn scan_skips_absent_entries_in_order() {
    // Override unset; first candidate absent, second present.
    let cands = vec!["/opt/app/bin".to_string(), "/usr/local/app/bin".to_string()];
    let r = resolve_install_path(None, false, &cands, &vec![false, true]);
    assert_eq!(r, Some("/usr/local/app/bin".to_string()));
}

#[test]
fn empty_candidate_list_resolves_to_nothing() {
    let r = resolve_install_path(None, false, &vec![], &vec![]);
    assert_eq!(r, None);
}
