//! Tests for policies catalogue.

use acter_core::entities::{ConnectionKind};
use acter_core::policies::{Connection, catalogue, offered};

#[test]
fn a_machine_with_everything_lists_everything_in_order() {
    for os in ["windows", "macos"] {
        let kinds = offered(os);
        let listed = catalogue(kinds, |_| true);

        assert_eq!(
            listed
                .iter()
                .map(|row| row.label.as_str())
                .collect::<Vec<_>>(),
            kinds.iter().map(|kind| kind.label()).collect::<Vec<_>>(),
            "{os} lists its own kinds in its own order"
        );
        assert!(listed.iter().all(|row| row.available));
        assert!(
            listed.iter().all(|row| row.instructions().is_none()),
            "an available row has no instructions to arrow past"
        );
    }
}

#[test]
fn a_missing_kind_goes_to_the_end_and_says_so_in_its_name() {
    let listed = catalogue(offered("windows"), |kind| kind != ConnectionKind::Wsl);

    let last = listed.last().expect("the list is not empty");
    assert_eq!(last.kind, ConnectionKind::Wsl);
    assert_eq!(last.label, "WSL (not available)");
    assert!(!last.available);
    assert!(
        last.instructions()
            .expect("a missing kind explains itself")
            .contains("wsl --install"),
        "and says what to type about it"
    );
}

#[test]
fn the_list_is_the_same_length_however_little_is_installed() {
    for os in ["windows", "macos"] {
        let kinds = offered(os);

        assert_eq!(catalogue(kinds, |_| true).len(), kinds.len(), "{os}");
        assert_eq!(catalogue(kinds, |_| false).len(), kinds.len(), "{os}");
    }
}

#[test]
fn installing_something_moves_one_row_rather_than_reordering_the_list() {
    let windows = offered("windows");
    let before = catalogue(windows, |kind| {
        !matches!(kind, ConnectionKind::PowerShell | ConnectionKind::Wsl)
    });
    let after = catalogue(windows, |kind| kind != ConnectionKind::Wsl);

    assert_eq!(
        before.iter().map(|row| row.kind).collect::<Vec<_>>(),
        [
            ConnectionKind::Cmd,
            ConnectionKind::Ssh,
            ConnectionKind::PowerShell,
            ConnectionKind::Wsl,
        ],
        "PowerShell missing sorts it beside WSL, both after what works"
    );
    assert_eq!(
        after.iter().map(|row| row.kind).collect::<Vec<_>>(),
        [
            ConnectionKind::Cmd,
            ConnectionKind::PowerShell,
            ConnectionKind::Ssh,
            ConnectionKind::Wsl,
        ],
        "and installing it changes only whether it is available, not where it is"
    );
    let powershell = |rows: &[Connection]| {
        rows.iter()
            .find(|row| row.kind == ConnectionKind::PowerShell)
            .expect("PowerShell is listed either way")
            .available
    };
    assert!(!powershell(&before) && powershell(&after));
}

#[test]
fn an_edition_is_never_a_row_of_its_own() {
    let listed = catalogue(offered("windows"), |_| true);

    for edition in ConnectionKind::PowerShell.editions() {
        assert!(
            !listed.iter().any(|row| row.kind == *edition),
            "{edition:?} is a variant of PowerShell, not a row"
        );
    }
    assert!(
        listed
            .iter()
            .any(|row| row.kind == ConnectionKind::PowerShell)
    );
}

#[test]
fn each_platform_offers_its_own_kinds() {
    assert_eq!(
        offered("windows"),
        [
            ConnectionKind::Cmd,
            ConnectionKind::PowerShell,
            ConnectionKind::Wsl,
            ConnectionKind::Ssh,
        ],
        "Windows offers its own shells and SSH"
    );
    assert_eq!(
        offered("macos"),
        [ConnectionKind::Terminal, ConnectionKind::Ssh],
        "macOS offers a shell on this Mac, then a machine that is not this one"
    );
}

#[test]
fn a_windows_kind_is_absent_from_macos_rather_than_offered_as_missing() {
    let listed = catalogue(offered("macos"), |_| false);

    for windows_only in [
        ConnectionKind::Cmd,
        ConnectionKind::PowerShell,
        ConnectionKind::Wsl,
    ] {
        assert!(
            !listed.iter().any(|row| row.kind == windows_only),
            "{windows_only:?} is not something a Mac can be missing"
        );
    }
}

#[test]
fn ssh_is_offered_by_every_platform_that_is_offered_anything() {
    for os in ["windows", "macos"] {
        assert!(
            offered(os).contains(&ConnectionKind::Ssh),
            "{os} can reach a far end that is not on this machine"
        );
    }
}

#[test]
fn a_platform_with_no_kinds_yet_offers_nothing_rather_than_another_platforms() {
    for os in ["linux", "freebsd", "android"] {
        assert!(offered(os).is_empty(), "{os} has not been built for");
        assert!(catalogue(offered(os), |_| true).is_empty());
    }
}
