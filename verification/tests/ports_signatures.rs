//! Tests for ports driven signatures.

use acter_core::entities::{Verdict};
use acter_core::ports::{Signatures, Unchecked};

#[test]
fn checking_nothing_vouches_for_nothing() {
    let verdict = Unchecked.verdict(r"C:\Windows\system32\cmd.exe");

    assert!(matches!(verdict, Verdict::Unverifiable { .. }));
    assert!(
        !verdict.settled(),
        "so the connection asks before starting it"
    );
}

#[test]
fn checking_nothing_remembers_nothing() {
    assert_eq!(
        Unchecked.known(r"C:\Windows\system32\cmd.exe"),
        None
    );
}
