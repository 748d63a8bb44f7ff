use rkiwi::ownership::OwnerCount;

#[test]
fn only_the_last_release_closes() {
    // Three clones and three releases leave the resource open; the fourth
    // release, by the last owner, is the single closing one.
    let mut owners = OwnerCount::new();
    owners.acquire();
    owners.acquire();
    owners.acquire();
    assert!(!owners.release());
    assert!(!owners.release());
    assert!(!owners.release());
    assert!(owners.release());
}

#[test]
fn a_sole_owner_closes_at_once() {
    let mut owners = OwnerCount::new();
    assert!(owners.release());
}

#[test]
fn interleaved_clones_and_releases_close_once() {
    let mut owners = OwnerCount::new();
    owners.acquire();
    assert!(!owners.release());
    owners.acquire();
    assert!(!owners.release());
    assert!(owners.release());
}
