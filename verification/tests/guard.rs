use unlink_probe::guard::InstallGuard;

#[test]
fn first_acquire_is_granted() {
    let mut g = InstallGuard::new();
    assert!(g.try_acquire());
    assert!(g.installed);
}

#[test]
fn second_acquire_is_refused() {
    let mut g = InstallGuard::new();
    assert!(g.try_acquire());
    assert!(!g.try_acquire());
    assert!(!g.try_acquire());
    assert!(g.installed);
}
