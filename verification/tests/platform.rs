use netbird_hawk::platform::check_worker_executable;

#[test]
fn windows_launcher_requires_an_absolute_executable() {
    let error = check_worker_executable("netbird-hawk.exe").unwrap_err();
    assert_eq!(error, "worker executable path must be absolute");
}

#[test]
fn worker_executables_without_nul_are_accepted() {
    assert!(check_worker_executable("/usr/local/bin/netbird-hawk").is_ok());
    assert_eq!(
        check_worker_executable("/usr/local/bin/netbird\0hawk").unwrap_err(),
        "worker executable path contains a NUL code unit"
    );
}
