use sigchan::signal::registration_result;
use sigchan::signal::resolve_flags;
use sigchan::signal::RegisterError;
use sigchan::signal::SA_ONSTACK;
use sigchan::signal::SA_RESTART;
use sigchan::signal::SA_SIGINFO;

#[test]
fn signal_numbers_match_the_platform() {
    assert_eq!(sigchan::SIGHUP, libc::SIGHUP);
    assert_eq!(sigchan::SIGINT, libc::SIGINT);
    assert_eq!(sigchan::SIGQUIT, libc::SIGQUIT);
    assert_eq!(sigchan::SIGTRAP, libc::SIGTRAP);
    assert_eq!(sigchan::SIGUSR1, libc::SIGUSR1);
    assert_eq!(sigchan::SIGUSR2, libc::SIGUSR2);
    assert_eq!(sigchan::SIGPIPE, libc::SIGPIPE);
    assert_eq!(sigchan::SIGALRM, libc::SIGALRM);
    assert_eq!(sigchan::SIGTERM, libc::SIGTERM);
}

#[test]
fn delivery_flag_bits_match_the_platform() {
    assert_eq!(SA_ONSTACK, libc::SA_ONSTACK);
    assert_eq!(SA_RESTART, libc::SA_RESTART);
    assert_eq!(SA_SIGINFO, libc::SA_SIGINFO);
}

#[test]
fn omitted_flags_become_the_safe_default() {
    assert_eq!(resolve_flags(None), libc::SA_ONSTACK | libc::SA_RESTART);
}

#[test]
fn explicit_flags_lose_the_extended_information_bit() {
    assert_eq!(
        resolve_flags(Some(libc::SA_SIGINFO | libc::SA_RESTART)),
        libc::SA_RESTART
    );
    assert_eq!(resolve_flags(Some(0)), 0);
    assert_eq!(resolve_flags(Some(libc::SA_ONSTACK)), libc::SA_ONSTACK);
}

#[test]
fn registration_status_zero_is_success() {
    assert!(matches!(registration_result(0), Ok(())));
    assert!(matches!(
        registration_result(-1),
        Err(RegisterError::PlatformRefused)
    ));
    assert!(matches!(
        registration_result(1),
        Err(RegisterError::PlatformRefused)
    ));
}
