use rubocop_daemon_wrapper::launcher::Invocation;
use rubocop_daemon_wrapper::protocol::{probe, Action, Event, Failure, Launcher, Phase};
use tempdir::TempDir;

fn words(items: &[&str]) -> Vec<String> {
    items.iter().map(|s| s.to_string()).collect()
}

fn launcher(args: &[&str], stdin_override: Option<&str>) -> Launcher {
    Launcher::new(
        Some("/home/u"),
        "/home/u/app".to_string(),
        words(&["HOME", "PATH"]),
        words(args),
        stdin_override.map(|s| s.to_string()),
    )
}

const CACHE: &str = "/home/u/.cache/rubocop-daemon";
const LOCK: &str = "/home/u/.cache/rubocop-daemon/running.lock";
const TOKEN: &str = "/home/u/.cache/rubocop-daemon/+home+u+app/token";
const PORT: &str = "/home/u/.cache/rubocop-daemon/+home+u+app/port";
const STATUS: &str = "/home/u/.cache/rubocop-daemon/+home+u+app/status";

fn up_to_probe(l: &mut Launcher) {
    assert_eq!(l.step(Event::Started), Action::Locate("rubocop-daemon".to_string()));
    assert_eq!(l.step(Event::Located(true)), Action::CreateCacheDir(CACHE.to_string()));
    assert_eq!(l.step(Event::CacheDirReady(true)), Action::AcquireLock(LOCK.to_string()));
    assert_eq!(l.step(Event::LockAcquired(true)), Action::ProbeToken(TOKEN.to_string()));
    assert_eq!(l.phase, Phase::Probing);
}

fn up_to_collecting(l: &mut Launcher) {
    up_to_probe(l);
    assert_eq!(l.step(Event::TokenProbed(true)), Action::ReleaseLock(LOCK.to_string()));
    assert_eq!(l.step(Event::LockReleased(true)), Action::ReadSession(TOKEN.to_string(), PORT.to_string()));
    assert_eq!(
        l.step(Event::SessionRead(Some("abc123".to_string()), Some("9100".to_string()))),
        Action::Connect(9100)
    );
    assert_eq!(l.step(Event::Connected(true)), Action::ClearStatus(STATUS.to_string()));
    assert_eq!(
        l.step(Event::StatusCleared(true)),
        Action::SendRequest("abc123 /home/u/app exec check file.rb\n".to_string())
    );
    assert_eq!(l.step(Event::Sent(true)), Action::Relay);
    assert_eq!(l.step(Event::Relayed(true)), Action::ReadStatus(STATUS.to_string()));
    assert_eq!(l.phase, Phase::Collecting);
}

#[test]
fn new_launcher_has_done_nothing() {
    let l = launcher(&["launcher", "check"], None);
    assert_eq!(l.phase, Phase::Start);
    assert_eq!(l.root, "/home/u/app");
    assert_eq!(l.session.dir, "/home/u/.cache/rubocop-daemon/+home+u+app");
    assert_eq!(l.args, words(&["launcher", "check"]));
    assert_eq!(l.token, "");
    assert_eq!(l.payload, "");
    assert_eq!(l.code, 0);
}

#[test]
fn scenario_worker_not_yet_started() {
    let mut l = launcher(&["launcher", "check", "file.rb"], None);
    up_to_probe(&mut l);
    let spawn = l.step(Event::TokenProbed(false));
    let expected = Invocation {
        program: "rubocop-daemon".to_string(),
        args: words(&["start"]),
        env: l.session.worker_environment(),
    };
    assert_eq!(spawn, Action::Spawn(expected));
    assert_eq!(l.phase, Phase::Spawning);
    assert_eq!(l.step(Event::Spawned(true)), Action::ReleaseLock(LOCK.to_string()));
    assert_eq!(l.step(Event::LockReleased(true)), Action::ReadSession(TOKEN.to_string(), PORT.to_string()));
    assert_eq!(
        l.step(Event::SessionRead(Some("abc123".to_string()), Some("9100".to_string()))),
        Action::Connect(9100)
    );
    assert_eq!(l.step(Event::Connected(true)), Action::ClearStatus(STATUS.to_string()));
    assert_eq!(
        l.step(Event::StatusCleared(false)),
        Action::SendRequest("abc123 /home/u/app exec check file.rb\n".to_string())
    );
    assert_eq!(l.step(Event::Sent(true)), Action::Relay);
    assert_eq!(l.step(Event::Relayed(true)), Action::ReadStatus(STATUS.to_string()));
    assert_eq!(l.step(Event::StatusRead(Some("0".to_string()))), Action::RemoveStatus(STATUS.to_string()));
    assert_eq!(l.step(Event::StatusRemoved(true)), Action::Exit(0));
    assert_eq!(l.phase, Phase::Done);
}

#[test]
fn scenario_token_present_skips_spawn() {
    let mut l = launcher(&["launcher", "check", "file.rb"], None);
    up_to_probe(&mut l);
    assert_eq!(l.step(Event::TokenProbed(true)), Action::ReleaseLock(LOCK.to_string()));
    assert_eq!(l.phase, Phase::Unlocking);
    assert_eq!(l.step(Event::LockReleased(true)), Action::ReadSession(TOKEN.to_string(), PORT.to_string()));
    assert_eq!(l.phase, Phase::Reading);
}

#[test]
fn scenario_worker_never_writes_status() {
    let mut l = launcher(&["launcher", "check", "file.rb"], None);
    up_to_collecting(&mut l);
    let action = l.step(Event::StatusRead(None));
    assert_eq!(
        action,
        Action::Report(
            "rubocop-daemon-wrapper: server did not write status to $STATUS_PATH!".to_string(),
            1
        )
    );
    match action {
        Action::Report(message, code) => {
            assert!(message.contains("server did not write status"));
            assert_eq!(code, 1);
        }
        _ => unreachable!(),
    }
    assert_eq!(l.phase, Phase::Done);
}

#[test]
fn unparsable_status_is_reported_too() {
    let mut l = launcher(&["launcher", "check", "file.rb"], None);
    up_to_collecting(&mut l);
    match l.step(Event::StatusRead(Some("done\n".to_string()))) {
        Action::Report(_, code) => assert_eq!(code, 1),
        other => panic!("{:?}", other),
    }
}

#[test]
fn scenario_stdin_flag_embeds_input_stream() {
    let mut l = launcher(&["launcher", "--stdin", "a.rb"], None);
    up_to_probe(&mut l);
    l.step(Event::TokenProbed(true));
    l.step(Event::LockReleased(true));
    l.step(Event::SessionRead(Some("tok".to_string()), Some("4000".to_string())));
    assert_eq!(l.step(Event::Connected(true)), Action::ReadInput);
    let input = "def a\n  1\nend\n";
    assert_eq!(l.step(Event::InputRead(Some(input.to_string()))), Action::ClearStatus(STATUS.to_string()));
    assert_eq!(
        l.step(Event::StatusCleared(true)),
        Action::SendRequest(format!("tok /home/u/app exec --stdin a.rb\n{}", input))
    );
}

#[test]
fn short_stdin_flag_reads_input_too() {
    let mut l = launcher(&["launcher", "-s", "a.rb"], None);
    up_to_probe(&mut l);
    l.step(Event::TokenProbed(true));
    l.step(Event::LockReleased(true));
    l.step(Event::SessionRead(Some("tok".to_string()), Some("4000".to_string())));
    assert_eq!(l.step(Event::Connected(true)), Action::ReadInput);
}

#[test]
fn override_bypasses_input_stream() {
    let mut l = launcher(&["launcher", "--stdin", "a.rb"], Some("x = 1\n"));
    up_to_probe(&mut l);
    l.step(Event::TokenProbed(true));
    l.step(Event::LockReleased(true));
    l.step(Event::SessionRead(Some("tok".to_string()), Some("4000".to_string())));
    assert_eq!(l.step(Event::Connected(true)), Action::ClearStatus(STATUS.to_string()));
    assert_eq!(
        l.step(Event::StatusCleared(true)),
        Action::SendRequest("tok /home/u/app exec --stdin a.rb\nx = 1\n".to_string())
    );
}

#[test]
fn program_name_is_no_stdin_flag() {
    let mut l = launcher(&["-s", "check"], None);
    up_to_probe(&mut l);
    l.step(Event::TokenProbed(true));
    l.step(Event::LockReleased(true));
    l.step(Event::SessionRead(Some("tok".to_string()), Some("4000".to_string())));
    assert_eq!(l.step(Event::Connected(true)), Action::ClearStatus(STATUS.to_string()));
}

#[test]
fn status_deletion_is_best_effort() {
    for (cleared, removed) in [(true, true), (true, false), (false, true), (false, false)] {
        let mut l = launcher(&["launcher", "check", "file.rb"], None);
        up_to_probe(&mut l);
        l.step(Event::TokenProbed(true));
        l.step(Event::LockReleased(false));
        l.step(Event::SessionRead(Some("abc123".to_string()), Some("9100".to_string())));
        l.step(Event::Connected(true));
        assert_eq!(
            l.step(Event::StatusCleared(cleared)),
            Action::SendRequest("abc123 /home/u/app exec check file.rb\n".to_string())
        );
        l.step(Event::Sent(true));
        l.step(Event::Relayed(true));
        assert_eq!(l.step(Event::StatusRead(Some("2".to_string()))), Action::RemoveStatus(STATUS.to_string()));
        assert_eq!(l.step(Event::StatusRemoved(removed)), Action::Exit(2));
    }
}

#[test]
fn exit_code_is_the_reported_status() {
    for code in [0, 1, 2, 42, 255, -1, i32::MAX, i32::MIN] {
        let mut l = launcher(&["launcher", "check", "file.rb"], None);
        up_to_collecting(&mut l);
        l.step(Event::StatusRead(Some(code.to_string())));
        assert_eq!(l.code, code);
        assert_eq!(l.step(Event::StatusRemoved(true)), Action::Exit(code));
    }
}

#[test]
fn missing_worker_falls_back_to_plain_tool() {
    let mut l = launcher(&["launcher", "-a", "x.rb"], None);
    l.step(Event::Started);
    let expected = Invocation {
        program: "rubocop".to_string(),
        args: words(&["launcher", "-a", "x.rb"]),
        env: Vec::new(),
    };
    assert_eq!(l.step(Event::Located(false)), Action::RunFallback(expected));
    assert_eq!(l.phase, Phase::Fallback);
    assert_eq!(l.step(Event::FallbackExited(Some(3))), Action::Exit(3));
    assert_eq!(l.phase, Phase::Done);
}

#[test]
fn fallback_without_exit_code_ends_with_zero() {
    let mut l = launcher(&["launcher"], None);
    l.step(Event::Started);
    l.step(Event::Located(false));
    assert_eq!(l.step(Event::FallbackExited(None)), Action::Exit(0));
}

#[test]
fn unknown_home_is_fatal_once_worker_is_found() {
    let mut l = Launcher::new(None, "/p".to_string(), Vec::new(), words(&["launcher"]), None);
    assert!(!l.home_known);
    l.step(Event::Started);
    assert_eq!(l.step(Event::Located(true)), Action::Fail(Failure::Home));
    assert_eq!(l.phase, Phase::Done);
}

#[test]
fn unknown_home_does_not_hinder_fallback() {
    let mut l = Launcher::new(None, "/p".to_string(), Vec::new(), words(&["launcher"]), None);
    l.step(Event::Started);
    assert!(matches!(l.step(Event::Located(false)), Action::RunFallback(_)));
    assert_eq!(l.step(Event::FallbackExited(Some(4))), Action::Exit(4));
}

#[test]
fn failures_have_messages() {
    assert_eq!(Failure::Home.message(), "HOME env var");
    assert_eq!(Failure::CacheDir.message(), "failed to create the cache directory");
    assert_eq!(Failure::Lock.message(), "failed to lock running.lock");
    assert_eq!(Failure::Spawn.message(), "rubocop failed");
    assert_eq!(Failure::Session.message(), "failed to read the session files");
    assert_eq!(Failure::Port.message(), "parsing port file");
    assert_eq!(Failure::Connect.message(), "failed to connect to the server");
    assert_eq!(Failure::Input.message(), "failed to read the input stream");
    assert_eq!(Failure::Send.message(), "failed to send the request");
    assert_eq!(Failure::Relay.message(), "failed to pass on the response");
    assert_eq!(Failure::Unexpected.message(), "unexpected event");
}

#[test]
fn cache_dir_failure_is_fatal() {
    let mut l = launcher(&["launcher"], None);
    l.step(Event::Started);
    l.step(Event::Located(true));
    assert_eq!(l.step(Event::CacheDirReady(false)), Action::Fail(Failure::CacheDir));
    assert_eq!(l.phase, Phase::Done);
}

#[test]
fn lock_failure_is_fatal() {
    let mut l = launcher(&["launcher"], None);
    l.step(Event::Started);
    l.step(Event::Located(true));
    l.step(Event::CacheDirReady(true));
    assert_eq!(l.step(Event::LockAcquired(false)), Action::Fail(Failure::Lock));
    assert_eq!(l.phase, Phase::Done);
}

#[test]
fn spawn_failure_gives_lock_back_first() {
    let mut l = launcher(&["launcher"], None);
    up_to_probe(&mut l);
    l.step(Event::TokenProbed(false));
    assert_eq!(l.step(Event::Spawned(false)), Action::ReleaseLock(LOCK.to_string()));
    assert_eq!(l.phase, Phase::Aborting(Failure::Spawn));
    assert_eq!(l.step(Event::LockReleased(true)), Action::Fail(Failure::Spawn));
    assert_eq!(l.phase, Phase::Done);
}

#[test]
fn unexpected_event_while_locked_gives_lock_back() {
    let mut l = launcher(&["launcher"], None);
    up_to_probe(&mut l);
    assert_eq!(l.step(Event::Relayed(true)), Action::ReleaseLock(LOCK.to_string()));
    assert_eq!(l.step(Event::LockReleased(true)), Action::Fail(Failure::Unexpected));
}

#[test]
fn unreadable_session_is_fatal() {
    for (token, port) in [(None, Some("1")), (Some("t"), None), (None, None)] {
        let mut l = launcher(&["launcher"], None);
        up_to_probe(&mut l);
        l.step(Event::TokenProbed(true));
        l.step(Event::LockReleased(true));
        let event = Event::SessionRead(token.map(|s| s.to_string()), port.map(|s| s.to_string()));
        assert_eq!(l.step(event), Action::Fail(Failure::Session));
        assert_eq!(l.phase, Phase::Done);
    }
}

#[test]
fn unparsable_port_is_fatal() {
    for port in ["", "port", "70000", "-1", "9100\n"] {
        let mut l = launcher(&["launcher"], None);
        up_to_probe(&mut l);
        l.step(Event::TokenProbed(true));
        l.step(Event::LockReleased(true));
        let event = Event::SessionRead(Some("t".to_string()), Some(port.to_string()));
        assert_eq!(l.step(event), Action::Fail(Failure::Port));
    }
}

#[test]
fn connection_failures_are_fatal() {
    let mut l = launcher(&["launcher"], None);
    up_to_probe(&mut l);
    l.step(Event::TokenProbed(true));
    l.step(Event::LockReleased(true));
    l.step(Event::SessionRead(Some("t".to_string()), Some("1".to_string())));
    assert_eq!(l.step(Event::Connected(false)), Action::Fail(Failure::Connect));

    let mut l = launcher(&["launcher", "-s"], None);
    up_to_probe(&mut l);
    l.step(Event::TokenProbed(true));
    l.step(Event::LockReleased(true));
    l.step(Event::SessionRead(Some("t".to_string()), Some("1".to_string())));
    l.step(Event::Connected(true));
    assert_eq!(l.step(Event::InputRead(None)), Action::Fail(Failure::Input));

    let mut l = launcher(&["launcher"], None);
    up_to_probe(&mut l);
    l.step(Event::TokenProbed(true));
    l.step(Event::LockReleased(true));
    l.step(Event::SessionRead(Some("t".to_string()), Some("1".to_string())));
    l.step(Event::Connected(true));
    l.step(Event::StatusCleared(true));
    assert_eq!(l.step(Event::Sent(false)), Action::Fail(Failure::Send));

    let mut l = launcher(&["launcher"], None);
    up_to_probe(&mut l);
    l.step(Event::TokenProbed(true));
    l.step(Event::LockReleased(true));
    l.step(Event::SessionRead(Some("t".to_string()), Some("1".to_string())));
    l.step(Event::Connected(true));
    l.step(Event::StatusCleared(true));
    l.step(Event::Sent(true));
    assert_eq!(l.step(Event::Relayed(false)), Action::Fail(Failure::Relay));
}

#[test]
fn ended_launcher_stays_ended() {
    let mut l = launcher(&["launcher"], None);
    l.step(Event::Started);
    l.step(Event::Located(false));
    l.step(Event::FallbackExited(Some(0)));
    assert_eq!(l.step(Event::Started), Action::Fail(Failure::Unexpected));
    assert_eq!(l.phase, Phase::Done);
}

#[test]
fn event_out_of_turn_ends_the_run() {
    let mut l = launcher(&["launcher"], None);
    assert_eq!(l.step(Event::Connected(true)), Action::Fail(Failure::Unexpected));
    assert_eq!(l.phase, Phase::Done);
}

#[test]
fn probe_leaves_other_actions_alone() {
    assert_eq!(probe(&Action::Relay), None);
    assert_eq!(probe(&Action::ReadInput), None);
    assert_eq!(probe(&Action::Exit(0)), None);
    assert_eq!(probe(&Action::AcquireLock("/x".to_string())), None);
}

#[test]
fn probe_looks_for_program() {
    let missing = Action::Locate("no-such-program-on-any-search-path-7f3a".to_string());
    assert_eq!(probe(&missing), Some(Event::Located(false)));
    assert!(matches!(probe(&Action::Locate("sh".to_string())), Some(Event::Located(_))));
}

#[test]
fn probe_looks_for_token() {
    let tmp_dir = TempDir::new("probe_token").unwrap();
    let here = tmp_dir.path().to_str().unwrap().to_string();
    let gone = tmp_dir.path().join("token").to_str().unwrap().to_string();
    assert_eq!(probe(&Action::ProbeToken(here)), Some(Event::TokenProbed(true)));
    assert_eq!(probe(&Action::ProbeToken(gone)), Some(Event::TokenProbed(false)));
}
