use embedder::container::{
    build_args, container_name, driver_address, image_exists_args, local_address,
    local_driver_args, locate_browser, pick_runtime, port_text, remove_args, run_args, stop_args,
    SessionError,
};
use embedder::locks::{build_start, build_step, poll_lock, BuildAction, BuildEvent, BuildStage, LockPoll};
use embedder::ports::{scan_next, scan_start, ScanStep, PORT_BASE};
use embedder::session::{append_frame, download_link, needs_link_attribute};

fn s(v: &str) -> String {
    v.to_string()
}

fn strs(v: &[&str]) -> Vec<String> {
    v.iter().map(|x| x.to_string()).collect()
}

fn scan(preferred: Option<u16>, busy: impl Fn(u16) -> bool) -> ScanStep {
    let mut step = scan_start(preferred);
    loop {
        match step {
            ScanStep::Probe(p) => step = scan_next(p, busy(p)),
            other => return other,
        }
    }
}

#[test]
fn port_text_is_decimal() {
    assert_eq!(port_text(0), "0");
    assert_eq!(port_text(7), "7");
    assert_eq!(port_text(4444), "4444");
    assert_eq!(port_text(65535), "65535");
}

#[test]
fn preferred_port_is_taken_without_probe() {
    assert_eq!(scan_start(Some(9000)), ScanStep::Found(9000));
    assert_eq!(scan_start(None), ScanStep::Probe(PORT_BASE));
    assert_eq!(PORT_BASE, 4444);
}

#[test]
fn scan_returns_first_free_port() {
    assert_eq!(scan(None, |p| p < 4447), ScanStep::Found(4447));
    assert_eq!(scan(None, |_| false), ScanStep::Found(4444));
}

#[test]
fn scan_of_busy_ports_is_exhausted() {
    assert_eq!(scan_next(65535, true), ScanStep::Exhausted);
    assert_eq!(scan(None, |_| true), ScanStep::Exhausted);
}

#[test]
fn serial_scans_give_distinct_ports() {
    let mut bound: Vec<u16> = Vec::new();
    for _ in 0..3 {
        match scan(None, |p| bound.contains(&p)) {
            ScanStep::Found(p) => bound.push(p),
            other => panic!("unexpected {:?}", other),
        }
    }
    assert_eq!(bound, vec![4444, 4445, 4446]);
}

#[test]
fn lock_poll_sleeps_while_held() {
    assert_eq!(poll_lock(true), LockPoll::Proceed);
    assert_eq!(poll_lock(false), LockPoll::Sleep(500));
}

#[test]
fn build_runs_only_when_image_missing() {
    let (st, act) = build_start();
    assert_eq!((st, act), (BuildStage::AwaitLock, BuildAction::TryLock));
    let (st, act) = build_step(st, BuildEvent::LockBusy);
    assert_eq!(act, BuildAction::Sleep(500));
    let (st, act) = build_step(st, BuildEvent::Slept);
    assert_eq!(act, BuildAction::TryLock);
    let (st, act) = build_step(st, BuildEvent::LockTaken);
    assert_eq!((st, act), (BuildStage::Holding, BuildAction::QueryImage));
    let (st2, act2) = build_step(st, BuildEvent::ImageExists(true));
    assert_eq!((st2, act2), (BuildStage::Releasing, BuildAction::RemoveLock));
    let (st, act) = build_step(st, BuildEvent::ImageExists(false));
    assert_eq!((st, act), (BuildStage::Building, BuildAction::RunBuild));
    let (st, act) = build_step(st, BuildEvent::BuildEnded);
    assert_eq!((st, act), (BuildStage::Releasing, BuildAction::RemoveLock));
    let (st, act) = build_step(st, BuildEvent::LockRemoved);
    assert_eq!((st, act), (BuildStage::Done, BuildAction::Finished));
}

#[test]
fn concurrent_cold_builds_run_once() {
    // Three callers, stepped in turn, sharing one lock and one image store.
    let mut callers = vec![build_start(); 3];
    let (mut lock, mut image, mut builds) = (false, false, 0);
    for _round in 0..20 {
        for c in callers.iter_mut() {
            let event = match c.1 {
                BuildAction::TryLock => {
                    if lock {
                        BuildEvent::LockBusy
                    } else {
                        lock = true;
                        BuildEvent::LockTaken
                    }
                }
                BuildAction::Sleep(_) => BuildEvent::Slept,
                BuildAction::QueryImage => BuildEvent::ImageExists(image),
                BuildAction::RunBuild => {
                    builds += 1;
                    image = true;
                    BuildEvent::BuildEnded
                }
                BuildAction::RemoveLock => {
                    lock = false;
                    BuildEvent::LockRemoved
                }
                BuildAction::Finished => continue,
            };
            *c = build_step(c.0, event);
        }
    }
    assert!(callers.iter().all(|c| c.0 == BuildStage::Done));
    assert_eq!(builds, 1);
    assert!(image);
    assert!(!lock);
}

#[test]
fn runtime_prefers_rootless_engine() {
    assert_eq!(pick_runtime(Some(s("/usr/bin/podman")), Some(s("/usr/bin/docker"))), Ok(s("/usr/bin/podman")));
    assert_eq!(pick_runtime(None, Some(s("/usr/bin/docker"))), Ok(s("/usr/bin/docker")));
    assert_eq!(pick_runtime(None, None), Err(SessionError::ToolingMissing));
}

#[test]
fn given_browser_is_used() {
    assert_eq!(locate_browser(Some(s("/opt/ff"))), Ok(s("/opt/ff")));
}

#[test]
fn container_commands_name_the_session() {
    assert_eq!(container_name("s1"), "embedder-s1");
    assert_eq!(image_exists_args(), strs(&["image", "exists", "embedder-container:latest"]));
    assert_eq!(build_args(), strs(&["build", "-f", "-", "-t", "embedder-container", "."]));
    assert_eq!(
        run_args("s1", 4445),
        strs(&[
            "run", "-p", "4445:4445", "--name", "embedder-s1", "-d", "embedder-container",
            "/usr/bin/geckodriver", "--host", "0.0.0.0", "-p", "4445",
        ])
    );
    assert_eq!(stop_args("s1"), strs(&["stop", "embedder-s1"]));
    assert_eq!(remove_args("s1"), strs(&["rm", "embedder-s1"]));
}

#[test]
fn two_sessions_get_distinct_ports_and_containers() {
    let first = scan(None, |_| false);
    let second = scan_start(Some(5555));
    assert_eq!(first, ScanStep::Found(4444));
    assert_eq!(second, ScanStep::Found(5555));
    assert_ne!(stop_args("s1"), stop_args("s2"));
    assert_ne!(remove_args("s1"), remove_args("s2"));
}

#[test]
fn driver_addresses() {
    assert_eq!(driver_address(4444), "http://127.0.0.1:4444");
    assert_eq!(local_address(None), "http://localhost:4444");
    assert_eq!(local_address(Some(5000)), "http://localhost:5000");
    assert_eq!(local_driver_args("/ff", None), strs(&["-b", "/ff"]));
    assert_eq!(local_driver_args("/ff", Some(80)), strs(&["-b", "/ff", "-p", "80"]));
}

#[test]
fn override_link_bypasses_attribute() {
    assert!(!needs_link_attribute(&Some(s("https://o/file"))));
    assert!(needs_link_attribute(&None));
    assert_eq!(download_link(Some(s("https://o/file")), None), Ok(s("https://o/file")));
    assert_eq!(download_link(Some(s("https://o/file")), Some(s("https://a/x"))), Ok(s("https://o/file")));
    assert_eq!(download_link(None, Some(s("https://a/x"))), Ok(s("https://a/x")));
}

#[test]
fn missing_link_attribute_fails_download() {
    assert_eq!(download_link(None, None), Err(SessionError::AttributeMissing));
}

#[test]
fn frames_accumulate_in_order() {
    let mut body = Vec::new();
    append_frame(&mut body, &[1, 2]);
    append_frame(&mut body, &[]);
    append_frame(&mut body, &[3]);
    assert_eq!(body, vec![1, 2, 3]);
}

#[test]
fn error_messages_are_descriptive() {
    assert_eq!(SessionError::ToolingMissing.message(), "No `podman` or `docker` installed!");
    assert_eq!(SessionError::TeardownFailure.message(), "Failed to stop or remove the container");
}
