use ai_cowork_assistant::endpoint::{endpoint_for, port_argument, DEVELOPMENT_PORT};
use ai_cowork_assistant::sidecar::{Info, Mode, SidecarManager, State, Step};
use ai_cowork_assistant::user::SystemUserInfo;
use std::sync::Mutex;

struct World {
    ports: Vec<Result<u16, String>>,
    starts: Vec<Result<(), String>>,
    binds: usize,
    spawns: usize,
    spawn_args: Vec<String>,
}

impl World {
    fn new(ports: Vec<Result<u16, String>>, starts: Vec<Result<(), String>>) -> World {
        World { ports, starts, binds: 0, spawns: 0, spawn_args: Vec::new() }
    }

    fn ensure_ready(&mut self, m: &mut SidecarManager) -> Info {
        match m.begin() {
            Step::Reply(info) => info,
            Step::FindPort => {
                let found = self.ports[self.binds].clone();
                self.binds += 1;
                match m.port_found(found) {
                    Step::Reply(info) => info,
                    Step::Spawn { port, argument } => {
                        let started = self.starts[self.spawns].clone();
                        self.spawns += 1;
                        self.spawn_args.push(argument);
                        m.spawned(port, started)
                    }
                    Step::FindPort => panic!("asked for a port twice"),
                }
            }
            Step::Spawn { .. } => panic!("spawn before a port was found"),
        }
    }
}

fn same(a: &Info, b: &Info) -> bool {
    a.available == b.available && a.url == b.url && a.error == b.error
}

#[test]
fn development_answers_fixed_endpoint() {
    let mut m = SidecarManager::new(Mode::Development);
    let mut w = World::new(vec![], vec![]);
    let info = w.ensure_ready(&mut m);
    assert!(info.available);
    assert_eq!(info.url.as_deref(), Some("http://127.0.0.1:1720"));
    assert_eq!(info.error, None);
    assert_eq!(w.binds, 0);
    assert_eq!(w.spawns, 0);
}

#[test]
fn development_calls_are_idempotent() {
    let mut m = SidecarManager::new(Mode::Development);
    let mut w = World::new(vec![], vec![]);
    let first = w.ensure_ready(&mut m);
    for _ in 0..10 {
        let again = w.ensure_ready(&mut m);
        assert!(same(&first, &again));
    }
    assert_eq!(w.binds, 0);
    assert_eq!(w.spawns, 0);
}

#[test]
fn production_success_gives_loopback_endpoint() {
    let mut m = SidecarManager::new(Mode::Production);
    let mut w = World::new(vec![Ok(8123)], vec![Ok(())]);
    let info = w.ensure_ready(&mut m);
    assert!(info.available);
    assert_eq!(info.url.as_deref(), Some("http://127.0.0.1:8123"));
    assert_eq!(info.error, None);
    assert_eq!(w.spawn_args, vec!["8123".to_string()]);
    assert_eq!(m.state.url.as_deref(), Some("http://127.0.0.1:8123"));
    assert_eq!(m.state.error, None);
}

#[test]
fn production_spawns_once_for_many_callers() {
    let shared = Mutex::new(SidecarManager::new(Mode::Production));
    let mut w = World::new(vec![Ok(49152), Ok(49153)], vec![Ok(()), Ok(())]);
    let mut answers = Vec::new();
    for _ in 0..8 {
        let mut m = shared.lock().unwrap();
        answers.push(w.ensure_ready(&mut m));
    }
    assert_eq!(w.binds, 1);
    assert_eq!(w.spawns, 1);
    for a in &answers {
        assert!(same(a, &answers[0]));
    }
    assert_eq!(answers[0].url.as_deref(), Some("http://127.0.0.1:49152"));
}

#[test]
fn port_discovery_failure_is_sticky() {
    let mut m = SidecarManager::new(Mode::Production);
    let mut w = World::new(vec![Err("address in use".to_string()), Ok(5000)], vec![Ok(())]);
    let first = w.ensure_ready(&mut m);
    assert!(!first.available);
    assert_eq!(first.url, None);
    assert_eq!(first.error.as_deref(), Some("address in use"));
    let second = w.ensure_ready(&mut m);
    assert!(same(&first, &second));
    assert_eq!(w.binds, 1);
    assert_eq!(w.spawns, 0);
}

#[test]
fn spawn_failure_is_sticky() {
    let mut m = SidecarManager::new(Mode::Production);
    let mut w = World::new(
        vec![Ok(6000), Ok(6001)],
        vec![Err("executable not found".to_string()), Ok(())],
    );
    let first = w.ensure_ready(&mut m);
    assert!(!first.available);
    assert_eq!(first.url, None);
    assert_eq!(first.error.as_deref(), Some("executable not found"));
    for _ in 0..3 {
        let again = w.ensure_ready(&mut m);
        assert!(same(&first, &again));
    }
    assert_eq!(w.binds, 1);
    assert_eq!(w.spawns, 1);
    assert_eq!(m.state.url, None);
}

#[test]
fn settled_state_answers_without_work() {
    let mut m = SidecarManager::new(Mode::Production);
    m.state.url = Some("http://127.0.0.1:7777".to_string());
    let mut w = World::new(vec![], vec![]);
    let info = w.ensure_ready(&mut m);
    assert!(info.available);
    assert_eq!(info.url.as_deref(), Some("http://127.0.0.1:7777"));
    assert_eq!(w.binds, 0);
}

#[test]
fn distinct_ports_give_distinct_endpoints() {
    assert_ne!(endpoint_for(40000), endpoint_for(40001));
    assert_ne!(endpoint_for(1), endpoint_for(10));
}

#[test]
fn endpoint_exact_values() {
    assert_eq!(endpoint_for(0), "http://127.0.0.1:0");
    assert_eq!(endpoint_for(9), "http://127.0.0.1:9");
    assert_eq!(endpoint_for(10), "http://127.0.0.1:10");
    assert_eq!(endpoint_for(65535), "http://127.0.0.1:65535");
    assert_eq!(endpoint_for(DEVELOPMENT_PORT), "http://127.0.0.1:1720");
}

#[test]
fn port_argument_is_decimal() {
    assert_eq!(port_argument(0), "0");
    assert_eq!(port_argument(7), "7");
    assert_eq!(port_argument(100), "100");
    assert_eq!(port_argument(54321), "54321");
    assert_eq!(port_argument(65535), "65535");
}

#[test]
fn new_state_is_unresolved() {
    let s = State::new();
    assert_eq!(s.url, None);
    assert_eq!(s.error, None);
    let d = State::default();
    assert_eq!(d.url, None);
    assert_eq!(d.error, None);
    let info = s.info();
    assert!(!info.available);
}

#[test]
fn system_user_info_has_empty_avatar() {
    let u = SystemUserInfo::for_user("alice".to_string());
    assert_eq!(u.username, "alice");
    assert_eq!(u.avatar_path, "");
}
