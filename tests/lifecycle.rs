use vibeproxy_linux::config::{ConfigFile, ConfigManager};
use vibeproxy_linux::lifecycle::{ClientError, Health, ServerError, ServerManager, StartPlan, StopOutcome};

fn healthy(latency_ms: u64) -> Result<Health, ClientError> {
    Ok(Health { healthy: true, latency_ms, message: Some("ok".to_string()) })
}

#[test]
fn new_manager_is_stopped() {
    assert!(!ServerManager::new().is_running());
}

#[test]
fn start_twice_with_healthy_backend() {
    let mut m = ServerManager::new();
    assert_eq!(m.start_plan(), StartPlan::ProbeBackend);
    assert!(m.finish_start(healthy(3)).is_ok());
    assert!(m.is_running());
    assert_eq!(m.start_plan(), StartPlan::AlreadyRunning);
    assert!(m.is_running());
}

#[test]
fn stop_twice() {
    let mut m = ServerManager::new();
    m.finish_start(healthy(3)).unwrap();
    assert_eq!(m.stop(), StopOutcome::Stopped);
    assert!(!m.is_running());
    assert_eq!(m.stop(), StopOutcome::AlreadyStopped);
    assert!(!m.is_running());
}

#[test]
fn unhealthy_report_still_starts() {
    let mut m = ServerManager::new();
    let probe = Ok(Health { healthy: false, latency_ms: 40, message: None });
    assert!(m.finish_start(probe).is_ok());
    assert!(m.is_running());
}

#[test]
fn unavailable_backend_soft_starts() {
    let mut m = ServerManager::new();
    assert!(m.finish_start(Err(ClientError::Unavailable)).is_ok());
    assert!(m.is_running());
    let s = m.status(Err(ClientError::Unavailable)).unwrap();
    assert!(!s.running);
    assert_eq!(s.latency_ms, 0);
    assert_eq!(s.message, Some("Server unavailable".to_string()));
}

#[test]
fn timeout_starts_but_status_reports_error() {
    let mut m = ServerManager::new();
    assert!(m.finish_start(Err(ClientError::Timeout)).is_ok());
    assert!(m.is_running());
    assert!(matches!(m.status(Err(ClientError::Timeout)), Err(ServerError::Backend(ClientError::Timeout))));
}

#[test]
fn other_error_fails_start_and_keeps_flag() {
    let mut m = ServerManager::new();
    match m.finish_start(Err(ClientError::Other("bad gateway".to_string()))) {
        Err(ServerError::Backend(ClientError::Other(d))) => assert_eq!(d, "bad gateway"),
        other => panic!("unexpected {:?}", other),
    }
    assert!(!m.is_running());
}

#[test]
fn status_error_passes_through() {
    let m = ServerManager::new();
    match m.status(Err(ClientError::Other("refused".to_string()))) {
        Err(ServerError::Backend(ClientError::Other(d))) => assert_eq!(d, "refused"),
        other => panic!("unexpected {:?}", other),
    }
}

#[test]
fn status_reprobes_after_soft_start() {
    let mut m = ServerManager::new();
    m.finish_start(Err(ClientError::Unavailable)).unwrap();
    let s = m.status(healthy(17)).unwrap();
    assert!(s.running);
    assert_eq!(s.latency_ms, 17);
    assert_eq!(s.message, Some("ok".to_string()));
}

#[test]
fn status_ignores_cached_flag() {
    let m = ServerManager::new();
    let s = m.status(healthy(5)).unwrap();
    assert!(s.running);
    assert!(!m.is_running());
}

#[test]
fn cold_start_scenario() {
    let cfg = ConfigManager::new(Some("/home/ada/.config/vibeproxy"));
    let config = cfg.load(ConfigFile::Absent).unwrap();
    assert_eq!(config.backend.host, "127.0.0.1");
    let mut m = ServerManager::new();
    assert_eq!(m.start_plan(), StartPlan::ProbeBackend);
    m.finish_start(Err(ClientError::Unavailable)).unwrap();
    assert!(m.is_running());
    let s = m.status(Err(ClientError::Unavailable)).unwrap();
    assert!(!s.running);
    assert_eq!(s.latency_ms, 0);
    assert_eq!(s.message.as_deref(), Some("Server unavailable"));
}
