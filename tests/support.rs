use app_core::config::AppConfig;
use app_core::dto::{ApiResponse, CreateUserRequest, DeleteUserRequest, UserDto};
use app_core::error::DomainError;
use app_core::events::{Envelope, EventMetadata, UserDeletedEvent};
use app_core::logging::{BuildLogger, BuildMetrics, PhaseStatus, LogLevel, StructuredContextualLogger, StructuredLogger};
use app_core::mvvm::{EmailError, ModelError, ValueObject, ViewModelError, ViewModelState};
use app_core::plugins::{create_plugin_registry, Plugin, PluginError, PluginRegistry, UserPlugin};
use app_core::result::{IntoResult, Result as Outcome};
use app_core::user::{Email, NewUser, User, UserId, UserRole};

#[test]
fn outcome_queries_and_maps() {
    let ok: Outcome<i32, String> = Outcome::Success(2);
    let bad: Outcome<i32, String> = Outcome::Failure("e".to_string());
    assert!(ok.is_ok() && !ok.is_err());
    assert!(bad.is_err() && !bad.is_ok());
    assert!(matches!(ok.as_ref(), Outcome::Success(&2)));
    assert!(matches!(ok.clone().map(|x| x * 10), Outcome::Success(20)));
    assert!(matches!(bad.clone().map(|x| x * 10), Outcome::Failure(ref e) if e == "e"));
    assert!(matches!(bad.clone().map_err(|e| e.len()), Outcome::Failure(1)));
    assert_eq!(ok.clone().unwrap(), 2);
    assert_eq!(bad.clone().unwrap_or(7), 7);
    assert_eq!(bad.clone().unwrap_or_else(|e| e.len() as i32 + 40), 41);
    assert_eq!(ok.clone().ok_or("x".to_string()), Some(2));
    assert_eq!(bad.clone().ok_or("x".to_string()), None);
}

#[test]
fn outcome_chains() {
    let ok: Outcome<i32, String> = Outcome::Success(3);
    let bad: Outcome<i32, String> = Outcome::Failure("no".to_string());
    assert!(matches!(ok.clone().and_then(|x| Outcome::Success::<i32, String>(x + 1)), Outcome::Success(4)));
    assert!(matches!(bad.clone().and_then(|x| Outcome::Success::<i32, String>(x + 1)), Outcome::Failure(_)));
    assert!(matches!(bad.clone().or_else(|_| Outcome::Success::<i32, String>(0)), Outcome::Success(0)));
    assert!(matches!(ok.clone().or_else(|_| Outcome::Success::<i32, String>(0)), Outcome::Success(3)));
    assert_eq!(ok.clone().into_std(), Ok(3));
    assert_eq!(bad.clone().into_std(), Err("no".to_string()));
    let back: Outcome<i32, String> = Ok::<i32, String>(5).into_result();
    assert!(matches!(back, Outcome::Success(5)));
    let empty: Outcome<i32, String> = Outcome::Failure(String::new());
    assert_eq!(empty.ok_or_default(), None);
    assert_eq!(ok.ok_or_default(), Some(3));
}

#[test]
fn view_model_errors_keep_their_message() {
    assert_eq!(ViewModelError::invalid_command("c"), ViewModelError::InvalidCommand("c".to_string()));
    assert_eq!(ViewModelError::invalid_query("q"), ViewModelError::InvalidQuery("q".to_string()));
    assert_eq!(ViewModelError::execution_failed("x"), ViewModelError::ExecutionFailed("x".to_string()));
    assert_eq!(ViewModelError::not_found("n"), ViewModelError::NotFound("n".to_string()));
    assert_eq!(ViewModelError::validation("v"), ViewModelError::ValidationError("v".to_string()));
    assert_eq!(ViewModelError::unauthorized("u"), ViewModelError::Unauthorized("u".to_string()));
    assert_eq!(ViewModelError::not_found("User 4").message(), "Not found: User 4");
    assert_eq!(ViewModelError::unauthorized("no").message(), "Unauthorized: no");
    assert_eq!(ViewModelState::default(), ViewModelState::Initial);
}

#[test]
fn model_and_email_errors_read_as_text() {
    assert_eq!(ModelError::InvalidState("s".to_string()).message(), "Invalid state: s");
    assert_eq!(EmailError::InvalidFormat("bad".to_string()).message(), "Invalid email format: bad");
    assert!(Email::new("a@b.c").unwrap().validate().is_ok());
}

struct Fussy;

impl Plugin for Fussy {
    fn name(&self) -> &str {
        "fussy"
    }
    fn version(&self) -> &str {
        "0.1"
    }
    fn initialize(&self) -> Result<(), PluginError> {
        Err(PluginError::ExecutionFailed("boom".to_string()))
    }
    fn shutdown(&self) -> Result<(), PluginError> {
        Ok(())
    }
}

struct Stubborn;

impl Plugin for Stubborn {
    fn name(&self) -> &str {
        "stubborn"
    }
    fn version(&self) -> &str {
        "2.0"
    }
    fn initialize(&self) -> Result<(), PluginError> {
        Ok(())
    }
    fn shutdown(&self) -> Result<(), PluginError> {
        Err(PluginError::InitializationFailed("busy".to_string()))
    }
}

#[test]
fn failed_shutdown_still_unregisters() {
    let mut r: PluginRegistry<Stubborn> = PluginRegistry::new();
    r.register(Stubborn).unwrap();
    match r.unregister("stubborn") {
        Err(PluginError::ExecutionFailed(m)) => assert_eq!(m, "Initialization failed: busy"),
        _ => panic!("expected an execution failure"),
    }
    assert_eq!(r.len(), 0);
    assert!(r.get("stubborn").is_none());
}

#[test]
fn registry_registers_once_per_name() {
    let mut r: PluginRegistry<UserPlugin> = create_plugin_registry();
    assert_eq!(r.len(), 0);
    r.register(UserPlugin::new()).unwrap();
    assert_eq!(r.len(), 1);
    assert!(matches!(r.register(UserPlugin::new()), Err(PluginError::AlreadyLoaded(ref n)) if n == "user"));
    assert_eq!(r.list(), vec!["user".to_string()]);
    assert_eq!(r.get("user").unwrap().version(), "1.0.0");
    assert!(r.get("other").is_none());
}

#[test]
fn registry_unregisters_by_name() {
    let mut r: PluginRegistry<UserPlugin> = PluginRegistry::new();
    r.register(UserPlugin::new()).unwrap();
    r.unregister("user").unwrap();
    assert_eq!(r.len(), 0);
    assert!(matches!(r.unregister("user"), Err(PluginError::NotFound(ref n)) if n == "user"));
}

#[test]
fn failed_initialization_registers_nothing() {
    let mut r: PluginRegistry<Fussy> = PluginRegistry::new();
    match r.register(Fussy) {
        Err(PluginError::InitializationFailed(m)) => assert_eq!(m, "Execution failed: boom"),
        _ => panic!("expected an initialization failure"),
    }
    assert_eq!(r.len(), 0);
}

#[test]
fn user_dto_shows_fields_as_text() {
    let u = User::create(NewUser {
        name: "Ada".to_string(),
        email: Email::new("ada@example.com").unwrap(),
        role: UserRole::Admin,
    })
    .unwrap();
    let d = UserDto::from_user(&u);
    assert_eq!(d.id, 0);
    assert_eq!(d.name, "Ada");
    assert_eq!(d.email, "ada@example.com");
    assert_eq!(d.role, "Admin");
    assert_eq!(d.status, "Active");
    assert!(d.created_at.ends_with("+00:00"));
}

#[test]
fn requests_become_commands() {
    let c = CreateUserRequest { name: "A".to_string(), email: "a@b.c".to_string(), role: None }.into_command();
    assert_eq!(c.role, "User");
    let c = CreateUserRequest { name: "A".to_string(), email: "a@b.c".to_string(), role: Some("Guest".to_string()) }
        .into_command();
    assert_eq!(c.role, "Guest");
    assert_eq!(DeleteUserRequest { id: 4 }.into_command().id, 4);
}

#[test]
fn api_responses_carry_data_or_error() {
    let s = ApiResponse::success(5);
    assert!(s.success && s.data == Some(5) && s.error.is_none());
    let e: ApiResponse<i32> = ApiResponse::error("bad".to_string());
    assert!(!e.success && e.data.is_none());
    assert_eq!(e.error.as_deref(), Some("bad"));
    let f: ApiResponse<i32> = ApiResponse::from_outcome(Err(DomainError::NotFound("User 3".to_string())));
    assert_eq!(f.error.as_deref(), Some("Not found: User 3"));
    let g = ApiResponse::from_outcome(Ok::<i32, DomainError>(8));
    assert_eq!(g.data, Some(8));
}

#[test]
fn default_config_values() {
    let c = AppConfig::default();
    assert_eq!(c.app.name, "Rust WebUI Application");
    assert_eq!(c.app.version, "1.0.0");
    assert_eq!(c.database.path, "app.db");
    assert_eq!(c.database.create_sample_data, Some(true));
    assert_eq!(c.window.width, Some(1200));
    assert_eq!(c.window.height, Some(800));
    assert_eq!(c.logging.level, "info");
    assert_eq!(c.logging.file, "application.log");
    assert_eq!(c.logging.append, Some(true));
}

#[test]
fn log_levels_read_from_names() {
    assert_eq!(LogLevel::from_name("debug"), LogLevel::Debug);
    assert_eq!(LogLevel::from_name("error"), LogLevel::Error);
    assert_eq!(LogLevel::from_name("verbose"), LogLevel::Info);
    assert_eq!(LogLevel::Warn.tag(), "WARN");
}

#[test]
fn logger_entries_are_formatted() {
    let l = StructuredLogger::with_default_config("svc");
    assert_eq!(l.level, LogLevel::Info);
    assert!(l.log_file.is_none());
    assert_eq!(l.format_entry(LogLevel::Error, "boom"), "[svc] ERROR: boom");
    let c = StructuredContextualLogger::new(StructuredLogger::new(LogLevel::Debug, "svc"), "db");
    assert_eq!(c.format_entry("ready"), "[svc] [db] ready");
    assert_eq!(BuildLogger::with_file("build.log".to_string()).get_log_path(), "build.log");
}

#[test]
fn metadata_builders_set_ids() {
    let m = EventMetadata::new("core");
    assert_eq!(m.event_id.len(), 36);
    assert_eq!(m.version, 1);
    assert_eq!(m.source, "core");
    let m = m.with_correlation("c1".to_string()).with_causation("k1".to_string());
    assert_eq!(m.correlation_id.as_deref(), Some("c1"));
    assert_eq!(m.causation_id.as_deref(), Some("k1"));
    let e = Envelope::new(UserDeletedEvent::new(UserId(3)), "core").with_correlation("c2".to_string());
    assert_eq!(e.metadata.correlation_id.as_deref(), Some("c2"));
    assert_eq!(e.payload.user_id, UserId(3));
}

#[test]
fn build_phases_start_and_end_by_name() {
    let mut m = BuildMetrics::new(100);
    m.start_phase("compile", 110);
    m.start_phase("test", 150);
    m.end_phase("compile", true, None, 140);
    m.end_phase("test", false, None, 190);
    m.end_phase("missing", true, None, 200);
    assert_eq!(m.phases.len(), 2);
    assert_eq!(m.phases[0].end_ms, Some(140));
    assert_eq!(m.phases[0].status, PhaseStatus::Success);
    assert_eq!(m.phases[1].status, PhaseStatus::Failed("Unknown error".to_string()));
    assert_eq!(m.phases[1].status.symbol(), "✗");
    m.start_phase("pack", 200);
    m.end_phase("pack", false, Some("disk full"), 230);
    assert_eq!(m.phases[2].status, PhaseStatus::Failed("disk full".to_string()));
    assert_eq!(PhaseStatus::Running.symbol(), "⟳");
}
