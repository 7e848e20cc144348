use app_core::application::{
    CommandHandler, CreateUserCommand, CreateUserHandler, DeleteUserCommand, DeleteUserHandler,
    GetUserByIdHandler, GetUserByIdQuery, GetUsersHandler, GetUsersQuery, QueryHandler,
};
use app_core::error::DomainError;
use app_core::event_bus::NoopEventBus;
use app_core::repository::{InMemoryUserRepository, UserRepository};
use app_core::service::UserServiceImpl;
use app_core::user::{Email, NewUser, User, UserId, UserRole, UserStatus};

type Service = UserServiceImpl<InMemoryUserRepository, NoopEventBus>;

fn service() -> Service {
    UserServiceImpl::new(InMemoryUserRepository::new(), NoopEventBus::new())
}

fn new_user(name: &str, email: &str, role: UserRole) -> NewUser {
    NewUser { name: name.to_string(), email: Email::new(email).unwrap(), role }
}

fn count(s: &Service) -> i64 {
    s.repository().count().unwrap()
}

#[test]
fn created_user_reads_back_with_its_fields() {
    let mut s = service();
    for (name, email, role) in [
        ("Alice", "alice@example.com", UserRole::Admin),
        ("Bob", "bob@example.org", UserRole::User),
        ("Gus", "g.u.s@host.net", UserRole::Guest),
    ] {
        let id = s.create_user(new_user(name, email, role)).unwrap();
        let u = s.get_user(id).unwrap();
        assert_eq!(u.id, id);
        assert_eq!(u.name, name);
        assert_eq!(u.email.as_str(), email);
        assert_eq!(u.role, role);
        assert_eq!(u.status, UserStatus::Active);
    }
}

#[test]
fn ids_start_at_one_and_increase() {
    let mut s = service();
    assert_eq!(s.create_user(new_user("A", "a@x.io", UserRole::User)).unwrap(), UserId(1));
    assert_eq!(s.create_user(new_user("B", "b@x.io", UserRole::User)).unwrap(), UserId(2));
    s.delete_user(UserId(2)).unwrap();
    assert_eq!(s.create_user(new_user("C", "c@x.io", UserRole::User)).unwrap(), UserId(3));
}

#[test]
fn empty_name_is_refused_before_storage() {
    let mut s = service();
    let r = s.create_user(new_user("", "a@x.io", UserRole::User));
    assert!(matches!(r, Err(DomainError::ValidationError(_))));
    assert_eq!(count(&s), 0);
}

#[test]
fn invalid_email_command_inserts_no_row() {
    let mut h = CreateUserHandler::new(service());
    for email in ["no-at-sign.com", "", "still no at"] {
        let r = h.handle(CreateUserCommand {
            name: "Alice".to_string(),
            email: email.to_string(),
            role: "Admin".to_string(),
        });
        assert!(matches!(r, Err(DomainError::ValidationError(_))));
    }
    assert_eq!(count(h.user_service()), 0);
}

#[test]
fn deleted_user_is_not_found() {
    let mut s = service();
    let id = s.create_user(new_user("Alice", "alice@example.com", UserRole::User)).unwrap();
    s.delete_user(id).unwrap();
    assert!(matches!(s.get_user(id), Err(DomainError::NotFound(_))));
}

#[test]
fn deleting_unknown_id_is_not_found() {
    let mut s = service();
    assert!(matches!(s.delete_user(UserId(99)), Err(DomainError::NotFound(_))));
}

#[test]
fn duplicate_email_is_refused_and_first_user_kept() {
    let mut s = service();
    let first = s.create_user(new_user("Alice", "same@example.com", UserRole::Admin)).unwrap();
    let second = s.create_user(new_user("Other", "same@example.com", UserRole::Guest));
    assert!(matches!(second, Err(DomainError::AlreadyExists(_))));
    assert_eq!(count(&s), 1);
    let u = s.get_user(first).unwrap();
    assert_eq!(u.name, "Alice");
    assert_eq!(u.role, UserRole::Admin);
}

#[test]
fn listing_is_ascending_and_matches_count() {
    let mut s = service();
    assert_eq!(s.get_all_users().unwrap().len(), 0);
    assert_eq!(count(&s), 0);
    for i in 0..5 {
        let email = format!("user{}@example.com", i);
        s.create_user(new_user("U", &email, UserRole::User)).unwrap();
    }
    s.delete_user(UserId(3)).unwrap();
    let all = s.get_all_users().unwrap();
    assert_eq!(all.len() as i64, count(&s));
    let ids: Vec<i64> = all.iter().map(|u| u.id.0).collect();
    assert_eq!(ids, vec![1, 2, 4, 5]);
}

#[test]
fn repeated_reads_agree() {
    let mut s = service();
    let id = s.create_user(new_user("Rita", "rita@example.com", UserRole::Guest)).unwrap();
    let a = s.get_user(id).unwrap();
    let b = s.get_user(id).unwrap();
    assert_eq!(a.name, b.name);
    assert_eq!(a.email.as_str(), b.email.as_str());
    assert_eq!(a.role, b.role);
    assert_eq!(a.status, b.status);
    assert_eq!(a.created_at, b.created_at);
}

#[test]
fn update_replaces_the_whole_user() {
    let mut repo = InMemoryUserRepository::new();
    let id = repo.create(&new_user("Ann", "ann@example.com", UserRole::User)).unwrap();
    let stored = repo.get_by_id(id).unwrap();
    let changed = User {
        id,
        name: "Annie".to_string(),
        email: Email::new("annie@example.com").unwrap(),
        role: UserRole::Admin,
        status: UserStatus::Suspended,
        created_at: stored.created_at,
    };
    repo.update(&changed).unwrap();
    let u = repo.get_by_id(id).unwrap();
    assert_eq!(u.name, "Annie");
    assert_eq!(u.email.as_str(), "annie@example.com");
    assert_eq!(u.role, UserRole::Admin);
    assert_eq!(u.status, UserStatus::Suspended);
}

#[test]
fn update_of_unknown_id_is_not_found() {
    let mut repo = InMemoryUserRepository::new();
    let u = User::create(new_user("Ann", "ann@example.com", UserRole::User)).unwrap();
    assert!(matches!(repo.update(&u), Err(DomainError::NotFound(_))));
}

#[test]
fn update_to_taken_email_is_refused() {
    let mut repo = InMemoryUserRepository::new();
    repo.create(&new_user("Ann", "ann@example.com", UserRole::User)).unwrap();
    let id = repo.create(&new_user("Ben", "ben@example.com", UserRole::User)).unwrap();
    let mut u = repo.get_by_id(id).unwrap();
    u.email = Email::new("ann@example.com").unwrap();
    assert!(matches!(repo.update(&u), Err(DomainError::AlreadyExists(_))));
    assert_eq!(repo.get_by_id(id).unwrap().email.as_str(), "ben@example.com");
}

#[test]
fn update_keeping_own_email_is_accepted() {
    let mut repo = InMemoryUserRepository::new();
    let id = repo.create(&new_user("Ann", "ann@example.com", UserRole::User)).unwrap();
    let mut u = repo.get_by_id(id).unwrap();
    u.name = "Anna".to_string();
    repo.update(&u).unwrap();
    assert_eq!(repo.get_by_id(id).unwrap().name, "Anna");
}

#[test]
fn handlers_delegate_to_the_service() {
    let mut create = CreateUserHandler::new(service());
    let id = create
        .handle(CreateUserCommand {
            name: "Hal".to_string(),
            email: "hal@example.com".to_string(),
            role: "Guest".to_string(),
        })
        .unwrap();
    let other = create
        .handle(CreateUserCommand {
            name: "Ivy".to_string(),
            email: "ivy@example.com".to_string(),
            role: "Wizard".to_string(),
        })
        .unwrap();

    let get = GetUserByIdHandler::new(create.into_service());
    let u = get.handle(GetUserByIdQuery { id: id.0 }).unwrap();
    assert_eq!(u.name, "Hal");
    assert_eq!(u.role, UserRole::Guest);
    assert_eq!(get.handle(GetUserByIdQuery { id: other.0 }).unwrap().role, UserRole::User);
    assert!(matches!(get.handle(GetUserByIdQuery { id: 77 }), Err(DomainError::NotFound(_))));

    let mut delete = DeleteUserHandler::new(get.into_service());
    delete.handle(DeleteUserCommand { id: id.0 }).unwrap();
    assert!(matches!(delete.handle(DeleteUserCommand { id: id.0 }), Err(DomainError::NotFound(_))));

    let list = GetUsersHandler::new(delete.into_service());
    let all = list.handle(GetUsersQuery).unwrap();
    assert_eq!(all.len(), 1);
    assert_eq!(all[0].name, "Ivy");
}

#[test]
fn create_command_with_empty_name_is_validation_error() {
    let mut h = CreateUserHandler::new(service());
    let r = h.handle(CreateUserCommand {
        name: String::new(),
        email: "ok@example.com".to_string(),
        role: "User".to_string(),
    });
    assert!(matches!(r, Err(DomainError::ValidationError(_))));
    assert_eq!(count(h.user_service()), 0);
}

fn stored(id: i64, email: &str) -> User {
    let mut u = User::create(new_user("S", email, UserRole::User)).unwrap();
    u.id = UserId(id);
    u
}

#[test]
fn restore_accepts_a_well_shaped_store() {
    let repo = InMemoryUserRepository::restore(vec![stored(2, "a@x.io"), stored(5, "b@x.io")], 6).unwrap();
    assert_eq!(repo.count().unwrap(), 2);
    assert_eq!(repo.get_by_id(UserId(5)).unwrap().email.as_str(), "b@x.io");
    let mut repo = repo;
    assert_eq!(repo.create(&new_user("T", "c@x.io", UserRole::Guest)).unwrap(), UserId(6));
}

#[test]
fn restore_refuses_disordered_ids() {
    let r = InMemoryUserRepository::restore(vec![stored(5, "a@x.io"), stored(2, "b@x.io")], 6);
    assert!(matches!(r, Err(DomainError::InvalidOperation(_))));
}

#[test]
fn restore_refuses_repeated_email() {
    let r = InMemoryUserRepository::restore(vec![stored(1, "a@x.io"), stored(2, "a@x.io")], 3);
    assert!(matches!(r, Err(DomainError::InvalidOperation(_))));
}

#[test]
fn restore_refuses_id_at_or_past_next() {
    let r = InMemoryUserRepository::restore(vec![stored(3, "a@x.io")], 3);
    assert!(matches!(r, Err(DomainError::InvalidOperation(_))));
    let r = InMemoryUserRepository::restore(vec![], 0);
    assert!(matches!(r, Err(DomainError::InvalidOperation(_))));
}

#[test]
fn exhausted_ids_are_invalid_operation() {
    let mut repo = InMemoryUserRepository::restore(vec![], i64::MAX).unwrap();
    let r = repo.create(&new_user("Last", "last@x.io", UserRole::User));
    assert!(matches!(r, Err(DomainError::InvalidOperation(_))));
    assert_eq!(repo.count().unwrap(), 0);
}
