use app_core::mvvm::{ViewModel, ViewModelError, ViewModelState};
use app_core::plugins::UserPlugin;
use app_core::user::UserId;
use app_core::user_feature::{
    create_user_viewmodel, user_object_text, NewUser, User, UserRole, UserStatus, UserViewModel,
};
use app_core::user::Email;

#[test]
fn create_user_maps_lowercase_roles() {
    let mut vm = UserViewModel::new();
    let a = vm.create_user("Ann", "ann@x.io", "admin").unwrap();
    let e = vm.create_user("Ed", "ed@x.io", "editor").unwrap();
    let u = vm.create_user("Uma", "uma@x.io", "user").unwrap();
    let g = vm.create_user("Gil", "gil@x.io", "Admin").unwrap();
    assert_eq!((a.role, e.role, u.role, g.role), (UserRole::Admin, UserRole::Editor, UserRole::User, UserRole::Guest));
    assert_eq!((a.id, e.id, u.id, g.id), (UserId(1), UserId(2), UserId(3), UserId(4)));
    assert_eq!(a.status, UserStatus::Pending);
    assert_eq!(vm.get_users().len(), 4);
}

#[test]
fn create_user_with_bad_email_fails() {
    let mut vm = UserViewModel::new();
    let r = vm.create_user("Ann", "ann-at-x", "admin");
    assert_eq!(r.err(), Some(ViewModelError::ExecutionFailed("Invalid email format: ann-at-x".to_string())));
    assert!(vm.get_users().is_empty());
}

#[test]
fn create_command_replies_with_the_user() {
    let mut vm = create_user_viewmodel();
    let reply = vm
        .handle_command("create_user", r#"{"name":"Zoe \"Z\"","email":"zoe@x.io","role":"editor"}"#)
        .unwrap();
    assert_eq!(
        reply,
        r#"{"success":true,"user":{"email":"zoe@x.io","id":1,"name":"Zoe \"Z\"","role":"Editor","status":"Pending"}}"#
    );
    let parsed: serde_json::Value = serde_json::from_str(&reply).unwrap();
    assert_eq!(parsed["user"]["name"], "Zoe \"Z\"");
}

#[test]
fn create_command_uses_defaults() {
    let mut vm = UserViewModel::new();
    let reply = vm.handle_command("create_user", "{}").unwrap();
    assert_eq!(
        reply,
        r#"{"success":true,"user":{"email":"unknown@example.com","id":1,"name":"Unknown","role":"User","status":"Pending"}}"#
    );
}

#[test]
fn malformed_payload_is_invalid_command() {
    let mut vm = UserViewModel::new();
    match vm.handle_command("create_user", "{not json") {
        Err(ViewModelError::InvalidCommand(m)) => assert!(!m.is_empty()),
        other => panic!("unexpected {:?}", other),
    }
    assert!(matches!(vm.handle_command("delete_user", "["), Err(ViewModelError::InvalidCommand(_))));
}

#[test]
fn unknown_command_and_query_are_refused() {
    let mut vm = UserViewModel::new();
    assert_eq!(
        vm.handle_command("rename", "{}").err(),
        Some(ViewModelError::InvalidCommand("Unknown command: rename".to_string()))
    );
    assert_eq!(
        vm.handle_query("everything", &[]).err(),
        Some(ViewModelError::InvalidQuery("Unknown query: everything".to_string()))
    );
}

#[test]
fn delete_command_removes_every_match() {
    let mut vm = UserViewModel::new();
    vm.create_user("A", "a@x.io", "user").unwrap();
    vm.create_user("B", "b@x.io", "user").unwrap();
    assert_eq!(vm.handle_command("delete_user", r#"{"id":1}"#).unwrap(), r#"{"success":true}"#);
    let left = vm.get_users();
    assert_eq!(left.len(), 1);
    assert_eq!(left[0].name, "B");
    assert_eq!(vm.handle_command("delete_user", r#"{"id":9}"#).unwrap(), r#"{"success":true}"#);
    assert_eq!(vm.get_users().len(), 1);
}

#[test]
fn activate_command_marks_active() {
    let mut vm = UserViewModel::new();
    vm.create_user("A", "a@x.io", "user").unwrap();
    assert_eq!(vm.handle_command("activate_user", r#"{"id":1}"#).unwrap(), r#"{"success":true}"#);
    assert_eq!(vm.find_by_id(&UserId(1)).unwrap().status, UserStatus::Active);
    assert_eq!(
        vm.handle_command("activate_user", r#"{"id":5}"#).err(),
        Some(ViewModelError::NotFound("User 5".to_string()))
    );
}

#[test]
fn get_user_by_id_reads_the_first_parameter() {
    let mut vm = UserViewModel::new();
    vm.create_user("A", "a@x.io", "guest").unwrap();
    let reply = vm.handle_query("get_user_by_id", &["1".to_string()]).unwrap();
    assert_eq!(
        reply,
        r#"{"success":true,"user":{"email":"a@x.io","id":1,"name":"A","role":"Guest","status":"Pending"}}"#
    );
    assert_eq!(
        vm.handle_query("get_user_by_id", &["x".to_string()]).err(),
        Some(ViewModelError::NotFound("User 0".to_string()))
    );
    assert_eq!(vm.handle_query("get_user_by_id", &[]).err(), Some(ViewModelError::NotFound("User 0".to_string())));
}

#[test]
fn get_users_lists_with_count() {
    let mut vm = UserViewModel::new();
    assert_eq!(vm.handle_query("get_users", &[]).unwrap(), r#"{"count":0,"success":true,"users":[]}"#);
    vm.create_user("A", "a@x.io", "user").unwrap();
    vm.create_user("B", "b@x.io", "admin").unwrap();
    let reply = vm.handle_query("get_users", &[]).unwrap();
    let parsed: serde_json::Value = serde_json::from_str(&reply).unwrap();
    assert_eq!(parsed["count"], 2);
    assert_eq!(parsed["success"], true);
    assert_eq!(parsed["users"][1]["role"], "Admin");
    assert!(parsed["users"][0]["created_at"].as_str().unwrap().ends_with("+00:00"));
    assert!(reply.starts_with(r#"{"count":2,"success":true,"users":[{"created_at":""#));
}

#[test]
fn state_and_name() {
    let mut vm = UserViewModel::new();
    assert_eq!(vm.name(), "UserViewModel");
    assert_eq!(vm.state(), ViewModelState::Initial);
    vm.set_state(ViewModelState::Error("x".to_string()));
    assert_eq!(vm.state(), ViewModelState::Error("x".to_string()));
}

#[test]
fn user_text_is_escaped_as_serde_json_writes_it() {
    let data = NewUser { name: "a\"b\\c\nd\u{1}é".to_string(), email: Email::new("q@x.io").unwrap(), role: UserRole::User };
    let u = User::new(UserId(1), data);
    let text = user_object_text(&u);
    let name = serde_json::to_string("a\"b\\c\nd\u{1}é").unwrap();
    assert!(text.contains(&format!("\"name\":{}", name)));
    let parsed: serde_json::Value = serde_json::from_str(&text).unwrap();
    assert_eq!(parsed["name"], "a\"b\\c\nd\u{1}é");
}

#[test]
fn new_ids_stay_fresh_after_deletes() {
    let mut vm = UserViewModel::new();
    vm.create_user("A", "a@x.io", "user").unwrap();
    vm.create_user("B", "b@x.io", "user").unwrap();
    vm.handle_command("delete_user", r#"{"id":1}"#).unwrap();
    let c = vm.create_user("C", "c@x.io", "user").unwrap();
    assert_eq!(c.id, UserId(3));
    vm.handle_command("delete_user", r#"{"id":3}"#).unwrap();
    assert_eq!(vm.create_user("D", "d@x.io", "user").unwrap().id, UserId(3));
}

#[test]
fn feature_user_lifecycle() {
    let data = NewUser { name: "Kim".to_string(), email: Email::new("kim@x.io").unwrap(), role: UserRole::Editor };
    let mut u = User::new(UserId(3), data);
    assert_eq!(u.status, UserStatus::Pending);
    assert_eq!(u.created_at, u.updated_at);
    u.activate();
    assert_eq!(u.status, UserStatus::Active);
    u.deactivate();
    assert_eq!(u.status, UserStatus::Inactive);
    assert_eq!(
        user_object_text(&u),
        r#"{"email":"kim@x.io","id":3,"name":"Kim","role":"Editor","status":"Inactive"}"#
    );
}

#[test]
fn user_plugin_owns_a_view_model() {
    let mut p = UserPlugin::new();
    assert!(p.viewmodel().get_users().is_empty());
    p.viewmodel_mut().create_user("A", "a@x.io", "user").unwrap();
    assert_eq!(p.viewmodel().get_users().len(), 1);
}
