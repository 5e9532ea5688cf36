use dive_core::ipc::LocalElicitationResult;
use dive_core::permission::{
    get_parent_dir, is_path_allowed, lookup_content, permission_decision, permission_message,
    remember_dir, PermissionDecision,
};
use dive_core::ElicitationAction;

fn accept_with(choice: &str) -> LocalElicitationResult {
    LocalElicitationResult {
        action: ElicitationAction::Accept,
        content: Some(vec![("choice".to_string(), choice.to_string())]),
    }
}

#[test]
fn allowed_directories_cover_their_subpaths() {
    let allowed = vec!["/home/u/projects".to_string(), "/tmp".to_string()];
    assert!(is_path_allowed("/tmp/file.txt", &allowed));
    assert!(is_path_allowed("/home/u/projects/app/src", &allowed));
    assert!(!is_path_allowed("/etc/passwd", &allowed));
    assert!(!is_path_allowed("/home/u/other", &allowed));
    assert!(!is_path_allowed("/tmp", &vec![]));
}

#[test]
fn parent_directories_follow_the_separator() {
    assert_eq!(get_parent_dir("/a/b/c.txt"), Some("/a/b".to_string()));
    assert_eq!(get_parent_dir("/a"), Some("/".to_string()));
    assert_eq!(get_parent_dir("a/b"), Some("a".to_string()));
    assert_eq!(get_parent_dir("plain"), None);
}

#[test]
fn the_permission_question_names_operation_and_path() {
    assert_eq!(
        permission_message("read", "/tmp/notes.txt"),
        "Permission required for read operation on:\n/tmp/notes.txt\n\nAllow access?"
    );
}

#[test]
fn content_lookup_finds_the_first_pair() {
    let content = vec![
        ("choice".to_string(), "yes".to_string()),
        ("choice".to_string(), "no".to_string()),
        ("extra".to_string(), "1".to_string()),
    ];
    assert_eq!(lookup_content(&content, "choice"), Some("yes".to_string()));
    assert_eq!(lookup_content(&content, "extra"), Some("1".to_string()));
    assert_eq!(lookup_content(&content, "missing"), None);
}

#[test]
fn always_grants_and_remembers_the_parent() {
    let d = permission_decision(&accept_with("always"), "/tmp/notes.txt");
    assert_eq!(d, PermissionDecision::AllowAndRemember("/tmp".to_string()));
}

#[test]
fn always_on_a_bare_name_remembers_the_path_itself() {
    let d = permission_decision(&accept_with("always"), "notes.txt");
    assert_eq!(d, PermissionDecision::AllowAndRemember("notes.txt".to_string()));
}

#[test]
fn yes_grants_once() {
    assert_eq!(permission_decision(&accept_with("yes"), "/tmp/x"), PermissionDecision::Allow);
}

#[test]
fn anything_else_denies() {
    assert_eq!(permission_decision(&accept_with("no"), "/tmp/x"), PermissionDecision::Deny);
    assert_eq!(permission_decision(&accept_with("bogus"), "/tmp/x"), PermissionDecision::Deny);

    let no_content =
        LocalElicitationResult { action: ElicitationAction::Accept, content: None };
    assert_eq!(permission_decision(&no_content, "/tmp/x"), PermissionDecision::Deny);

    let no_choice = LocalElicitationResult {
        action: ElicitationAction::Accept,
        content: Some(vec![("other".to_string(), "always".to_string())]),
    };
    assert_eq!(permission_decision(&no_choice, "/tmp/x"), PermissionDecision::Deny);

    let declined = LocalElicitationResult {
        action: ElicitationAction::Decline,
        content: Some(vec![("choice".to_string(), "always".to_string())]),
    };
    assert_eq!(permission_decision(&declined, "/tmp/x"), PermissionDecision::Deny);

    let cancelled = LocalElicitationResult { action: ElicitationAction::Cancel, content: None };
    assert_eq!(permission_decision(&cancelled, "/tmp/x"), PermissionDecision::Deny);
}

#[test]
fn remembered_directories_are_not_duplicated() {
    let mut allowed = vec!["/tmp".to_string()];
    remember_dir(&mut allowed, "/tmp".to_string());
    assert_eq!(allowed, vec!["/tmp".to_string()]);
    remember_dir(&mut allowed, "/home/u".to_string());
    assert_eq!(allowed, vec!["/tmp".to_string(), "/home/u".to_string()]);
}
