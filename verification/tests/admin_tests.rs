use fundverse::admin::{AdminError, AdminState, IdeaStatus, Role};
use fundverse::pk::Pk;

fn installer() -> Pk {
    Pk(vec![0])
}

fn state() -> AdminState {
    AdminState::init(&installer(), 100)
}

#[test]
fn installer_becomes_first_admin() {
    let s = state();
    assert!(s.is_admin(&installer()));
    assert_eq!(s.get_my_role(&installer()), Role::Admin);
    let users = s.get_users();
    assert_eq!(users.len(), 1);
    assert_eq!(users[0].name, "Deployer");
    assert_eq!(users[0].role, Role::Admin);
}

#[test]
fn register_keeps_role_and_timestamp_on_update() {
    let mut s = state();
    let p = Pk(vec![1]);
    let first = s.register_user(&p, "Bo".to_string(), "bo@example.com".to_string(), 200);
    assert_eq!(first.role, Role::User);
    assert_eq!(first.registered_at_ns, 200);
    let second = s.register_user(&p, "Bo B".to_string(), "bob@example.com".to_string(), 300);
    assert_eq!(second.name, "Bo B");
    assert_eq!(second.role, Role::User);
    assert_eq!(second.registered_at_ns, 200);
    assert_eq!(s.get_users().len(), 2);
}

#[test]
fn admin_registration_gets_admin_role() {
    let mut s = state();
    let r = s.register_user(&installer(), "Root".to_string(), "root@example.com".to_string(), 400);
    assert_eq!(r.role, Role::Admin);
    assert_eq!(r.registered_at_ns, 100);
}

#[test]
fn add_admin_requires_admin_and_grants_role() {
    let mut s = state();
    let p = Pk(vec![1]);
    let outsider = Pk(vec![2]);
    assert!(matches!(s.add_admin(&outsider, &p, 200), Err(AdminError::NotAuthorized)));
    s.add_admin(&installer(), &p, 200).unwrap();
    assert!(s.is_admin(&p));
    assert_eq!(s.get_my_role(&p), Role::Admin);
    // Adding again is idempotent.
    s.add_admin(&installer(), &p, 201).unwrap();
    assert_eq!(s.admins.len(), 2);
}

#[test]
fn remove_admin_revokes_role() {
    let mut s = state();
    let p = Pk(vec![1]);
    s.add_admin(&installer(), &p, 200).unwrap();
    s.remove_admin(&installer(), &p).unwrap();
    assert!(!s.is_admin(&p));
    assert_eq!(s.get_my_role(&p), Role::User);
    // Removing a non-admin is a no-op.
    s.remove_admin(&installer(), &Pk(vec![5])).unwrap();
    assert!(s.is_admin(&installer()));
}

#[test]
fn set_role_updates_user_and_admin_set() {
    let mut s = state();
    let p = Pk(vec![1]);
    s.register_user(&p, "Bo".to_string(), "bo@example.com".to_string(), 200);
    assert!(matches!(
        s.set_role(&installer(), &Pk(vec![9]), Role::Admin),
        Err(AdminError::UserNotFound)
    ));
    s.set_role(&installer(), &p, Role::Admin).unwrap();
    assert!(s.is_admin(&p));
    s.set_role(&installer(), &p, Role::User).unwrap();
    assert!(!s.is_admin(&p));
    assert_eq!(s.get_my_role(&p), Role::User);
}

#[test]
fn submit_idea_validates_inputs() {
    let mut s = state();
    let p = Pk(vec![1]);
    assert!(matches!(
        s.submit_idea(&p, "".to_string(), "long enough text".to_string(), 500),
        Err(AdminError::InvalidInput(_))
    ));
    assert!(matches!(
        s.submit_idea(&p, "Title".to_string(), "short".to_string(), 500),
        Err(AdminError::InvalidInput(_))
    ));
    let idea = s
        .submit_idea(&p, "Title".to_string(), "a description".to_string(), 500)
        .unwrap();
    assert_eq!(idea.id, 0);
    assert_eq!(idea.status, IdeaStatus::Pending);
    assert_eq!(idea.submitted_at_ns, 500);
    let second = s
        .submit_idea(&p, "Other".to_string(), "another description".to_string(), 600)
        .unwrap();
    assert_eq!(second.id, 1);
    assert_eq!(s.get_ideas().len(), 2);
}

#[test]
fn approve_and_reject_require_admin() {
    let mut s = state();
    let p = Pk(vec![1]);
    let idea = s
        .submit_idea(&p, "Title".to_string(), "a description".to_string(), 500)
        .unwrap();
    assert!(matches!(s.approve_idea(&p, idea.id), Err(AdminError::NotAuthorized)));
    assert!(matches!(s.approve_idea(&installer(), 9), Err(AdminError::IdeaNotFound)));
    let r = s.approve_idea(&installer(), idea.id).unwrap();
    assert_eq!(r.status, IdeaStatus::Approved);
    assert_eq!(s.get_idea(idea.id).unwrap().status, IdeaStatus::Approved);
    let second = s
        .submit_idea(&p, "Other".to_string(), "another description".to_string(), 600)
        .unwrap();
    let r2 = s.reject_idea(&installer(), second.id).unwrap();
    assert_eq!(r2.status, IdeaStatus::Rejected);
    assert_eq!(s.get_idea(second.id).unwrap().status, IdeaStatus::Rejected);
    assert!(s.get_idea(7).is_none());
}

#[test]
fn get_my_role_falls_back_to_user() {
    let s = state();
    assert_eq!(s.get_my_role(&Pk(vec![42])), Role::User);
}
