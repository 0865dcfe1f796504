use git_ez::identity::{
    add_user, clear_users, current_user_from_config, matching_user_from_config, remove_user, user_lines, Config,
    User,
};

fn user(name: &str, email: &str, addresses: &[&str]) -> User {
    User {
        name: name.to_string(),
        email: email.to_string(),
        ip_addresses: addresses.iter().map(|a| a.to_string()).collect(),
    }
}

fn summary(config: &Config) -> Vec<(String, String, Vec<String>)> {
    config.users.iter().map(|u| (u.name.clone(), u.email.clone(), u.ip_addresses.clone())).collect()
}

#[test]
fn new_config_is_empty() {
    assert!(Config::new().users.is_empty());
}

#[test]
fn resolution_picks_profile_listing_the_address() {
    let config = Config { users: vec![user("A", "a@x", &["1.2.3.4"]), user("B", "b@x", &["5.6.7.8"])] };
    assert_eq!(current_user_from_config(&config, "5.6.7.8"), Some(1));
    assert_eq!(current_user_from_config(&config, "1.2.3.4"), Some(0));
    assert_eq!(current_user_from_config(&config, "9.9.9.9"), None);
    assert_eq!(current_user_from_config(&config, ""), None);
}

#[test]
fn resolution_of_empty_address_ignores_empty_entries() {
    let config = Config { users: vec![user("A", "a@x", &[""])] };
    assert_eq!(current_user_from_config(&config, ""), None);
}

#[test]
fn resolution_prefers_registry_order() {
    let config = Config { users: vec![user("A", "a@x", &["1.1.1.1"]), user("B", "b@x", &["1.1.1.1"])] };
    assert_eq!(current_user_from_config(&config, "1.1.1.1"), Some(0));
}

#[test]
fn matching_needs_name_and_email() {
    let config = Config { users: vec![user("A", "a@x", &[]), user("A", "b@x", &[])] };
    assert_eq!(matching_user_from_config("A", "b@x", &config), Some(1));
    assert_eq!(matching_user_from_config("A", "c@x", &config), None);
    assert_eq!(matching_user_from_config("B", "a@x", &config), None);
}

#[test]
fn add_creates_profile_then_is_idempotent() {
    let mut config = Config::new();
    assert!(add_user(&mut config, "A", "a@x", "1.2.3.4"));
    assert_eq!(summary(&config), vec![("A".to_string(), "a@x".to_string(), vec!["1.2.3.4".to_string()])]);
    assert!(!add_user(&mut config, "A", "a@x", "1.2.3.4"));
    assert_eq!(config.users.len(), 1);
    assert_eq!(config.users[0].ip_addresses.len(), 1);
}

#[test]
fn add_appends_new_address_to_existing_profile() {
    let mut config = Config { users: vec![user("A", "a@x", &["1.2.3.4"]), user("B", "b@x", &["5.6.7.8"])] };
    assert!(add_user(&mut config, "B", "b@x", "9.9.9.9"));
    assert_eq!(config.users[1].ip_addresses, vec!["5.6.7.8".to_string(), "9.9.9.9".to_string()]);
    assert_eq!(config.users[0].ip_addresses, vec!["1.2.3.4".to_string()]);
}

#[test]
fn add_from_empty_address_does_nothing() {
    let mut config = Config::new();
    assert!(!add_user(&mut config, "A", "a@x", ""));
    assert!(config.users.is_empty());
}

#[test]
fn add_same_name_other_email_is_new_profile() {
    let mut config = Config { users: vec![user("A", "a@x", &["1.2.3.4"])] };
    assert!(add_user(&mut config, "A", "other@x", "1.2.3.4"));
    assert_eq!(config.users.len(), 2);
    assert_eq!(config.users[1].email, "other@x");
}

#[test]
fn remove_by_name_takes_every_profile_with_that_name() {
    let mut config = Config {
        users: vec![user("X", "1@x", &["1.1.1.1"]), user("Y", "2@x", &["2.2.2.2"]), user("X", "3@x", &[])],
    };
    remove_user(&mut config, Some("X"), None, "2.2.2.2");
    assert_eq!(summary(&config), vec![("Y".to_string(), "2@x".to_string(), vec!["2.2.2.2".to_string()])]);
}

#[test]
fn remove_by_email() {
    let mut config = Config { users: vec![user("X", "1@x", &[]), user("Y", "2@x", &[]), user("Z", "1@x", &[])] };
    remove_user(&mut config, None, Some("1@x"), "");
    assert_eq!(config.users.len(), 1);
    assert_eq!(config.users[0].name, "Y");
}

#[test]
fn remove_by_name_and_email() {
    let mut config = Config { users: vec![user("X", "1@x", &[]), user("X", "2@x", &[]), user("Y", "1@x", &[])] };
    remove_user(&mut config, Some("X"), Some("1@x"), "");
    let names: Vec<(String, String)> = config.users.iter().map(|u| (u.name.clone(), u.email.clone())).collect();
    assert_eq!(names, vec![("X".to_string(), "2@x".to_string()), ("Y".to_string(), "1@x".to_string())]);
}

#[test]
fn remove_without_filters_forgets_the_session_address() {
    let mut config = Config {
        users: vec![user("X", "1@x", &["1.1.1.1", "2.2.2.2"]), user("Y", "2@x", &["2.2.2.2"])],
    };
    remove_user(&mut config, None, None, "2.2.2.2");
    assert_eq!(
        summary(&config),
        vec![
            ("X".to_string(), "1@x".to_string(), vec!["1.1.1.1".to_string()]),
            ("Y".to_string(), "2@x".to_string(), vec![]),
        ]
    );
}

#[test]
fn clear_empties_registry() {
    let mut config = Config { users: vec![user("X", "1@x", &["1.1.1.1"])] };
    clear_users(&mut config);
    assert!(config.users.is_empty());
}

#[test]
fn listing_lines_show_name_and_email() {
    let config = Config { users: vec![user("Ann", "ann@x.org", &[]), user("Bo", "bo@y", &["1.1.1.1"])] };
    assert_eq!(user_lines(&config), vec!["Ann <ann@x.org>".to_string(), "Bo <bo@y>".to_string()]);
    assert!(user_lines(&Config::new()).is_empty());
}
