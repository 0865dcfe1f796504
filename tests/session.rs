use git_ez::categories::cats;
use git_ez::composer::{Composer, Prompt};
use git_ez::identity::User;
use git_ez::session::{commit_args, CommitSession, Stage};

fn strings(v: &[&str]) -> Vec<String> {
    v.iter().map(|s| s.to_string()).collect()
}

fn run(session: &mut CommitSession, outcomes: &[bool]) -> Vec<Vec<String>> {
    let mut issued = Vec::new();
    let mut k = 0;
    while let Some(args) = session.invocation() {
        issued.push(args);
        session.advance(outcomes[k]);
        k += 1;
    }
    issued
}

#[test]
fn commit_args_put_options_before_message() {
    assert_eq!(
        commit_args(&strings(&["--amend", "-q"]), &"\nmsg".to_string()),
        strings(&["-c", "color.status=always", "commit", "--amend", "-q", "-m", "\nmsg"])
    );
    assert_eq!(
        commit_args(&Vec::new(), &"m".to_string()),
        strings(&["-c", "color.status=always", "commit", "-m", "m"])
    );
}

#[test]
fn failed_commit_still_unsets_identity_once() {
    let u = User { name: "Ann".to_string(), email: "ann@x".to_string(), ip_addresses: strings(&["1.1.1.1"]) };
    let mut session = CommitSession::new(Some(&u), &Vec::new(), &"m".to_string());
    let issued = run(&mut session, &[true, true, false, true]);
    assert_eq!(
        issued,
        vec![
            strings(&["config", "user.name", "Ann"]),
            strings(&["config", "user.email", "ann@x"]),
            strings(&["-c", "color.status=always", "commit", "-m", "m"]),
            strings(&["config", "--remove-section", "user"]),
        ]
    );
    assert!(session.stage == Stage::Done);
}

#[test]
fn without_identity_only_commit_runs() {
    let mut session = CommitSession::new(None, &strings(&["-a"]), &"m".to_string());
    let issued = run(&mut session, &[false]);
    assert_eq!(issued, vec![strings(&["-c", "color.status=always", "commit", "-a", "-m", "m"])]);
}

#[test]
fn composer_retries_until_token_known() {
    let table = cats();
    let mut c = Composer::new();
    assert!(c.answer(&table, "nonsense\n"));
    assert!(c.prompt == Prompt::AwaitType);
    assert!(!c.answer(&table, " bug \n"));
    assert!(c.prompt == Prompt::AwaitScope);
    assert!(!c.answer(&table, "auth\n"));
    assert!(!c.answer(&table, "  fix crash  \n"));
    assert!(!c.answer(&table, "details here\n"));
    assert!(c.prompt == Prompt::Done);
    assert_eq!(c.message(), "\n🐛 bug(auth): fix crash\n\ndetails here");
}

#[test]
fn composer_blank_scope_and_description_are_absent() {
    let table = cats();
    let mut c = Composer::new();
    c.answer(&table, "feature");
    c.answer(&table, "   \n");
    c.answer(&table, "add thing");
    c.answer(&table, "\n");
    assert_eq!(c.message(), "\n⭐ feature: add thing");
}
