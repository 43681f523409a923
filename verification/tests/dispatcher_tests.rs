use smoked_tofu::command::CommandResult;
use smoked_tofu::dispatcher::{Action, Dispatcher, Event};
use smoked_tofu::github::{CheckStatus, Conclusion};
use smoked_tofu::webhook::{
    split_full_name, Author, Commit, GitHubWebhookPayload, Repository,
};

fn commit(id: &str, message: &str) -> Commit {
    Commit {
        id: id.to_string(),
        message: message.to_string(),
        author: Author { name: "a".to_string(), email: "a@x".to_string() },
    }
}

fn payload(full_name: &str, commits: Vec<Commit>) -> GitHubWebhookPayload {
    GitHubWebhookPayload {
        git_ref: Some("refs/heads/main".to_string()),
        commits: Some(commits),
        repository: Repository {
            name: full_name.rsplit('/').next().unwrap().to_string(),
            full_name: full_name.to_string(),
        },
    }
}

#[test]
fn full_name_splits_into_owner_and_repo() {
    let (owner, repo) = split_full_name(&"acme/widgets".to_string()).unwrap();
    assert_eq!(owner, "acme");
    assert_eq!(repo, "widgets");
}

#[test]
fn full_name_without_slash_is_rejected() {
    assert!(split_full_name(&"acme".to_string()).is_none());
}

#[test]
fn full_name_with_two_slashes_is_rejected() {
    assert!(split_full_name(&"a/b/c".to_string()).is_none());
}

#[test]
fn full_name_with_empty_part_is_rejected() {
    assert!(split_full_name(&"/widgets".to_string()).is_none());
    assert!(split_full_name(&"acme/".to_string()).is_none());
}

#[test]
fn malformed_full_name_skips_every_commit() {
    let mut d = Dispatcher::new(payload("acme", vec![commit("abc", "fix")]));
    // No create, no command, no update: straight to the response.
    match d.step(Event::Start) {
        Action::Respond { response } => {
            assert_eq!(response.message, "Webhook processed successfully");
        }
        _ => panic!("expected the fixed success response"),
    }
}

#[test]
fn empty_commit_list_responds_at_once() {
    let mut d = Dispatcher::new(payload("acme/widgets", vec![]));
    assert!(matches!(d.step(Event::Start), Action::Respond { .. }));
}

#[test]
fn absent_commit_list_responds_at_once() {
    let mut d = Dispatcher::new(GitHubWebhookPayload {
        git_ref: None,
        commits: None,
        repository: Repository {
            name: "widgets".to_string(),
            full_name: "acme/widgets".to_string(),
        },
    });
    assert!(matches!(d.step(Event::Start), Action::Respond { .. }));
}

#[test]
fn create_failure_skips_command_and_update() {
    let mut d = Dispatcher::new(payload("acme/widgets", vec![commit("abc", "fix")]));
    match d.step(Event::Start) {
        Action::CreateCheck { .. } => {}
        _ => panic!("expected a create"),
    }
    // The create failed: the one commit is abandoned and the response goes out
    // without the command ever running.
    match d.step(Event::CreateFailed) {
        Action::Respond { response } => {
            assert_eq!(response.message, "Webhook processed successfully");
        }
        _ => panic!("expected the fixed success response"),
    }
}

#[test]
fn create_failure_does_not_stop_the_next_commit() {
    let commits = vec![commit("first", "one"), commit("second", "two")];
    let mut d = Dispatcher::new(payload("acme/widgets", commits));
    match d.step(Event::Start) {
        Action::CreateCheck { check, .. } => assert_eq!(check.head_sha, "first"),
        _ => panic!("expected the first create"),
    }
    // The first commit's create fails; the second still gets its full cycle.
    match d.step(Event::CreateFailed) {
        Action::CreateCheck { owner, repo, check } => {
            assert_eq!(owner, "acme");
            assert_eq!(repo, "widgets");
            assert_eq!(check.head_sha, "second");
        }
        _ => panic!("expected the second create"),
    }
    assert!(matches!(d.step(Event::Created { check_run_id: 9 }), Action::RunCommand));
    let result = CommandResult::from_captured(true, &b"ok".to_vec(), &b"".to_vec(), Some(0));
    match d.step(Event::CommandFinished { result }) {
        Action::UpdateCheck { check_run_id, check, .. } => {
            assert_eq!(check_run_id, 9);
            assert_eq!(check.head_sha, "second");
            assert_eq!(check.status, CheckStatus::Completed);
            assert_eq!(check.conclusion, Some(Conclusion::Success));
        }
        _ => panic!("expected an update"),
    }
    match d.step(Event::Updated) {
        Action::Respond { response } => {
            assert_eq!(response.message, "Webhook processed successfully");
        }
        _ => panic!("expected the fixed success response"),
    }
}

#[test]
fn command_failure_leaves_check_in_progress() {
    let commits = vec![commit("first", "one"), commit("second", "two")];
    let mut d = Dispatcher::new(payload("acme/widgets", commits));
    d.step(Event::Start);
    d.step(Event::Created { check_run_id: 4 });
    // The command could not be spawned: no update for this commit; the next
    // commit begins.
    match d.step(Event::CommandFailed) {
        Action::CreateCheck { check, .. } => assert_eq!(check.head_sha, "second"),
        _ => panic!("expected the second create"),
    }
}

#[test]
fn update_failure_is_not_retried() {
    let mut d = Dispatcher::new(payload("acme/widgets", vec![commit("abc", "fix")]));
    d.step(Event::Start);
    d.step(Event::Created { check_run_id: 4 });
    let result = CommandResult::from_captured(false, &b"".to_vec(), &b"boom".to_vec(), Some(2));
    match d.step(Event::CommandFinished { result }) {
        Action::UpdateCheck { check, .. } => {
            assert_eq!(check.conclusion, Some(Conclusion::Failure));
        }
        _ => panic!("expected an update"),
    }
    assert!(matches!(d.step(Event::UpdateFailed), Action::Respond { .. }));
}

#[test]
fn end_to_end_single_commit_success() {
    let mut d = Dispatcher::new(payload("acme/widgets", vec![commit("abc123", "fix")]));
    match d.step(Event::Start) {
        Action::CreateCheck { owner, repo, check } => {
            assert_eq!(owner, "acme");
            assert_eq!(repo, "widgets");
            assert_eq!(check.head_sha, "abc123");
            assert_eq!(check.status, CheckStatus::InProgress);
            assert_eq!(check.conclusion, None);
        }
        _ => panic!("expected a create"),
    }
    assert!(matches!(d.step(Event::Created { check_run_id: 42 }), Action::RunCommand));
    let result = CommandResult::from_captured(true, &b"all good\n".to_vec(), &b"".to_vec(), Some(0));
    match d.step(Event::CommandFinished { result }) {
        Action::UpdateCheck { owner, repo, check_run_id, check } => {
            assert_eq!(owner, "acme");
            assert_eq!(repo, "widgets");
            assert_eq!(check_run_id, 42);
            assert_eq!(check.head_sha, "abc123");
            assert_eq!(check.status, CheckStatus::Completed);
            assert_eq!(check.conclusion, Some(Conclusion::Success));
        }
        _ => panic!("expected an update"),
    }
    match d.step(Event::Updated) {
        Action::Respond { response } => {
            assert_eq!(response.message, "Webhook processed successfully");
        }
        _ => panic!("expected the fixed success response"),
    }
}
