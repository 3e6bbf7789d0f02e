use gitlab_cli::commit::Commit;
use gitlab_cli::projects::Project;
use gitlab_cli::user::{AccessLevel, User};
use gitlab_cli::{AccessToken, Branch, BranchCreatePayload, BranchQuery, Feature, Gate};

#[test]
fn commit_named_by_short_id() {
    let c = Commit {
        id: "4c8dfe2bd8e1a5a8b0c9b9d0a1f7e3c2b1a0f9e8".to_string(),
        short_id: Some("4c8dfe2b".to_string()),
        ..Default::default()
    };
    assert_eq!(c.to_string(), "4c8dfe2b");
}

#[test]
fn commit_without_short_id_named_by_id() {
    let c = Commit { id: "abc123".to_string(), ..Default::default() };
    assert_eq!(c.to_string(), "abc123");
}

#[test]
fn user_named_by_username() {
    let u = User { username: "jdoe".to_string(), name: "Jo Doe".to_string(), ..Default::default() };
    assert_eq!(u.to_string(), "jdoe");
}

#[test]
fn project_named_by_full_path() {
    let p = Project {
        path_with_namespace: "group/sub/project".to_string(),
        name: "project".to_string(),
        ..Default::default()
    };
    assert_eq!(p.to_string(), "group/sub/project");
}

#[test]
fn access_level_codes() {
    let all = [
        (AccessLevel::NoAccess, 0),
        (AccessLevel::MinimalAccess, 5),
        (AccessLevel::Guest, 10),
        (AccessLevel::Reporter, 20),
        (AccessLevel::Developer, 30),
        (AccessLevel::Maintainer, 40),
        (AccessLevel::Owner, 50),
    ];
    for (l, c) in all {
        assert_eq!(l.code(), c);
        assert_eq!(AccessLevel::from_code(c), Some(l));
    }
    assert_eq!(AccessLevel::from_code(15), None);
    assert_eq!(AccessLevel::from_code(60), None);
}

#[test]
fn payloads_hold_only_given_fields() {
    let q = BranchQuery::default();
    assert!(q.search.is_none());
    let p = BranchCreatePayload { branch: "feature".to_string(), ref_: "main".to_string() };
    assert_eq!(p.branch, "feature");
    assert_eq!(p.ref_, "main");
}

#[test]
fn resources_nest_their_parts() {
    let b = Branch {
        name: "main".to_string(),
        default: true,
        commit: Commit { id: "abc".to_string(), ..Default::default() },
        ..Default::default()
    };
    assert_eq!(b.commit.to_string(), "abc");
    let t = AccessToken { access_level: AccessLevel::Maintainer, ..Default::default() };
    assert_eq!(t.access_level.code(), 40);
    let f = Feature {
        name: "flag".to_string(),
        gates: vec![Gate::Boolean { value: true }, Gate::PercentageOfActors { value: 25 }],
        ..Default::default()
    };
    assert_eq!(f.gates.len(), 2);
    assert_eq!(f.gates[1], Gate::PercentageOfActors { value: 25 });
}
