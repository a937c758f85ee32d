use times_hub_api::entity::{Workspace, WorkspaceId, WorkspaceType};
use times_hub_api::workspace::repository::{
    RepositoryError, WorkspaceRepository, WorkspaceRepositoryForMemory, ID_SPACE_EXHAUSTED,
};
use times_hub_api::workspace::service::CreateWorkspacePayload;

fn workspace(id: i32, name: &str, ws_type: WorkspaceType, url: &str) -> Workspace {
    Workspace::new(WorkspaceId::new(id), name.to_string(), ws_type, url.to_string())
}

fn payload(name: &str, ws_type: &str, url: &str) -> CreateWorkspacePayload {
    CreateWorkspacePayload {
        name: name.to_string(),
        ws_type: ws_type.to_string(),
        webhook_url: url.to_string(),
    }
}

fn sorted(mut list: Vec<Workspace>) -> Vec<Workspace> {
    list.sort_by_key(|ws| ws.id);
    list
}

#[test]
fn workspace_crud_scenario() {
    let init_ws_vec = vec![
        Workspace::new(
            WorkspaceId::new(1),
            "test workspace 1".to_string(),
            WorkspaceType::Slack,
            "https://example.com".to_string(),
        ),
        Workspace::new(
            WorkspaceId::new(2),
            "test workspace 2".to_string(),
            WorkspaceType::Slack,
            "https://example.com".to_string(),
        ),
    ];

    let mut repo = WorkspaceRepositoryForMemory::new();
    for data in &init_ws_vec {
        repo.insert(data.clone());
    }

    // create
    let manipulate_target_data = Workspace {
        id: WorkspaceId::new(3),
        name: "test workspace 3".to_string(),
        ws_type: WorkspaceType::Slack,
        webhook_url: "https://example.com".to_string(),
    };
    let payload = CreateWorkspacePayload {
        name: manipulate_target_data.name.clone(),
        ws_type: manipulate_target_data.ws_type.to_string(),
        webhook_url: manipulate_target_data.webhook_url.clone(),
    };
    let ws = repo.create(payload).expect("failed to create workspace");
    assert_eq!(ws, manipulate_target_data);

    // find
    let ws = repo.find(manipulate_target_data.id).expect("failed to find workspace");
    assert_eq!(ws, manipulate_target_data);

    // all
    let ws_vec = repo.all().expect("failed to get all workspace");
    let mut expected_ws_vec = init_ws_vec.clone();
    expected_ws_vec.push(manipulate_target_data.clone());
    assert_eq!(sorted(ws_vec), sorted(expected_ws_vec));

    // update
    let mut updated_ws = manipulate_target_data.clone();
    updated_ws.name = "updated name".to_string();

    let ws = repo.update(updated_ws.clone()).expect("failed to update workspace");
    assert_eq!(ws, updated_ws);
    assert_eq!(repo.find(updated_ws.id), Ok(updated_ws.clone()));

    // delete
    repo.delete(manipulate_target_data.id).expect("failed to delete workspace");
    let ws_vec = repo.all().expect("failed to get all workspace");
    assert_eq!(sorted(ws_vec), sorted(init_ws_vec.clone()));
}

#[test]
fn create_on_an_empty_store_counts_from_one() {
    let mut repo = WorkspaceRepositoryForMemory::new();
    let first = repo.create(payload("C", "slack", "https://x")).unwrap();
    assert_eq!(first, workspace(1, "C", WorkspaceType::Slack, "https://x"));
    let second = repo.create(payload("D", "discord", "https://y")).unwrap();
    assert_eq!(second, workspace(2, "D", WorkspaceType::Discord, "https://y"));

    assert_eq!(sorted(repo.all().unwrap()), vec![first.clone(), second.clone()]);

    assert_eq!(repo.delete(WorkspaceId::new(1)), Ok(()));
    assert_eq!(repo.all().unwrap(), vec![second]);
}

#[test]
fn find_right_after_create_returns_what_create_returned() {
    let mut repo = WorkspaceRepositoryForMemory::new();
    for n in 0..20 {
        let name = format!("workspace {}", n);
        let created = repo.create(payload(&name, "discord", "https://hook")).unwrap();
        assert_eq!(created.id, WorkspaceId::new(n + 1));
        assert_eq!(repo.find(created.id), Ok(created));
    }
    assert_eq!(repo.all().unwrap().len(), 20);
}

#[test]
fn an_empty_store_lists_nothing_and_finds_nothing() {
    let repo = WorkspaceRepositoryForMemory::new();
    assert_eq!(repo.all(), Ok(vec![]));
    assert_eq!(
        repo.find(WorkspaceId::new(1)),
        Err(RepositoryError::NotFound(WorkspaceId::new(1)))
    );
}

#[test]
fn create_refuses_a_token_that_names_no_type() {
    let mut repo = WorkspaceRepositoryForMemory::new();
    assert_eq!(
        repo.create(payload("C", "teams", "https://x")),
        Err(RepositoryError::BadType("teams".to_string()))
    );
    assert_eq!(
        repo.create(payload("C", "", "https://x")),
        Err(RepositoryError::BadType(String::new()))
    );
    assert_eq!(repo.all(), Ok(vec![]));
    // the refused requests used up no id
    assert_eq!(repo.create(payload("C", "slack", "https://x")).unwrap().id, WorkspaceId::new(1));
}

#[test]
fn update_of_a_missing_id_fails_and_changes_nothing() {
    let mut repo = WorkspaceRepositoryForMemory::new();
    let kept = repo.create(payload("A", "slack", "https://a")).unwrap();
    let stranger = workspace(9, "Z", WorkspaceType::Discord, "https://z");
    assert_eq!(
        repo.update(stranger),
        Err(RepositoryError::NotFound(WorkspaceId::new(9)))
    );
    assert_eq!(repo.all(), Ok(vec![kept]));
}

#[test]
fn update_replaces_the_whole_record() {
    let mut repo = WorkspaceRepositoryForMemory::new();
    repo.create(payload("A", "slack", "https://a")).unwrap();
    let other = repo.create(payload("B", "slack", "https://b")).unwrap();
    let replaced = workspace(1, "A2", WorkspaceType::Discord, "https://a2");
    assert_eq!(repo.update(replaced.clone()), Ok(replaced.clone()));
    assert_eq!(repo.find(WorkspaceId::new(1)), Ok(replaced.clone()));
    assert_eq!(repo.find(WorkspaceId::new(2)), Ok(other.clone()));
    assert_eq!(sorted(repo.all().unwrap()), vec![replaced, other]);
}

#[test]
fn delete_of_a_missing_id_is_an_error() {
    let mut repo = WorkspaceRepositoryForMemory::new();
    assert_eq!(
        repo.delete(WorkspaceId::new(1)),
        Err(RepositoryError::NotFound(WorkspaceId::new(1)))
    );
    repo.create(payload("A", "slack", "https://a")).unwrap();
    assert_eq!(repo.delete(WorkspaceId::new(1)), Ok(()));
    assert_eq!(
        repo.delete(WorkspaceId::new(1)),
        Err(RepositoryError::NotFound(WorkspaceId::new(1)))
    );
    assert_eq!(
        repo.find(WorkspaceId::new(1)),
        Err(RepositoryError::NotFound(WorkspaceId::new(1)))
    );
    assert_eq!(repo.all(), Ok(vec![]));
}

#[test]
fn an_id_is_not_given_out_again_after_a_delete() {
    let mut repo = WorkspaceRepositoryForMemory::new();
    repo.create(payload("A", "slack", "https://a")).unwrap();
    let second = repo.create(payload("B", "slack", "https://b")).unwrap();
    repo.delete(WorkspaceId::new(1)).unwrap();
    let third = repo.create(payload("C", "slack", "https://c")).unwrap();
    assert_eq!(third.id, WorkspaceId::new(3));
    assert_eq!(repo.find(WorkspaceId::new(2)), Ok(second.clone()));
    assert_eq!(sorted(repo.all().unwrap()), vec![second, third]);

    repo.delete(WorkspaceId::new(3)).unwrap();
    assert_eq!(repo.create(payload("D", "slack", "https://d")).unwrap().id, WorkspaceId::new(4));
}

#[test]
fn insert_places_a_record_under_its_own_id() {
    let mut repo = WorkspaceRepositoryForMemory::new();
    repo.insert(workspace(5, "E", WorkspaceType::Slack, "https://e"));
    repo.insert(workspace(-2, "N", WorkspaceType::Discord, "https://n"));
    repo.insert(workspace(5, "E2", WorkspaceType::Slack, "https://e2"));
    assert_eq!(
        repo.find(WorkspaceId::new(5)),
        Ok(workspace(5, "E2", WorkspaceType::Slack, "https://e2"))
    );
    assert_eq!(repo.all().unwrap().len(), 2);
    assert_eq!(repo.create(payload("F", "slack", "https://f")).unwrap().id, WorkspaceId::new(6));
}

#[test]
fn create_fails_when_no_id_is_left() {
    let mut repo = WorkspaceRepositoryForMemory::new();
    repo.insert(workspace(i32::MAX, "last", WorkspaceType::Slack, "https://l"));
    assert_eq!(
        repo.create(payload("C", "slack", "https://x")),
        Err(RepositoryError::Unexpected(ID_SPACE_EXHAUSTED.to_string()))
    );
    assert_eq!(repo.all().unwrap().len(), 1);
    // the type is looked at first
    assert_eq!(
        repo.create(payload("C", "irc", "https://x")),
        Err(RepositoryError::BadType("irc".to_string()))
    );
}

#[test]
fn repository_errors_in_words() {
    assert_eq!(
        RepositoryError::Unexpected("disk on fire".to_string()).to_string(),
        "Unexpected Error: disk on fire"
    );
    assert_eq!(
        RepositoryError::NotFound(WorkspaceId::new(42)).to_string(),
        "NotFound! ID is 42"
    );
    assert_eq!(
        RepositoryError::NotFound(WorkspaceId::new(-7)).to_string(),
        "NotFound! ID is -7"
    );
    assert_eq!(
        RepositoryError::BadType("teams".to_string()).to_string(),
        "Unknown workspace type: teams"
    );
}
