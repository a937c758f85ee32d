use times_hub_api::entity::{Workspace, WorkspaceId, WorkspaceType};
use times_hub_api::status::StatusCode;
use times_hub_api::validation::{rejection_text, Validate, ValidationError};
use times_hub_api::workspace::handler::{
    all_workspaces, create_workspace, delete_workspace, find_workspace,
    repository_error_to_status_code, requested_workspace, respond_created, respond_deleted,
    respond_found, respond_listed, respond_updated, update_workspace, UpdateWorkspacePayload,
    ValidatedJson,
};
use times_hub_api::workspace::repository::pg::{
    created, deleted, found, listed, requested_type, updated, QueryFailure, WorkspaceDBRow,
    ROW_NOT_FOUND,
};
use times_hub_api::workspace::repository::{
    RepositoryError, WorkspaceRepository, WorkspaceRepositoryForMemory,
};
use times_hub_api::workspace::service;
use times_hub_api::workspace::service::{
    project_all, shown as show, shown_all, CreateWorkspacePayload, ResponseWorkspace,
};

fn workspace(id: i32, name: &str, ws_type: WorkspaceType, url: &str) -> Workspace {
    Workspace::new(WorkspaceId::new(id), name.to_string(), ws_type, url.to_string())
}

fn shown(id: i32, name: &str, ws_type: &str) -> ResponseWorkspace {
    ResponseWorkspace {
        id: WorkspaceId::new(id),
        name: name.to_string(),
        ws_type: ws_type.to_string(),
    }
}

fn to_create(name: &str, ws_type: &str, url: &str) -> CreateWorkspacePayload {
    CreateWorkspacePayload {
        name: name.to_string(),
        ws_type: ws_type.to_string(),
        webhook_url: url.to_string(),
    }
}

fn to_update(name: &str, ws_type: &str, url: &str) -> UpdateWorkspacePayload {
    UpdateWorkspacePayload {
        name: name.to_string(),
        ws_type: ws_type.to_string(),
        webhook_url: url.to_string(),
    }
}

fn row(id: i32, name: &str, ws_type: &str, url: &str) -> WorkspaceDBRow {
    WorkspaceDBRow {
        id: WorkspaceId::new(id),
        name: name.to_string(),
        ws_type: ws_type.to_string(),
        webhook_url: url.to_string(),
    }
}

#[test]
fn status_codes_on_the_wire() {
    assert_eq!(StatusCode::Success.as_u16(), 200);
    assert_eq!(StatusCode::Created.as_u16(), 201);
    assert_eq!(StatusCode::NoContent.as_u16(), 204);
    assert_eq!(StatusCode::BadRequest.as_u16(), 400);
    assert_eq!(StatusCode::NotFound.as_u16(), 404);
    assert_eq!(StatusCode::InternalServerError.as_u16(), 500);
    assert!(StatusCode::Success.is_success());
    assert!(StatusCode::Created.is_success());
    assert!(StatusCode::NoContent.is_success());
    assert!(!StatusCode::BadRequest.is_success());
    assert!(!StatusCode::NotFound.is_success());
    assert!(!StatusCode::InternalServerError.is_success());
}

#[test]
fn a_missing_workspace_is_told_apart_from_every_other_failure() {
    assert_eq!(
        repository_error_to_status_code(RepositoryError::NotFound(WorkspaceId::new(1))),
        StatusCode::NotFound
    );
    assert_eq!(
        repository_error_to_status_code(RepositoryError::BadType("x".to_string())),
        StatusCode::BadRequest
    );
    assert_eq!(
        repository_error_to_status_code(RepositoryError::Unexpected("x".to_string())),
        StatusCode::InternalServerError
    );
}

#[test]
fn a_valid_payload_breaks_no_rule() {
    assert_eq!(to_create("C", "slack", "https://x").validate(), Ok(()));
    assert_eq!(to_update(&"n".repeat(100), "anything", "u").validate(), Ok(()));
    // a character is counted once, whatever its width in bytes
    assert_eq!(to_create(&"日".repeat(100), "slack", "https://x").validate(), Ok(()));
}

#[test]
fn each_rule_that_is_broken_is_reported_in_field_order() {
    assert_eq!(
        to_create("", "slack", "https://x").validate(),
        Err(vec![ValidationError::NameEmpty])
    );
    assert_eq!(
        to_create(&"n".repeat(101), "slack", "https://x").validate(),
        Err(vec![ValidationError::NameTooLong])
    );
    assert_eq!(
        to_create("C", "", "https://x").validate(),
        Err(vec![ValidationError::TypeEmpty])
    );
    assert_eq!(
        to_update("C", "slack", "").validate(),
        Err(vec![ValidationError::WebhookUrlEmpty])
    );
    assert_eq!(
        to_update("", "", "").validate(),
        Err(vec![
            ValidationError::NameEmpty,
            ValidationError::TypeEmpty,
            ValidationError::WebhookUrlEmpty
        ])
    );
    assert_eq!(
        to_update(&"日".repeat(101), "slack", "").validate(),
        Err(vec![ValidationError::NameTooLong, ValidationError::WebhookUrlEmpty])
    );
}

#[test]
fn a_rejection_names_the_rules_that_were_broken() {
    assert_eq!(ValidationError::NameEmpty.to_string(), "name: text can not be empty");
    assert_eq!(
        ValidationError::NameTooLong.to_string(),
        "name: text can not be longer than 100 characters"
    );
    assert_eq!(ValidationError::TypeEmpty.to_string(), "ws_type: text can not be empty");
    assert_eq!(
        ValidationError::WebhookUrlEmpty.to_string(),
        "webhook_url: text can not be empty"
    );
    assert_eq!(rejection_text(&vec![]), "Validation error: []");
    assert_eq!(
        rejection_text(&vec![ValidationError::NameTooLong]),
        "Validation error: [name: text can not be longer than 100 characters]"
    );
    assert_eq!(
        rejection_text(&vec![
            ValidationError::NameEmpty,
            ValidationError::TypeEmpty,
            ValidationError::WebhookUrlEmpty
        ]),
        "Validation error: [name: text can not be empty, ws_type: text can not be empty, webhook_url: text can not be empty]"
    );
}

#[test]
fn validated_json_admits_only_what_is_valid() {
    let admitted = ValidatedJson::new(to_create("C", "slack", "https://x")).unwrap();
    assert_eq!(admitted.0, to_create("C", "slack", "https://x"));

    let refused = ValidatedJson::new(to_create("", "slack", "")).unwrap_err();
    assert_eq!(
        refused,
        (
            StatusCode::BadRequest,
            "Validation error: [name: text can not be empty, webhook_url: text can not be empty]"
                .to_string()
        )
    );
}

#[test]
fn projection_leaves_the_webhook_url_out() {
    assert_eq!(
        ResponseWorkspace::from_workspace(workspace(4, "D", WorkspaceType::Discord, "https://d")),
        shown(4, "D", "discord")
    );
    assert_eq!(
        project_all(vec![
            workspace(2, "B", WorkspaceType::Slack, "https://b"),
            workspace(1, "A", WorkspaceType::Discord, "https://a"),
        ]),
        vec![shown(2, "B", "slack"), shown(1, "A", "discord")]
    );
    assert_eq!(project_all(vec![]), vec![]);
}

#[test]
fn the_handlers_answer_with_status_and_projection() {
    let mut repo = WorkspaceRepositoryForMemory::new();

    assert_eq!(all_workspaces(&repo), Ok((StatusCode::Success, vec![])));

    let payload = ValidatedJson::new(to_create("C", "slack", "https://x")).unwrap();
    assert_eq!(
        create_workspace(&mut repo, payload),
        Ok((StatusCode::Created, shown(1, "C", "slack")))
    );
    assert_eq!(
        find_workspace(&repo, 1),
        Ok((StatusCode::Success, shown(1, "C", "slack")))
    );
    assert_eq!(
        all_workspaces(&repo),
        Ok((StatusCode::Success, vec![shown(1, "C", "slack")]))
    );

    let payload = ValidatedJson::new(to_update("C2", "discord", "https://x2")).unwrap();
    assert_eq!(
        update_workspace(&mut repo, 1, payload),
        Ok((StatusCode::Created, shown(1, "C2", "discord")))
    );
    assert_eq!(
        repo.find(WorkspaceId::new(1)),
        Ok(workspace(1, "C2", WorkspaceType::Discord, "https://x2"))
    );

    assert_eq!(delete_workspace(&mut repo, 1), StatusCode::NoContent);
    assert_eq!(all_workspaces(&repo), Ok((StatusCode::Success, vec![])));
}

#[test]
fn the_handlers_answer_failures_with_their_status() {
    let mut repo = WorkspaceRepositoryForMemory::new();
    repo.insert(workspace(1, "A", WorkspaceType::Slack, "https://a"));

    assert_eq!(find_workspace(&repo, 2), Err(StatusCode::NotFound));
    assert_eq!(delete_workspace(&mut repo, 2), StatusCode::NotFound);

    let payload = ValidatedJson::new(to_update("Z", "slack", "https://z")).unwrap();
    assert_eq!(update_workspace(&mut repo, 2, payload), Err(StatusCode::NotFound));

    let payload = ValidatedJson::new(to_update("Z", "teams", "https://z")).unwrap();
    assert_eq!(update_workspace(&mut repo, 1, payload), Err(StatusCode::BadRequest));

    let payload = ValidatedJson::new(to_create("Z", "teams", "https://z")).unwrap();
    assert_eq!(create_workspace(&mut repo, payload), Err(StatusCode::BadRequest));

    // nothing of this changed the record that was there
    assert_eq!(
        repo.all(),
        Ok(vec![workspace(1, "A", WorkspaceType::Slack, "https://a")])
    );

    let mut full = WorkspaceRepositoryForMemory::new();
    full.insert(workspace(i32::MAX, "last", WorkspaceType::Slack, "https://l"));
    let payload = ValidatedJson::new(to_create("Z", "slack", "https://z")).unwrap();
    assert_eq!(create_workspace(&mut full, payload), Err(StatusCode::InternalServerError));
}

#[test]
fn a_row_holds_a_workspace_if_its_token_names_a_type() {
    assert_eq!(
        row(7, "G", "discord", "https://g").into_workspace(),
        Ok(workspace(7, "G", WorkspaceType::Discord, "https://g"))
    );
    assert_eq!(
        row(7, "G", "Discord", "https://g").into_workspace(),
        Err(RepositoryError::Unexpected("Matching variant not found".to_string()))
    );
}

#[test]
fn the_type_of_a_request_is_checked_before_anything_is_stored() {
    assert_eq!(requested_type(&to_create("C", "slack", "u")), Ok(WorkspaceType::Slack));
    assert_eq!(requested_type(&to_create("C", "discord", "u")), Ok(WorkspaceType::Discord));
    assert_eq!(
        requested_type(&to_create("C", "matrix", "u")),
        Err(RepositoryError::BadType("matrix".to_string()))
    );
}

#[test]
fn the_answers_of_the_database_become_results_of_the_repository() {
    let id = WorkspaceId::new(3);
    let stored = workspace(3, "C", WorkspaceType::Slack, "https://c");
    let lost = || QueryFailure::Other("connection lost".to_string());
    let unexpected = RepositoryError::Unexpected("connection lost".to_string());

    assert_eq!(created(Ok(row(3, "C", "slack", "https://c"))), Ok(stored.clone()));
    assert_eq!(created(Err(lost())), Err(unexpected.clone()));
    assert_eq!(
        created(Err(QueryFailure::RowNotFound)),
        Err(RepositoryError::Unexpected(ROW_NOT_FOUND.to_string()))
    );

    assert_eq!(found(id, Ok(row(3, "C", "slack", "https://c"))), Ok(stored.clone()));
    assert_eq!(found(id, Err(QueryFailure::RowNotFound)), Err(RepositoryError::NotFound(id)));
    assert_eq!(found(id, Err(lost())), Err(unexpected.clone()));

    assert_eq!(updated(id, Ok(row(3, "C", "slack", "https://c"))), Ok(stored.clone()));
    assert_eq!(updated(id, Err(QueryFailure::RowNotFound)), Err(RepositoryError::NotFound(id)));
    assert_eq!(updated(id, Err(lost())), Err(unexpected.clone()));

    assert_eq!(deleted(id, Ok(1)), Ok(()));
    assert_eq!(deleted(id, Ok(0)), Err(RepositoryError::NotFound(id)));
    assert_eq!(deleted(id, Err(lost())), Err(unexpected.clone()));

    assert_eq!(
        listed(Ok(vec![row(3, "C", "slack", "https://c"), row(1, "A", "discord", "https://a")])),
        Ok(vec![stored, workspace(1, "A", WorkspaceType::Discord, "https://a")])
    );
    assert_eq!(listed(Ok(vec![])), Ok(vec![]));
    assert_eq!(listed(Err(lost())), Err(unexpected));
    assert_eq!(
        listed(Ok(vec![row(3, "C", "slack", "https://c"), row(1, "A", "irc", "https://a")])),
        Err(RepositoryError::Unexpected("Matching variant not found".to_string()))
    );
}

#[test]
fn the_service_shows_projections_and_passes_failures_on() {
    let not_found = RepositoryError::NotFound(WorkspaceId::new(8));
    assert_eq!(
        show(Ok(workspace(1, "A", WorkspaceType::Slack, "https://a"))),
        Ok(shown(1, "A", "slack"))
    );
    assert_eq!(show(Err(not_found.clone())), Err(not_found.clone()));
    assert_eq!(
        shown_all(Ok(vec![
            workspace(2, "B", WorkspaceType::Discord, "https://b"),
            workspace(1, "A", WorkspaceType::Slack, "https://a"),
        ])),
        Ok(vec![shown(2, "B", "discord"), shown(1, "A", "slack")])
    );
    assert_eq!(
        shown_all(Err(RepositoryError::Unexpected("down".to_string()))),
        Err(RepositoryError::Unexpected("down".to_string()))
    );
}

#[test]
fn the_service_passes_each_request_on_to_the_repository() {
    let mut repo = WorkspaceRepositoryForMemory::new();
    assert_eq!(
        service::create_workspace(&mut repo, to_create("C", "slack", "https://x")),
        Ok(shown(1, "C", "slack"))
    );
    assert_eq!(
        service::create_workspace(&mut repo, to_create("C", "nope", "https://x")),
        Err(RepositoryError::BadType("nope".to_string()))
    );
    assert_eq!(service::all_workspaces(&repo), Ok(vec![shown(1, "C", "slack")]));
    assert_eq!(service::find_workspace(&repo, WorkspaceId::new(1)), Ok(shown(1, "C", "slack")));
    assert_eq!(
        service::find_workspace(&repo, WorkspaceId::new(2)),
        Err(RepositoryError::NotFound(WorkspaceId::new(2)))
    );
    assert_eq!(
        service::update_workspace(&mut repo, workspace(1, "D", WorkspaceType::Discord, "https://d")),
        Ok(shown(1, "D", "discord"))
    );
    assert_eq!(
        service::update_workspace(&mut repo, workspace(5, "D", WorkspaceType::Discord, "https://d")),
        Err(RepositoryError::NotFound(WorkspaceId::new(5)))
    );
    assert_eq!(
        service::delete_workspace(&mut repo, WorkspaceId::new(5)),
        Err(RepositoryError::NotFound(WorkspaceId::new(5)))
    );
    assert_eq!(service::delete_workspace(&mut repo, WorkspaceId::new(1)), Ok(()));
    assert_eq!(service::all_workspaces(&repo), Ok(vec![]));
}

#[test]
fn each_answer_has_the_status_of_its_request() {
    let one = || Ok(shown(1, "A", "slack"));
    let missing = || Err(RepositoryError::NotFound(WorkspaceId::new(1)));
    let broken = || Err(RepositoryError::Unexpected("down".to_string()));
    let bad = || Err(RepositoryError::BadType("x".to_string()));

    assert_eq!(respond_created(one()), Ok((StatusCode::Created, shown(1, "A", "slack"))));
    assert_eq!(respond_created(bad()), Err(StatusCode::BadRequest));
    assert_eq!(respond_created(broken()), Err(StatusCode::InternalServerError));

    assert_eq!(respond_found(one()), Ok((StatusCode::Success, shown(1, "A", "slack"))));
    assert_eq!(respond_found(missing()), Err(StatusCode::NotFound));
    assert_eq!(respond_found(broken()), Err(StatusCode::InternalServerError));

    assert_eq!(respond_updated(one()), Ok((StatusCode::Created, shown(1, "A", "slack"))));
    assert_eq!(respond_updated(missing()), Err(StatusCode::NotFound));
    assert_eq!(respond_updated(broken()), Err(StatusCode::InternalServerError));

    assert_eq!(
        respond_listed(Ok(vec![shown(2, "B", "discord"), shown(1, "A", "slack")])),
        Ok((StatusCode::Success, vec![shown(2, "B", "discord"), shown(1, "A", "slack")]))
    );
    assert_eq!(
        respond_listed(Err(RepositoryError::Unexpected("down".to_string()))),
        Err(StatusCode::InternalServerError)
    );

    assert_eq!(respond_deleted(Ok(())), StatusCode::NoContent);
    assert_eq!(respond_deleted(missing().map(|_: ResponseWorkspace| ())), StatusCode::NotFound);
    assert_eq!(
        respond_deleted(Err(RepositoryError::Unexpected("down".to_string()))),
        StatusCode::InternalServerError
    );
}

#[test]
fn a_request_to_replace_names_the_whole_workspace() {
    let payload = ValidatedJson::new(to_update("N", "discord", "https://n")).unwrap();
    assert_eq!(
        requested_workspace(6, payload),
        Ok(workspace(6, "N", WorkspaceType::Discord, "https://n"))
    );
    let payload = ValidatedJson::new(to_update("N", "DISCORD", "https://n")).unwrap();
    assert_eq!(requested_workspace(6, payload), Err(StatusCode::BadRequest));
}
