//! The answers that the boundary gives: a status for each outcome of the
//! service, and the workspace's projection where there is one.

use crate::entity::{Workspace, WorkspaceId, WorkspaceIdTypeAlias, WorkspaceType, WorkspaceView};
use crate::status::StatusCode;
use crate::validation::{
    Validate, ValidationError, rejection_message, rejection_text, validate_workspace_fields,
    workspace_field_violations,
};
use crate::workspace::repository::{
    RepositoryError, RepositoryErrorView, WorkspaceRepository, create_outcome, delete_outcome,
    find_outcome, update_outcome,
};
use crate::workspace::service;
use crate::workspace::service::{
    CreateWorkspacePayload, ResponseWorkspace, ResponseWorkspaceView, is_projected_listing,
    projected, projection, response_views, shown_result_view,
};
use vstd::prelude::*;
use vstd::string::*;

verus! {

/// The status for a repository's failure: a missing workspace is told apart
/// from a bad type token, and both from every other failure.
pub open spec fn repository_error_status(e: RepositoryErrorView) -> StatusCode {
    match e {
        RepositoryErrorView::NotFound(_) => StatusCode::NotFound,
        RepositoryErrorView::BadType(_) => StatusCode::BadRequest,
        RepositoryErrorView::Unexpected(_) => StatusCode::InternalServerError,
    }
}

pub fn repository_error_to_status_code(e: RepositoryError) -> (r: StatusCode)
    ensures
        r == repository_error_status(e@),
{
    match e {
        RepositoryError::NotFound(_) => StatusCode::NotFound,
        RepositoryError::BadType(_) => StatusCode::BadRequest,
        RepositoryError::Unexpected(_) => StatusCode::InternalServerError,
    }
}

/// The body of a request to replace a workspace. The id comes with the path.
#[derive(Debug, PartialEq, Eq)]
pub struct UpdateWorkspacePayload {
    pub name: String,
    pub ws_type: String,
    pub webhook_url: String,
}

/// A request to replace a workspace as contracts see it.
pub struct UpdateWorkspacePayloadView {
    pub name: Seq<char>,
    pub ws_type: Seq<char>,
    pub webhook_url: Seq<char>,
}

impl View for UpdateWorkspacePayload {
    type V = UpdateWorkspacePayloadView;

    open spec fn view(&self) -> UpdateWorkspacePayloadView {
        UpdateWorkspacePayloadView {
            name: self.name@,
            ws_type: self.ws_type@,
            webhook_url: self.webhook_url@,
        }
    }
}

impl Clone for UpdateWorkspacePayload {
    fn clone(&self) -> (r: Self)
        ensures
            r@ == self@,
    {
        UpdateWorkspacePayload {
            name: self.name.clone(),
            ws_type: self.ws_type.clone(),
            webhook_url: self.webhook_url.clone(),
        }
    }
}

impl Validate for UpdateWorkspacePayload {
    open spec fn violations(&self) -> Seq<ValidationError> {
        workspace_field_violations(self.name@, self.ws_type@, self.webhook_url@)
    }

    fn validate(&self) -> (r: Result<(), Vec<ValidationError>>) {
        validate_workspace_fields(&self.name, &self.ws_type, &self.webhook_url)
    }
}

/// A request body that is to pass its rules before a handler takes it.
#[derive(Debug)]
pub struct ValidatedJson<T>(pub T);

impl<T: Validate> ValidatedJson<T> {
    /// Admits a value that breaks none of its rules. One that breaks some is
    /// turned away as a bad request, with the rules it broke.
    pub fn new(value: T) -> (r: Result<Self, (StatusCode, String)>)
        ensures
            match r {
                Ok(admitted) => admitted.0 == value && value.violations().len() == 0,
                Err((status, text)) => {
                    &&& status == StatusCode::BadRequest
                    &&& value.violations().len() > 0
                    &&& text@ == rejection_message(value.violations())
                },
            },
    {
        match value.validate() {
            Ok(()) => Ok(ValidatedJson(value)),
            Err(found) => Err((StatusCode::BadRequest, rejection_text(&found))),
        }
    }
}

/// The workspace that a request to replace the one under `id` asks for, if
/// its type token names a type.
pub open spec fn replacement(id: int, payload: UpdateWorkspacePayloadView) -> Option<
    WorkspaceView,
> {
    match WorkspaceType::parse(payload.ws_type) {
        Some(ws_type) => Some(
            WorkspaceView { id, name: payload.name, ws_type, webhook_url: payload.webhook_url },
        ),
        None => None,
    }
}

/// An answer that shows one workspace, as contracts see it.
pub open spec fn answer_view(r: Result<(StatusCode, ResponseWorkspace), StatusCode>) -> Result<
    (StatusCode, ResponseWorkspaceView),
    StatusCode,
> {
    match r {
        Ok((status, shown)) => Ok((status, shown@)),
        Err(status) => Err(status),
    }
}

/// The answer to a request for one workspace: on success the given status
/// with what the service shows, else the status of the failure.
pub open spec fn workspace_answer(
    success: StatusCode,
    outcome: Result<ResponseWorkspaceView, RepositoryErrorView>,
) -> Result<(StatusCode, ResponseWorkspaceView), StatusCode> {
    match outcome {
        Ok(shown) => Ok((success, shown)),
        Err(e) => Err(repository_error_status(e)),
    }
}

fn respond(success: StatusCode, outcome: Result<ResponseWorkspace, RepositoryError>) -> (r: Result<
    (StatusCode, ResponseWorkspace),
    StatusCode,
>)
    ensures
        answer_view(r) == workspace_answer(success, shown_result_view(outcome)),
{
    match outcome {
        Ok(shown) => Ok((success, shown)),
        Err(e) => Err(repository_error_to_status_code(e)),
    }
}

/// Answers a request to create a workspace, from what the service gave:
/// `Created` with the projection, or the failure's status.
pub fn respond_created(outcome: Result<ResponseWorkspace, RepositoryError>) -> (r: Result<
    (StatusCode, ResponseWorkspace),
    StatusCode,
>)
    ensures
        answer_view(r) == workspace_answer(StatusCode::Created, shown_result_view(outcome)),
{
    respond(StatusCode::Created, outcome)
}

/// Answers a request for one workspace, from what the service gave:
/// `Success` with the projection, or the failure's status.
pub fn respond_found(outcome: Result<ResponseWorkspace, RepositoryError>) -> (r: Result<
    (StatusCode, ResponseWorkspace),
    StatusCode,
>)
    ensures
        answer_view(r) == workspace_answer(StatusCode::Success, shown_result_view(outcome)),
{
    respond(StatusCode::Success, outcome)
}

/// Answers a request to replace a workspace, from what the service gave:
/// `Created` with the projection, or the failure's status.
pub fn respond_updated(outcome: Result<ResponseWorkspace, RepositoryError>) -> (r: Result<
    (StatusCode, ResponseWorkspace),
    StatusCode,
>)
    ensures
        answer_view(r) == workspace_answer(StatusCode::Created, shown_result_view(outcome)),
{
    respond(StatusCode::Created, outcome)
}

/// Answers a request for every workspace, from what the service gave:
/// `Success` with the projections as they are, or the failure's status.
pub fn respond_listed(outcome: Result<Vec<ResponseWorkspace>, RepositoryError>) -> (r: Result<
    (StatusCode, Vec<ResponseWorkspace>),
    StatusCode,
>)
    ensures
        match outcome {
            Ok(shown) => r == Ok::<(StatusCode, Vec<ResponseWorkspace>), StatusCode>(
                (StatusCode::Success, shown),
            ),
            Err(e) => r == Err::<(StatusCode, Vec<ResponseWorkspace>), StatusCode>(
                repository_error_status(e@),
            ),
        },
{
    match outcome {
        Ok(shown) => Ok((StatusCode::Success, shown)),
        Err(e) => Err(repository_error_to_status_code(e)),
    }
}

/// Answers a request to remove a workspace, from what the service gave:
/// `NoContent`, or the failure's status.
pub fn respond_deleted(outcome: Result<(), RepositoryError>) -> (r: StatusCode)
    ensures
        r == match outcome {
            Ok(()) => StatusCode::NoContent,
            Err(e) => repository_error_status(e@),
        },
{
    match outcome {
        Ok(()) => StatusCode::NoContent,
        Err(e) => repository_error_to_status_code(e),
    }
}

/// The workspace that a request to replace the one under `id` asks for;
/// `BadRequest` where its type token names no type.
pub fn requested_workspace(id: WorkspaceIdTypeAlias, payload: ValidatedJson<UpdateWorkspacePayload>) -> (r:
    Result<Workspace, StatusCode>)
    ensures
        match replacement(id as int, payload.0@) {
            Some(ws) => r matches Ok(asked) && asked@ == ws,
            None => r == Err::<Workspace, StatusCode>(StatusCode::BadRequest),
        },
        r matches Ok(asked) ==> (payload.0.violations().len() == 0 ==> asked@.is_valid()),
{
    let UpdateWorkspacePayload { name, ws_type, webhook_url } = payload.0;
    match WorkspaceType::from_str(ws_type.as_str()) {
        Ok(ws_type) => Ok(Workspace::new(WorkspaceId::new(id), name, ws_type, webhook_url)),
        Err(_) => Err(StatusCode::BadRequest),
    }
}

/// Creates a workspace in the repository and answers: `Created` with its
/// projection, or the status of the repository's failure.
pub fn create_workspace<T: WorkspaceRepository>(
    repo: &mut T,
    payload: ValidatedJson<CreateWorkspacePayload>,
) -> (r: Result<(StatusCode, ResponseWorkspace), StatusCode>)
    ensures
        exists|outcome: Result<WorkspaceView, RepositoryErrorView>|
            #![trigger projected(outcome)]
            {
                &&& create_outcome(
                    old(repo).records(),
                    final(repo).records(),
                    payload.0@,
                    outcome,
                )
                &&& answer_view(r) == workspace_answer(StatusCode::Created, projected(outcome))
            },
{
    let outcome = service::create_workspace(repo, payload.0);
    let ghost given = choose|given: Result<WorkspaceView, RepositoryErrorView>|
        #![trigger projected(given)]
        create_outcome(old(repo).records(), repo.records(), payload.0@, given)
            && shown_result_view(outcome) == projected(given);
    let r = respond_created(outcome);
    assert(answer_view(r) == workspace_answer(StatusCode::Created, projected(given)));
    r
}

/// Lists the repository's workspaces and answers: `Success` with the
/// projection of each, or the status of the repository's failure.
pub fn all_workspaces<T: WorkspaceRepository>(repo: &T) -> (r: Result<
    (StatusCode, Vec<ResponseWorkspace>),
    StatusCode,
>)
    ensures
        match r {
            Ok((status, shown)) => status == StatusCode::Success && is_projected_listing(
                repo.records(),
                response_views(shown@),
            ),
            Err(status) => status == StatusCode::InternalServerError,
        },
{
    respond_listed(service::all_workspaces(repo))
}

/// Finds a workspace in the repository and answers: `Success` with its
/// projection, `NotFound` where there is none under the id, or the status of
/// the repository's failure.
pub fn find_workspace<T: WorkspaceRepository>(repo: &T, id: WorkspaceIdTypeAlias) -> (r: Result<
    (StatusCode, ResponseWorkspace),
    StatusCode,
>)
    ensures
        exists|outcome: Result<WorkspaceView, RepositoryErrorView>|
            #![trigger projected(outcome)]
            {
                &&& find_outcome(repo.records(), id as int, outcome)
                &&& answer_view(r) == workspace_answer(StatusCode::Success, projected(outcome))
            },
{
    let outcome = service::find_workspace(repo, WorkspaceId::new(id));
    let ghost given = choose|given: Result<WorkspaceView, RepositoryErrorView>|
        #![trigger projected(given)]
        find_outcome(repo.records(), id as int, given) && shown_result_view(outcome) == projected(
            given,
        );
    let r = respond_found(outcome);
    assert(answer_view(r) == workspace_answer(StatusCode::Success, projected(given)));
    r
}

/// Replaces the workspace under `id` in the repository and answers:
/// `Created` with the projection of the new record; `BadRequest` where the
/// type token names no type, and the repository is not asked then;
/// `NotFound` where there is none under the id; or the status of the
/// repository's failure.
pub fn update_workspace<T: WorkspaceRepository>(
    repo: &mut T,
    id: WorkspaceIdTypeAlias,
    payload: ValidatedJson<UpdateWorkspacePayload>,
) -> (r: Result<(StatusCode, ResponseWorkspace), StatusCode>)
    ensures
        match replacement(id as int, payload.0@) {
            None => r == Err::<(StatusCode, ResponseWorkspace), StatusCode>(StatusCode::BadRequest)
                && final(repo).records() == old(repo).records(),
            Some(ws) => exists|outcome: Result<WorkspaceView, RepositoryErrorView>|
                #![trigger projected(outcome)]
                {
                    &&& update_outcome(old(repo).records(), final(repo).records(), ws, outcome)
                    &&& answer_view(r) == workspace_answer(StatusCode::Created, projected(outcome))
                },
        },
{
    match requested_workspace(id, payload) {
        Err(status) => Err(status),
        Ok(ws) => {
            let ghost asked = ws@;
            let outcome = service::update_workspace(repo, ws);
            let ghost given = choose|given: Result<WorkspaceView, RepositoryErrorView>|
                #![trigger projected(given)]
                update_outcome(old(repo).records(), repo.records(), asked, given)
                    && shown_result_view(outcome) == projected(given);
            let r = respond_updated(outcome);
            assert(answer_view(r) == workspace_answer(StatusCode::Created, projected(given)));
            r
        },
    }
}

/// Removes the workspace under `id` from the repository and answers:
/// `NoContent` when it is gone, `NotFound` where there was none, or the
/// status of the repository's failure.
pub fn delete_workspace<T: WorkspaceRepository>(repo: &mut T, id: WorkspaceIdTypeAlias) -> (r:
    StatusCode)
    ensures
        match r {
            StatusCode::NoContent => delete_outcome(
                old(repo).records(),
                final(repo).records(),
                id as int,
                Ok(()),
            ),
            StatusCode::NotFound => delete_outcome(
                old(repo).records(),
                final(repo).records(),
                id as int,
                Err(RepositoryErrorView::NotFound(id as int)),
            ),
            StatusCode::InternalServerError => true,
            _ => false,
        },
{
    respond_deleted(service::delete_workspace(repo, WorkspaceId::new(id)))
}

} // verus!
