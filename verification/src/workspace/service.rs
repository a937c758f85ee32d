//! The service over a repository: it passes each request on and answers with
//! a projection of the workspace that leaves the webhook URL out.

use crate::entity::{Workspace, WorkspaceId, WorkspaceView, workspace_views};
use crate::validation::{
    Validate, ValidationError, validate_workspace_fields, workspace_field_violations,
};
use crate::workspace::repository::{
    RepositoryError, RepositoryErrorView, WorkspaceRepository, create_outcome, delete_outcome,
    find_outcome, is_listing, unit_result_view, update_outcome, workspace_result_view,
};
use vstd::prelude::*;
use vstd::string::*;

verus! {

/// The body of a request to create a workspace.
#[derive(Debug, PartialEq, Eq)]
pub struct CreateWorkspacePayload {
    pub name: String,
    pub ws_type: String,
    pub webhook_url: String,
}

/// A request to create a workspace as contracts see it.
pub struct CreateWorkspacePayloadView {
    pub name: Seq<char>,
    pub ws_type: Seq<char>,
    pub webhook_url: Seq<char>,
}

impl View for CreateWorkspacePayload {
    type V = CreateWorkspacePayloadView;

    open spec fn view(&self) -> CreateWorkspacePayloadView {
        CreateWorkspacePayloadView {
            name: self.name@,
            ws_type: self.ws_type@,
            webhook_url: self.webhook_url@,
        }
    }
}

impl Clone for CreateWorkspacePayload {
    fn clone(&self) -> (r: Self)
        ensures
            r@ == self@,
    {
        CreateWorkspacePayload {
            name: self.name.clone(),
            ws_type: self.ws_type.clone(),
            webhook_url: self.webhook_url.clone(),
        }
    }
}

impl Validate for CreateWorkspacePayload {
    open spec fn violations(&self) -> Seq<ValidationError> {
        workspace_field_violations(self.name@, self.ws_type@, self.webhook_url@)
    }

    fn validate(&self) -> (r: Result<(), Vec<ValidationError>>) {
        validate_workspace_fields(&self.name, &self.ws_type, &self.webhook_url)
    }
}

/// What a caller is shown of a workspace: its id, its name and its type's
/// token. The webhook URL is left out.
#[derive(Debug, PartialEq, Eq)]
pub struct ResponseWorkspace {
    pub id: WorkspaceId,
    pub name: String,
    pub ws_type: String,
}

/// A projection as contracts see it.
pub struct ResponseWorkspaceView {
    pub id: int,
    pub name: Seq<char>,
    pub ws_type: Seq<char>,
}

impl View for ResponseWorkspace {
    type V = ResponseWorkspaceView;

    open spec fn view(&self) -> ResponseWorkspaceView {
        ResponseWorkspaceView { id: self.id@, name: self.name@, ws_type: self.ws_type@ }
    }
}

impl Clone for ResponseWorkspace {
    fn clone(&self) -> (r: Self)
        ensures
            r@ == self@,
    {
        ResponseWorkspace {
            id: self.id,
            name: self.name.clone(),
            ws_type: self.ws_type.clone(),
        }
    }
}

/// The projection of a workspace.
pub open spec fn projection(ws: WorkspaceView) -> ResponseWorkspaceView {
    ResponseWorkspaceView { id: ws.id, name: ws.name, ws_type: ws.ws_type.token() }
}

/// The views of a list of projections, in the list's order.
pub open spec fn response_views(list: Seq<ResponseWorkspace>) -> Seq<ResponseWorkspaceView> {
    list.map_values(|r: ResponseWorkspace| r@)
}

impl ResponseWorkspace {
    /// Projects a workspace.
    pub fn from_workspace(ws: Workspace) -> (r: Self)
        ensures
            r@ == projection(ws@),
    {
        ResponseWorkspace { id: ws.id, name: ws.name, ws_type: ws.ws_type.to_string() }
    }
}

/// Projects each workspace of a list, in the list's order.
pub fn project_all(list: Vec<Workspace>) -> (r: Vec<ResponseWorkspace>)
    ensures
        response_views(r@) == workspace_views(list@).map_values(|ws: WorkspaceView| projection(ws)),
{
    let mut out: Vec<ResponseWorkspace> = Vec::new();
    let mut n: usize = 0;
    while n < list.len()
        invariant
            n <= list.len(),
            out@.len() == n,
            forall|i: int| 0 <= i < n ==> (#[trigger] out@[i])@ == projection(list@[i]@),
        decreases list.len() - n,
    {
        out.push(ResponseWorkspace::from_workspace(list[n].clone()));
        n = n + 1;
    }
    assert(response_views(out@) =~= workspace_views(list@).map_values(
        |ws: WorkspaceView| projection(ws),
    ));
    out
}

/// `list` holds the projection of every record of `records`, each once, and
/// nothing else.
pub open spec fn is_projected_listing(
    records: Map<int, WorkspaceView>,
    list: Seq<ResponseWorkspaceView>,
) -> bool {
    exists|listing: Seq<WorkspaceView>|
        #![trigger is_listing(records, listing)]
        is_listing(records, listing) && list == listing.map_values(
            |ws: WorkspaceView| projection(ws),
        )
}

/// A result that shows one workspace, as contracts see it.
pub open spec fn shown_result_view(r: Result<ResponseWorkspace, RepositoryError>) -> Result<
    ResponseWorkspaceView,
    RepositoryErrorView,
> {
    match r {
        Ok(shown) => Ok(shown@),
        Err(e) => Err(e@),
    }
}

/// What is shown of a repository's result: the projection of the workspace;
/// a failure as it is.
pub open spec fn projected(outcome: Result<WorkspaceView, RepositoryErrorView>) -> Result<
    ResponseWorkspaceView,
    RepositoryErrorView,
> {
    match outcome {
        Ok(ws) => Ok(projection(ws)),
        Err(e) => Err(e),
    }
}

/// Shows a repository's result: the workspace is projected, a failure is
/// passed on unchanged.
pub fn shown(outcome: Result<Workspace, RepositoryError>) -> (r: Result<
    ResponseWorkspace,
    RepositoryError,
>)
    ensures
        shown_result_view(r) == projected(workspace_result_view(outcome)),
{
    match outcome {
        Ok(ws) => Ok(ResponseWorkspace::from_workspace(ws)),
        Err(e) => Err(e),
    }
}

/// Shows a repository's listing: each workspace is projected, in the
/// listing's order; a failure is passed on unchanged.
pub fn shown_all(outcome: Result<Vec<Workspace>, RepositoryError>) -> (r: Result<
    Vec<ResponseWorkspace>,
    RepositoryError,
>)
    ensures
        match outcome {
            Ok(list) => r matches Ok(shown) && response_views(shown@) == workspace_views(
                list@,
            ).map_values(|ws: WorkspaceView| projection(ws)),
            Err(e) => r matches Err(passed) && passed@ == e@,
        },
{
    match outcome {
        Ok(list) => Ok(project_all(list)),
        Err(e) => Err(e),
    }
}

/// Creates a workspace and answers with its projection. The repository's
/// failure is passed on unchanged.
pub fn create_workspace<T: WorkspaceRepository>(repo: &mut T, payload: CreateWorkspacePayload) -> (r:
    Result<ResponseWorkspace, RepositoryError>)
    ensures
        exists|outcome: Result<WorkspaceView, RepositoryErrorView>|
            #![trigger projected(outcome)]
            {
                &&& create_outcome(old(repo).records(), final(repo).records(), payload@, outcome)
                &&& shown_result_view(r) == projected(outcome)
            },
{
    let outcome = repo.create(payload);
    let ghost given = workspace_result_view(outcome);
    let r = shown(outcome);
    assert(shown_result_view(r) == projected(given));
    r
}

/// Answers with the projection of every workspace. The repository's failure
/// is passed on unchanged.
pub fn all_workspaces<T: WorkspaceRepository>(repo: &T) -> (r: Result<
    Vec<ResponseWorkspace>,
    RepositoryError,
>)
    ensures
        match r {
            Ok(shown) => is_projected_listing(repo.records(), response_views(shown@)),
            Err(e) => e@ is Unexpected,
        },
{
    let outcome = repo.all();
    proof {
        if outcome is Ok {
            assert(is_listing(repo.records(), workspace_views(outcome->Ok_0@)));
        }
    }
    shown_all(outcome)
}

/// Answers with the projection of the workspace under `id`. The repository's
/// failure is passed on unchanged.
pub fn find_workspace<T: WorkspaceRepository>(repo: &T, id: WorkspaceId) -> (r: Result<
    ResponseWorkspace,
    RepositoryError,
>)
    ensures
        exists|outcome: Result<WorkspaceView, RepositoryErrorView>|
            #![trigger projected(outcome)]
            {
                &&& find_outcome(repo.records(), id@, outcome)
                &&& shown_result_view(r) == projected(outcome)
            },
{
    let outcome = repo.find(id);
    let ghost given = workspace_result_view(outcome);
    let r = shown(outcome);
    assert(shown_result_view(r) == projected(given));
    r
}

/// Replaces a workspace and answers with the projection of the new record.
/// The repository's failure is passed on unchanged.
pub fn update_workspace<T: WorkspaceRepository>(repo: &mut T, ws: Workspace) -> (r: Result<
    ResponseWorkspace,
    RepositoryError,
>)
    ensures
        exists|outcome: Result<WorkspaceView, RepositoryErrorView>|
            #![trigger projected(outcome)]
            {
                &&& update_outcome(old(repo).records(), final(repo).records(), ws@, outcome)
                &&& shown_result_view(r) == projected(outcome)
            },
{
    let outcome = repo.update(ws);
    let ghost given = workspace_result_view(outcome);
    let r = shown(outcome);
    assert(shown_result_view(r) == projected(given));
    r
}

/// Removes the workspace under `id`. The repository's failure is passed on
/// unchanged.
pub fn delete_workspace<T: WorkspaceRepository>(repo: &mut T, id: WorkspaceId) -> (r: Result<
    (),
    RepositoryError,
>)
    ensures
        delete_outcome(old(repo).records(), final(repo).records(), id@, unit_result_view(r)),
{
    repo.delete(id)
}

} // verus!
