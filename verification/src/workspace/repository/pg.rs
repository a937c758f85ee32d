//! The relational backend's decisions. Its caller runs the statements; what
//! each answer means for the repository's caller is decided here.

use crate::entity::{Workspace, WorkspaceId, WorkspaceType, WorkspaceView, workspace_views};
use crate::workspace::repository::{
    RepositoryError, RepositoryErrorView, create_outcome, delete_outcome, find_outcome, is_listing,
    unit_result_view, update_outcome, workspace_result_view,
};
use crate::workspace::service::{CreateWorkspacePayload, CreateWorkspacePayloadView};
use vstd::prelude::*;
use vstd::string::*;

verus! {

/// Stores a workspace and hands the stored row back. Takes the name, the
/// type token and the webhook URL.
pub const INSERT_WORKSPACE: &'static str =
    "INSERT INTO workspaces (name, ws_type, webhook_url) VALUES ($1, $2, $3) RETURNING id, name, ws_type, webhook_url";

/// Reads the row under an id.
pub const SELECT_WORKSPACE: &'static str =
    "SELECT id, name, ws_type, webhook_url FROM workspaces WHERE id = $1";

/// Reads every row, the largest id first.
pub const SELECT_ALL_WORKSPACES: &'static str =
    "SELECT id, name, ws_type, webhook_url FROM workspaces ORDER BY id DESC";

/// Replaces the row under an id and hands the new row back. Takes the name,
/// the type token, the webhook URL and the id.
pub const UPDATE_WORKSPACE: &'static str =
    "UPDATE workspaces SET name = $1, ws_type = $2, webhook_url = $3 WHERE id = $4 RETURNING id, name, ws_type, webhook_url";

/// Removes the row under an id.
pub const DELETE_WORKSPACE: &'static str = "DELETE FROM workspaces WHERE id = $1";

/// What is reported where a statement that owes a row gave none.
pub const ROW_NOT_FOUND: &'static str =
    "no rows returned by a query that expected to return at least one row";

/// One row of the table of workspaces. The type is still a token.
#[derive(Debug, PartialEq, Eq)]
pub struct WorkspaceDBRow {
    pub id: WorkspaceId,
    pub name: String,
    pub ws_type: String,
    pub webhook_url: String,
}

/// A row as contracts see it.
pub struct WorkspaceDBRowView {
    pub id: int,
    pub name: Seq<char>,
    pub ws_type: Seq<char>,
    pub webhook_url: Seq<char>,
}

impl View for WorkspaceDBRow {
    type V = WorkspaceDBRowView;

    open spec fn view(&self) -> WorkspaceDBRowView {
        WorkspaceDBRowView {
            id: self.id@,
            name: self.name@,
            ws_type: self.ws_type@,
            webhook_url: self.webhook_url@,
        }
    }
}

impl Clone for WorkspaceDBRow {
    fn clone(&self) -> (r: Self)
        ensures
            r@ == self@,
    {
        WorkspaceDBRow {
            id: self.id,
            name: self.name.clone(),
            ws_type: self.ws_type.clone(),
            webhook_url: self.webhook_url.clone(),
        }
    }
}

/// The views of a list of rows, in the list's order.
pub open spec fn row_views(rows: Seq<WorkspaceDBRow>) -> Seq<WorkspaceDBRowView> {
    rows.map_values(|row: WorkspaceDBRow| row@)
}

/// Why a statement gave no answer: it owed a row and found none, or the
/// database failed in the way that the text says.
#[derive(Debug, PartialEq, Eq)]
pub enum QueryFailure {
    RowNotFound,
    Other(String),
}

/// A statement's failure as contracts see it.
pub enum QueryFailureView {
    RowNotFound,
    Other(Seq<char>),
}

impl View for QueryFailure {
    type V = QueryFailureView;

    open spec fn view(&self) -> QueryFailureView {
        match self {
            QueryFailure::RowNotFound => QueryFailureView::RowNotFound,
            QueryFailure::Other(detail) => QueryFailureView::Other(detail@),
        }
    }
}

impl Clone for QueryFailure {
    fn clone(&self) -> (r: Self)
        ensures
            r@ == self@,
    {
        match self {
            QueryFailure::RowNotFound => QueryFailure::RowNotFound,
            QueryFailure::Other(detail) => QueryFailure::Other(detail.clone()),
        }
    }
}

impl QueryFailureView {
    /// The failure in words.
    pub open spec fn detail(self) -> Seq<char> {
        match self {
            QueryFailureView::RowNotFound => ROW_NOT_FOUND@,
            QueryFailureView::Other(detail) => detail,
        }
    }

    /// A failure of the backend, whatever it was.
    pub open spec fn unexpected(self) -> RepositoryErrorView {
        RepositoryErrorView::Unexpected(self.detail())
    }

    /// A failure of a statement that names one workspace: the missing row is
    /// the missing workspace, any other failure is the backend's.
    pub open spec fn for_workspace(self, id: int) -> RepositoryErrorView {
        match self {
            QueryFailureView::RowNotFound => RepositoryErrorView::NotFound(id),
            QueryFailureView::Other(detail) => RepositoryErrorView::Unexpected(detail),
        }
    }
}

impl QueryFailure {
    fn into_unexpected(self) -> (r: RepositoryError)
        ensures
            r@ == self@.unexpected(),
    {
        match self {
            QueryFailure::RowNotFound => RepositoryError::Unexpected(
                String::from_str(ROW_NOT_FOUND),
            ),
            QueryFailure::Other(detail) => RepositoryError::Unexpected(detail),
        }
    }

    fn into_error_for(self, id: WorkspaceId) -> (r: RepositoryError)
        ensures
            r@ == self@.for_workspace(id@),
    {
        match self {
            QueryFailure::RowNotFound => RepositoryError::NotFound(id),
            QueryFailure::Other(detail) => RepositoryError::Unexpected(detail),
        }
    }
}

impl WorkspaceDBRowView {
    /// The workspace that a row holds. A row whose token names no type holds
    /// none: the backend has failed.
    pub open spec fn workspace(self) -> Result<WorkspaceView, RepositoryErrorView> {
        match WorkspaceType::parse(self.ws_type) {
            Some(ws_type) => Ok(
                WorkspaceView {
                    id: self.id,
                    name: self.name,
                    ws_type,
                    webhook_url: self.webhook_url,
                },
            ),
            None => Err(RepositoryErrorView::Unexpected("Matching variant not found"@)),
        }
    }
}

impl WorkspaceDBRow {
    /// Reads the workspace out of a row.
    pub fn into_workspace(self) -> (r: Result<Workspace, RepositoryError>)
        ensures
            workspace_result_view(r) == self@.workspace(),
    {
        match WorkspaceType::from_str(self.ws_type.as_str()) {
            Ok(ws_type) => Ok(Workspace::new(self.id, self.name, ws_type, self.webhook_url)),
            Err(e) => Err(RepositoryError::Unexpected(e.to_string())),
        }
    }
}

/// The type that a request to create a workspace names; `BadType` with the
/// token where it names none. The backend checks this before it stores anything.
pub fn requested_type(payload: &CreateWorkspacePayload) -> (r: Result<
    WorkspaceType,
    RepositoryError,
>)
    ensures
        match r {
            Ok(ws_type) => WorkspaceType::parse(payload@.ws_type) == Some(ws_type),
            Err(e) => WorkspaceType::parse(payload@.ws_type) is None && e@
                == RepositoryErrorView::BadType(payload@.ws_type),
        },
{
    match WorkspaceType::from_str(payload.ws_type.as_str()) {
        Ok(ws_type) => Ok(ws_type),
        Err(_) => Err(RepositoryError::BadType(payload.ws_type.clone())),
    }
}

/// What an answer that should hold one row means where no workspace is
/// named: the row's workspace, or the backend's failure.
pub open spec fn stored_row(outcome: Result<WorkspaceDBRowView, QueryFailureView>) -> Result<
    WorkspaceView,
    RepositoryErrorView,
> {
    match outcome {
        Ok(row) => row.workspace(),
        Err(failure) => Err(failure.unexpected()),
    }
}

/// What an answer that should hold the row of the workspace under `id`
/// means: the row's workspace, `NotFound` where there was no row, or the
/// backend's failure.
pub open spec fn row_of(id: int, outcome: Result<WorkspaceDBRowView, QueryFailureView>) -> Result<
    WorkspaceView,
    RepositoryErrorView,
> {
    match outcome {
        Ok(row) => row.workspace(),
        Err(failure) => Err(failure.for_workspace(id)),
    }
}

/// What the answer to a delete means: the workspace is gone if a row was
/// removed, and was not there if none was.
pub open spec fn removed_row(id: int, outcome: Result<u64, QueryFailureView>) -> Result<
    (),
    RepositoryErrorView,
> {
    match outcome {
        Ok(rows) => if rows == 0 {
            Err(RepositoryErrorView::NotFound(id))
        } else {
            Ok(())
        },
        Err(failure) => Err(failure.for_workspace(id)),
    }
}

/// The result of `create`, from the answer to the insert.
pub fn created(outcome: Result<WorkspaceDBRow, QueryFailure>) -> (r: Result<
    Workspace,
    RepositoryError,
>)
    ensures
        workspace_result_view(r) == stored_row(
            match outcome {
                Ok(row) => Ok(row@),
                Err(failure) => Err(failure@),
            },
        ),
{
    match outcome {
        Ok(row) => row.into_workspace(),
        Err(failure) => Err(failure.into_unexpected()),
    }
}

/// The result of `find`, from the answer to the select.
pub fn found(id: WorkspaceId, outcome: Result<WorkspaceDBRow, QueryFailure>) -> (r: Result<
    Workspace,
    RepositoryError,
>)
    ensures
        workspace_result_view(r) == row_of(
            id@,
            match outcome {
                Ok(row) => Ok(row@),
                Err(failure) => Err(failure@),
            },
        ),
{
    match outcome {
        Ok(row) => row.into_workspace(),
        Err(failure) => Err(failure.into_error_for(id)),
    }
}

/// The result of `update`, from the answer to the update.
pub fn updated(id: WorkspaceId, outcome: Result<WorkspaceDBRow, QueryFailure>) -> (r: Result<
    Workspace,
    RepositoryError,
>)
    ensures
        workspace_result_view(r) == row_of(
            id@,
            match outcome {
                Ok(row) => Ok(row@),
                Err(failure) => Err(failure@),
            },
        ),
{
    found(id, outcome)
}

/// The result of `delete`, from the number of rows that the delete removed.
pub fn deleted(id: WorkspaceId, outcome: Result<u64, QueryFailure>) -> (r: Result<
    (),
    RepositoryError,
>)
    ensures
        unit_result_view(r) == removed_row(
            id@,
            match outcome {
                Ok(rows) => Ok(rows),
                Err(failure) => Err(failure@),
            },
        ),
{
    match outcome {
        Ok(rows) => if rows == 0 {
            Err(RepositoryError::NotFound(id))
        } else {
            Ok(())
        },
        Err(failure) => Err(failure.into_error_for(id)),
    }
}

/// The workspaces of a list of rows, in the rows' order; the failure of the
/// first row that holds none, if there is such a row.
pub open spec fn row_workspaces(rows: Seq<WorkspaceDBRowView>) -> Result<
    Seq<WorkspaceView>,
    RepositoryErrorView,
>
    decreases rows.len(),
{
    if rows.len() == 0 {
        Ok(Seq::empty())
    } else {
        match row_workspaces(rows.drop_last()) {
            Err(e) => Err(e),
            Ok(list) => match rows.last().workspace() {
                Ok(ws) => Ok(list.push(ws)),
                Err(e) => Err(e),
            },
        }
    }
}

/// What the answer to the select of every row means: the workspaces of the
/// rows, or the backend's failure.
pub open spec fn stored_rows(outcome: Result<Seq<WorkspaceDBRowView>, QueryFailureView>) -> Result<
    Seq<WorkspaceView>,
    RepositoryErrorView,
> {
    match outcome {
        Ok(rows) => row_workspaces(rows),
        Err(failure) => Err(failure.unexpected()),
    }
}

/// A failure among the first rows is the failure of the whole list.
proof fn lemma_first_failure_stands(rows: Seq<WorkspaceDBRowView>, upto: int)
    requires
        0 <= upto <= rows.len(),
        row_workspaces(rows.take(upto)) is Err,
    ensures
        row_workspaces(rows) == row_workspaces(rows.take(upto)),
    decreases rows.len() - upto,
{
    if upto < rows.len() {
        assert(rows.take(upto + 1).drop_last() =~= rows.take(upto));
        lemma_first_failure_stands(rows, upto + 1);
    } else {
        assert(rows.take(upto) =~= rows);
    }
}

/// The result of `all`, from the answer to the select: the workspaces of the
/// rows, in the rows' order.
pub fn listed(outcome: Result<Vec<WorkspaceDBRow>, QueryFailure>) -> (r: Result<
    Vec<Workspace>,
    RepositoryError,
>)
    ensures
        (match r {
            Ok(list) => Ok::<Seq<WorkspaceView>, RepositoryErrorView>(workspace_views(list@)),
            Err(e) => Err(e@),
        }) == stored_rows(
            match outcome {
                Ok(rows) => Ok(row_views(rows@)),
                Err(failure) => Err(failure@),
            },
        ),
{
    match outcome {
        Err(failure) => Err(failure.into_unexpected()),
        Ok(rows) => {
            let mut list: Vec<Workspace> = Vec::new();
            let mut n: usize = 0;
            assert(row_views(rows@).take(0) =~= Seq::<WorkspaceDBRowView>::empty());
            assert(workspace_views(list@) =~= Seq::<WorkspaceView>::empty());
            while n < rows.len()
                invariant
                    n <= rows.len(),
                    outcome == Ok::<Vec<WorkspaceDBRow>, QueryFailure>(rows),
                    row_workspaces(row_views(rows@).take(n as int)) == Ok::<
                        Seq<WorkspaceView>,
                        RepositoryErrorView,
                    >(workspace_views(list@)),
                decreases rows.len() - n,
            {
                let ghost done = workspace_views(list@);
                proof {
                    let next = row_views(rows@).take(n as int + 1);
                    assert(next.drop_last() =~= row_views(rows@).take(n as int));
                    assert(next.last() == rows@[n as int]@);
                }
                match rows[n].clone().into_workspace() {
                    Ok(ws) => {
                        list.push(ws);
                        assert(workspace_views(list@) =~= done.push(ws@));
                    },
                    Err(e) => {
                        proof {
                            lemma_first_failure_stands(row_views(rows@), n as int + 1);
                        }
                        return Err(e);
                    },
                }
                n = n + 1;
            }
            assert(row_views(rows@).take(n as int) =~= row_views(rows@));
            Ok(list)
        },
    }
}

/// Where every row holds a workspace, the rows' workspaces are those, one
/// for each row and in the rows' order.
pub proof fn lemma_row_workspaces_of_good_rows(rows: Seq<WorkspaceDBRowView>)
    requires
        forall|i: int| 0 <= i < rows.len() ==> (#[trigger] rows[i]).workspace() is Ok,
    ensures
        row_workspaces(rows) matches Ok(list) && list.len() == rows.len() && forall|i: int|
            0 <= i < rows.len() ==> (#[trigger] rows[i]).workspace() == Ok::<
                WorkspaceView,
                RepositoryErrorView,
            >(list[i]),
    decreases rows.len(),
{
    if rows.len() > 0 {
        let earlier = rows.drop_last();
        assert forall|i: int| 0 <= i < earlier.len() implies (#[trigger] earlier[i]).workspace()
            is Ok by {
            assert(earlier[i] == rows[i]);
        }
        lemma_row_workspaces_of_good_rows(earlier);
        let list = row_workspaces(rows)->Ok_0;
        assert forall|i: int| 0 <= i < rows.len() implies (#[trigger] rows[i]).workspace() == Ok::<
            WorkspaceView,
            RepositoryErrorView,
        >(list[i]) by {
            if i < earlier.len() {
                assert(earlier[i] == rows[i]);
            }
        }
    }
}

/// Where the database answers a select by id truthfully, with the row of the
/// record under the id or with no row where there is none, `found` gives what
/// `find` owes.
pub proof fn lemma_found_is_what_find_owes(
    records: Map<int, WorkspaceView>,
    id: int,
    outcome: Result<WorkspaceDBRowView, QueryFailureView>,
)
    requires
        outcome matches Ok(row) ==> records.contains_key(id) && row.workspace() == Ok::<
            WorkspaceView,
            RepositoryErrorView,
        >(records[id]),
        outcome matches Err(QueryFailureView::RowNotFound) ==> !records.contains_key(id),
    ensures
        find_outcome(records, id, row_of(id, outcome)),
{
}

/// Where the database answers a select of every row truthfully, with one row
/// for each record, `listed` gives what `all` owes.
pub proof fn lemma_listed_is_what_all_owes(
    records: Map<int, WorkspaceView>,
    rows: Seq<WorkspaceDBRowView>,
)
    requires
        forall|i: int|
            0 <= i < rows.len() ==> records.contains_key((#[trigger] rows[i]).id)
                && rows[i].workspace() == Ok::<WorkspaceView, RepositoryErrorView>(
                records[rows[i].id],
            ),
        forall|id: int| #[trigger]
            records.contains_key(id) ==> exists|i: int|
                0 <= i < rows.len() && (#[trigger] rows[i]).id == id,
        forall|i: int, j: int|
            0 <= i < j < rows.len() ==> (#[trigger] rows[i]).id != (#[trigger] rows[j]).id,
    ensures
        stored_rows(Ok(rows)) matches Ok(list) && is_listing(records, list),
{
    lemma_row_workspaces_of_good_rows(rows);
    let list = row_workspaces(rows)->Ok_0;
    assert forall|i: int| 0 <= i < list.len() implies records.contains_key(#[trigger] list[i].id)
        && records[list[i].id] == list[i] by {
        assert(rows[i].workspace() == Ok::<WorkspaceView, RepositoryErrorView>(list[i]));
    }
    assert forall|id: int| #[trigger] records.contains_key(id) implies exists|i: int|
        0 <= i < list.len() && #[trigger] list[i].id == id by {
        let i = choose|i: int| 0 <= i < rows.len() && (#[trigger] rows[i]).id == id;
        assert(rows[i].workspace() == Ok::<WorkspaceView, RepositoryErrorView>(list[i]));
        assert(list[i].id == id);
    }
    assert forall|i: int, j: int| 0 <= i < j < list.len() implies #[trigger] list[i].id
        != #[trigger] list[j].id by {
        assert(rows[i].workspace() == Ok::<WorkspaceView, RepositoryErrorView>(list[i]));
        assert(rows[j].workspace() == Ok::<WorkspaceView, RepositoryErrorView>(list[j]));
    }
}

/// Where the database does what the insert says, storing the payload's
/// fields under an id that was free and handing that row back, `created`
/// gives what `create` owes for a payload whose type was checked.
pub proof fn lemma_created_is_what_create_owes(
    before: Map<int, WorkspaceView>,
    after: Map<int, WorkspaceView>,
    payload: CreateWorkspacePayloadView,
    outcome: Result<WorkspaceDBRowView, QueryFailureView>,
)
    requires
        WorkspaceType::parse(payload.ws_type) is Some,
        outcome matches Ok(row) ==> {
            &&& row.name == payload.name
            &&& row.ws_type == payload.ws_type
            &&& row.webhook_url == payload.webhook_url
            &&& !before.contains_key(row.id)
            &&& row.workspace() matches Ok(ws) && after == before.insert(row.id, ws)
        },
    ensures
        create_outcome(before, after, payload, stored_row(outcome)),
{
}

/// Where the database does what the update says, replacing the row under the
/// workspace's id and handing the new row back, or giving no row where there
/// is none under the id, `updated` gives what `update` owes.
pub proof fn lemma_updated_is_what_update_owes(
    before: Map<int, WorkspaceView>,
    after: Map<int, WorkspaceView>,
    ws: WorkspaceView,
    outcome: Result<WorkspaceDBRowView, QueryFailureView>,
)
    requires
        outcome matches Ok(row) ==> {
            &&& before.contains_key(ws.id)
            &&& after == before.insert(ws.id, ws)
            &&& row.workspace() == Ok::<WorkspaceView, RepositoryErrorView>(ws)
        },
        outcome matches Err(QueryFailureView::RowNotFound) ==> !before.contains_key(ws.id) && after
            == before,
    ensures
        update_outcome(before, after, ws, row_of(ws.id, outcome)),
{
}

/// Where the database does what the delete says and counts the rows it
/// removed, `deleted` gives what `delete` owes.
pub proof fn lemma_deleted_is_what_delete_owes(
    before: Map<int, WorkspaceView>,
    after: Map<int, WorkspaceView>,
    id: int,
    outcome: Result<u64, QueryFailureView>,
)
    requires
        outcome matches Ok(rows) ==> if rows == 0 {
            !before.contains_key(id) && after == before
        } else {
            before.contains_key(id) && after == before.remove(id)
        },
        outcome matches Err(QueryFailureView::RowNotFound) ==> !before.contains_key(id) && after
            == before,
    ensures
        delete_outcome(before, after, id, removed_row(id, outcome)),
{
}

} // verus!
