//! The repository of workspaces: what every backend owes its callers, and the
//! backend that keeps the records in memory.

pub mod pg;

use crate::entity::{
    Workspace, WorkspaceId, WorkspaceIdTypeAlias, WorkspaceType, WorkspaceView, workspace_views,
};
use crate::text::decimal;
use crate::validation::workspace_field_violations;
use crate::workspace::service::{CreateWorkspacePayload, CreateWorkspacePayloadView};
use std::collections::HashMap;
use vstd::prelude::*;
use vstd::std_specs::hash::spec_keys_iter;
use vstd::std_specs::iter::IteratorSpec;
use vstd::string::*;

verus! {

broadcast use vstd::std_specs::hash::group_hash_axioms;

/// Why a repository did not do what it was asked.
#[derive(Debug, PartialEq, Eq)]
pub enum RepositoryError {
    /// The backend failed.
    Unexpected(String),
    /// No workspace has this id.
    NotFound(WorkspaceId),
    /// The token names no workspace type.
    BadType(String),
}

/// A repository's failure as contracts see it.
pub enum RepositoryErrorView {
    Unexpected(Seq<char>),
    NotFound(int),
    BadType(Seq<char>),
}

impl View for RepositoryError {
    type V = RepositoryErrorView;

    open spec fn view(&self) -> RepositoryErrorView {
        match self {
            RepositoryError::Unexpected(detail) => RepositoryErrorView::Unexpected(detail@),
            RepositoryError::NotFound(id) => RepositoryErrorView::NotFound(id@),
            RepositoryError::BadType(token) => RepositoryErrorView::BadType(token@),
        }
    }
}

impl Clone for RepositoryError {
    fn clone(&self) -> (r: Self)
        ensures
            r@ == self@,
    {
        match self {
            RepositoryError::Unexpected(detail) => RepositoryError::Unexpected(detail.clone()),
            RepositoryError::NotFound(id) => RepositoryError::NotFound(*id),
            RepositoryError::BadType(token) => RepositoryError::BadType(token.clone()),
        }
    }
}

impl RepositoryErrorView {
    /// The text of the error as it is logged.
    pub open spec fn message(self) -> Seq<char> {
        match self {
            RepositoryErrorView::Unexpected(detail) => "Unexpected Error: "@ + detail,
            RepositoryErrorView::NotFound(id) => "NotFound! ID is "@ + decimal(id),
            RepositoryErrorView::BadType(token) => "Unknown workspace type: "@ + token,
        }
    }
}

impl RepositoryError {
    pub fn to_string(&self) -> (r: String)
        ensures
            r@ == self@.message(),
    {
        match self {
            RepositoryError::Unexpected(detail) => {
                let mut out = String::from_str("Unexpected Error: ");
                out.append(detail.as_str());
                out
            },
            RepositoryError::NotFound(id) => {
                let mut out = String::from_str("NotFound! ID is ");
                out.append(id.to_string().as_str());
                out
            },
            RepositoryError::BadType(token) => {
                let mut out = String::from_str("Unknown workspace type: ");
                out.append(token.as_str());
                out
            },
        }
    }
}

/// What a repository call gave, as contracts see it.
pub open spec fn workspace_result_view(r: Result<Workspace, RepositoryError>) -> Result<
    WorkspaceView,
    RepositoryErrorView,
> {
    match r {
        Ok(ws) => Ok(ws@),
        Err(e) => Err(e@),
    }
}

/// What a call without a value gave, as contracts see it.
pub open spec fn unit_result_view(r: Result<(), RepositoryError>) -> Result<
    (),
    RepositoryErrorView,
> {
    match r {
        Ok(()) => Ok(()),
        Err(e) => Err(e@),
    }
}

/// `list` holds every record of `records`, each once and under its own id,
/// and nothing else.
pub open spec fn is_listing(records: Map<int, WorkspaceView>, list: Seq<WorkspaceView>) -> bool {
    &&& forall|i: int|
        0 <= i < list.len() ==> records.contains_key(#[trigger] list[i].id) && records[list[i].id]
            == list[i]
    &&& forall|id: int| #[trigger]
        records.contains_key(id) ==> exists|i: int| 0 <= i < list.len() && #[trigger] list[i].id == id
    &&& forall|i: int, j: int|
        0 <= i < j < list.len() ==> #[trigger] list[i].id != #[trigger] list[j].id
}

/// `after` is `before` with the new workspace `ws`, made of `payload`, under an id
/// that was free.
pub open spec fn is_created(
    before: Map<int, WorkspaceView>,
    after: Map<int, WorkspaceView>,
    payload: CreateWorkspacePayloadView,
    ws: WorkspaceView,
) -> bool {
    &&& !before.contains_key(ws.id)
    &&& after == before.insert(ws.id, ws)
    &&& ws.name == payload.name
    &&& WorkspaceType::parse(payload.ws_type) == Some(ws.ws_type)
    &&& ws.webhook_url == payload.webhook_url
}

/// What `create` owes, by its result: on success the new workspace is
/// stored under a fresh id; a token that names no type is refused with
/// `BadType` and nothing is stored; any other failure is the backend's.
pub open spec fn create_outcome(
    before: Map<int, WorkspaceView>,
    after: Map<int, WorkspaceView>,
    payload: CreateWorkspacePayloadView,
    r: Result<WorkspaceView, RepositoryErrorView>,
) -> bool {
    match r {
        Ok(ws) => is_created(before, after, payload, ws),
        Err(RepositoryErrorView::BadType(token)) => {
            &&& token == payload.ws_type
            &&& WorkspaceType::parse(token) is None
            &&& after == before
        },
        Err(RepositoryErrorView::Unexpected(_)) => WorkspaceType::parse(payload.ws_type) is Some,
        Err(RepositoryErrorView::NotFound(_)) => false,
    }
}

/// What `find` owes, by its result: the record under the id, or `NotFound`
/// with that id where there is none.
pub open spec fn find_outcome(
    records: Map<int, WorkspaceView>,
    id: int,
    r: Result<WorkspaceView, RepositoryErrorView>,
) -> bool {
    match r {
        Ok(ws) => records.contains_key(id) && records[id] == ws,
        Err(RepositoryErrorView::NotFound(missing)) => missing == id && !records.contains_key(id),
        Err(RepositoryErrorView::Unexpected(_)) => true,
        Err(RepositoryErrorView::BadType(_)) => false,
    }
}

/// What `update` owes, by its result: the record under the workspace's id is
/// replaced by the workspace, or `NotFound` with that id where there is none,
/// and nothing changes then.
pub open spec fn update_outcome(
    before: Map<int, WorkspaceView>,
    after: Map<int, WorkspaceView>,
    payload: WorkspaceView,
    r: Result<WorkspaceView, RepositoryErrorView>,
) -> bool {
    match r {
        Ok(ws) => {
            &&& before.contains_key(payload.id)
            &&& after == before.insert(payload.id, payload)
            &&& ws == payload
        },
        Err(RepositoryErrorView::NotFound(missing)) => {
            &&& missing == payload.id
            &&& !before.contains_key(payload.id)
            &&& after == before
        },
        Err(RepositoryErrorView::Unexpected(_)) => true,
        Err(RepositoryErrorView::BadType(_)) => false,
    }
}

/// What `delete` owes, by its result: the record under the id is gone, or
/// `NotFound` with that id where there was none, and nothing changes then.
pub open spec fn delete_outcome(
    before: Map<int, WorkspaceView>,
    after: Map<int, WorkspaceView>,
    id: int,
    r: Result<(), RepositoryErrorView>,
) -> bool {
    match r {
        Ok(()) => before.contains_key(id) && after == before.remove(id),
        Err(RepositoryErrorView::NotFound(missing)) => {
            &&& missing == id
            &&& !before.contains_key(id)
            &&& after == before
        },
        Err(RepositoryErrorView::Unexpected(_)) => true,
        Err(RepositoryErrorView::BadType(_)) => false,
    }
}

/// What every backend owes: the live records are a map from id to workspace,
/// and each call says what it did to that map. A backend may fail with
/// `Unexpected` where its storage does; nothing is said of the records then.
pub trait WorkspaceRepository {
    /// The live records, by id.
    spec fn records(&self) -> Map<int, WorkspaceView>;

    /// Stores a new workspace under an id that the backend picks.
    fn create(&mut self, payload: CreateWorkspacePayload) -> (r: Result<Workspace, RepositoryError>)
        ensures
            create_outcome(
                old(self).records(),
                final(self).records(),
                payload@,
                workspace_result_view(r),
            ),
    ;

    /// Every live record, each once, in an order that the backend chooses.
    fn all(&self) -> (r: Result<Vec<Workspace>, RepositoryError>)
        ensures
            match r {
                Ok(list) => is_listing(self.records(), workspace_views(list@)),
                Err(e) => e@ is Unexpected,
            },
    ;

    /// The record under `id`.
    fn find(&self, id: WorkspaceId) -> (r: Result<Workspace, RepositoryError>)
        ensures
            find_outcome(self.records(), id@, workspace_result_view(r)),
    ;

    /// Replaces the whole record under the workspace's id.
    fn update(&mut self, payload: Workspace) -> (r: Result<Workspace, RepositoryError>)
        ensures
            update_outcome(
                old(self).records(),
                final(self).records(),
                payload@,
                workspace_result_view(r),
            ),
    ;

    /// Removes the record under `id`. The record must be there: to delete
    /// what is absent is an error.
    fn delete(&mut self, id: WorkspaceId) -> (r: Result<(), RepositoryError>)
        ensures
            delete_outcome(old(self).records(), final(self).records(), id@, unit_result_view(r)),
    ;
}

/// Every record has a name of 1 to 100 characters and a webhook URL that is
/// not empty.
pub open spec fn all_valid(records: Map<int, WorkspaceView>) -> bool {
    forall|id: int| #[trigger] records.contains_key(id) ==> records[id].is_valid()
}

/// Of every backend: a payload that breaks no rule creates a valid workspace,
/// and valid records stay valid through such a `create`, through an `update`
/// to a valid workspace and through a `delete`.
pub proof fn lemma_valid_records_stay_valid(
    before: Map<int, WorkspaceView>,
    after: Map<int, WorkspaceView>,
    payload: CreateWorkspacePayloadView,
    ws: WorkspaceView,
    id: int,
)
    requires
        all_valid(before),
    ensures
        create_outcome(before, after, payload, Ok(ws)) && workspace_field_violations(
            payload.name,
            payload.ws_type,
            payload.webhook_url,
        ).len() == 0 ==> ws.is_valid() && all_valid(after),
        update_outcome(before, after, ws, Ok(ws)) && ws.is_valid() ==> all_valid(after),
        delete_outcome(before, after, id, Ok(())) ==> all_valid(after),
{
}

/// Of every backend: what `create` returned is what a `find` of its id
/// returns right after it, unless the backend fails; the workspace is not
/// reported missing.
pub proof fn lemma_find_after_create(
    before: Map<int, WorkspaceView>,
    after: Map<int, WorkspaceView>,
    payload: CreateWorkspacePayloadView,
    ws: WorkspaceView,
    found: Result<WorkspaceView, RepositoryErrorView>,
)
    requires
        create_outcome(before, after, payload, Ok(ws)),
        find_outcome(after, ws.id, found),
    ensures
        found == Ok::<WorkspaceView, RepositoryErrorView>(ws) || (found matches Err(e) && e
            is Unexpected),
{
}

/// Of every backend: an `update` of an id that is not in use fails, with
/// `NotFound` unless the backend itself fails; and after an `update` that
/// succeeded, a `find` of the id returns the new record, unless the backend
/// fails.
pub proof fn lemma_find_after_update(
    before: Map<int, WorkspaceView>,
    after: Map<int, WorkspaceView>,
    ws: WorkspaceView,
    updated: Result<WorkspaceView, RepositoryErrorView>,
    found: Result<WorkspaceView, RepositoryErrorView>,
)
    requires
        update_outcome(before, after, ws, updated),
        find_outcome(after, ws.id, found),
    ensures
        !before.contains_key(ws.id) ==> (updated matches Err(e) && (e
            == RepositoryErrorView::NotFound(ws.id) || e is Unexpected)),
        updated is Ok ==> (found == Ok::<WorkspaceView, RepositoryErrorView>(ws) || (
        found matches Err(e) && e is Unexpected)),
{
}

/// Of every backend: a `delete` of an id that is not in use fails, with
/// `NotFound` unless the backend itself fails; and after a `delete` that
/// succeeded, a `find` of the id does not succeed, and no listing holds a
/// record with the id.
pub proof fn lemma_gone_after_delete(
    before: Map<int, WorkspaceView>,
    after: Map<int, WorkspaceView>,
    id: int,
    deleted: Result<(), RepositoryErrorView>,
    found: Result<WorkspaceView, RepositoryErrorView>,
    listing: Seq<WorkspaceView>,
)
    requires
        delete_outcome(before, after, id, deleted),
        find_outcome(after, id, found),
        is_listing(after, listing),
    ensures
        !before.contains_key(id) ==> (deleted matches Err(e) && (e
            == RepositoryErrorView::NotFound(id) || e is Unexpected)),
        deleted is Ok ==> (found matches Err(e) && (e == RepositoryErrorView::NotFound(id) || e
            is Unexpected)),
        deleted is Ok ==> forall|i: int| 0 <= i < listing.len() ==> (#[trigger] listing[i]).id != id,
{
}

/// What `create` reports when every id has been given out.
pub const ID_SPACE_EXHAUSTED: &'static str = "no workspace id is left";

/// The in-memory backend as contracts see it: the live records, and the
/// largest id it has held so far.
pub struct StoreView {
    pub records: Map<int, WorkspaceView>,
    pub last_id: int,
}

impl StoreView {
    /// Every record lies under its own id, and no id is beyond the largest so far.
    pub open spec fn wf(self) -> bool {
        &&& i32::MIN <= self.last_id <= i32::MAX
        &&& forall|id: int| #[trigger]
            self.records.contains_key(id) ==> self.records[id].id == id && i32::MIN <= id
                <= self.last_id
    }

    /// A store that has held nothing yet.
    pub open spec fn empty() -> StoreView {
        StoreView { records: Map::empty(), last_id: 0 }
    }

    /// The store after a record was put in place under its id, whatever lay there.
    pub open spec fn insert(self, ws: WorkspaceView) -> StoreView {
        StoreView {
            records: self.records.insert(ws.id, ws),
            last_id: if ws.id > self.last_id {
                ws.id
            } else {
                self.last_id
            },
        }
    }

    /// `create`: the new workspace gets the id after the largest so far.
    pub open spec fn create(self, payload: CreateWorkspacePayloadView) -> (
        StoreView,
        Result<WorkspaceView, RepositoryErrorView>,
    ) {
        match WorkspaceType::parse(payload.ws_type) {
            None => (self, Err(RepositoryErrorView::BadType(payload.ws_type))),
            Some(ws_type) => if self.last_id >= i32::MAX {
                (self, Err(RepositoryErrorView::Unexpected(ID_SPACE_EXHAUSTED@)))
            } else {
                let ws = WorkspaceView {
                    id: self.last_id + 1,
                    name: payload.name,
                    ws_type,
                    webhook_url: payload.webhook_url,
                };
                (StoreView { records: self.records.insert(ws.id, ws), last_id: ws.id }, Ok(ws))
            },
        }
    }

    /// `find`: the record under the id, if there is one.
    pub open spec fn find(self, id: int) -> Result<WorkspaceView, RepositoryErrorView> {
        if self.records.contains_key(id) {
            Ok(self.records[id])
        } else {
            Err(RepositoryErrorView::NotFound(id))
        }
    }

    /// `update`: the record under the workspace's id is replaced, if there is one.
    pub open spec fn update(self, ws: WorkspaceView) -> (
        StoreView,
        Result<WorkspaceView, RepositoryErrorView>,
    ) {
        if self.records.contains_key(ws.id) {
            (StoreView { records: self.records.insert(ws.id, ws), last_id: self.last_id }, Ok(ws))
        } else {
            (self, Err(RepositoryErrorView::NotFound(ws.id)))
        }
    }

    /// `delete`: the record under the id is removed, if there is one.
    pub open spec fn delete(self, id: int) -> (StoreView, Result<(), RepositoryErrorView>) {
        if self.records.contains_key(id) {
            (StoreView { records: self.records.remove(id), last_id: self.last_id }, Ok(()))
        } else {
            (self, Err(RepositoryErrorView::NotFound(id)))
        }
    }
}

impl StoreView {
    /// Each call leaves the store well formed.
    pub proof fn lemma_wf_is_kept(
        self,
        payload: CreateWorkspacePayloadView,
        ws: WorkspaceView,
        id: int,
    )
        requires
            self.wf(),
        ensures
            self.create(payload).0.wf(),
            self.update(ws).0.wf(),
            self.delete(id).0.wf(),
            i32::MIN <= ws.id <= i32::MAX ==> self.insert(ws).wf(),
    {
    }

    /// What `create` returned is what `find` returns right after it, under
    /// the id that `create` gave; and that id was not in use before.
    pub proof fn lemma_create_then_find(self, payload: CreateWorkspacePayloadView)
        requires
            self.wf(),
        ensures
            ({
                let (after, r) = self.create(payload);
                r matches Ok(ws) ==> {
                    &&& after.find(ws.id) == Ok::<WorkspaceView, RepositoryErrorView>(ws)
                    &&& !self.records.contains_key(ws.id)
                    &&& ws.id == self.last_id + 1
                }
            }),
            create_outcome(
                self.records,
                self.create(payload).0.records,
                payload,
                self.create(payload).1,
            ),
    {
    }

    /// `update` fails with `NotFound` exactly where the id is not in use,
    /// and changes nothing then. Where it is in use, `update` succeeds, and
    /// `find` returns the new record right after it.
    pub proof fn lemma_update(self, ws: WorkspaceView)
        ensures
            ({
                let (after, r) = self.update(ws);
                if self.records.contains_key(ws.id) {
                    &&& r == Ok::<WorkspaceView, RepositoryErrorView>(ws)
                    &&& after.find(ws.id) == r
                } else {
                    &&& r == Err::<WorkspaceView, RepositoryErrorView>(
                        RepositoryErrorView::NotFound(ws.id),
                    )
                    &&& after == self
                }
            }),
            update_outcome(self.records, self.update(ws).0.records, ws, self.update(ws).1),
    {
    }

    /// `delete` fails with `NotFound` exactly where the id is not in use, and
    /// changes nothing then. After a `delete` that succeeded, `find` fails
    /// with `NotFound` for the id, and no listing holds a record with it.
    pub proof fn lemma_delete(self, id: int, listing: Seq<WorkspaceView>)
        ensures
            ({
                let (after, r) = self.delete(id);
                if self.records.contains_key(id) {
                    &&& r == Ok::<(), RepositoryErrorView>(())
                    &&& after.find(id) == Err::<WorkspaceView, RepositoryErrorView>(
                        RepositoryErrorView::NotFound(id),
                    )
                    &&& is_listing(after.records, listing) ==> forall|i: int|
                        0 <= i < listing.len() ==> (#[trigger] listing[i]).id != id
                } else {
                    &&& r == Err::<(), RepositoryErrorView>(RepositoryErrorView::NotFound(id))
                    &&& after == self
                }
            }),
            delete_outcome(self.records, self.delete(id).0.records, id, self.delete(id).1),
    {
    }
}

/// The backend that keeps its records in memory. Ids count up from 1 and are
/// never given out twice, also after a delete.
#[derive(Debug)]
pub struct WorkspaceRepositoryForMemory {
    store: HashMap<WorkspaceIdTypeAlias, Workspace>,
    last_id: WorkspaceIdTypeAlias,
}

impl View for WorkspaceRepositoryForMemory {
    type V = StoreView;

    closed spec fn view(&self) -> StoreView {
        StoreView {
            records: Map::new(
                |id: int| i32::MIN <= id <= i32::MAX && self.store@.contains_key(id as i32),
                |id: int| self.store@[id as i32]@,
            ),
            last_id: self.last_id as int,
        }
    }
}

impl WorkspaceRepositoryForMemory {
    #[verifier::type_invariant]
    spec fn keyed_by_id(&self) -> bool {
        forall|key: i32| #[trigger]
            self.store@.contains_key(key) ==> self.store@[key].id@ == key && key <= self.last_id
    }

    pub fn new() -> (r: Self)
        ensures
            r@ == StoreView::empty(),
            r@.wf(),
    {
        let r = Self { store: HashMap::new(), last_id: 0 };
        assert(r@.records =~= Map::<int, WorkspaceView>::empty());
        r
    }

    /// The ids in use, each once.
    fn keys(&self) -> (r: Vec<WorkspaceIdTypeAlias>)
        ensures
            r@.no_duplicates(),
            r@.to_set() == self.store@.dom(),
    {
        let mut out: Vec<WorkspaceIdTypeAlias> = Vec::new();
        for key in walk: self.store.keys()
            invariant
                walk.seq() == spec_keys_iter(&self.store).remaining(),
                out@ == walk.seq().take(walk.index() as int).unref(),
        {
            out.push(*key);
        }
        assert(out@ == spec_keys_iter(&self.store).remaining().unref());
        out
    }

    /// Puts a record in place under its own id, whatever lay there before.
    pub fn insert(&mut self, ws: Workspace)
        ensures
            final(self)@ == old(self)@.insert(ws@),
            final(self)@.wf(),
    {
        proof {
            use_type_invariant(&*self);
        }
        let key = ws.id.to_raw();
        let mut store: HashMap<WorkspaceIdTypeAlias, Workspace> = HashMap::new();
        core::mem::swap(&mut self.store, &mut store);
        store.insert(key, ws);
        if key > self.last_id {
            self.last_id = key;
        }
        core::mem::swap(&mut self.store, &mut store);
        assert(self@.records =~= old(self)@.records.insert(ws@.id, ws@));
    }
}

impl WorkspaceRepository for WorkspaceRepositoryForMemory {
    open spec fn records(&self) -> Map<int, WorkspaceView> {
        self@.records
    }

    fn create(&mut self, payload: CreateWorkspacePayload) -> (r: Result<Workspace, RepositoryError>)
        ensures
            (final(self)@, workspace_result_view(r)) == old(self)@.create(payload@),
            final(self)@.wf(),
    {
        proof {
            use_type_invariant(&*self);
        }
        let ws_type = match WorkspaceType::from_str(payload.ws_type.as_str()) {
            Ok(ws_type) => ws_type,
            Err(_) => {
                return Err(RepositoryError::BadType(payload.ws_type));
            },
        };
        if self.last_id == i32::MAX {
            return Err(RepositoryError::Unexpected(String::from_str(ID_SPACE_EXHAUSTED)));
        }
        let id = self.last_id + 1;
        let ws = Workspace::new(WorkspaceId::new(id), payload.name, ws_type, payload.webhook_url);
        let stored = ws.clone();
        let mut store: HashMap<WorkspaceIdTypeAlias, Workspace> = HashMap::new();
        core::mem::swap(&mut self.store, &mut store);
        store.insert(id, stored);
        self.last_id = id;
        core::mem::swap(&mut self.store, &mut store);
        assert(self@.records =~= old(self)@.records.insert(ws@.id, ws@));
        Ok(ws)
    }

    fn all(&self) -> (r: Result<Vec<Workspace>, RepositoryError>)
        ensures
            r is Ok,
            self@.wf(),
    {
        proof {
            use_type_invariant(self);
        }
        let keys = self.keys();
        let mut list: Vec<Workspace> = Vec::new();
        let mut n: usize = 0;
        while n < keys.len()
            invariant
                n <= keys.len(),
                list@.len() == n,
                keys@.to_set() == self.store@.dom(),
                forall|i: int| 0 <= i < n ==> (#[trigger] list@[i])@ == self.store@[keys@[i]]@,
            decreases keys.len() - n,
        {
            assert(keys@.to_set().contains(keys@[n as int]));
            // every key of the walk is a key of the map
            if let Some(ws) = self.store.get(&keys[n]) {
                list.push(ws.clone());
            }
            n = n + 1;
        }
        proof {
            let views = workspace_views(list@);
            assert forall|i: int| 0 <= i < views.len() implies self.records().contains_key(
                #[trigger] views[i].id,
            ) && self.records()[views[i].id] == views[i] by {
                assert(keys@.to_set().contains(keys@[i]));
                assert(list@[i]@ == self.store@[keys@[i]]@);
            }
            assert forall|id: int| #[trigger] self.records().contains_key(id) implies exists|
                i: int,
            |
                0 <= i < views.len() && #[trigger] views[i].id == id by {
                let key = id as i32;
                assert(keys@.to_set().contains(key));
                let i = choose|i: int| 0 <= i < keys@.len() && keys@[i] == key;
                assert(list@[i]@ == self.store@[keys@[i]]@);
                assert(views[i].id == id);
            }
            assert forall|i: int, j: int| 0 <= i < j < views.len() implies #[trigger] views[i].id
                != #[trigger] views[j].id by {
                assert(keys@.to_set().contains(keys@[i]));
                assert(keys@.to_set().contains(keys@[j]));
                assert(list@[i]@ == self.store@[keys@[i]]@);
                assert(list@[j]@ == self.store@[keys@[j]]@);
                assert(keys@[i] != keys@[j]);
            }
        }
        Ok(list)
    }

    fn find(&self, id: WorkspaceId) -> (r: Result<Workspace, RepositoryError>)
        ensures
            workspace_result_view(r) == self@.find(id@),
            self@.wf(),
    {
        proof {
            use_type_invariant(self);
        }
        let key = id.to_raw();
        match self.store.get(&key) {
            Some(ws) => Ok(ws.clone()),
            None => Err(RepositoryError::NotFound(id)),
        }
    }

    fn update(&mut self, payload: Workspace) -> (r: Result<Workspace, RepositoryError>)
        ensures
            (final(self)@, workspace_result_view(r)) == old(self)@.update(payload@),
            final(self)@.wf(),
    {
        proof {
            use_type_invariant(&*self);
        }
        let key = payload.id.to_raw();
        if !self.store.contains_key(&key) {
            return Err(RepositoryError::NotFound(payload.id));
        }
        let stored = payload.clone();
        let mut store: HashMap<WorkspaceIdTypeAlias, Workspace> = HashMap::new();
        core::mem::swap(&mut self.store, &mut store);
        store.insert(key, stored);
        core::mem::swap(&mut self.store, &mut store);
        assert(self@.records =~= old(self)@.records.insert(payload@.id, payload@));
        Ok(payload)
    }

    fn delete(&mut self, id: WorkspaceId) -> (r: Result<(), RepositoryError>)
        ensures
            (final(self)@, unit_result_view(r)) == old(self)@.delete(id@),
            final(self)@.wf(),
    {
        proof {
            use_type_invariant(&*self);
        }
        let key = id.to_raw();
        let mut store: HashMap<WorkspaceIdTypeAlias, Workspace> = HashMap::new();
        core::mem::swap(&mut self.store, &mut store);
        let removed = store.remove(&key);
        core::mem::swap(&mut self.store, &mut store);
        match removed {
            Some(_) => {
                assert(self@.records =~= old(self)@.records.remove(id@));
                Ok(())
            },
            None => {
                assert(self@.records =~= old(self)@.records);
                Err(RepositoryError::NotFound(id))
            },
        }
    }
}

} // verus!
