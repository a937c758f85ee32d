//! The dispatcher: one message goes to every listed workspace that the request
//! names. It decides; its caller fetches the listing and posts to the webhooks,
//! and hands back what came of each.

use crate::entity::{Workspace, WorkspaceId, WorkspaceIdTypeAlias, WorkspaceView, workspace_views};
use crate::message::service::{
    Sender, WebhookReply, WebhookReplyView, WebhookRequest, WebhookRequestView, delivery_result,
    get_sender, request_for,
};
use crate::status::StatusCode;
use crate::validation::{Validate, ValidationError};
use crate::workspace::handler::{repository_error_status, repository_error_to_status_code};
use crate::workspace::repository::{RepositoryError, RepositoryErrorView};
use std::collections::HashSet;
use vstd::prelude::*;
use vstd::string::*;

verus! {

broadcast use vstd::std_specs::hash::group_hash_axioms;

/// The body of a request to send a message: the text, and the ids of the
/// workspaces it is meant for. An id may occur twice, or name no workspace.
#[derive(Debug, PartialEq, Eq)]
pub struct MessagePayload {
    pub targets: Vec<WorkspaceId>,
    pub text: String,
}

/// A request to send a message as contracts see it.
pub struct MessagePayloadView {
    pub targets: Seq<int>,
    pub text: Seq<char>,
}

/// The integers of a list of ids, in the list's order.
pub open spec fn id_views(ids: Seq<WorkspaceId>) -> Seq<int> {
    ids.map_values(|id: WorkspaceId| id@)
}

/// The texts of a list of strings, in the list's order.
pub open spec fn string_views(list: Seq<String>) -> Seq<Seq<char>> {
    list.map_values(|s: String| s@)
}

impl View for MessagePayload {
    type V = MessagePayloadView;

    open spec fn view(&self) -> MessagePayloadView {
        MessagePayloadView { targets: id_views(self.targets@), text: self.text@ }
    }
}

impl Clone for MessagePayload {
    fn clone(&self) -> (r: Self)
        ensures
            r@ == self@,
    {
        let r = MessagePayload { targets: self.targets.clone(), text: self.text.clone() };
        assert(id_views(r.targets@) =~= id_views(self.targets@));
        r
    }
}

impl Validate for MessagePayload {
    open spec fn violations(&self) -> Seq<ValidationError> {
        Seq::empty()
    }

    fn validate(&self) -> (r: Result<(), Vec<ValidationError>>) {
        Ok(())
    }
}

/// The listed workspaces whose id is among the targets, in the listing's order.
pub open spec fn matched_workspaces(listing: Seq<WorkspaceView>, targets: Seq<int>) -> Seq<
    WorkspaceView,
> {
    listing.filter(|ws: WorkspaceView| targets.contains(ws.id))
}

/// Picks from a listing the workspaces whose id is among the targets. A target
/// that names no listed workspace picks nothing.
pub fn select_targets(listing: &Vec<Workspace>, targets: &Vec<WorkspaceId>) -> (r: Vec<Workspace>)
    ensures
        workspace_views(r@) == matched_workspaces(workspace_views(listing@), id_views(targets@)),
{
    let mut wanted: HashSet<WorkspaceIdTypeAlias> = HashSet::new();
    let mut t: usize = 0;
    while t < targets.len()
        invariant
            t <= targets.len(),
            forall|id: i32|
                wanted@.contains(id) <==> id_views(targets@).take(t as int).contains(id as int),
        decreases targets.len() - t,
    {
        let raw = targets[t].to_raw();
        wanted.insert(raw);
        proof {
            let before = id_views(targets@).take(t as int);
            let after = id_views(targets@).take(t as int + 1);
            assert(after =~= before.push(raw as int));
            assert forall|id: i32|
                wanted@.contains(id) <==> after.contains(id as int) by {
                if before.contains(id as int) {
                    let at = choose|at: int| 0 <= at < before.len() && before[at] == id as int;
                    assert(after[at] == id as int);
                }
                if id == raw {
                    assert(after[t as int] == id as int);
                }
            }
        }
        t = t + 1;
    }
    assert(id_views(targets@).take(t as int) =~= id_views(targets@));

    let ghost wanted_ids = id_views(targets@);
    let ghost is_wanted = |ws: WorkspaceView| wanted_ids.contains(ws.id);
    let mut matched: Vec<Workspace> = Vec::new();
    let mut n: usize = 0;
    proof {
        reveal(Seq::filter);
        assert(workspace_views(listing@).take(0) =~= Seq::<WorkspaceView>::empty());
        assert(workspace_views(matched@) =~= Seq::<WorkspaceView>::empty());
    }
    while n < listing.len()
        invariant
            n <= listing.len(),
            wanted_ids == id_views(targets@),
            is_wanted == |ws: WorkspaceView| wanted_ids.contains(ws.id),
            forall|id: i32| wanted@.contains(id) <==> wanted_ids.contains(id as int),
            workspace_views(matched@) == workspace_views(listing@).take(n as int).filter(is_wanted),
        decreases listing.len() - n,
    {
        let ghost before = workspace_views(listing@).take(n as int);
        let ghost after = workspace_views(listing@).take(n as int + 1);
        let ghost kept = workspace_views(matched@);
        proof {
            reveal(Seq::filter);
            assert(after.drop_last() =~= before);
            assert(after.last() == listing@[n as int]@);
        }
        let ws = &listing[n];
        if wanted.contains(&ws.id.to_raw()) {
            matched.push(ws.clone());
            assert(workspace_views(matched@) =~= kept.push(listing@[n as int]@));
        }
        n = n + 1;
    }
    assert(workspace_views(listing@).take(n as int) =~= workspace_views(listing@));
    matched
}

/// What the dispatcher is told: the listing it asked for, or what came of the
/// delivery it asked for.
#[derive(Debug)]
pub enum DispatchEvent {
    Listed(Result<Vec<Workspace>, RepositoryError>),
    Delivered(WebhookReply),
}

/// An event as contracts see it.
pub enum DispatchEventView {
    Listed(Result<Seq<WorkspaceView>, RepositoryErrorView>),
    Delivered(WebhookReplyView),
}

impl View for DispatchEvent {
    type V = DispatchEventView;

    open spec fn view(&self) -> DispatchEventView {
        match self {
            DispatchEvent::Listed(Ok(listing)) => DispatchEventView::Listed(
                Ok(workspace_views(listing@)),
            ),
            DispatchEvent::Listed(Err(e)) => DispatchEventView::Listed(Err(e@)),
            DispatchEvent::Delivered(reply) => DispatchEventView::Delivered(reply@),
        }
    }
}

/// What the dispatcher asks for next: one delivery, or the response that ends
/// the request.
#[derive(Debug)]
pub enum DispatchAction {
    Post(WebhookRequest),
    Respond(StatusCode),
}

/// An action as contracts see it.
pub enum DispatchActionView {
    Post(WebhookRequestView),
    Respond(StatusCode),
}

impl View for DispatchAction {
    type V = DispatchActionView;

    open spec fn view(&self) -> DispatchActionView {
        match self {
            DispatchAction::Post(request) => DispatchActionView::Post(request@),
            DispatchAction::Respond(status) => DispatchActionView::Respond(*status),
        }
    }
}

/// A dispatch as contracts see it.
pub enum DispatchView {
    /// Nothing is known yet; the listing is awaited.
    AwaitingListing { targets: Seq<int>, text: Seq<char> },
    /// `sent` deliveries are done and the one to `matched[sent]` is under way.
    /// `errors` holds what the failed ones reported.
    Delivering { matched: Seq<WorkspaceView>, text: Seq<char>, sent: nat, errors: Seq<Seq<char>> },
    /// The request is answered.
    Finished { status: StatusCode, errors: Seq<Seq<char>> },
}

/// The status for a whole dispatch: success where no delivery failed.
pub open spec fn overall_status(errors: Seq<Seq<char>>) -> StatusCode {
    if errors.len() == 0 {
        StatusCode::Success
    } else {
        StatusCode::InternalServerError
    }
}

/// The errors so far, with what this answer adds: nothing, if the webhook
/// took the message.
pub open spec fn recorded(errors: Seq<Seq<char>>, reply: WebhookReplyView) -> Seq<Seq<char>> {
    if reply.accepted() {
        errors
    } else {
        errors.push("Unexpected Error: "@ + reply.failure_detail())
    }
}

/// With `sent` deliveries done: the next one, or the response when none is left.
pub open spec fn proceed(
    matched: Seq<WorkspaceView>,
    text: Seq<char>,
    sent: nat,
    errors: Seq<Seq<char>>,
) -> (DispatchView, DispatchActionView) {
    if sent < matched.len() {
        (
            DispatchView::Delivering { matched, text, sent, errors },
            DispatchActionView::Post(
                request_for(matched[sent as int].ws_type, matched[sent as int].webhook_url, text),
            ),
        )
    } else {
        (
            DispatchView::Finished { status: overall_status(errors), errors },
            DispatchActionView::Respond(overall_status(errors)),
        )
    }
}

/// One step of a dispatch. A failed listing ends it with the repository's
/// status. A listing starts the deliveries to the matched workspaces. The
/// answer to a delivery is recorded, and the next delivery follows whatever
/// the answer was. An event out of turn ends the dispatch as a failure.
pub open spec fn step(state: DispatchView, event: DispatchEventView) -> (
    DispatchView,
    DispatchActionView,
) {
    match (state, event) {
        (
            DispatchView::AwaitingListing { targets, text },
            DispatchEventView::Listed(Ok(listing)),
        ) => proceed(matched_workspaces(listing, targets), text, 0, Seq::empty()),
        (DispatchView::AwaitingListing { .. }, DispatchEventView::Listed(Err(e))) => (
            DispatchView::Finished { status: repository_error_status(e), errors: Seq::empty() },
            DispatchActionView::Respond(repository_error_status(e)),
        ),
        (
            DispatchView::Delivering { matched, text, sent, errors },
            DispatchEventView::Delivered(reply),
        ) => if sent < matched.len() {
            proceed(matched, text, sent + 1, recorded(errors, reply))
        } else {
            out_of_turn(errors)
        },
        (DispatchView::Finished { status, errors }, _) => (
            state,
            DispatchActionView::Respond(status),
        ),
        (DispatchView::AwaitingListing { .. }, _) => out_of_turn(Seq::empty()),
        (DispatchView::Delivering { errors, .. }, _) => out_of_turn(errors),
    }
}

/// The end of a dispatch that was told something it had not asked for.
pub open spec fn out_of_turn(errors: Seq<Seq<char>>) -> (DispatchView, DispatchActionView) {
    (
        DispatchView::Finished { status: StatusCode::InternalServerError, errors },
        DispatchActionView::Respond(StatusCode::InternalServerError),
    )
}

enum Phase {
    AwaitingListing,
    Delivering,
    Finished(StatusCode),
}

/// One dispatch, from the request to its response. It starts with `new`, and
/// `send_message` moves it on, one event at a time.
pub struct Dispatch {
    phase: Phase,
    targets: Vec<WorkspaceId>,
    text: String,
    matched: Vec<Workspace>,
    sent: usize,
    err_msgs: Vec<String>,
}

impl View for Dispatch {
    type V = DispatchView;

    closed spec fn view(&self) -> DispatchView {
        match self.phase {
            Phase::AwaitingListing => DispatchView::AwaitingListing {
                targets: id_views(self.targets@),
                text: self.text@,
            },
            Phase::Delivering => DispatchView::Delivering {
                matched: workspace_views(self.matched@),
                text: self.text@,
                sent: self.sent as nat,
                errors: string_views(self.err_msgs@),
            },
            Phase::Finished(status) => DispatchView::Finished {
                status,
                errors: string_views(self.err_msgs@),
            },
        }
    }
}

impl DispatchView {
    /// What the failed deliveries reported so far.
    pub open spec fn errors(self) -> Seq<Seq<char>> {
        match self {
            DispatchView::AwaitingListing { .. } => Seq::empty(),
            DispatchView::Delivering { errors, .. } => errors,
            DispatchView::Finished { errors, .. } => errors,
        }
    }
}

impl Dispatch {
    #[verifier::type_invariant]
    spec fn consistent(&self) -> bool {
        self.phase is AwaitingListing ==> self.err_msgs@.len() == 0
    }

    /// A dispatch of the request's text to the request's targets. The first
    /// thing it is to be told is the listing of all workspaces.
    pub fn new(payload: MessagePayload) -> (r: Self)
        ensures
            r@ == (DispatchView::AwaitingListing {
                targets: payload@.targets,
                text: payload@.text,
            }),
    {
        Dispatch {
            phase: Phase::AwaitingListing,
            targets: payload.targets,
            text: payload.text,
            matched: Vec::new(),
            sent: 0,
            err_msgs: Vec::new(),
        }
    }

    /// What the failed deliveries reported so far, for the log.
    pub fn err_msgs(&self) -> (r: &Vec<String>)
        ensures
            string_views(r@) == self@.errors(),
    {
        proof {
            use_type_invariant(self);
        }
        &self.err_msgs
    }
}

/// The dispatch that is over, and its response.
fn finished(status: StatusCode, err_msgs: Vec<String>) -> (r: (Dispatch, DispatchAction))
    ensures
        r.0@ == (DispatchView::Finished { status, errors: string_views(err_msgs@) }),
        r.1@ == DispatchActionView::Respond(status),
{
    let state = Dispatch {
        phase: Phase::Finished(status),
        targets: Vec::new(),
        text: String::new(),
        matched: Vec::new(),
        sent: 0,
        err_msgs,
    };
    (state, DispatchAction::Respond(status))
}

/// With `sent` deliveries done: asks for the next one, or answers when none
/// is left. A workspace for which no strategy can be had is passed over, and
/// that is recorded like a failed delivery.
fn next_delivery(matched: Vec<Workspace>, text: String, sent: usize, err_msgs: Vec<String>) -> (r: (
    Dispatch,
    DispatchAction,
))
    requires
        sent <= matched.len(),
    ensures
        (r.0@, r.1@) == proceed(
            workspace_views(matched@),
            text@,
            sent as nat,
            string_views(err_msgs@),
        ),
{
    let mut at = sent;
    let mut errs = err_msgs;
    while at < matched.len()
        invariant
            at == sent,
            errs == err_msgs,
        decreases matched.len() - at,
    {
        let ws = &matched[at];
        match get_sender(ws.ws_type, ws.webhook_url.as_str(), text.as_str()) {
            Ok(sender) => {
                let request = sender.request();
                assert(workspace_views(matched@)[at as int] == matched@[at as int]@);
                let state = Dispatch {
                    phase: Phase::Delivering,
                    targets: Vec::new(),
                    text,
                    matched,
                    sent: at,
                    err_msgs: errs,
                };
                return (state, DispatchAction::Post(request));
            },
            // Every type has a strategy today, so this arm is never taken.
            Err(e) => {
                errs.push(e.to_string());
                at = at + 1;
            },
        }
    }
    let status = if errs.len() == 0 {
        StatusCode::Success
    } else {
        StatusCode::InternalServerError
    };
    finished(status, errs)
}

/// Moves a dispatch on by one event, and says what is to be done next. The
/// caller does it and comes back with what came of it, until the action is
/// `Respond`: a `Post` is answered with `Delivered`, and the dispatch made by
/// `new` with `Listed`.
pub fn send_message(state: Dispatch, event: DispatchEvent) -> (r: (Dispatch, DispatchAction))
    ensures
        (r.0@, r.1@) == step(state@, event@),
{
    proof {
        use_type_invariant(&state);
    }
    let Dispatch { phase, targets, text, matched, sent, err_msgs } = state;
    match phase {
        Phase::AwaitingListing => match event {
            DispatchEvent::Listed(Ok(listing)) => {
                let matched = select_targets(&listing, &targets);
                let none: Vec<String> = Vec::new();
                assert(string_views(none@) =~= Seq::<Seq<char>>::empty());
                next_delivery(matched, text, 0, none)
            },
            DispatchEvent::Listed(Err(e)) => {
                let none: Vec<String> = Vec::new();
                assert(string_views(none@) =~= Seq::<Seq<char>>::empty());
                finished(repository_error_to_status_code(e), none)
            },
            DispatchEvent::Delivered(_) => {
                assert(string_views(err_msgs@) =~= Seq::<Seq<char>>::empty());
                finished(StatusCode::InternalServerError, err_msgs)
            },
        },
        Phase::Delivering => match event {
            DispatchEvent::Delivered(reply) => {
                if sent < matched.len() {
                    let ghost errors = string_views(err_msgs@);
                    let mut err_msgs = err_msgs;
                    match delivery_result(&reply) {
                        Ok(()) => {},
                        Err(e) => {
                            err_msgs.push(e.to_string());
                            assert(string_views(err_msgs@) =~= errors.push(e.message()));
                        },
                    }
                    next_delivery(matched, text, sent + 1, err_msgs)
                } else {
                    finished(StatusCode::InternalServerError, err_msgs)
                }
            },
            DispatchEvent::Listed(_) => finished(StatusCode::InternalServerError, err_msgs),
        },
        Phase::Finished(status) => finished(status, err_msgs),
    }
}

/// What the failed deliveries among `replies` report, in their order.
pub open spec fn errors_after(replies: Seq<WebhookReplyView>) -> Seq<Seq<char>>
    decreases replies.len(),
{
    if replies.len() == 0 {
        Seq::empty()
    } else {
        recorded(errors_after(replies.drop_last()), replies.last())
    }
}

/// A dispatch that was told the listing and then, one by one, the answers in
/// `replies`: where it stands, and what it asks for next.
pub open spec fn dispatched(
    targets: Seq<int>,
    text: Seq<char>,
    listing: Seq<WorkspaceView>,
    replies: Seq<WebhookReplyView>,
) -> (DispatchView, DispatchActionView)
    decreases replies.len(),
{
    if replies.len() == 0 {
        step(DispatchView::AwaitingListing { targets, text }, DispatchEventView::Listed(Ok(listing)))
    } else {
        step(
            dispatched(targets, text, listing, replies.drop_last()).0,
            DispatchEventView::Delivered(replies.last()),
        )
    }
}

/// A workspace is matched exactly if it is listed and its id is a target.
pub proof fn lemma_matched_are_listed_targets(
    listing: Seq<WorkspaceView>,
    targets: Seq<int>,
    ws: WorkspaceView,
)
    ensures
        matched_workspaces(listing, targets).contains(ws) <==> listing.contains(ws)
            && targets.contains(ws.id),
{
    let wanted = |w: WorkspaceView| targets.contains(w.id);
    let matched = listing.filter(wanted);
    if matched.contains(ws) {
        let at = choose|at: int| 0 <= at < matched.len() && matched[at] == ws;
        listing.lemma_filter_pred(wanted, at);
        listing.lemma_filter_contains_rev(wanted, ws);
    }
    if listing.contains(ws) && targets.contains(ws.id) {
        let at = choose|at: int| 0 <= at < listing.len() && listing[at] == ws;
        listing.lemma_filter_contains(wanted, at);
    }
}

/// No delivery failed exactly if every answer was an acceptance.
pub proof fn lemma_errors_after(replies: Seq<WebhookReplyView>)
    ensures
        errors_after(replies).len() == 0 <==> forall|i: int|
            0 <= i < replies.len() ==> (#[trigger] replies[i]).accepted(),
    decreases replies.len(),
{
    if replies.len() > 0 {
        let earlier = replies.drop_last();
        lemma_errors_after(earlier);
        if errors_after(replies).len() == 0 {
            assert forall|i: int| 0 <= i < replies.len() implies (#[trigger] replies[i]).accepted() by {
                if i < earlier.len() {
                    assert(earlier[i] == replies[i]);
                }
            }
        } else if errors_after(earlier).len() != 0 {
            let i = choose|i: int| 0 <= i < earlier.len() && !(#[trigger] earlier[i]).accepted();
            assert(replies[i] == earlier[i]);
        }
    }
}

/// After the listing and `replies.len()` answers, that many deliveries are
/// done, whatever the answers were, and only the failed ones left an error.
pub proof fn lemma_dispatch_progress(
    targets: Seq<int>,
    text: Seq<char>,
    listing: Seq<WorkspaceView>,
    replies: Seq<WebhookReplyView>,
)
    requires
        replies.len() <= matched_workspaces(listing, targets).len(),
    ensures
        dispatched(targets, text, listing, replies) == proceed(
            matched_workspaces(listing, targets),
            text,
            replies.len(),
            errors_after(replies),
        ),
    decreases replies.len(),
{
    if replies.len() > 0 {
        lemma_dispatch_progress(targets, text, listing, replies.drop_last());
    }
}

/// Delivery is attempted to the matched workspaces and to no other: with `k`
/// answers in, for `k` below the number of matched workspaces, the dispatch
/// posts to the `k`-th of them, whether or not an earlier delivery failed; and
/// each matched workspace is a listed one whose id is a target. A target that
/// names no listed workspace adds no delivery and no error.
pub proof fn lemma_delivery_to_each_matched_workspace(
    targets: Seq<int>,
    text: Seq<char>,
    listing: Seq<WorkspaceView>,
    replies: Seq<WebhookReplyView>,
)
    requires
        replies.len() < matched_workspaces(listing, targets).len(),
    ensures
        ({
            let ws = matched_workspaces(listing, targets)[replies.len() as int];
            &&& dispatched(targets, text, listing, replies).1 == DispatchActionView::Post(
                request_for(ws.ws_type, ws.webhook_url, text),
            )
            &&& dispatched(targets, text, listing, replies).0.errors() == errors_after(replies)
            &&& listing.contains(ws)
            &&& targets.contains(ws.id)
        }),
{
    let matched = matched_workspaces(listing, targets);
    let ws = matched[replies.len() as int];
    lemma_dispatch_progress(targets, text, listing, replies);
    assert(matched.contains(ws));
    lemma_matched_are_listed_targets(listing, targets, ws);
}

/// When every matched workspace has had its delivery, the dispatch answers:
/// with success if every delivery was accepted, and with a failure if at least
/// one was not.
pub proof fn lemma_dispatch_outcome(
    targets: Seq<int>,
    text: Seq<char>,
    listing: Seq<WorkspaceView>,
    replies: Seq<WebhookReplyView>,
)
    requires
        replies.len() == matched_workspaces(listing, targets).len(),
    ensures
        (forall|i: int| 0 <= i < replies.len() ==> (#[trigger] replies[i]).accepted())
            ==> dispatched(targets, text, listing, replies).1 == DispatchActionView::Respond(
            StatusCode::Success,
        ),
        (exists|i: int| 0 <= i < replies.len() && !(#[trigger] replies[i]).accepted())
            ==> dispatched(targets, text, listing, replies).1 == DispatchActionView::Respond(
            StatusCode::InternalServerError,
        ),
        dispatched(targets, text, listing, replies).0 is Finished,
{
    lemma_dispatch_progress(targets, text, listing, replies);
    lemma_errors_after(replies);
}

} // verus!
