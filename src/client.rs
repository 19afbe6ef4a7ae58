//! The typed client: builds payloads from typed requests, dispatches them and
//! reads the answers, and runs the multi-step workflows built on that.

use vstd::prelude::*;

use crate::command::{CommandId, FolderEvent, UserEvent};
use crate::dispatch::{payload_model, Delivery, Dispatcher, Handler};
use crate::entities::{ViewSection, CreateOrphanViewPayloadPB, CreateViewPayloadPB, FolderDataPB, ImportPayloadPB, RemoveWorkspaceMemberPB, Role, TrashPB, UpdateViewIconPayloadPB, UpdateViewPayloadPB, UserProfilePB, UserWorkspacePB, ViewLayout, ViewPB, WorkspaceInvitationPB, WorkspaceMemberInvitationPB, WorkspaceMemberPB, WorkspacePB, GatherPublishPayloadPB, PublishPayloadPB};
use crate::envelope::{decoded, encode, reads_as, Envelope, Outcome};
use crate::error::{ErrorCode, ErrorModel, FlowyError};
use crate::ident::{parse_uuid, uuid_value};
use crate::message::Message;

verus! {

/// `after` is `before` with one more delivery of `id` carrying `request` where
/// `id` is registered, and `before` unchanged where it is not.
pub open spec fn sent(
    before: Seq<Delivery>,
    after: Seq<Delivery>,
    ids: Seq<CommandId>,
    id: CommandId,
    request: Option<Seq<u8>>,
) -> bool {
    if ids.contains(id) {
        &&& after.len() == before.len() + 1
        &&& after.drop_last() == before
        &&& after.last().id == id
        &&& after.last().request == request
    } else {
        after == before
    }
}

/// `r` is the last answer read as `T` where `id` is registered, and an
/// `UnknownCommand` failure where it is not.
pub open spec fn answered<T: Message>(
    after: Seq<Delivery>,
    ids: Seq<CommandId>,
    id: CommandId,
    r: Result<T, FlowyError>,
) -> bool {
    if ids.contains(id) {
        reads_as::<T>(after.last().response, r)
    } else {
        r matches Err(e) && e.code == ErrorCode::UnknownCommand
    }
}

/// `r` is the error of the last answer where `id` is registered, and an
/// `UnknownCommand` error where it is not.
pub open spec fn answered_error(
    after: Seq<Delivery>,
    ids: Seq<CommandId>,
    id: CommandId,
    r: Option<FlowyError>,
) -> bool {
    if ids.contains(id) {
        match after.last().response {
            Ok(_) => r is None,
            Err(e) => r matches Some(x) && x.model() == e,
        }
    } else {
        r matches Some(e) && e.code == ErrorCode::UnknownCommand
    }
}

/// The last answer of `j` read as `T`, if it is a success that reads so.
pub open spec fn last_reply<T: Message>(j: Seq<Delivery>) -> Option<T::Model> {
    match j.last().response {
        Ok(b) => decoded::<T>(b),
        Err(_) => None,
    }
}

/// The error of the last answer of `j`, if it is a failure.
pub open spec fn last_error(j: Seq<Delivery>) -> Option<ErrorModel> {
    match j.last().response {
        Ok(_) => None,
        Err(e) => Some(e),
    }
}

/// The forgotten failures grew by the error of the last answer where `id` is
/// registered and it failed, and by an `UnknownCommand` error where `id` is not
/// registered; they are unchanged otherwise.
pub open spec fn forgot(
    before: Seq<ErrorModel>,
    after: Seq<ErrorModel>,
    journal: Seq<Delivery>,
    ids: Seq<CommandId>,
    id: CommandId,
) -> bool {
    if ids.contains(id) {
        match journal.last().response {
            Ok(_) => after == before,
            Err(e) => after == before.push(e),
        }
    } else {
        after.len() == before.len() + 1 && after.drop_last() == before && after.last().0 == ErrorCode::UnknownCommand
    }
}

/// The request bytes of a typed request.
pub open spec fn request_of<M: Message>(m: M::Model) -> Option<Seq<u8>> {
    Some(M::wire(m))
}

pub open spec fn folder(e: FolderEvent) -> CommandId {
    CommandId::Folder(e)
}

pub open spec fn user(e: UserEvent) -> CommandId {
    CommandId::User(e)
}

/// The position of the first invitation into `workspace_id`.
pub fn find_invitation(items: &Vec<WorkspaceInvitationPB>, workspace_id: &str) -> (r: Option<usize>)
    ensures
        match r {
            Some(i) => i < items@.len() && items@[i as int].workspace_id@ == workspace_id@
                && forall|j: int| 0 <= j < i ==> (#[trigger] items@[j]).workspace_id@ != workspace_id@,
            None => forall|j: int| 0 <= j < items@.len() ==> (#[trigger] items@[j]).workspace_id@ != workspace_id@,
        },
        match r {
            Some(i) => first_match(items.model(), workspace_id@) == Some(i as int),
            None => first_match(items.model(), workspace_id@) is None,
        },
{
    let target = workspace_id.to_owned();
    let mut i: usize = 0;
    while i < items.len()
        invariant
            target@ == workspace_id@,
            i <= items@.len(),
            forall|j: int| 0 <= j < i ==> (#[trigger] items@[j]).workspace_id@ != workspace_id@,
        decreases items@.len() - i,
    {
        if items[i].workspace_id == target {
            proof {
                let m = items.model();
                assert forall|j: int| 0 <= j < i implies (#[trigger] m[j]).1 != workspace_id@ by {
                    assert(m[j] == items@[j].model());
                }
                assert(m[i as int] == items@[i as int].model());
                lemma_first_match(m, workspace_id@, i as int);
            }
            return Some(i);
        }
        i = i + 1;
    }
    proof {
        let m = items.model();
        assert forall|j: int| 0 <= j < m.len() implies (#[trigger] m[j]).1 != workspace_id@ by {
            assert(m[j] == items@[j].model());
        }
        lemma_no_match(m, workspace_id@);
    }
    None
}

/// What the answer `o` of a call reads as `T`: the decoded value, where the
/// command is registered and answered with the bytes of a `T`.
pub open spec fn reply<T: Message>(registered: bool, o: Outcome) -> Option<T::Model> {
    if registered {
        match o {
            Ok(b) => decoded::<T>(b),
            Err(_) => None,
        }
    } else {
        None
    }
}

/// `e` is the error a call ends with when its answer `o` does not read as `T`:
/// the handler's error unchanged, a `DecodeError`, or `UnknownCommand`.
pub open spec fn call_failed<T: Message>(registered: bool, o: Outcome, e: FlowyError) -> bool {
    if registered {
        match o {
            Err(x) => e.model() == x,
            Ok(b) => decoded::<T>(b) is None && e.code == ErrorCode::DecodeError,
        }
    } else {
        e.code == ErrorCode::UnknownCommand
    }
}

/// `r` is the result of a command that answers with an error only.
pub open spec fn acknowledged(registered: bool, o: Outcome, r: Result<(), FlowyError>) -> bool {
    if registered {
        match o {
            Ok(_) => r is Ok,
            Err(x) => r matches Err(e) && e.model() == x,
        }
    } else {
        r matches Err(e) && e.code == ErrorCode::UnknownCommand
    }
}

/// The journal length after one call of `id` on a journal of length `len`.
pub open spec fn after_call(len: int, ids: Seq<CommandId>, id: CommandId) -> int {
    if ids.contains(id) {
        len + 1
    } else {
        len
    }
}

/// The position of the first invitation in `items` into `workspace_id`.
pub open spec fn first_match(
    items: Seq<<WorkspaceInvitationPB as Message>::Model>,
    workspace_id: Seq<char>,
) -> Option<int>
    decreases items.len(),
{
    if items.len() == 0 {
        None
    } else if items[0].1 == workspace_id {
        Some(0)
    } else {
        match first_match(items.drop_first(), workspace_id) {
            Some(k) => Some(k + 1),
            None => None,
        }
    }
}

proof fn lemma_first_match(
    items: Seq<<WorkspaceInvitationPB as Message>::Model>,
    workspace_id: Seq<char>,
    i: int,
)
    requires
        0 <= i < items.len(),
        items[i].1 == workspace_id,
        forall|j: int| 0 <= j < i ==> (#[trigger] items[j]).1 != workspace_id,
    ensures
        first_match(items, workspace_id) == Some(i),
    decreases i,
{
    if i > 0 {
        let tail = items.drop_first();
        assert(items[0].1 != workspace_id);
        assert forall|j: int| 0 <= j < i - 1 implies (#[trigger] tail[j]).1 != workspace_id by {
            assert(tail[j] == items[j + 1]);
        }
        lemma_first_match(tail, workspace_id, i - 1);
    }
}

proof fn lemma_no_match(items: Seq<<WorkspaceInvitationPB as Message>::Model>, workspace_id: Seq<char>)
    requires
        forall|j: int| 0 <= j < items.len() ==> (#[trigger] items[j]).1 != workspace_id,
    ensures
        first_match(items, workspace_id) is None,
    decreases items.len(),
{
    if items.len() > 0 {
        let tail = items.drop_first();
        assert(items[0].1 != workspace_id);
        assert forall|j: int| 0 <= j < tail.len() implies (#[trigger] tail[j]).1 != workspace_id by {
            assert(tail[j] == items[j + 1]);
        }
        lemma_no_match(tail, workspace_id);
    }
}

/// What `add_workspace_member` does, for every answer of the handlers. The
/// invitee's side (`o0` to `o`) asks for its profile; where that reads as `p`,
/// the inviter's side (`s0` to `s`, forgotten failures `f0` to `f`) sends the
/// invitation of `p`'s email as a member and the invitee lists its invitations;
/// where the list reads and holds an invitation into `workspace_id`, the first
/// one is accepted and the result is the acceptance's. With no such invitation
/// the result is `WorkflowAssumptionViolated` and nothing more is sent. A
/// failing step ends the workflow with its error.
pub open spec fn member_added(
    s0: Seq<Delivery>,
    s: Seq<Delivery>,
    sids: Seq<CommandId>,
    f0: Seq<ErrorModel>,
    f: Seq<ErrorModel>,
    o0: Seq<Delivery>,
    o: Seq<Delivery>,
    oids: Seq<CommandId>,
    workspace_id: Seq<char>,
    r: Result<(), FlowyError>,
) -> bool {
    let profile = user(UserEvent::GetUserProfile);
    let invite = user(UserEvent::InviteWorkspaceMember);
    let list = user(UserEvent::ListWorkspaceInvitations);
    let accept = user(UserEvent::AcceptWorkspaceInvitation);
    let b = o0.len() as int;
    let n1 = after_call(b, oids, profile);
    let n2 = after_call(n1, oids, list);
    &&& o.len() >= n1
    &&& sent(o0, o.take(n1), oids, profile, None)
    &&& match reply::<UserProfilePB>(oids.contains(profile), o[b].response) {
        None => {
            &&& o.len() == n1
            &&& s == s0
            &&& f == f0
            &&& r matches Err(e) && call_failed::<UserProfilePB>(oids.contains(profile), o[b].response, e)
        },
        Some(p) => {
            &&& sent(s0, s, sids, invite, request_of::<WorkspaceMemberInvitationPB>((workspace_id, p.0, Role::Member)))
            &&& forgot(f0, f, s, sids, invite)
            &&& o.len() >= n2
            &&& sent(o.take(n1), o.take(n2), oids, list, None)
            &&& match reply::<Vec<WorkspaceInvitationPB>>(oids.contains(list), o[n1].response) {
                None => {
                    &&& o.len() == n2
                    &&& r matches Err(e) && call_failed::<Vec<WorkspaceInvitationPB>>(oids.contains(list), o[n1].response, e)
                },
                Some(items) => match first_match(items, workspace_id) {
                    None => o.len() == n2 && (r matches Err(e) && e.code == ErrorCode::WorkflowAssumptionViolated),
                    Some(i) => {
                        &&& sent(o.take(n2), o, oids, accept, request_of::<String>(items[i].0))
                        &&& acknowledged(oids.contains(accept), o.last().response, r)
                    },
                },
            }
        },
    }
}

/// Every view's id and parent id is a UUID.
pub open spec fn ids_valid(views: Seq<<ViewPB as Message>::Model>) -> bool {
    forall|k: int| 0 <= k < views.len() ==> uuid_value((#[trigger] views[k]).0) is Some
        && uuid_value(views[k].1) is Some
}

/// The creation request for a view given in full: its own id, parent, name,
/// layout, icon and extra metadata, with no content.
pub open spec fn create_params(v: <ViewPB as Message>::Model) -> <CreateViewPayloadPB as Message>::Model {
    (v.1, v.2, None, v.3, Seq::empty(), false, None, None, Some(v.0), v.4, v.6)
}

/// `d` asked to create the view `v` with its own id.
pub open spec fn create_sent(d: Delivery, v: <ViewPB as Message>::Model) -> bool {
    &&& d.id == folder(FolderEvent::CreateView)
    &&& d.request == request_of::<CreateViewPayloadPB>(create_params(v))
}

/// What `create_views` does, for every answer of the handler: nothing with an
/// invalid id or no views; otherwise the views are created in order until one
/// creation fails, which ends the call with its error.
pub open spec fn views_created(
    j0: Seq<Delivery>,
    j: Seq<Delivery>,
    ids: Seq<CommandId>,
    vm: Seq<<ViewPB as Message>::Model>,
    r: Result<(), FlowyError>,
) -> bool {
    let b = j0.len() as int;
    let k = j.len() - b;
    if !ids_valid(vm) {
        j == j0 && (r matches Err(e) && e.code == ErrorCode::InvalidId)
    } else if vm.len() == 0 {
        j == j0 && r is Ok
    } else if !ids.contains(folder(FolderEvent::CreateView)) {
        j == j0 && (r matches Err(e) && e.code == ErrorCode::UnknownCommand)
    } else {
        &&& 1 <= k <= vm.len()
        &&& j.take(b) == j0
        &&& forall|m: int| 0 <= m < k ==> create_sent(#[trigger] j[b + m], vm[m])
        &&& forall|m: int| 0 <= m < k - 1 ==> reply::<ViewPB>(true, (#[trigger] j[b + m]).response) is Some
        &&& match reply::<ViewPB>(true, j[b + k - 1].response) {
            Some(_) => k == vm.len() && r is Ok,
            None => r matches Err(e) && call_failed::<ViewPB>(true, j[b + k - 1].response, e),
        }
    }
}

/// The creation request of the first view of a fresh workspace.
pub open spec fn first_view_params(workspace_id: Seq<char>, layout: ViewLayout, data: Seq<u8>) -> <CreateViewPayloadPB as Message>::Model {
    (workspace_id, "View A"@, Some("http://1.png"@), layout, data, true, None, None, None, None, None)
}

/// What `ViewTest::new` does, for every answer of the handlers: it reads the
/// current workspace; where that reads as `w`, it asks for "View A" under `w`
/// and succeeds exactly when the answer reads as a view. A failing step ends
/// the call with its error.
pub open spec fn view_test_made(
    j0: Seq<Delivery>,
    j: Seq<Delivery>,
    ids: Seq<CommandId>,
    layout: ViewLayout,
    data: Seq<u8>,
    r: Result<ViewTest, FlowyError>,
) -> bool {
    let read = folder(FolderEvent::ReadCurrentWorkspace);
    let create = folder(FolderEvent::CreateView);
    let b = j0.len() as int;
    let n1 = after_call(b, ids, read);
    &&& j.len() >= n1
    &&& sent(j0, j.take(n1), ids, read, None)
    &&& match reply::<WorkspacePB>(ids.contains(read), j[b].response) {
        None => j.len() == n1 && (r matches Err(e) && call_failed::<WorkspacePB>(ids.contains(read), j[b].response, e)),
        Some(w) => {
            &&& sent(j.take(n1), j, ids, create, request_of::<CreateViewPayloadPB>(first_view_params(w.0, layout, data)))
            &&& match reply::<ViewPB>(ids.contains(create), j.last().response) {
                Some(v) => r matches Ok(t) && t.workspace.model() == w && t.child_view.model() == v,
                None => r matches Err(e) && call_failed::<ViewPB>(ids.contains(create), j.last().response, e),
            }
        },
    }
}

/// A client of one dispatcher: what one signed-in user can ask for.
pub struct EventIntegrationTest<H> {
    dispatcher: Dispatcher<H>,
}

impl<H: Handler> EventIntegrationTest<H> {
    pub closed spec fn ids(&self) -> Seq<CommandId> {
        self.dispatcher.ids()
    }

    /// The errors of the calls whose answer was dropped, oldest first.
    pub closed spec fn forgotten(&self) -> Seq<ErrorModel> {
        self.dispatcher.forgotten()
    }

    /// The errors of the calls whose answer was dropped.
    pub fn forgotten_failures(&self) -> (r: &Vec<FlowyError>)
        ensures
            r@.map_values(|e: FlowyError| e.model()) == self.forgotten(),
    {
        self.dispatcher.forgotten_failures()
    }

    /// Every handler call made through this client, oldest first.
    pub closed spec fn journal(&self) -> Seq<Delivery> {
        self.dispatcher.journal()
    }

    pub closed spec fn wf(&self) -> bool {
        self.dispatcher.wf()
    }

    pub fn new(dispatcher: Dispatcher<H>) -> (r: Self)
        requires
            dispatcher.wf(),
        ensures
            r.wf(),
            r.ids() == dispatcher.ids(),
            r.journal() == dispatcher.journal(),
    {
        EventIntegrationTest { dispatcher }
    }

    /// Dispatches `id` with `payload` and hands back the envelope.
    pub fn send(&mut self, id: CommandId, payload: Option<Vec<u8>>) -> (r: Envelope)
        requires
            old(self).wf(),
        ensures
            final(self).wf(),
            final(self).ids() == old(self).ids(),
            final(self).forgotten() == old(self).forgotten(),
            sent(old(self).journal(), final(self).journal(), old(self).ids(), id, payload_model(payload)),
            old(self).ids().contains(id) ==> r.outcome() == final(self).journal().last().response,
            !old(self).ids().contains(id) ==> (r matches Envelope::Failure(e) && e.code == ErrorCode::UnknownCommand),
    {
        let ghost registered = self.ids().contains(id);
        let r = self.dispatcher.dispatch(id, payload);
        proof {
            if registered {
                assert(self.journal().drop_last() =~= old(self).journal());
            }
        }
        r
    }

    /// Sends `req` under `id` and reads the answer as `T`.
    pub fn call<Req: Message, T: Message>(&mut self, id: CommandId, req: &Req) -> (r: Result<T, FlowyError>)
        requires
            old(self).wf(),
        ensures
            final(self).wf(),
            final(self).ids() == old(self).ids(),
            final(self).forgotten() == old(self).forgotten(),
            sent(old(self).journal(), final(self).journal(), old(self).ids(), id, request_of::<Req>(req.model())),
            answered::<T>(final(self).journal(), old(self).ids(), id, r),
    {
        let payload = encode(req);
        self.send(id, Some(payload)).parse::<T>()
    }

    /// Sends `id` with no payload and reads the answer as `T`.
    pub fn query<T: Message>(&mut self, id: CommandId) -> (r: Result<T, FlowyError>)
        requires
            old(self).wf(),
        ensures
            final(self).wf(),
            final(self).ids() == old(self).ids(),
            final(self).forgotten() == old(self).forgotten(),
            sent(old(self).journal(), final(self).journal(), old(self).ids(), id, None),
            answered::<T>(final(self).journal(), old(self).ids(), id, r),
    {
        self.send(id, None).parse::<T>()
    }

    /// Sends `req` under `id` for a command that answers with an error only.
    pub fn command<Req: Message>(&mut self, id: CommandId, req: &Req) -> (r: Option<FlowyError>)
        requires
            old(self).wf(),
        ensures
            final(self).wf(),
            final(self).ids() == old(self).ids(),
            final(self).forgotten() == old(self).forgotten(),
            sent(old(self).journal(), final(self).journal(), old(self).ids(), id, request_of::<Req>(req.model())),
            answered_error(final(self).journal(), old(self).ids(), id, r),
    {
        let payload = encode(req);
        self.send(id, Some(payload)).error()
    }

    /// Sends `req` under `id` and drops the answer.
    pub fn notify<Req: Message>(&mut self, id: CommandId, req: &Req)
        requires
            old(self).wf(),
        ensures
            final(self).wf(),
            final(self).ids() == old(self).ids(),
            sent(old(self).journal(), final(self).journal(), old(self).ids(), id, request_of::<Req>(req.model())),
            forgot(old(self).forgotten(), final(self).forgotten(), final(self).journal(), old(self).ids(), id),
    {
        let payload = encode(req);
        self.dispatcher.dispatch_and_forget(id, Some(payload));

    }

    /// Adds the user of `other` to a workspace: fetches their email, invites
    /// it as a member, finds the invitation among theirs, and accepts it.
    pub fn add_workspace_member(&mut self, workspace_id: &str, other: &mut Self) -> (r: Result<(), FlowyError>)
        requires
            old(self).wf(),
            old(other).wf(),
        ensures
            final(self).wf(),
            final(other).wf(),
            final(self).ids() == old(self).ids(),
            final(other).ids() == old(other).ids(),
            member_added(
                old(self).journal(),
                final(self).journal(),
                old(self).ids(),
                old(self).forgotten(),
                final(self).forgotten(),
                old(other).journal(),
                final(other).journal(),
                old(other).ids(),
                workspace_id@,
                r,
            ),
    {
        let ghost b = old(other).journal().len() as int;
        let ghost oids = old(other).ids();
        let ghost n1 = after_call(b, oids, user(UserEvent::GetUserProfile));
        let ghost n2 = after_call(n1, oids, user(UserEvent::ListWorkspaceInvitations));
        let profile = match other.get_user_profile() {
            Ok(p) => p,
            Err(e) => {
                assert(other.journal().take(n1) =~= other.journal());
                return Err(e);
            },
        };
        let ghost after_profile = other.journal();
        assert(after_profile.take(n1) =~= after_profile);
        assert(after_profile.last() == after_profile[b]);
        self.invite_workspace_member(workspace_id, profile.email.as_str(), Role::Member);
        let invitations = match other.list_workspace_invitations() {
            Ok(v) => v,
            Err(e) => {
                proof {
                    let o = other.journal();
                    assert(o.take(n1) =~= after_profile);
                    assert(o.take(n2) =~= o);
                    assert(o[b] == after_profile[b]);
                    if oids.contains(user(UserEvent::ListWorkspaceInvitations)) {
                        assert(o.last() == o[n1]);
                    }
                }
                return Err(e);
            },
        };
        let ghost after_list = other.journal();
        proof {
            assert(after_list.take(n1) =~= after_profile);
            assert(after_list.take(n2) =~= after_list);
            assert(after_list[b] == after_profile[b]);
            assert(after_list.len() == n2);
            assert(after_list.last() == after_list[n1]);
        }
        let i = match find_invitation(&invitations, workspace_id) {
            Some(i) => i,
            None => {
                return Err(FlowyError::new(ErrorCode::WorkflowAssumptionViolated, "no invitation into the workspace"));
            },
        };
        let accepted = other.accept_workspace_invitation(invitations[i].invite_id.as_str());
        proof {
            let o = other.journal();
            assert(o.take(n2) =~= after_list) by {
                if o.len() > after_list.len() {
                    assert(o.drop_last() == after_list);
                }
            }
            assert(o.take(n1) =~= after_profile);
            assert(o[b] == after_profile[b]);
            assert(o[n1] == after_list[n1]);
            assert(invitations.model()[i as int] == invitations@[i as int].model());
        }
        match accepted {
            Some(e) => Err(e),
            None => Ok(()),
        }
    }

    /// Creates each view with its own id under its own parent, in order,
    /// stopping at the first failure. Every id is checked first: if one is
    /// not a UUID, nothing is sent.
    #[verifier::rlimit(80)]
    pub fn create_views(&mut self, views: &Vec<ViewPB>) -> (r: Result<(), FlowyError>)
        requires
            old(self).wf(),
        ensures
            final(self).wf(),
            final(self).ids() == old(self).ids(),
            final(self).forgotten() == old(self).forgotten(),
            views_created(old(self).journal(), final(self).journal(), old(self).ids(), views.model(), r),
    {
        let mut i: usize = 0;
        while i < views.len()
            invariant
                self.wf(),
                self.ids() == old(self).ids(),
                self.journal() == old(self).journal(),
                self.forgotten() == old(self).forgotten(),
                i <= views@.len(),
                forall|k: int| 0 <= k < i ==> uuid_value((#[trigger] views.model()[k]).0) is Some
                    && uuid_value(views.model()[k].1) is Some,
            decreases views@.len() - i,
        {
            let id_ok = parse_uuid(views[i].id.as_str()).is_some();
            let parent_ok = parse_uuid(views[i].parent_view_id.as_str()).is_some();
            if !id_ok || !parent_ok {
                assert(!ids_valid(views.model())) by {
                    assert(views.model()[i as int] == views@[i as int].model());
                }
                return Err(FlowyError::new(ErrorCode::InvalidId, "a view id is not a UUID"));
            }
            i = i + 1;
        }
        let ghost start = self.journal();
        let ghost b = start.len() as int;
        let ghost vm = views.model();
        let mut i: usize = 0;
        while i < views.len()
            invariant
                self.wf(),
                self.ids() == old(self).ids(),
                self.forgotten() == old(self).forgotten(),
                i <= views@.len(),
                start == old(self).journal(),
                b == start.len(),
                vm == views.model(),
                ids_valid(vm),
                i > 0 ==> self.ids().contains(CommandId::Folder(FolderEvent::CreateView)),
                self.journal().len() == b + i,
                self.journal().take(b) == start,
                forall|m: int| 0 <= m < i ==> create_sent(#[trigger] self.journal()[b + m], vm[m]),
                forall|m: int| 0 <= m < i ==> reply::<ViewPB>(true, (#[trigger] self.journal()[b + m]).response) is Some,
            decreases views@.len() - i,
        {
            let v = &views[i];
            let req = CreateViewPayloadPB {
                parent_view_id: v.parent_view_id.clone(),
                name: v.name.clone(),
                thumbnail: None,
                layout: v.layout,
                initial_data: Vec::new(),
                set_as_current: false,
                index: None,
                section: None,
                view_id: Some(v.id.clone()),
                icon: v.icon.clone(),
                extra: v.extra.clone(),
            };
            assert(req.model() == create_params(vm[i as int])) by {
                assert(req.initial_data.model() =~= Seq::<u8>::empty());
                assert(vm[i as int] == views@[i as int].model());
            }
            let ghost before = self.journal();
            let created: Result<ViewPB, FlowyError> = self.call(CommandId::Folder(FolderEvent::CreateView), &req);
            proof {
                let after = self.journal();
                if self.ids().contains(CommandId::Folder(FolderEvent::CreateView)) {
                    assert(after.drop_last() == before);
                    assert(after.take(b) =~= start);
                    assert(after.last() == after[b + i]);
                    assert forall|m: int| 0 <= m < i implies #[trigger] after[b + m] == before[b + m] by {}
                }
            }
            match created {
                Ok(_) => {},
                Err(e) => {
                    proof {
                        let j = self.journal();
                        if self.ids().contains(CommandId::Folder(FolderEvent::CreateView)) {
                            let k = j.len() - b;
                            assert(k == i + 1);
                            assert(j[b + k - 1] == j.last());
                            assert(reply::<ViewPB>(true, j[b + k - 1].response) is None);
                            assert forall|m: int| 0 <= m < k implies create_sent(#[trigger] j[b + m], vm[m]) by {
                                if m < i {
                                    assert(j[b + m] == before[b + m]);
                                }
                            }
                            assert forall|m: int| 0 <= m < k - 1 implies reply::<ViewPB>(true, (#[trigger] j[b + m]).response) is Some by {
                                assert(j[b + m] == before[b + m]);
                            }
                        } else {
                            assert(i == 0);
                            assert(j == start);
                        }
                    }
                    return Err(e);
                },
            }
            i = i + 1;
        }
        proof {
            let j = self.journal();
            if vm.len() == 0 {
                assert(j =~= start);
            } else {
                assert(j[b + vm.len() - 1] == j[b + (vm.len() - 1)]);
            }
        }
        Ok(())
    }

    /// The id of the current workspace as a 128-bit UUID.
    pub fn get_workspace_id(&mut self) -> (r: Result<u128, FlowyError>)
        requires
            old(self).wf(),
        ensures
            final(self).wf(),
            final(self).ids() == old(self).ids(),
            final(self).forgotten() == old(self).forgotten(),
            sent(old(self).journal(), final(self).journal(), old(self).ids(), folder(FolderEvent::ReadCurrentWorkspace), None),
            match reply::<WorkspacePB>(old(self).ids().contains(folder(FolderEvent::ReadCurrentWorkspace)), final(self).journal().last().response) {
                None => r matches Err(e) && call_failed::<WorkspacePB>(
                    old(self).ids().contains(folder(FolderEvent::ReadCurrentWorkspace)),
                    final(self).journal().last().response,
                    e,
                ),
                Some(w) => match uuid_value(w.0) {
                    Some(v) => r == Ok::<u128, FlowyError>(v),
                    None => r matches Err(e) && e.code == ErrorCode::InvalidId,
                },
            },
    {
        let workspace = match self.get_current_workspace() {
            Ok(w) => w,
            Err(e) => return Err(e),
        };
        match parse_uuid(workspace.id.as_str()) {
            Some(v) => Ok(v),
            None => Err(FlowyError::new(ErrorCode::InvalidId, "the workspace id is not a UUID")),
        }
    }

    /// The publishable content of a view, and of its descendants where asked.
    /// Any failure comes back as `GatherFailed`, with the message kept.
    pub fn get_publish_payload(&mut self, view_id: &str, include_children: bool) -> (r: Result<Vec<PublishPayloadPB>, FlowyError>)
        requires
            old(self).wf(),
        ensures
            final(self).wf(),
            final(self).ids() == old(self).ids(),
            final(self).forgotten() == old(self).forgotten(),
            sent(old(self).journal(), final(self).journal(), old(self).ids(), folder(FolderEvent::GatherPublishPayload),
                request_of::<GatherPublishPayloadPB>((view_id@, include_children))),
            old(self).ids().contains(folder(FolderEvent::GatherPublishPayload)) ==> match last_reply::<Vec<PublishPayloadPB>>(final(self).journal()) {
                Some(m) => r matches Ok(v) && v.model() == m,
                None => r is Err,
            },
            !old(self).ids().contains(folder(FolderEvent::GatherPublishPayload)) ==> r is Err,
            r matches Err(e) ==> e.code == ErrorCode::GatherFailed,
            old(self).ids().contains(folder(FolderEvent::GatherPublishPayload)) ==> match last_error(final(self).journal()) {
                Some(x) => r matches Err(e) && e.msg@ == x.1,
                None => true,
            },
    {
        let req = GatherPublishPayloadPB { view_id: view_id.to_owned(), include_children };
        let r: Result<Vec<PublishPayloadPB>, FlowyError> = self.call(CommandId::Folder(FolderEvent::GatherPublishPayload), &req);
        match r {
            Ok(v) => Ok(v),
            Err(e) => Err(FlowyError { code: ErrorCode::GatherFailed, msg: e.msg }),
        }
    }

    /// Invites `email` into a workspace with `role`; the answer is dropped.
    pub fn invite_workspace_member(&mut self, workspace_id: &str, email: &str, role: Role)
        requires
            old(self).wf(),
        ensures
            final(self).wf(),
            final(self).ids() == old(self).ids(),
            sent(old(self).journal(), final(self).journal(), old(self).ids(), user(UserEvent::InviteWorkspaceMember), request_of::<WorkspaceMemberInvitationPB>((workspace_id@, email@, role))),
            forgot(old(self).forgotten(), final(self).forgotten(), final(self).journal(), old(self).ids(), user(UserEvent::InviteWorkspaceMember)),
    {
        let req = WorkspaceMemberInvitationPB { workspace_id: workspace_id.to_owned(), invitee_email: email.to_owned(), role };
        self.notify(CommandId::User(UserEvent::InviteWorkspaceMember), &req);
    }

    /// The invitations addressed to this user.
    pub fn list_workspace_invitations(&mut self) -> (r: Result<Vec<WorkspaceInvitationPB>, FlowyError>)
        requires
            old(self).wf(),
        ensures
            final(self).wf(),
            final(self).ids() == old(self).ids(),
            final(self).forgotten() == old(self).forgotten(),
            sent(old(self).journal(), final(self).journal(), old(self).ids(), user(UserEvent::ListWorkspaceInvitations), None),
            answered::<Vec<WorkspaceInvitationPB>>(final(self).journal(), old(self).ids(), user(UserEvent::ListWorkspaceInvitations), r),
    {
        self.query(CommandId::User(UserEvent::ListWorkspaceInvitations))
    }

    /// Accepts an invitation.
    pub fn accept_workspace_invitation(&mut self, invitation_id: &str) -> (r: Option<FlowyError>)
        requires
            old(self).wf(),
        ensures
            final(self).wf(),
            final(self).ids() == old(self).ids(),
            final(self).forgotten() == old(self).forgotten(),
            sent(old(self).journal(), final(self).journal(), old(self).ids(), user(UserEvent::AcceptWorkspaceInvitation), request_of::<String>(invitation_id@)),
            answered_error(final(self).journal(), old(self).ids(), user(UserEvent::AcceptWorkspaceInvitation), r),
    {
        let req = invitation_id.to_owned();
        self.command(CommandId::User(UserEvent::AcceptWorkspaceInvitation), &req)
    }

    /// Removes a member from a workspace.
    pub fn delete_workspace_member(&mut self, workspace_id: &str, email: &str) -> (r: Option<FlowyError>)
        requires
            old(self).wf(),
        ensures
            final(self).wf(),
            final(self).ids() == old(self).ids(),
            final(self).forgotten() == old(self).forgotten(),
            sent(old(self).journal(), final(self).journal(), old(self).ids(), user(UserEvent::RemoveWorkspaceMember), request_of::<RemoveWorkspaceMemberPB>((workspace_id@, email@))),
            answered_error(final(self).journal(), old(self).ids(), user(UserEvent::RemoveWorkspaceMember), r),
    {
        let req = RemoveWorkspaceMemberPB { workspace_id: workspace_id.to_owned(), email: email.to_owned() };
        self.command(CommandId::User(UserEvent::RemoveWorkspaceMember), &req)
    }

    /// The members of a workspace.
    pub fn get_workspace_members(&mut self, workspace_id: &str) -> (r: Result<Vec<WorkspaceMemberPB>, FlowyError>)
        requires
            old(self).wf(),
        ensures
            final(self).wf(),
            final(self).ids() == old(self).ids(),
            final(self).forgotten() == old(self).forgotten(),
            sent(old(self).journal(), final(self).journal(), old(self).ids(), user(UserEvent::GetWorkspaceMembers), request_of::<String>(workspace_id@)),
            answered::<Vec<WorkspaceMemberPB>>(final(self).journal(), old(self).ids(), user(UserEvent::GetWorkspaceMembers), r),
    {
        let req = workspace_id.to_owned();
        self.call(CommandId::User(UserEvent::GetWorkspaceMembers), &req)
    }

    /// The signed-in user.
    pub fn get_user_profile(&mut self) -> (r: Result<UserProfilePB, FlowyError>)
        requires
            old(self).wf(),
        ensures
            final(self).wf(),
            final(self).ids() == old(self).ids(),
            final(self).forgotten() == old(self).forgotten(),
            sent(old(self).journal(), final(self).journal(), old(self).ids(), user(UserEvent::GetUserProfile), None),
            answered::<UserProfilePB>(final(self).journal(), old(self).ids(), user(UserEvent::GetUserProfile), r),
    {
        self.query(CommandId::User(UserEvent::GetUserProfile))
    }

    /// The current workspace.
    pub fn get_current_workspace(&mut self) -> (r: Result<WorkspacePB, FlowyError>)
        requires
            old(self).wf(),
        ensures
            final(self).wf(),
            final(self).ids() == old(self).ids(),
            final(self).forgotten() == old(self).forgotten(),
            sent(old(self).journal(), final(self).journal(), old(self).ids(), folder(FolderEvent::ReadCurrentWorkspace), None),
            answered::<WorkspacePB>(final(self).journal(), old(self).ids(), folder(FolderEvent::ReadCurrentWorkspace), r),
    {
        self.query(CommandId::Folder(FolderEvent::ReadCurrentWorkspace))
    }

    /// A workspace as this user sees it.
    pub fn get_user_workspace(&mut self, workspace_id: &str) -> (r: Result<UserWorkspacePB, FlowyError>)
        requires
            old(self).wf(),
        ensures
            final(self).wf(),
            final(self).ids() == old(self).ids(),
            final(self).forgotten() == old(self).forgotten(),
            sent(old(self).journal(), final(self).journal(), old(self).ids(), user(UserEvent::GetUserWorkspace), request_of::<String>(workspace_id@)),
            answered::<UserWorkspacePB>(final(self).journal(), old(self).ids(), user(UserEvent::GetUserWorkspace), r),
    {
        let req = workspace_id.to_owned();
        self.call(CommandId::User(UserEvent::GetUserWorkspace), &req)
    }

    /// Creates a view that is its own parent; the answer is dropped.
    pub fn create_orphan_view(&mut self, name: &str, view_id: &str, layout: ViewLayout)
        requires
            old(self).wf(),
        ensures
            final(self).wf(),
            final(self).ids() == old(self).ids(),
            sent(old(self).journal(), final(self).journal(), old(self).ids(), folder(FolderEvent::CreateOrphanView), request_of::<CreateOrphanViewPayloadPB>((view_id@, name@, layout, Seq::<u8>::empty()))),
            forgot(old(self).forgotten(), final(self).forgotten(), final(self).journal(), old(self).ids(), folder(FolderEvent::CreateOrphanView)),
    {
        let req = CreateOrphanViewPayloadPB { view_id: view_id.to_owned(), name: name.to_owned(), layout, initial_data: Vec::new() };
        self.notify(CommandId::Folder(FolderEvent::CreateOrphanView), &req);
    }

    /// Everything the folder holds.
    pub fn get_folder_data(&mut self) -> (r: Result<FolderDataPB, FlowyError>)
        requires
            old(self).wf(),
        ensures
            final(self).wf(),
            final(self).ids() == old(self).ids(),
            final(self).forgotten() == old(self).forgotten(),
            sent(old(self).journal(), final(self).journal(), old(self).ids(), folder(FolderEvent::GetFolderData), None),
            answered::<FolderDataPB>(final(self).journal(), old(self).ids(), folder(FolderEvent::GetFolderData), r),
    {
        self.query(CommandId::Folder(FolderEvent::GetFolderData))
    }

    /// The views of the current workspace.
    pub fn get_all_workspace_views(&mut self) -> (r: Result<Vec<ViewPB>, FlowyError>)
        requires
            old(self).wf(),
        ensures
            final(self).wf(),
            final(self).ids() == old(self).ids(),
            final(self).forgotten() == old(self).forgotten(),
            sent(old(self).journal(), final(self).journal(), old(self).ids(), folder(FolderEvent::ReadCurrentWorkspaceViews), None),
            answered::<Vec<ViewPB>>(final(self).journal(), old(self).ids(), folder(FolderEvent::ReadCurrentWorkspaceViews), r),
    {
        self.query(CommandId::Folder(FolderEvent::ReadCurrentWorkspaceViews))
    }

    /// Every view of the current workspace, those in the trash and the orphans included.
    pub fn get_all_views(&mut self) -> (r: Result<Vec<ViewPB>, FlowyError>)
        requires
            old(self).wf(),
        ensures
            final(self).wf(),
            final(self).ids() == old(self).ids(),
            final(self).forgotten() == old(self).forgotten(),
            sent(old(self).journal(), final(self).journal(), old(self).ids(), folder(FolderEvent::GetAllViews), None),
            answered::<Vec<ViewPB>>(final(self).journal(), old(self).ids(), folder(FolderEvent::GetAllViews), r),
    {
        self.query(CommandId::Folder(FolderEvent::GetAllViews))
    }

    /// The views in the trash.
    pub fn get_trash(&mut self) -> (r: Result<Vec<TrashPB>, FlowyError>)
        requires
            old(self).wf(),
        ensures
            final(self).wf(),
            final(self).ids() == old(self).ids(),
            final(self).forgotten() == old(self).forgotten(),
            sent(old(self).journal(), final(self).journal(), old(self).ids(), folder(FolderEvent::ListTrashItems), None),
            answered::<Vec<TrashPB>>(final(self).journal(), old(self).ids(), folder(FolderEvent::ListTrashItems), r),
    {
        self.query(CommandId::Folder(FolderEvent::ListTrashItems))
    }

    /// Moves a view to the trash.
    pub fn delete_view(&mut self, view_id: &str) -> (r: Option<FlowyError>)
        requires
            old(self).wf(),
        ensures
            final(self).wf(),
            final(self).ids() == old(self).ids(),
            final(self).forgotten() == old(self).forgotten(),
            sent(old(self).journal(), final(self).journal(), old(self).ids(), folder(FolderEvent::DeleteView), request_of::<Vec<String>>(seq![view_id@])),
            answered_error(final(self).journal(), old(self).ids(), folder(FolderEvent::DeleteView), r),
    {
        let req: Vec<String> = vec![view_id.to_owned()];
        assert(req.model() =~= seq![view_id@]);
        self.command(CommandId::Folder(FolderEvent::DeleteView), &req)
    }

    /// Applies a change to a view.
    pub fn update_view(&mut self, changeset: &UpdateViewPayloadPB) -> (r: Option<FlowyError>)
        requires
            old(self).wf(),
        ensures
            final(self).wf(),
            final(self).ids() == old(self).ids(),
            final(self).forgotten() == old(self).forgotten(),
            sent(old(self).journal(), final(self).journal(), old(self).ids(), folder(FolderEvent::UpdateView), request_of::<UpdateViewPayloadPB>(changeset.model())),
            answered_error(final(self).journal(), old(self).ids(), folder(FolderEvent::UpdateView), r),
    {
        self.command(CommandId::Folder(FolderEvent::UpdateView), changeset)
    }

    /// Changes the icon of a view.
    pub fn update_view_icon(&mut self, payload: &UpdateViewIconPayloadPB) -> (r: Option<FlowyError>)
        requires
            old(self).wf(),
        ensures
            final(self).wf(),
            final(self).ids() == old(self).ids(),
            final(self).forgotten() == old(self).forgotten(),
            sent(old(self).journal(), final(self).journal(), old(self).ids(), folder(FolderEvent::UpdateViewIcon), request_of::<UpdateViewIconPayloadPB>(payload.model())),
            answered_error(final(self).journal(), old(self).ids(), folder(FolderEvent::UpdateViewIcon), r),
    {
        self.command(CommandId::Folder(FolderEvent::UpdateViewIcon), payload)
    }

    /// Creates a view under `parent_id`.
    pub fn create_view_with_layout(&mut self, parent_id: &str, name: String, layout: ViewLayout) -> (r: Result<ViewPB, FlowyError>)
        requires
            old(self).wf(),
        ensures
            final(self).wf(),
            final(self).ids() == old(self).ids(),
            final(self).forgotten() == old(self).forgotten(),
            sent(old(self).journal(), final(self).journal(), old(self).ids(), folder(FolderEvent::CreateView), request_of::<CreateViewPayloadPB>((parent_id@, name@, None::<Seq<char>>, layout, Seq::<u8>::empty(), false, None::<u64>, None::<ViewSection>, None::<Seq<char>>, None::<Seq<char>>, None::<Seq<char>>))),
            answered::<ViewPB>(final(self).journal(), old(self).ids(), folder(FolderEvent::CreateView), r),
    {
        let req = CreateViewPayloadPB { parent_view_id: parent_id.to_owned(), name, thumbnail: None, layout, initial_data: Vec::new(), set_as_current: false, index: None, section: None, view_id: None, icon: None, extra: None };
        self.call(CommandId::Folder(FolderEvent::CreateView), &req)
    }

    /// Creates a document view under `parent_id`.
    pub fn create_view(&mut self, parent_id: &str, name: String) -> (r: Result<ViewPB, FlowyError>)
        requires
            old(self).wf(),
        ensures
            final(self).wf(),
            final(self).ids() == old(self).ids(),
            final(self).forgotten() == old(self).forgotten(),
            sent(old(self).journal(), final(self).journal(), old(self).ids(), folder(FolderEvent::CreateView), request_of::<CreateViewPayloadPB>((parent_id@, name@, None::<Seq<char>>, ViewLayout::Document, Seq::<u8>::empty(), false, None::<u64>, None::<ViewSection>, None::<Seq<char>>, None::<Seq<char>>, None::<Seq<char>>))),
            answered::<ViewPB>(final(self).journal(), old(self).ids(), folder(FolderEvent::CreateView), r),
    {
        self.create_view_with_layout(parent_id, name, ViewLayout::Document)
    }

    /// A view by its id.
    pub fn get_view(&mut self, view_id: &str) -> (r: Result<ViewPB, FlowyError>)
        requires
            old(self).wf(),
        ensures
            final(self).wf(),
            final(self).ids() == old(self).ids(),
            final(self).forgotten() == old(self).forgotten(),
            sent(old(self).journal(), final(self).journal(), old(self).ids(), folder(FolderEvent::GetView), request_of::<String>(view_id@)),
            answered::<ViewPB>(final(self).journal(), old(self).ids(), folder(FolderEvent::GetView), r),
    {
        let req = view_id.to_owned();
        self.call(CommandId::Folder(FolderEvent::GetView), &req)
    }

    /// Imports content; the answer is the views created.
    pub fn import_data(&mut self, data: &ImportPayloadPB) -> (r: Result<Vec<ViewPB>, FlowyError>)
        requires
            old(self).wf(),
        ensures
            final(self).wf(),
            final(self).ids() == old(self).ids(),
            final(self).forgotten() == old(self).forgotten(),
            sent(old(self).journal(), final(self).journal(), old(self).ids(), folder(FolderEvent::ImportData), request_of::<ImportPayloadPB>(data.model())),
            answered::<Vec<ViewPB>>(final(self).journal(), old(self).ids(), folder(FolderEvent::ImportData), r),
    {
        self.call(CommandId::Folder(FolderEvent::ImportData), data)
    }

    /// The chain of views from a view up to the workspace root, as the handler answers it.
    pub fn get_view_ancestors(&mut self, view_id: &str) -> (r: Result<Vec<ViewPB>, FlowyError>)
        requires
            old(self).wf(),
        ensures
            final(self).wf(),
            final(self).ids() == old(self).ids(),
            final(self).forgotten() == old(self).forgotten(),
            sent(old(self).journal(), final(self).journal(), old(self).ids(), folder(FolderEvent::GetViewAncestors), request_of::<String>(view_id@)),
            answered::<Vec<ViewPB>>(final(self).journal(), old(self).ids(), folder(FolderEvent::GetViewAncestors), r),
    {
        let req = view_id.to_owned();
        self.call(CommandId::Folder(FolderEvent::GetViewAncestors), &req)
    }
}

/// The workspace a view was created in, and that view.
pub struct ViewTest {
    pub workspace: WorkspacePB,
    pub child_view: ViewPB,
}

impl ViewTest {
    /// Creates "View A" as the current view of the current workspace.
    #[verifier::rlimit(80)]
    pub fn new<H: Handler>(sdk: &mut EventIntegrationTest<H>, layout: ViewLayout, data: Vec<u8>) -> (r: Result<ViewTest, FlowyError>)
        requires
            old(sdk).wf(),
        ensures
            final(sdk).wf(),
            final(sdk).ids() == old(sdk).ids(),
            final(sdk).forgotten() == old(sdk).forgotten(),
            view_test_made(old(sdk).journal(), final(sdk).journal(), old(sdk).ids(), layout, data@, r),
    {
        let ghost b = old(sdk).journal().len() as int;
        let ghost n1 = after_call(b, old(sdk).ids(), folder(FolderEvent::ReadCurrentWorkspace));
        let workspace = match sdk.get_current_workspace() {
            Ok(w) => w,
            Err(e) => {
                assert(sdk.journal().take(n1) =~= sdk.journal());
                return Err(e);
            },
        };
        let ghost mid = sdk.journal();
        assert(mid.take(n1) =~= mid);
        assert(mid.last() == mid[b]);
        let ghost data_model = data@;
        let req = CreateViewPayloadPB {
            parent_view_id: workspace.id.clone(),
            name: "View A".to_owned(),
            thumbnail: Some("http://1.png".to_owned()),
            layout,
            initial_data: data,
            set_as_current: true,
            index: None,
            section: None,
            view_id: None,
            icon: None,
            extra: None,
        };
        assert(req.initial_data.model() =~= data_model);
        let view: Result<ViewPB, FlowyError> = sdk.call(CommandId::Folder(FolderEvent::CreateView), &req);
        proof {
            let j = sdk.journal();
            assert(j.take(n1) =~= mid) by {
                if j.len() > mid.len() {
                    assert(j.drop_last() == mid);
                }
            }
            assert(j[b] == mid[b]);
        }
        match view {
            Ok(child_view) => Ok(ViewTest { workspace, child_view }),
            Err(e) => Err(e),
        }
    }

    pub fn new_grid_view<H: Handler>(sdk: &mut EventIntegrationTest<H>, data: Vec<u8>) -> (r: Result<ViewTest, FlowyError>)
        requires
            old(sdk).wf(),
        ensures
            final(sdk).wf(),
            final(sdk).ids() == old(sdk).ids(),
            final(sdk).forgotten() == old(sdk).forgotten(),
            view_test_made(old(sdk).journal(), final(sdk).journal(), old(sdk).ids(), ViewLayout::Grid, data@, r),
    {
        ViewTest::new(sdk, ViewLayout::Grid, data)
    }

    pub fn new_board_view<H: Handler>(sdk: &mut EventIntegrationTest<H>, data: Vec<u8>) -> (r: Result<ViewTest, FlowyError>)
        requires
            old(sdk).wf(),
        ensures
            final(sdk).wf(),
            final(sdk).ids() == old(sdk).ids(),
            final(sdk).forgotten() == old(sdk).forgotten(),
            view_test_made(old(sdk).journal(), final(sdk).journal(), old(sdk).ids(), ViewLayout::Board, data@, r),
    {
        ViewTest::new(sdk, ViewLayout::Board, data)
    }

    pub fn new_calendar_view<H: Handler>(sdk: &mut EventIntegrationTest<H>, data: Vec<u8>) -> (r: Result<ViewTest, FlowyError>)
        requires
            old(sdk).wf(),
        ensures
            final(sdk).wf(),
            final(sdk).ids() == old(sdk).ids(),
            final(sdk).forgotten() == old(sdk).forgotten(),
            view_test_made(old(sdk).journal(), final(sdk).journal(), old(sdk).ids(), ViewLayout::Calendar, data@, r),
    {
        ViewTest::new(sdk, ViewLayout::Calendar, data)
    }
}

} // verus!
