use std::cell::RefCell;
use std::rc::Rc;

use event_bus::client::{find_invitation, EventIntegrationTest, ViewTest};
use event_bus::command::{CommandId, FolderEvent, UserEvent};
use event_bus::dispatch::{Dispatcher, Handler, Registry};
use event_bus::entities::{
    CreateViewPayloadPB, FolderDataPB, GatherPublishPayloadPB, ImportPayloadPB, InvitationStatus,
    PublishPayloadPB, RemoveWorkspaceMemberPB, Role, TrashPB, UpdateViewIconPayloadPB,
    UpdateViewPayloadPB, UserProfilePB, UserWorkspacePB, ViewLayout, ViewPB, WorkspaceInvitationPB,
    WorkspaceMemberInvitationPB, WorkspaceMemberPB, WorkspacePB,
};
use event_bus::envelope::{decode, encode, Envelope};
use event_bus::error::{ErrorCode, FlowyError};

const WORKSPACE: &str = "550e8400-e29b-41d4-a716-446655440000";

#[derive(Clone)]
struct StoredView {
    view: ViewPB,
    data: Vec<u8>,
    trashed: bool,
}

#[derive(Default)]
struct World {
    members: Vec<(String, WorkspaceMemberPB)>,
    invitations: Vec<WorkspaceInvitationPB>,
    views: Vec<StoredView>,
    next_id: u32,
    calls: u32,
}

impl World {
    fn new() -> World {
        let mut w = World::default();
        w.views.push(StoredView {
            view: ViewPB {
                id: WORKSPACE.to_string(),
                parent_view_id: String::new(),
                name: "Workspace".to_string(),
                layout: ViewLayout::Document,
                icon: None,
                child_views: vec![],
                extra: None,
            },
            data: vec![],
            trashed: false,
        });
        w
    }

    fn find(&self, id: &str) -> Option<usize> {
        self.views.iter().position(|v| v.view.id == id)
    }

    fn fresh_id(&mut self) -> String {
        self.next_id += 1;
        format!("00000000-0000-0000-0000-{:012}", self.next_id)
    }
}

struct Backend {
    world: Rc<RefCell<World>>,
    email: String,
    cmd: CommandId,
}

fn err(code: ErrorCode, msg: &str) -> FlowyError {
    FlowyError { code, msg: msg.to_string() }
}

fn req<T: event_bus::message::Message>(p: &Option<Vec<u8>>) -> Result<T, FlowyError> {
    match p {
        Some(b) => decode::<T>(b),
        None => Err(err(ErrorCode::DecodeError, "missing payload")),
    }
}

impl Handler for Backend {
    fn handle(&self, payload: &Option<Vec<u8>>) -> Result<Vec<u8>, FlowyError> {
        let mut w = self.world.borrow_mut();
        w.calls += 1;
        match self.cmd {
            CommandId::User(UserEvent::GetUserProfile) => Ok(encode(&UserProfilePB {
                email: self.email.clone(),
                name: self.email.clone(),
            })),
            CommandId::User(UserEvent::InviteWorkspaceMember) => {
                let r: WorkspaceMemberInvitationPB = req(payload)?;
                let id = format!("invite-{}", w.invitations.len());
                w.invitations.push(WorkspaceInvitationPB {
                    invite_id: id,
                    workspace_id: r.workspace_id,
                    invitee_email: r.invitee_email,
                    status: InvitationStatus::Pending,
                });
                Ok(vec![])
            }
            CommandId::User(UserEvent::ListWorkspaceInvitations) => {
                let mine: Vec<WorkspaceInvitationPB> = w
                    .invitations
                    .iter()
                    .filter(|i| i.invitee_email == self.email && i.status == InvitationStatus::Pending)
                    .cloned()
                    .collect();
                Ok(encode(&mine))
            }
            CommandId::User(UserEvent::AcceptWorkspaceInvitation) => {
                let id: String = req(payload)?;
                let pos = w.invitations.iter().position(|i| i.invite_id == id);
                match pos {
                    Some(p) => {
                        w.invitations[p].status = InvitationStatus::Accepted;
                        let ws = w.invitations[p].workspace_id.clone();
                        let member = WorkspaceMemberPB {
                            email: self.email.clone(),
                            name: self.email.clone(),
                            role: Role::Member,
                        };
                        w.members.push((ws, member));
                        Ok(vec![])
                    }
                    None => Err(err(ErrorCode::NotFound, "no such invitation")),
                }
            }
            CommandId::User(UserEvent::RemoveWorkspaceMember) => {
                let r: RemoveWorkspaceMemberPB = req(payload)?;
                let before = w.members.len();
                w.members.retain(|(ws, m)| !(ws == &r.workspace_id && m.email == r.email));
                if w.members.len() == before {
                    Err(err(ErrorCode::NotFound, "not a member"))
                } else {
                    Ok(vec![])
                }
            }
            CommandId::User(UserEvent::GetWorkspaceMembers) => {
                let ws: String = req(payload)?;
                let list: Vec<WorkspaceMemberPB> = w
                    .members
                    .iter()
                    .filter(|(id, _)| id == &ws)
                    .map(|(_, m)| m.clone())
                    .collect();
                Ok(encode(&list))
            }
            CommandId::User(UserEvent::GetUserWorkspace) => {
                let ws: String = req(payload)?;
                Ok(encode(&UserWorkspacePB { workspace_id: ws, name: "Workspace".to_string() }))
            }
            CommandId::Folder(FolderEvent::ReadCurrentWorkspace) => {
                let children: Vec<String> = w
                    .views
                    .iter()
                    .filter(|v| v.view.parent_view_id == WORKSPACE && !v.trashed)
                    .map(|v| v.view.id.clone())
                    .collect();
                Ok(encode(&WorkspacePB {
                    id: WORKSPACE.to_string(),
                    name: "Workspace".to_string(),
                    views: children,
                }))
            }
            CommandId::Folder(FolderEvent::CreateView) => {
                let r: CreateViewPayloadPB = req(payload)?;
                if w.find(&r.parent_view_id).is_none() {
                    return Err(err(ErrorCode::NotFound, "no such parent"));
                }
                let id = match r.view_id {
                    Some(id) => id,
                    None => w.fresh_id(),
                };
                if r.name == "fail" {
                    return Err(err(ErrorCode::Conflict, "refused"));
                }
                let view = ViewPB {
                    id,
                    parent_view_id: r.parent_view_id,
                    name: r.name,
                    layout: r.layout,
                    icon: r.icon,
                    child_views: vec![],
                    extra: r.extra,
                };
                w.views.push(StoredView { view: view.clone(), data: r.initial_data, trashed: false });
                Ok(encode(&view))
            }
            CommandId::Folder(FolderEvent::GetView) => {
                let id: String = req(payload)?;
                match w.find(&id) {
                    Some(p) if !w.views[p].trashed => Ok(encode(&w.views[p].view)),
                    _ => Err(err(ErrorCode::NotFound, "no such view")),
                }
            }
            CommandId::Folder(FolderEvent::DeleteView) => {
                let ids: Vec<String> = req(payload)?;
                for id in ids {
                    match w.find(&id) {
                        Some(p) => w.views[p].trashed = true,
                        None => return Err(err(ErrorCode::NotFound, "no such view")),
                    }
                }
                Ok(vec![])
            }
            CommandId::Folder(FolderEvent::UpdateView) => {
                let r: UpdateViewPayloadPB = req(payload)?;
                match w.find(&r.view_id) {
                    Some(p) => {
                        if let Some(name) = r.name {
                            w.views[p].view.name = name;
                        }
                        Ok(vec![])
                    }
                    None => Err(err(ErrorCode::NotFound, "no such view")),
                }
            }
            CommandId::Folder(FolderEvent::UpdateViewIcon) => {
                let r: UpdateViewIconPayloadPB = req(payload)?;
                match w.find(&r.view_id) {
                    Some(p) => {
                        w.views[p].view.icon = r.icon;
                        Ok(vec![])
                    }
                    None => Err(err(ErrorCode::NotFound, "no such view")),
                }
            }
            CommandId::Folder(FolderEvent::ReadCurrentWorkspaceViews) => {
                let list: Vec<ViewPB> = w
                    .views
                    .iter()
                    .filter(|v| v.view.parent_view_id == WORKSPACE && !v.trashed)
                    .map(|v| v.view.clone())
                    .collect();
                Ok(encode(&list))
            }
            CommandId::Folder(FolderEvent::GetAllViews) => {
                let list: Vec<ViewPB> =
                    w.views.iter().skip(1).map(|v| v.view.clone()).collect();
                Ok(encode(&list))
            }
            CommandId::Folder(FolderEvent::ListTrashItems) => {
                let list: Vec<TrashPB> = w
                    .views
                    .iter()
                    .filter(|v| v.trashed)
                    .map(|v| TrashPB { id: v.view.id.clone(), name: v.view.name.clone() })
                    .collect();
                Ok(encode(&list))
            }
            CommandId::Folder(FolderEvent::GetViewAncestors) => {
                let id: String = req(payload)?;
                let mut chain: Vec<ViewPB> = vec![];
                let mut cur = id;
                loop {
                    match w.find(&cur) {
                        Some(p) => {
                            chain.push(w.views[p].view.clone());
                            if cur == WORKSPACE {
                                break;
                            }
                            cur = w.views[p].view.parent_view_id.clone();
                        }
                        None => return Err(err(ErrorCode::NotFound, "broken chain")),
                    }
                }
                Ok(encode(&chain))
            }
            CommandId::Folder(FolderEvent::GatherPublishPayload) => {
                let r: GatherPublishPayloadPB = req(payload)?;
                let p = match w.find(&r.view_id) {
                    Some(p) => p,
                    None => return Err(err(ErrorCode::NotFound, "no such view")),
                };
                let parent = w.views[p].view.parent_view_id.clone();
                if w.find(&parent).is_none() {
                    return Err(err(ErrorCode::Internal, "view tree is broken"));
                }
                let mut out: Vec<PublishPayloadPB> = vec![];
                let mut push = |v: &StoredView| {
                    if !v.data.is_empty() {
                        out.push(PublishPayloadPB { view_id: v.view.id.clone(), data: v.data.clone() });
                    }
                };
                push(&w.views[p]);
                if r.include_children {
                    for v in w.views.iter().filter(|v| v.view.parent_view_id == r.view_id) {
                        push(v);
                    }
                }
                Ok(encode(&out))
            }
            CommandId::Folder(FolderEvent::ImportData) => {
                let r: ImportPayloadPB = req(payload)?;
                let id = w.fresh_id();
                let view = ViewPB {
                    id,
                    parent_view_id: r.parent_view_id,
                    name: r.name,
                    layout: ViewLayout::Document,
                    icon: None,
                child_views: vec![],
                extra: None,
                };
                w.views.push(StoredView { view: view.clone(), data: r.data, trashed: false });
                Ok(encode(&vec![view]))
            }
            CommandId::Folder(FolderEvent::GetFolderData) => {
                let list: Vec<ViewPB> = w.views.iter().map(|v| v.view.clone()).collect();
                Ok(encode(&FolderDataPB { workspace_id: WORKSPACE.to_string(), views: list }))
            }
            CommandId::Folder(FolderEvent::CreateOrphanView) => Ok(vec![]),
        }
    }
}

const ALL: [CommandId; 21] = [
    CommandId::User(UserEvent::GetUserProfile),
    CommandId::User(UserEvent::InviteWorkspaceMember),
    CommandId::User(UserEvent::ListWorkspaceInvitations),
    CommandId::User(UserEvent::AcceptWorkspaceInvitation),
    CommandId::User(UserEvent::RemoveWorkspaceMember),
    CommandId::User(UserEvent::GetWorkspaceMembers),
    CommandId::User(UserEvent::GetUserWorkspace),
    CommandId::Folder(FolderEvent::ReadCurrentWorkspace),
    CommandId::Folder(FolderEvent::CreateView),
    CommandId::Folder(FolderEvent::CreateOrphanView),
    CommandId::Folder(FolderEvent::GetView),
    CommandId::Folder(FolderEvent::DeleteView),
    CommandId::Folder(FolderEvent::UpdateView),
    CommandId::Folder(FolderEvent::UpdateViewIcon),
    CommandId::Folder(FolderEvent::ReadCurrentWorkspaceViews),
    CommandId::Folder(FolderEvent::GetAllViews),
    CommandId::Folder(FolderEvent::ListTrashItems),
    CommandId::Folder(FolderEvent::ImportData),
    CommandId::Folder(FolderEvent::GetViewAncestors),
    CommandId::Folder(FolderEvent::GatherPublishPayload),
    CommandId::Folder(FolderEvent::GetFolderData),
];

fn client(world: &Rc<RefCell<World>>, email: &str) -> EventIntegrationTest<Backend> {
    client_without(world, email, None)
}

fn client_without(
    world: &Rc<RefCell<World>>,
    email: &str,
    skip: Option<CommandId>,
) -> EventIntegrationTest<Backend> {
    let mut reg = Registry::new();
    for id in ALL {
        if Some(id) == skip {
            continue;
        }
        reg.register(id, Backend { world: world.clone(), email: email.to_string(), cmd: id })
            .unwrap();
    }
    EventIntegrationTest::new(Dispatcher::new(reg))
}

fn setup() -> (Rc<RefCell<World>>, EventIntegrationTest<Backend>) {
    let world = Rc::new(RefCell::new(World::new()));
    let sdk = client(&world, "owner@example.com");
    (world, sdk)
}

#[test]
fn string_wire_is_length_then_utf8() {
    let bytes = encode(&"ab".to_string());
    assert_eq!(bytes, vec![2, 0, 0, 0, 0, 0, 0, 0, b'a', b'b']);
    let bytes = encode(&"é".to_string());
    assert_eq!(bytes, vec![2, 0, 0, 0, 0, 0, 0, 0, 0xc3, 0xa9]);
}

#[test]
fn request_round_trips() {
    let r = WorkspaceMemberInvitationPB {
        workspace_id: WORKSPACE.to_string(),
        invitee_email: "b@example.com".to_string(),
        role: Role::Guest,
    };
    let back: WorkspaceMemberInvitationPB = decode(&encode(&r)).unwrap();
    assert_eq!(back.workspace_id, r.workspace_id);
    assert_eq!(back.invitee_email, r.invitee_email);
    assert_eq!(back.role, Role::Guest);

    let c = CreateViewPayloadPB {
        parent_view_id: "p".to_string(),
        name: "Ünïcode".to_string(),
        thumbnail: Some("http://1.png".to_string()),
        layout: ViewLayout::Calendar,
        initial_data: vec![0, 255, 7],
        set_as_current: true,
        index: Some(3),
        section: None,
        view_id: None,
        icon: None,
        extra: Some("{}".to_string()),
    };
    let back: CreateViewPayloadPB = decode(&encode(&c)).unwrap();
    assert_eq!(back.name, c.name);
    assert_eq!(back.thumbnail, c.thumbnail);
    assert_eq!(back.layout, ViewLayout::Calendar);
    assert_eq!(back.initial_data, vec![0, 255, 7]);
    assert!(back.set_as_current);
    assert_eq!(back.view_id, None);
    assert_eq!(back.index, Some(3));
    assert_eq!(back.section, None);
    assert_eq!(back.extra, Some("{}".to_string()));

    let ids = vec!["a".to_string(), String::new(), "c".to_string()];
    let back: Vec<String> = decode(&encode(&ids)).unwrap();
    assert_eq!(back, ids);
    let empty: Vec<String> = decode(&encode(&Vec::<String>::new())).unwrap();
    assert!(empty.is_empty());
}

#[test]
fn decode_rejects_wrong_shape() {
    let e = decode::<String>(&vec![9, 0, 0]).unwrap_err();
    assert_eq!(e.code, ErrorCode::DecodeError);
    let mut bytes = encode(&"x".to_string());
    bytes.push(0);
    assert_eq!(decode::<String>(&bytes).unwrap_err().code, ErrorCode::DecodeError);
    let bad_utf8 = vec![1, 0, 0, 0, 0, 0, 0, 0, 0xff];
    assert_eq!(decode::<String>(&bad_utf8).unwrap_err().code, ErrorCode::DecodeError);
    let bad_role = vec![7u8];
    assert_eq!(decode::<Role>(&bad_role).unwrap_err().code, ErrorCode::DecodeError);
}

#[test]
fn duplicate_registration_is_refused() {
    let world = Rc::new(RefCell::new(World::new()));
    let mut reg = Registry::new();
    let id = CommandId::Folder(FolderEvent::GetView);
    let mk = || Backend { world: world.clone(), email: String::new(), cmd: id };
    assert!(reg.register(id, mk()).is_ok());
    let e = reg.register(id, mk()).unwrap_err();
    assert_eq!(e.code, ErrorCode::DuplicateRegistration);
    assert!(reg.is_registered(id));
    assert!(!reg.is_registered(CommandId::Folder(FolderEvent::CreateView)));
    assert_eq!(reg.resolve(id), Some(0));
}

#[test]
fn unknown_command_calls_no_handler() {
    let world = Rc::new(RefCell::new(World::new()));
    let mut reg = Registry::new();
    let id = CommandId::User(UserEvent::GetUserProfile);
    reg.register(id, Backend { world: world.clone(), email: "a@b".to_string(), cmd: id }).unwrap();
    let mut d = Dispatcher::new(reg);
    let env = d.dispatch(CommandId::Folder(FolderEvent::GetView), None);
    match env {
        Envelope::Failure(e) => assert_eq!(e.code, ErrorCode::UnknownCommand),
        Envelope::Success(_) => panic!("an unknown command succeeded"),
    }
    assert_eq!(world.borrow().calls, 0);
}

#[test]
fn dispatch_calls_the_handler_once() {
    let (world, mut sdk) = setup();
    let before = world.borrow().calls;
    let env = sdk.send(CommandId::User(UserEvent::GetUserProfile), None);
    assert!(env.is_success());
    assert_eq!(world.borrow().calls, before + 1);
    sdk.invite_workspace_member(WORKSPACE, "x@example.com", Role::Member);
    assert_eq!(world.borrow().calls, before + 2);
    assert_eq!(world.borrow().invitations.len(), 1);
}

#[test]
fn handler_error_is_wrapped_unchanged() {
    let (_world, mut sdk) = setup();
    let e = sdk.get_view("missing").unwrap_err();
    assert_eq!(e.code, ErrorCode::NotFound);
    assert_eq!(e.msg, "no such view");
    let env = sdk.send(CommandId::Folder(FolderEvent::GetView), None);
    let e = env.error().unwrap();
    assert_eq!(e.code, ErrorCode::DecodeError);
    assert_eq!(e.msg, "missing payload");
}

#[test]
fn envelope_parse_modes() {
    let ok = Envelope::Success(encode(&"v".to_string()));
    assert_eq!(ok.parse_or_panic::<String>(), "v");
    let bad = Envelope::Success(vec![1, 2]);
    assert_eq!(bad.parse::<String>().unwrap_err().code, ErrorCode::DecodeError);
    let failed = Envelope::Failure(FlowyError::new(ErrorCode::Conflict, "busy"));
    let e = failed.parse::<String>().unwrap_err();
    assert_eq!(e.code, ErrorCode::Conflict);
    assert_eq!(e.msg, "busy");
    assert!(Envelope::Success(vec![]).error().is_none());
}

#[test]
fn invite_then_accept_adds_member() {
    let world = Rc::new(RefCell::new(World::new()));
    let mut owner = client(&world, "owner@example.com");
    let mut other = client(&world, "b@example.com");
    owner.add_workspace_member(WORKSPACE, &mut other).unwrap();
    let members = owner.get_workspace_members(WORKSPACE).unwrap();
    assert!(members.iter().any(|m| m.email == "b@example.com" && m.role == Role::Member));
    assert_eq!(world.borrow().invitations[0].status, InvitationStatus::Accepted);
}

#[test]
fn list_invitations_shows_the_pending_one() {
    let world = Rc::new(RefCell::new(World::new()));
    let mut owner = client(&world, "owner@example.com");
    let mut other = client(&world, "b@example.com");
    owner.invite_workspace_member(WORKSPACE, "b@example.com", Role::Member);
    let list = other.list_workspace_invitations().unwrap();
    assert!(!list.is_empty());
    let i = find_invitation(&list, WORKSPACE).unwrap();
    assert_eq!(list[i].workspace_id, WORKSPACE);
    assert!(other.accept_workspace_invitation(&list[i].invite_id).is_none());
    let again = other.accept_workspace_invitation("invite-99").unwrap();
    assert_eq!(again.code, ErrorCode::NotFound);
}

#[test]
fn missing_invitation_violates_the_workflow() {
    let world = Rc::new(RefCell::new(World::new()));
    // The inviter cannot send invitations, so none arrives.
    let mut owner = client_without(
        &world,
        "owner@example.com",
        Some(CommandId::User(UserEvent::InviteWorkspaceMember)),
    );
    let mut other = client(&world, "b@example.com");
    let e = owner.add_workspace_member(WORKSPACE, &mut other).unwrap_err();
    assert_eq!(e.code, ErrorCode::WorkflowAssumptionViolated);
}

#[test]
fn find_invitation_takes_the_first_match() {
    let mk = |id: &str, ws: &str| WorkspaceInvitationPB {
        invite_id: id.to_string(),
        workspace_id: ws.to_string(),
        invitee_email: "e".to_string(),
        status: InvitationStatus::Pending,
    };
    let items = vec![mk("1", "w1"), mk("2", "w2"), mk("3", "w2")];
    assert_eq!(find_invitation(&items, "w2"), Some(1));
    assert_eq!(find_invitation(&items, "w3"), None);
    assert_eq!(find_invitation(&vec![], "w1"), None);
}

#[test]
fn delete_workspace_member_removes_it() {
    let world = Rc::new(RefCell::new(World::new()));
    let mut owner = client(&world, "owner@example.com");
    let mut other = client(&world, "b@example.com");
    owner.add_workspace_member(WORKSPACE, &mut other).unwrap();
    assert!(owner.delete_workspace_member(WORKSPACE, "b@example.com").is_none());
    assert!(owner.get_workspace_members(WORKSPACE).unwrap().is_empty());
    let e = owner.delete_workspace_member(WORKSPACE, "b@example.com").unwrap();
    assert_eq!(e.code, ErrorCode::NotFound);
}

#[test]
fn view_crud_read_equals_created() {
    let (_world, mut sdk) = setup();
    let t = ViewTest::new_grid_view(&mut sdk, vec![]).unwrap();
    let v = t.child_view;
    assert_eq!(v.name, "View A");
    assert_eq!(v.layout, ViewLayout::Grid);
    assert_eq!(v.parent_view_id, t.workspace.id);
    let read = sdk.get_view(&v.id).unwrap();
    assert_eq!(read.id, v.id);
    assert_eq!(read.parent_view_id, v.parent_view_id);
    assert_eq!(read.name, v.name);
    assert_eq!(read.layout, v.layout);
    assert_eq!(read.icon, v.icon);
    assert!(sdk.delete_view(&v.id).is_none());
    let trash = sdk.get_trash().unwrap();
    assert!(trash.iter().any(|t| t.id == v.id));
    // A trashed view is no longer served.
    assert_eq!(sdk.get_view(&v.id).unwrap_err().code, ErrorCode::NotFound);
}

#[test]
fn board_and_calendar_views() {
    let (_world, mut sdk) = setup();
    let b = ViewTest::new_board_view(&mut sdk, vec![1]).unwrap();
    assert_eq!(b.child_view.layout, ViewLayout::Board);
    let c = ViewTest::new_calendar_view(&mut sdk, vec![]).unwrap();
    assert_eq!(c.child_view.layout, ViewLayout::Calendar);
    let ws = sdk.get_current_workspace().unwrap();
    assert_eq!(ws.views, vec![b.child_view.id, c.child_view.id]);
}

#[test]
fn ancestors_end_at_the_workspace() {
    let (_world, mut sdk) = setup();
    let parent = sdk.create_view(WORKSPACE, "P".to_string()).unwrap();
    assert_eq!(parent.layout, ViewLayout::Document);
    let child = sdk.create_view_with_layout(&parent.id, "C".to_string(), ViewLayout::Grid).unwrap();
    let chain = sdk.get_view_ancestors(&child.id).unwrap();
    let ids: Vec<&str> = chain.iter().map(|v| v.id.as_str()).collect();
    assert_eq!(ids.last(), Some(&WORKSPACE));
    let p = ids.iter().position(|i| *i == parent.id).unwrap();
    let w = ids.iter().position(|i| *i == WORKSPACE).unwrap();
    assert!(p < w);
    let direct = sdk.get_view_ancestors(&parent.id).unwrap();
    assert_eq!(direct.last().unwrap().id, WORKSPACE);
}

#[test]
fn gather_without_content_is_empty() {
    let (world, mut sdk) = setup();
    let v = sdk.create_view(WORKSPACE, "Empty".to_string()).unwrap();
    let got = sdk.get_publish_payload(&v.id, false).unwrap();
    assert!(got.is_empty());
    let t = ViewTest::new(&mut sdk, ViewLayout::Document, vec![5, 6]).unwrap();
    let got = sdk.get_publish_payload(&t.child_view.id, false).unwrap();
    assert_eq!(got.len(), 1);
    assert_eq!(got[0].data, vec![5, 6]);
    // Break the tree: the view's parent disappears.
    world.borrow_mut().views[1].view.parent_view_id = "gone".to_string();
    let e = sdk.get_publish_payload(&v.id, false).unwrap_err();
    assert_eq!(e.code, ErrorCode::GatherFailed);
    assert_eq!(e.msg, "view tree is broken");
}

#[test]
fn gather_with_children() {
    let (_world, mut sdk) = setup();
    let parent = sdk.create_view(WORKSPACE, "P".to_string()).unwrap();
    let req = CreateViewPayloadPB {
        parent_view_id: parent.id.clone(),
        name: "C".to_string(),
        thumbnail: None,
        layout: ViewLayout::Document,
        initial_data: vec![9],
        set_as_current: false,
        index: None,
        section: None,
        view_id: None,
        icon: None,
        extra: None,
    };
    let child: ViewPB = sdk.call(CommandId::Folder(FolderEvent::CreateView), &req).unwrap();
    assert!(sdk.get_publish_payload(&parent.id, false).unwrap().is_empty());
    let all = sdk.get_publish_payload(&parent.id, true).unwrap();
    assert_eq!(all.len(), 1);
    assert_eq!(all[0].view_id, child.id);
}

#[test]
fn workspace_id_is_parsed_as_uuid() {
    let (_world, mut sdk) = setup();
    assert_eq!(sdk.get_workspace_id().unwrap(), 0x550e8400e29b41d4a716446655440000u128);
    let uw = sdk.get_user_workspace(WORKSPACE).unwrap();
    assert_eq!(uw.workspace_id, WORKSPACE);
}

#[test]
fn create_views_checks_ids_first() {
    let (world, mut sdk) = setup();
    let good = ViewPB {
        id: "00000000-0000-0000-0000-0000000000aa".to_string(),
        parent_view_id: WORKSPACE.to_string(),
        name: "Given".to_string(),
        layout: ViewLayout::Board,
        icon: None,
                child_views: vec![],
                extra: None,
    };
    let mut bad = good.clone();
    bad.id = "not-a-uuid".to_string();
    let calls = world.borrow().calls;
    let e = sdk.create_views(&vec![good.clone(), bad]).unwrap_err();
    assert_eq!(e.code, ErrorCode::InvalidId);
    assert_eq!(world.borrow().calls, calls);
    sdk.create_views(&vec![good.clone()]).unwrap();
    let read = sdk.get_view(&good.id).unwrap();
    assert_eq!(read.layout, ViewLayout::Board);
    assert_eq!(read.name, "Given");
}

#[test]
fn update_view_and_icon() {
    let (_world, mut sdk) = setup();
    let v = sdk.create_view(WORKSPACE, "Old".to_string()).unwrap();
    let change = UpdateViewPayloadPB { view_id: v.id.clone(), name: Some("New".to_string()) };
    assert!(sdk.update_view(&change).is_none());
    let icon = UpdateViewIconPayloadPB { view_id: v.id.clone(), icon: Some("🚀".to_string()) };
    assert!(sdk.update_view_icon(&icon).is_none());
    let read = sdk.get_view(&v.id).unwrap();
    assert_eq!(read.name, "New");
    assert_eq!(read.icon, Some("🚀".to_string()));
    let missing = UpdateViewPayloadPB { view_id: "nope".to_string(), name: None };
    assert_eq!(sdk.update_view(&missing).unwrap().code, ErrorCode::NotFound);
}

#[test]
fn listing_views_and_folder_data() {
    let (_world, mut sdk) = setup();
    let a = sdk.create_view(WORKSPACE, "A".to_string()).unwrap();
    let b = sdk.create_view(&a.id, "B".to_string()).unwrap();
    sdk.create_orphan_view("O", "orphan", ViewLayout::Grid);
    let top = sdk.get_all_workspace_views().unwrap();
    assert_eq!(top.len(), 1);
    assert_eq!(top[0].id, a.id);
    let all = sdk.get_all_views().unwrap();
    assert_eq!(all.len(), 2);
    assert_eq!(all[1].id, b.id);
    let data = sdk.get_folder_data().unwrap();
    assert_eq!(data.workspace_id, WORKSPACE);
    assert_eq!(data.views.len(), 3);
}

#[test]
fn import_creates_views() {
    let (_world, mut sdk) = setup();
    let data = ImportPayloadPB {
        parent_view_id: WORKSPACE.to_string(),
        name: "Imported".to_string(),
        data: vec![1, 2, 3],
    };
    let views = sdk.import_data(&data).unwrap();
    assert_eq!(views.len(), 1);
    assert_eq!(views[0].name, "Imported");
}

#[test]
fn unregistered_command_through_client() {
    let world = Rc::new(RefCell::new(World::new()));
    let mut reg = Registry::new();
    let id = CommandId::User(UserEvent::GetUserProfile);
    reg.register(id, Backend { world: world.clone(), email: "a@b".to_string(), cmd: id }).unwrap();
    let mut sdk = EventIntegrationTest::new(Dispatcher::new(reg));
    assert_eq!(sdk.get_trash().unwrap_err().code, ErrorCode::UnknownCommand);
    let p: UserProfilePB = sdk.query(id).unwrap();
    assert_eq!(p.email, "a@b");
}

#[test]
fn dropped_failures_are_recorded() {
    let world = Rc::new(RefCell::new(World::new()));
    let mut sdk = client_without(
        &world,
        "owner@example.com",
        Some(CommandId::User(UserEvent::InviteWorkspaceMember)),
    );
    sdk.create_orphan_view("O", "orphan", ViewLayout::Grid);
    assert!(sdk.forgotten_failures().is_empty());
    sdk.invite_workspace_member(WORKSPACE, "b@example.com", Role::Member);
    let dropped = sdk.forgotten_failures();
    assert_eq!(dropped.len(), 1);
    assert_eq!(dropped[0].code, ErrorCode::UnknownCommand);
}

#[test]
fn role_and_layout_codes() {
    assert_eq!(encode(&Role::Owner), vec![0]);
    assert_eq!(encode(&Role::Guest), vec![2]);
    assert_eq!(encode(&ViewLayout::Chat), vec![4]);
    assert_eq!(decode::<ViewLayout>(&vec![1]).unwrap(), ViewLayout::Grid);
    assert_eq!(encode(&Some("".to_string())), vec![1, 0, 0, 0, 0, 0, 0, 0, 0]);
    assert_eq!(encode(&None::<String>), vec![0]);
    assert_eq!(encode(&true), vec![1]);
    assert_eq!(decode::<bool>(&vec![2]).unwrap_err().code, ErrorCode::DecodeError);
}

#[test]
fn create_views_passes_icon_and_stops_at_first_failure() {
    let (world, mut sdk) = setup();
    let mk = |n: u32, name: &str| ViewPB {
        id: format!("00000000-0000-0000-0000-{:012}", 500 + n),
        parent_view_id: WORKSPACE.to_string(),
        name: name.to_string(),
        layout: ViewLayout::Document,
        icon: Some("📄".to_string()),
        child_views: vec![],
        extra: Some("meta".to_string()),
    };
    let calls = world.borrow().calls;
    let e = sdk.create_views(&vec![mk(1, "first"), mk(2, "fail"), mk(3, "third")]).unwrap_err();
    assert_eq!(e.code, ErrorCode::Conflict);
    assert_eq!(world.borrow().calls, calls + 2);
    let first = sdk.get_view(&mk(1, "first").id).unwrap();
    assert_eq!(first.icon, Some("📄".to_string()));
    assert_eq!(first.extra, Some("meta".to_string()));
    assert_eq!(sdk.get_view(&mk(3, "third").id).unwrap_err().code, ErrorCode::NotFound);
    assert!(sdk.create_views(&vec![]).is_ok());
}

#[test]
fn view_test_fails_without_a_workspace_read() {
    let world = Rc::new(RefCell::new(World::new()));
    let mut sdk = client_without(
        &world,
        "owner@example.com",
        Some(CommandId::Folder(FolderEvent::ReadCurrentWorkspace)),
    );
    let before = world.borrow().views.len();
    let e = ViewTest::new_grid_view(&mut sdk, vec![]).err().unwrap();
    assert_eq!(e.code, ErrorCode::UnknownCommand);
    assert_eq!(world.borrow().views.len(), before);
}
