//! Command identifiers, grouped by domain.

use vstd::prelude::*;

verus! {

/// Commands on the folder: workspaces, views and the trash.
#[derive(Clone, Copy, Debug, PartialEq, Eq, Structural)]
pub enum FolderEvent {
    ReadCurrentWorkspace,
    CreateView,
    CreateOrphanView,
    GetView,
    DeleteView,
    UpdateView,
    UpdateViewIcon,
    ReadCurrentWorkspaceViews,
    GetAllViews,
    ListTrashItems,
    ImportData,
    GetViewAncestors,
    GatherPublishPayload,
    GetFolderData,
}

/// Commands on users and workspace membership.
#[derive(Clone, Copy, Debug, PartialEq, Eq, Structural)]
pub enum UserEvent {
    GetUserProfile,
    InviteWorkspaceMember,
    ListWorkspaceInvitations,
    AcceptWorkspaceInvitation,
    RemoveWorkspaceMember,
    GetWorkspaceMembers,
    GetUserWorkspace,
}

/// A command: its domain and its name within the domain.
#[derive(Clone, Copy, Debug, PartialEq, Eq, Structural)]
pub enum CommandId {
    Folder(FolderEvent),
    User(UserEvent),
}

} // verus!
