//! The values that travel between the callers and the handlers.

use vstd::prelude::*;

use crate::message::Message;

verus! {

/// What a member may do in a workspace.
#[derive(Clone, Copy, Debug, PartialEq, Eq, Structural)]
pub enum Role {
    /// Owns the workspace.
    Owner,
    /// Edits the workspace.
    Member,
    /// Reads what is shared with them.
    Guest,
}

impl Role {
    /// The byte that stands for the variant.
    pub open spec fn spec_code(self) -> u8 {
        match self {
            Role::Owner => 0u8,
            Role::Member => 1u8,
            Role::Guest => 2u8,
        }
    }

    pub open spec fn spec_from_code(c: u8) -> Option<Self> {
        if c == 0u8 {
            Some(Role::Owner)
        } else if c == 1u8 {
            Some(Role::Member)
        } else if c == 2u8 {
            Some(Role::Guest)
        } else {
            None
        }
    }

    pub fn code(&self) -> (r: u8)
        ensures
            r == self.spec_code(),
    {
        match self {
            Role::Owner => 0u8,
            Role::Member => 1u8,
            Role::Guest => 2u8,
        }
    }

    pub fn from_code(c: u8) -> (r: Option<Self>)
        ensures
            r == Self::spec_from_code(c),
    {
        if c == 0u8 {
            Some(Role::Owner)
        } else if c == 1u8 {
            Some(Role::Member)
        } else if c == 2u8 {
            Some(Role::Guest)
        } else {
            None
        }
    }
}

impl Message for Role {
    type Model = Role;

    open spec fn model(&self) -> Role {
        *self
    }

    open spec fn wire(m: Role) -> Seq<u8> {
        seq![m.spec_code()]
    }

    open spec fn take(b: Seq<u8>) -> Option<(Role, Seq<u8>)> {
        if b.len() >= 1 && Role::spec_from_code(b[0]) is Some {
            Some((Role::spec_from_code(b[0])->Some_0, b.skip(1)))
        } else {
            None
        }
    }

    open spec fn fits(m: Role) -> bool {
        true
    }

    proof fn lemma_take_wire(m: Role, rest: Seq<u8>) {
        assert((Self::wire(m) + rest).skip(1) =~= rest);
    }

    fn put(&self, out: &mut Vec<u8>) {
        out.push(self.code());
        assert(out@ =~= old(out)@ + Self::wire(*self));
    }

    fn get(b: &Vec<u8>, pos: usize) -> (r: Option<(Role, usize)>) {
        if pos >= b.len() {
            return None;
        }
        assert(b@.skip(pos as int).skip(1) =~= b@.skip(pos + 1));
        match Role::from_code(b[pos]) {
            Some(v) => Some((v, pos + 1)),
            None => None,
        }
    }
}

/// How a view presents its content.
#[derive(Clone, Copy, Debug, PartialEq, Eq, Structural)]
pub enum ViewLayout {
    /// A rich-text document.
    Document,
    /// A table of rows.
    Grid,
    /// Cards in columns.
    Board,
    /// Rows placed on dates.
    Calendar,
    /// A conversation.
    Chat,
}

impl ViewLayout {
    /// The byte that stands for the variant.
    pub open spec fn spec_code(self) -> u8 {
        match self {
            ViewLayout::Document => 0u8,
            ViewLayout::Grid => 1u8,
            ViewLayout::Board => 2u8,
            ViewLayout::Calendar => 3u8,
            ViewLayout::Chat => 4u8,
        }
    }

    pub open spec fn spec_from_code(c: u8) -> Option<Self> {
        if c == 0u8 {
            Some(ViewLayout::Document)
        } else if c == 1u8 {
            Some(ViewLayout::Grid)
        } else if c == 2u8 {
            Some(ViewLayout::Board)
        } else if c == 3u8 {
            Some(ViewLayout::Calendar)
        } else if c == 4u8 {
            Some(ViewLayout::Chat)
        } else {
            None
        }
    }

    pub fn code(&self) -> (r: u8)
        ensures
            r == self.spec_code(),
    {
        match self {
            ViewLayout::Document => 0u8,
            ViewLayout::Grid => 1u8,
            ViewLayout::Board => 2u8,
            ViewLayout::Calendar => 3u8,
            ViewLayout::Chat => 4u8,
        }
    }

    pub fn from_code(c: u8) -> (r: Option<Self>)
        ensures
            r == Self::spec_from_code(c),
    {
        if c == 0u8 {
            Some(ViewLayout::Document)
        } else if c == 1u8 {
            Some(ViewLayout::Grid)
        } else if c == 2u8 {
            Some(ViewLayout::Board)
        } else if c == 3u8 {
            Some(ViewLayout::Calendar)
        } else if c == 4u8 {
            Some(ViewLayout::Chat)
        } else {
            None
        }
    }
}

impl Message for ViewLayout {
    type Model = ViewLayout;

    open spec fn model(&self) -> ViewLayout {
        *self
    }

    open spec fn wire(m: ViewLayout) -> Seq<u8> {
        seq![m.spec_code()]
    }

    open spec fn take(b: Seq<u8>) -> Option<(ViewLayout, Seq<u8>)> {
        if b.len() >= 1 && ViewLayout::spec_from_code(b[0]) is Some {
            Some((ViewLayout::spec_from_code(b[0])->Some_0, b.skip(1)))
        } else {
            None
        }
    }

    open spec fn fits(m: ViewLayout) -> bool {
        true
    }

    proof fn lemma_take_wire(m: ViewLayout, rest: Seq<u8>) {
        assert((Self::wire(m) + rest).skip(1) =~= rest);
    }

    fn put(&self, out: &mut Vec<u8>) {
        out.push(self.code());
        assert(out@ =~= old(out)@ + Self::wire(*self));
    }

    fn get(b: &Vec<u8>, pos: usize) -> (r: Option<(ViewLayout, usize)>) {
        if pos >= b.len() {
            return None;
        }
        assert(b@.skip(pos as int).skip(1) =~= b@.skip(pos + 1));
        match ViewLayout::from_code(b[pos]) {
            Some(v) => Some((v, pos + 1)),
            None => None,
        }
    }
}

/// Which part of the workspace sidebar a view is listed in.
#[derive(Clone, Copy, Debug, PartialEq, Eq, Structural)]
pub enum ViewSection {
    /// Shared with every member.
    Public,
    /// Seen by its creator only.
    Private,
}

impl ViewSection {
    /// The byte that stands for the variant.
    pub open spec fn spec_code(self) -> u8 {
        match self {
            ViewSection::Public => 0u8,
            ViewSection::Private => 1u8,
        }
    }

    pub open spec fn spec_from_code(c: u8) -> Option<Self> {
        if c == 0u8 {
            Some(ViewSection::Public)
        } else if c == 1u8 {
            Some(ViewSection::Private)
        } else {
            None
        }
    }

    pub fn code(&self) -> (r: u8)
        ensures
            r == self.spec_code(),
    {
        match self {
            ViewSection::Public => 0u8,
            ViewSection::Private => 1u8,
        }
    }

    pub fn from_code(c: u8) -> (r: Option<Self>)
        ensures
            r == Self::spec_from_code(c),
    {
        if c == 0u8 {
            Some(ViewSection::Public)
        } else if c == 1u8 {
            Some(ViewSection::Private)
        } else {
            None
        }
    }
}

impl Message for ViewSection {
    type Model = ViewSection;

    open spec fn model(&self) -> ViewSection {
        *self
    }

    open spec fn wire(m: ViewSection) -> Seq<u8> {
        seq![m.spec_code()]
    }

    open spec fn take(b: Seq<u8>) -> Option<(ViewSection, Seq<u8>)> {
        if b.len() >= 1 && ViewSection::spec_from_code(b[0]) is Some {
            Some((ViewSection::spec_from_code(b[0])->Some_0, b.skip(1)))
        } else {
            None
        }
    }

    open spec fn fits(m: ViewSection) -> bool {
        true
    }

    proof fn lemma_take_wire(m: ViewSection, rest: Seq<u8>) {
        assert((Self::wire(m) + rest).skip(1) =~= rest);
    }

    fn put(&self, out: &mut Vec<u8>) {
        out.push(self.code());
        assert(out@ =~= old(out)@ + Self::wire(*self));
    }

    fn get(b: &Vec<u8>, pos: usize) -> (r: Option<(ViewSection, usize)>) {
        if pos >= b.len() {
            return None;
        }
        assert(b@.skip(pos as int).skip(1) =~= b@.skip(pos + 1));
        match ViewSection::from_code(b[pos]) {
            Some(v) => Some((v, pos + 1)),
            None => None,
        }
    }
}

/// Where an invitation stands.
#[derive(Clone, Copy, Debug, PartialEq, Eq, Structural)]
pub enum InvitationStatus {
    /// Sent and not yet answered.
    Pending,
    /// Taken up by the invitee.
    Accepted,
    /// Declined or revoked.
    Rejected,
}

impl InvitationStatus {
    /// The byte that stands for the variant.
    pub open spec fn spec_code(self) -> u8 {
        match self {
            InvitationStatus::Pending => 0u8,
            InvitationStatus::Accepted => 1u8,
            InvitationStatus::Rejected => 2u8,
        }
    }

    pub open spec fn spec_from_code(c: u8) -> Option<Self> {
        if c == 0u8 {
            Some(InvitationStatus::Pending)
        } else if c == 1u8 {
            Some(InvitationStatus::Accepted)
        } else if c == 2u8 {
            Some(InvitationStatus::Rejected)
        } else {
            None
        }
    }

    pub fn code(&self) -> (r: u8)
        ensures
            r == self.spec_code(),
    {
        match self {
            InvitationStatus::Pending => 0u8,
            InvitationStatus::Accepted => 1u8,
            InvitationStatus::Rejected => 2u8,
        }
    }

    pub fn from_code(c: u8) -> (r: Option<Self>)
        ensures
            r == Self::spec_from_code(c),
    {
        if c == 0u8 {
            Some(InvitationStatus::Pending)
        } else if c == 1u8 {
            Some(InvitationStatus::Accepted)
        } else if c == 2u8 {
            Some(InvitationStatus::Rejected)
        } else {
            None
        }
    }
}

impl Message for InvitationStatus {
    type Model = InvitationStatus;

    open spec fn model(&self) -> InvitationStatus {
        *self
    }

    open spec fn wire(m: InvitationStatus) -> Seq<u8> {
        seq![m.spec_code()]
    }

    open spec fn take(b: Seq<u8>) -> Option<(InvitationStatus, Seq<u8>)> {
        if b.len() >= 1 && InvitationStatus::spec_from_code(b[0]) is Some {
            Some((InvitationStatus::spec_from_code(b[0])->Some_0, b.skip(1)))
        } else {
            None
        }
    }

    open spec fn fits(m: InvitationStatus) -> bool {
        true
    }

    proof fn lemma_take_wire(m: InvitationStatus, rest: Seq<u8>) {
        assert((Self::wire(m) + rest).skip(1) =~= rest);
    }

    fn put(&self, out: &mut Vec<u8>) {
        out.push(self.code());
        assert(out@ =~= old(out)@ + Self::wire(*self));
    }

    fn get(b: &Vec<u8>, pos: usize) -> (r: Option<(InvitationStatus, usize)>) {
        if pos >= b.len() {
            return None;
        }
        assert(b@.skip(pos as int).skip(1) =~= b@.skip(pos + 1));
        match InvitationStatus::from_code(b[pos]) {
            Some(v) => Some((v, pos + 1)),
            None => None,
        }
    }
}

/// Asks that an email be invited into a workspace.
#[derive(Clone, Debug)]
pub struct WorkspaceMemberInvitationPB {
    /// The workspace.
    pub workspace_id: String,
    /// Who is invited.
    pub invitee_email: String,
    /// The role offered.
    pub role: Role,
}

impl Message for WorkspaceMemberInvitationPB {
    type Model = (Seq<char>, Seq<char>, Role);

    open spec fn model(&self) -> (Seq<char>, Seq<char>, Role) {
        (self.workspace_id.model(), self.invitee_email.model(), self.role.model())
    }

    open spec fn wire(m: (Seq<char>, Seq<char>, Role)) -> Seq<u8> {
        <String as Message>::wire(m.0) + <String as Message>::wire(m.1) + <Role as Message>::wire(m.2)
    }

    open spec fn take(b: Seq<u8>) -> Option<((Seq<char>, Seq<char>, Role), Seq<u8>)> {
        match <String as Message>::take(b) {
            None => None,
            Some((x0, r0)) => {
                match <String as Message>::take(r0) {
                    None => None,
                    Some((x1, r1)) => {
                        match <Role as Message>::take(r1) {
                            None => None,
                            Some((x2, r2)) => Some(((x0, x1, x2), r2)),
                        }
                    },
                }
            },
        }
    }

    open spec fn fits(m: (Seq<char>, Seq<char>, Role)) -> bool {
        <String as Message>::fits(m.0) && <String as Message>::fits(m.1) && <Role as Message>::fits(m.2)
    }

    proof fn lemma_take_wire(m: (Seq<char>, Seq<char>, Role), rest: Seq<u8>) {
        assert((<String as Message>::wire(m.0) + <String as Message>::wire(m.1) + <Role as Message>::wire(m.2)) + rest =~= (<String as Message>::wire(m.0) + <String as Message>::wire(m.1)) + (<Role as Message>::wire(m.2) + rest));
        assert((<String as Message>::wire(m.0) + <String as Message>::wire(m.1)) + (<Role as Message>::wire(m.2) + rest) =~= (<String as Message>::wire(m.0)) + (<String as Message>::wire(m.1) + (<Role as Message>::wire(m.2) + rest)));
        <String as Message>::lemma_take_wire(m.0, (<String as Message>::wire(m.1) + (<Role as Message>::wire(m.2) + rest)));
        <String as Message>::lemma_take_wire(m.1, (<Role as Message>::wire(m.2) + rest));
        <Role as Message>::lemma_take_wire(m.2, rest);
    }

    fn put(&self, out: &mut Vec<u8>) {
        let ghost start = out@;
        self.workspace_id.put(out);
        self.invitee_email.put(out);
        assert(out@ =~= start + (<String as Message>::wire(self.workspace_id.model()) + <String as Message>::wire(self.invitee_email.model())));
        self.role.put(out);
        assert(out@ =~= start + (<String as Message>::wire(self.workspace_id.model()) + <String as Message>::wire(self.invitee_email.model()) + <Role as Message>::wire(self.role.model())));
        assert(out@ =~= old(out)@ + Self::wire(self.model()));
    }

    fn get(b: &Vec<u8>, pos: usize) -> (r: Option<(WorkspaceMemberInvitationPB, usize)>) {
        let (workspace_id, p0) = match <String as Message>::get(b, pos) {
            Some(x) => x,
            None => return None,
        };
        let (invitee_email, p1) = match <String as Message>::get(b, p0) {
            Some(x) => x,
            None => return None,
        };
        let (role, p2) = match <Role as Message>::get(b, p1) {
            Some(x) => x,
            None => return None,
        };
        Some((WorkspaceMemberInvitationPB { workspace_id, invitee_email, role }, p2))
    }
}

/// Asks that a member leave a workspace.
#[derive(Clone, Debug)]
pub struct RemoveWorkspaceMemberPB {
    /// The workspace.
    pub workspace_id: String,
    /// The member.
    pub email: String,
}

impl Message for RemoveWorkspaceMemberPB {
    type Model = (Seq<char>, Seq<char>);

    open spec fn model(&self) -> (Seq<char>, Seq<char>) {
        (self.workspace_id.model(), self.email.model())
    }

    open spec fn wire(m: (Seq<char>, Seq<char>)) -> Seq<u8> {
        <String as Message>::wire(m.0) + <String as Message>::wire(m.1)
    }

    open spec fn take(b: Seq<u8>) -> Option<((Seq<char>, Seq<char>), Seq<u8>)> {
        match <String as Message>::take(b) {
            None => None,
            Some((x0, r0)) => {
                match <String as Message>::take(r0) {
                    None => None,
                    Some((x1, r1)) => Some(((x0, x1), r1)),
                }
            },
        }
    }

    open spec fn fits(m: (Seq<char>, Seq<char>)) -> bool {
        <String as Message>::fits(m.0) && <String as Message>::fits(m.1)
    }

    proof fn lemma_take_wire(m: (Seq<char>, Seq<char>), rest: Seq<u8>) {
        assert((<String as Message>::wire(m.0) + <String as Message>::wire(m.1)) + rest =~= (<String as Message>::wire(m.0)) + (<String as Message>::wire(m.1) + rest));
        <String as Message>::lemma_take_wire(m.0, (<String as Message>::wire(m.1) + rest));
        <String as Message>::lemma_take_wire(m.1, rest);
    }

    fn put(&self, out: &mut Vec<u8>) {
        let ghost start = out@;
        self.workspace_id.put(out);
        self.email.put(out);
        assert(out@ =~= start + (<String as Message>::wire(self.workspace_id.model()) + <String as Message>::wire(self.email.model())));
        assert(out@ =~= old(out)@ + Self::wire(self.model()));
    }

    fn get(b: &Vec<u8>, pos: usize) -> (r: Option<(RemoveWorkspaceMemberPB, usize)>) {
        let (workspace_id, p0) = match <String as Message>::get(b, pos) {
            Some(x) => x,
            None => return None,
        };
        let (email, p1) = match <String as Message>::get(b, p0) {
            Some(x) => x,
            None => return None,
        };
        Some((RemoveWorkspaceMemberPB { workspace_id, email }, p1))
    }
}

/// Asks for a new view.
#[derive(Clone, Debug)]
pub struct CreateViewPayloadPB {
    /// The parent of the new view.
    pub parent_view_id: String,
    /// Its name.
    pub name: String,
    /// An optional thumbnail.
    pub thumbnail: Option<String>,
    /// Its layout.
    pub layout: ViewLayout,
    /// Its initial content.
    pub initial_data: Vec<u8>,
    /// Whether it becomes the current view.
    pub set_as_current: bool,
    /// Where among its siblings it goes; last if none.
    pub index: Option<u64>,
    /// The section it is listed in, if any.
    pub section: Option<ViewSection>,
    /// An explicit id, if any.
    pub view_id: Option<String>,
    /// Its icon, if any.
    pub icon: Option<String>,
    /// Extra metadata, if any.
    pub extra: Option<String>,
}

impl Message for CreateViewPayloadPB {
    type Model = (Seq<char>, Seq<char>, Option<Seq<char>>, ViewLayout, Seq<u8>, bool, Option<u64>, Option<ViewSection>, Option<Seq<char>>, Option<Seq<char>>, Option<Seq<char>>);

    open spec fn model(&self) -> (Seq<char>, Seq<char>, Option<Seq<char>>, ViewLayout, Seq<u8>, bool, Option<u64>, Option<ViewSection>, Option<Seq<char>>, Option<Seq<char>>, Option<Seq<char>>) {
        (self.parent_view_id.model(), self.name.model(), self.thumbnail.model(), self.layout.model(), self.initial_data.model(), self.set_as_current.model(), self.index.model(), self.section.model(), self.view_id.model(), self.icon.model(), self.extra.model())
    }

    open spec fn wire(m: (Seq<char>, Seq<char>, Option<Seq<char>>, ViewLayout, Seq<u8>, bool, Option<u64>, Option<ViewSection>, Option<Seq<char>>, Option<Seq<char>>, Option<Seq<char>>)) -> Seq<u8> {
        <String as Message>::wire(m.0) + <String as Message>::wire(m.1) + <Option<String> as Message>::wire(m.2) + <ViewLayout as Message>::wire(m.3) + <Vec<u8> as Message>::wire(m.4) + <bool as Message>::wire(m.5) + <Option<u64> as Message>::wire(m.6) + <Option<ViewSection> as Message>::wire(m.7) + <Option<String> as Message>::wire(m.8) + <Option<String> as Message>::wire(m.9) + <Option<String> as Message>::wire(m.10)
    }

    open spec fn take(b: Seq<u8>) -> Option<((Seq<char>, Seq<char>, Option<Seq<char>>, ViewLayout, Seq<u8>, bool, Option<u64>, Option<ViewSection>, Option<Seq<char>>, Option<Seq<char>>, Option<Seq<char>>), Seq<u8>)> {
        match <String as Message>::take(b) {
            None => None,
            Some((x0, r0)) => {
                match <String as Message>::take(r0) {
                    None => None,
                    Some((x1, r1)) => {
                        match <Option<String> as Message>::take(r1) {
                            None => None,
                            Some((x2, r2)) => {
                                match <ViewLayout as Message>::take(r2) {
                                    None => None,
                                    Some((x3, r3)) => {
                                        match <Vec<u8> as Message>::take(r3) {
                                            None => None,
                                            Some((x4, r4)) => {
                                                match <bool as Message>::take(r4) {
                                                    None => None,
                                                    Some((x5, r5)) => {
                                                        match <Option<u64> as Message>::take(r5) {
                                                            None => None,
                                                            Some((x6, r6)) => {
                                                                match <Option<ViewSection> as Message>::take(r6) {
                                                                    None => None,
                                                                    Some((x7, r7)) => {
                                                                        match <Option<String> as Message>::take(r7) {
                                                                            None => None,
                                                                            Some((x8, r8)) => {
                                                                                match <Option<String> as Message>::take(r8) {
                                                                                    None => None,
                                                                                    Some((x9, r9)) => {
                                                                                        match <Option<String> as Message>::take(r9) {
                                                                                            None => None,
                                                                                            Some((x10, r10)) => Some(((x0, x1, x2, x3, x4, x5, x6, x7, x8, x9, x10), r10)),
                                                                                        }
                                                                                    },
                                                                                }
                                                                            },
                                                                        }
                                                                    },
                                                                }
                                                            },
                                                        }
                                                    },
                                                }
                                            },
                                        }
                                    },
                                }
                            },
                        }
                    },
                }
            },
        }
    }

    open spec fn fits(m: (Seq<char>, Seq<char>, Option<Seq<char>>, ViewLayout, Seq<u8>, bool, Option<u64>, Option<ViewSection>, Option<Seq<char>>, Option<Seq<char>>, Option<Seq<char>>)) -> bool {
        <String as Message>::fits(m.0) && <String as Message>::fits(m.1) && <Option<String> as Message>::fits(m.2) && <ViewLayout as Message>::fits(m.3) && <Vec<u8> as Message>::fits(m.4) && <bool as Message>::fits(m.5) && <Option<u64> as Message>::fits(m.6) && <Option<ViewSection> as Message>::fits(m.7) && <Option<String> as Message>::fits(m.8) && <Option<String> as Message>::fits(m.9) && <Option<String> as Message>::fits(m.10)
    }

    #[verifier::rlimit(60)]
    proof fn lemma_take_wire(m: (Seq<char>, Seq<char>, Option<Seq<char>>, ViewLayout, Seq<u8>, bool, Option<u64>, Option<ViewSection>, Option<Seq<char>>, Option<Seq<char>>, Option<Seq<char>>), rest: Seq<u8>) {
        assert((<String as Message>::wire(m.0) + <String as Message>::wire(m.1) + <Option<String> as Message>::wire(m.2) + <ViewLayout as Message>::wire(m.3) + <Vec<u8> as Message>::wire(m.4) + <bool as Message>::wire(m.5) + <Option<u64> as Message>::wire(m.6) + <Option<ViewSection> as Message>::wire(m.7) + <Option<String> as Message>::wire(m.8) + <Option<String> as Message>::wire(m.9) + <Option<String> as Message>::wire(m.10)) + rest =~= (<String as Message>::wire(m.0) + <String as Message>::wire(m.1) + <Option<String> as Message>::wire(m.2) + <ViewLayout as Message>::wire(m.3) + <Vec<u8> as Message>::wire(m.4) + <bool as Message>::wire(m.5) + <Option<u64> as Message>::wire(m.6) + <Option<ViewSection> as Message>::wire(m.7) + <Option<String> as Message>::wire(m.8) + <Option<String> as Message>::wire(m.9)) + (<Option<String> as Message>::wire(m.10) + rest));
        assert((<String as Message>::wire(m.0) + <String as Message>::wire(m.1) + <Option<String> as Message>::wire(m.2) + <ViewLayout as Message>::wire(m.3) + <Vec<u8> as Message>::wire(m.4) + <bool as Message>::wire(m.5) + <Option<u64> as Message>::wire(m.6) + <Option<ViewSection> as Message>::wire(m.7) + <Option<String> as Message>::wire(m.8) + <Option<String> as Message>::wire(m.9)) + (<Option<String> as Message>::wire(m.10) + rest) =~= (<String as Message>::wire(m.0) + <String as Message>::wire(m.1) + <Option<String> as Message>::wire(m.2) + <ViewLayout as Message>::wire(m.3) + <Vec<u8> as Message>::wire(m.4) + <bool as Message>::wire(m.5) + <Option<u64> as Message>::wire(m.6) + <Option<ViewSection> as Message>::wire(m.7) + <Option<String> as Message>::wire(m.8)) + (<Option<String> as Message>::wire(m.9) + (<Option<String> as Message>::wire(m.10) + rest)));
        assert((<String as Message>::wire(m.0) + <String as Message>::wire(m.1) + <Option<String> as Message>::wire(m.2) + <ViewLayout as Message>::wire(m.3) + <Vec<u8> as Message>::wire(m.4) + <bool as Message>::wire(m.5) + <Option<u64> as Message>::wire(m.6) + <Option<ViewSection> as Message>::wire(m.7) + <Option<String> as Message>::wire(m.8)) + (<Option<String> as Message>::wire(m.9) + (<Option<String> as Message>::wire(m.10) + rest)) =~= (<String as Message>::wire(m.0) + <String as Message>::wire(m.1) + <Option<String> as Message>::wire(m.2) + <ViewLayout as Message>::wire(m.3) + <Vec<u8> as Message>::wire(m.4) + <bool as Message>::wire(m.5) + <Option<u64> as Message>::wire(m.6) + <Option<ViewSection> as Message>::wire(m.7)) + (<Option<String> as Message>::wire(m.8) + (<Option<String> as Message>::wire(m.9) + (<Option<String> as Message>::wire(m.10) + rest))));
        assert((<String as Message>::wire(m.0) + <String as Message>::wire(m.1) + <Option<String> as Message>::wire(m.2) + <ViewLayout as Message>::wire(m.3) + <Vec<u8> as Message>::wire(m.4) + <bool as Message>::wire(m.5) + <Option<u64> as Message>::wire(m.6) + <Option<ViewSection> as Message>::wire(m.7)) + (<Option<String> as Message>::wire(m.8) + (<Option<String> as Message>::wire(m.9) + (<Option<String> as Message>::wire(m.10) + rest))) =~= (<String as Message>::wire(m.0) + <String as Message>::wire(m.1) + <Option<String> as Message>::wire(m.2) + <ViewLayout as Message>::wire(m.3) + <Vec<u8> as Message>::wire(m.4) + <bool as Message>::wire(m.5) + <Option<u64> as Message>::wire(m.6)) + (<Option<ViewSection> as Message>::wire(m.7) + (<Option<String> as Message>::wire(m.8) + (<Option<String> as Message>::wire(m.9) + (<Option<String> as Message>::wire(m.10) + rest)))));
        assert((<String as Message>::wire(m.0) + <String as Message>::wire(m.1) + <Option<String> as Message>::wire(m.2) + <ViewLayout as Message>::wire(m.3) + <Vec<u8> as Message>::wire(m.4) + <bool as Message>::wire(m.5) + <Option<u64> as Message>::wire(m.6)) + (<Option<ViewSection> as Message>::wire(m.7) + (<Option<String> as Message>::wire(m.8) + (<Option<String> as Message>::wire(m.9) + (<Option<String> as Message>::wire(m.10) + rest)))) =~= (<String as Message>::wire(m.0) + <String as Message>::wire(m.1) + <Option<String> as Message>::wire(m.2) + <ViewLayout as Message>::wire(m.3) + <Vec<u8> as Message>::wire(m.4) + <bool as Message>::wire(m.5)) + (<Option<u64> as Message>::wire(m.6) + (<Option<ViewSection> as Message>::wire(m.7) + (<Option<String> as Message>::wire(m.8) + (<Option<String> as Message>::wire(m.9) + (<Option<String> as Message>::wire(m.10) + rest))))));
        assert((<String as Message>::wire(m.0) + <String as Message>::wire(m.1) + <Option<String> as Message>::wire(m.2) + <ViewLayout as Message>::wire(m.3) + <Vec<u8> as Message>::wire(m.4) + <bool as Message>::wire(m.5)) + (<Option<u64> as Message>::wire(m.6) + (<Option<ViewSection> as Message>::wire(m.7) + (<Option<String> as Message>::wire(m.8) + (<Option<String> as Message>::wire(m.9) + (<Option<String> as Message>::wire(m.10) + rest))))) =~= (<String as Message>::wire(m.0) + <String as Message>::wire(m.1) + <Option<String> as Message>::wire(m.2) + <ViewLayout as Message>::wire(m.3) + <Vec<u8> as Message>::wire(m.4)) + (<bool as Message>::wire(m.5) + (<Option<u64> as Message>::wire(m.6) + (<Option<ViewSection> as Message>::wire(m.7) + (<Option<String> as Message>::wire(m.8) + (<Option<String> as Message>::wire(m.9) + (<Option<String> as Message>::wire(m.10) + rest)))))));
        assert((<String as Message>::wire(m.0) + <String as Message>::wire(m.1) + <Option<String> as Message>::wire(m.2) + <ViewLayout as Message>::wire(m.3) + <Vec<u8> as Message>::wire(m.4)) + (<bool as Message>::wire(m.5) + (<Option<u64> as Message>::wire(m.6) + (<Option<ViewSection> as Message>::wire(m.7) + (<Option<String> as Message>::wire(m.8) + (<Option<String> as Message>::wire(m.9) + (<Option<String> as Message>::wire(m.10) + rest)))))) =~= (<String as Message>::wire(m.0) + <String as Message>::wire(m.1) + <Option<String> as Message>::wire(m.2) + <ViewLayout as Message>::wire(m.3)) + (<Vec<u8> as Message>::wire(m.4) + (<bool as Message>::wire(m.5) + (<Option<u64> as Message>::wire(m.6) + (<Option<ViewSection> as Message>::wire(m.7) + (<Option<String> as Message>::wire(m.8) + (<Option<String> as Message>::wire(m.9) + (<Option<String> as Message>::wire(m.10) + rest))))))));
        assert((<String as Message>::wire(m.0) + <String as Message>::wire(m.1) + <Option<String> as Message>::wire(m.2) + <ViewLayout as Message>::wire(m.3)) + (<Vec<u8> as Message>::wire(m.4) + (<bool as Message>::wire(m.5) + (<Option<u64> as Message>::wire(m.6) + (<Option<ViewSection> as Message>::wire(m.7) + (<Option<String> as Message>::wire(m.8) + (<Option<String> as Message>::wire(m.9) + (<Option<String> as Message>::wire(m.10) + rest))))))) =~= (<String as Message>::wire(m.0) + <String as Message>::wire(m.1) + <Option<String> as Message>::wire(m.2)) + (<ViewLayout as Message>::wire(m.3) + (<Vec<u8> as Message>::wire(m.4) + (<bool as Message>::wire(m.5) + (<Option<u64> as Message>::wire(m.6) + (<Option<ViewSection> as Message>::wire(m.7) + (<Option<String> as Message>::wire(m.8) + (<Option<String> as Message>::wire(m.9) + (<Option<String> as Message>::wire(m.10) + rest)))))))));
        assert((<String as Message>::wire(m.0) + <String as Message>::wire(m.1) + <Option<String> as Message>::wire(m.2)) + (<ViewLayout as Message>::wire(m.3) + (<Vec<u8> as Message>::wire(m.4) + (<bool as Message>::wire(m.5) + (<Option<u64> as Message>::wire(m.6) + (<Option<ViewSection> as Message>::wire(m.7) + (<Option<String> as Message>::wire(m.8) + (<Option<String> as Message>::wire(m.9) + (<Option<String> as Message>::wire(m.10) + rest)))))))) =~= (<String as Message>::wire(m.0) + <String as Message>::wire(m.1)) + (<Option<String> as Message>::wire(m.2) + (<ViewLayout as Message>::wire(m.3) + (<Vec<u8> as Message>::wire(m.4) + (<bool as Message>::wire(m.5) + (<Option<u64> as Message>::wire(m.6) + (<Option<ViewSection> as Message>::wire(m.7) + (<Option<String> as Message>::wire(m.8) + (<Option<String> as Message>::wire(m.9) + (<Option<String> as Message>::wire(m.10) + rest))))))))));
        assert((<String as Message>::wire(m.0) + <String as Message>::wire(m.1)) + (<Option<String> as Message>::wire(m.2) + (<ViewLayout as Message>::wire(m.3) + (<Vec<u8> as Message>::wire(m.4) + (<bool as Message>::wire(m.5) + (<Option<u64> as Message>::wire(m.6) + (<Option<ViewSection> as Message>::wire(m.7) + (<Option<String> as Message>::wire(m.8) + (<Option<String> as Message>::wire(m.9) + (<Option<String> as Message>::wire(m.10) + rest))))))))) =~= (<String as Message>::wire(m.0)) + (<String as Message>::wire(m.1) + (<Option<String> as Message>::wire(m.2) + (<ViewLayout as Message>::wire(m.3) + (<Vec<u8> as Message>::wire(m.4) + (<bool as Message>::wire(m.5) + (<Option<u64> as Message>::wire(m.6) + (<Option<ViewSection> as Message>::wire(m.7) + (<Option<String> as Message>::wire(m.8) + (<Option<String> as Message>::wire(m.9) + (<Option<String> as Message>::wire(m.10) + rest)))))))))));
        <String as Message>::lemma_take_wire(m.0, (<String as Message>::wire(m.1) + (<Option<String> as Message>::wire(m.2) + (<ViewLayout as Message>::wire(m.3) + (<Vec<u8> as Message>::wire(m.4) + (<bool as Message>::wire(m.5) + (<Option<u64> as Message>::wire(m.6) + (<Option<ViewSection> as Message>::wire(m.7) + (<Option<String> as Message>::wire(m.8) + (<Option<String> as Message>::wire(m.9) + (<Option<String> as Message>::wire(m.10) + rest)))))))))));
        <String as Message>::lemma_take_wire(m.1, (<Option<String> as Message>::wire(m.2) + (<ViewLayout as Message>::wire(m.3) + (<Vec<u8> as Message>::wire(m.4) + (<bool as Message>::wire(m.5) + (<Option<u64> as Message>::wire(m.6) + (<Option<ViewSection> as Message>::wire(m.7) + (<Option<String> as Message>::wire(m.8) + (<Option<String> as Message>::wire(m.9) + (<Option<String> as Message>::wire(m.10) + rest))))))))));
        <Option<String> as Message>::lemma_take_wire(m.2, (<ViewLayout as Message>::wire(m.3) + (<Vec<u8> as Message>::wire(m.4) + (<bool as Message>::wire(m.5) + (<Option<u64> as Message>::wire(m.6) + (<Option<ViewSection> as Message>::wire(m.7) + (<Option<String> as Message>::wire(m.8) + (<Option<String> as Message>::wire(m.9) + (<Option<String> as Message>::wire(m.10) + rest)))))))));
        <ViewLayout as Message>::lemma_take_wire(m.3, (<Vec<u8> as Message>::wire(m.4) + (<bool as Message>::wire(m.5) + (<Option<u64> as Message>::wire(m.6) + (<Option<ViewSection> as Message>::wire(m.7) + (<Option<String> as Message>::wire(m.8) + (<Option<String> as Message>::wire(m.9) + (<Option<String> as Message>::wire(m.10) + rest))))))));
        <Vec<u8> as Message>::lemma_take_wire(m.4, (<bool as Message>::wire(m.5) + (<Option<u64> as Message>::wire(m.6) + (<Option<ViewSection> as Message>::wire(m.7) + (<Option<String> as Message>::wire(m.8) + (<Option<String> as Message>::wire(m.9) + (<Option<String> as Message>::wire(m.10) + rest)))))));
        <bool as Message>::lemma_take_wire(m.5, (<Option<u64> as Message>::wire(m.6) + (<Option<ViewSection> as Message>::wire(m.7) + (<Option<String> as Message>::wire(m.8) + (<Option<String> as Message>::wire(m.9) + (<Option<String> as Message>::wire(m.10) + rest))))));
        <Option<u64> as Message>::lemma_take_wire(m.6, (<Option<ViewSection> as Message>::wire(m.7) + (<Option<String> as Message>::wire(m.8) + (<Option<String> as Message>::wire(m.9) + (<Option<String> as Message>::wire(m.10) + rest)))));
        <Option<ViewSection> as Message>::lemma_take_wire(m.7, (<Option<String> as Message>::wire(m.8) + (<Option<String> as Message>::wire(m.9) + (<Option<String> as Message>::wire(m.10) + rest))));
        <Option<String> as Message>::lemma_take_wire(m.8, (<Option<String> as Message>::wire(m.9) + (<Option<String> as Message>::wire(m.10) + rest)));
        <Option<String> as Message>::lemma_take_wire(m.9, (<Option<String> as Message>::wire(m.10) + rest));
        <Option<String> as Message>::lemma_take_wire(m.10, rest);
    }

    #[verifier::rlimit(90)]
    fn put(&self, out: &mut Vec<u8>) {
        let ghost start = out@;
        self.parent_view_id.put(out);
        self.name.put(out);
        assert(out@ =~= start + (<String as Message>::wire(self.parent_view_id.model()) + <String as Message>::wire(self.name.model())));
        self.thumbnail.put(out);
        assert(out@ =~= start + (<String as Message>::wire(self.parent_view_id.model()) + <String as Message>::wire(self.name.model()) + <Option<String> as Message>::wire(self.thumbnail.model())));
        self.layout.put(out);
        assert(out@ =~= start + (<String as Message>::wire(self.parent_view_id.model()) + <String as Message>::wire(self.name.model()) + <Option<String> as Message>::wire(self.thumbnail.model()) + <ViewLayout as Message>::wire(self.layout.model())));
        self.initial_data.put(out);
        assert(out@ =~= start + (<String as Message>::wire(self.parent_view_id.model()) + <String as Message>::wire(self.name.model()) + <Option<String> as Message>::wire(self.thumbnail.model()) + <ViewLayout as Message>::wire(self.layout.model()) + <Vec<u8> as Message>::wire(self.initial_data.model())));
        self.set_as_current.put(out);
        assert(out@ =~= start + (<String as Message>::wire(self.parent_view_id.model()) + <String as Message>::wire(self.name.model()) + <Option<String> as Message>::wire(self.thumbnail.model()) + <ViewLayout as Message>::wire(self.layout.model()) + <Vec<u8> as Message>::wire(self.initial_data.model()) + <bool as Message>::wire(self.set_as_current.model())));
        self.index.put(out);
        assert(out@ =~= start + (<String as Message>::wire(self.parent_view_id.model()) + <String as Message>::wire(self.name.model()) + <Option<String> as Message>::wire(self.thumbnail.model()) + <ViewLayout as Message>::wire(self.layout.model()) + <Vec<u8> as Message>::wire(self.initial_data.model()) + <bool as Message>::wire(self.set_as_current.model()) + <Option<u64> as Message>::wire(self.index.model())));
        self.section.put(out);
        assert(out@ =~= start + (<String as Message>::wire(self.parent_view_id.model()) + <String as Message>::wire(self.name.model()) + <Option<String> as Message>::wire(self.thumbnail.model()) + <ViewLayout as Message>::wire(self.layout.model()) + <Vec<u8> as Message>::wire(self.initial_data.model()) + <bool as Message>::wire(self.set_as_current.model()) + <Option<u64> as Message>::wire(self.index.model()) + <Option<ViewSection> as Message>::wire(self.section.model())));
        self.view_id.put(out);
        assert(out@ =~= start + (<String as Message>::wire(self.parent_view_id.model()) + <String as Message>::wire(self.name.model()) + <Option<String> as Message>::wire(self.thumbnail.model()) + <ViewLayout as Message>::wire(self.layout.model()) + <Vec<u8> as Message>::wire(self.initial_data.model()) + <bool as Message>::wire(self.set_as_current.model()) + <Option<u64> as Message>::wire(self.index.model()) + <Option<ViewSection> as Message>::wire(self.section.model()) + <Option<String> as Message>::wire(self.view_id.model())));
        self.icon.put(out);
        assert(out@ =~= start + (<String as Message>::wire(self.parent_view_id.model()) + <String as Message>::wire(self.name.model()) + <Option<String> as Message>::wire(self.thumbnail.model()) + <ViewLayout as Message>::wire(self.layout.model()) + <Vec<u8> as Message>::wire(self.initial_data.model()) + <bool as Message>::wire(self.set_as_current.model()) + <Option<u64> as Message>::wire(self.index.model()) + <Option<ViewSection> as Message>::wire(self.section.model()) + <Option<String> as Message>::wire(self.view_id.model()) + <Option<String> as Message>::wire(self.icon.model())));
        self.extra.put(out);
        assert(out@ =~= start + (<String as Message>::wire(self.parent_view_id.model()) + <String as Message>::wire(self.name.model()) + <Option<String> as Message>::wire(self.thumbnail.model()) + <ViewLayout as Message>::wire(self.layout.model()) + <Vec<u8> as Message>::wire(self.initial_data.model()) + <bool as Message>::wire(self.set_as_current.model()) + <Option<u64> as Message>::wire(self.index.model()) + <Option<ViewSection> as Message>::wire(self.section.model()) + <Option<String> as Message>::wire(self.view_id.model()) + <Option<String> as Message>::wire(self.icon.model()) + <Option<String> as Message>::wire(self.extra.model())));
        assert(out@ =~= old(out)@ + Self::wire(self.model()));
    }

    fn get(b: &Vec<u8>, pos: usize) -> (r: Option<(CreateViewPayloadPB, usize)>) {
        let (parent_view_id, p0) = match <String as Message>::get(b, pos) {
            Some(x) => x,
            None => return None,
        };
        let (name, p1) = match <String as Message>::get(b, p0) {
            Some(x) => x,
            None => return None,
        };
        let (thumbnail, p2) = match <Option<String> as Message>::get(b, p1) {
            Some(x) => x,
            None => return None,
        };
        let (layout, p3) = match <ViewLayout as Message>::get(b, p2) {
            Some(x) => x,
            None => return None,
        };
        let (initial_data, p4) = match <Vec<u8> as Message>::get(b, p3) {
            Some(x) => x,
            None => return None,
        };
        let (set_as_current, p5) = match <bool as Message>::get(b, p4) {
            Some(x) => x,
            None => return None,
        };
        let (index, p6) = match <Option<u64> as Message>::get(b, p5) {
            Some(x) => x,
            None => return None,
        };
        let (section, p7) = match <Option<ViewSection> as Message>::get(b, p6) {
            Some(x) => x,
            None => return None,
        };
        let (view_id, p8) = match <Option<String> as Message>::get(b, p7) {
            Some(x) => x,
            None => return None,
        };
        let (icon, p9) = match <Option<String> as Message>::get(b, p8) {
            Some(x) => x,
            None => return None,
        };
        let (extra, p10) = match <Option<String> as Message>::get(b, p9) {
            Some(x) => x,
            None => return None,
        };
        Some((CreateViewPayloadPB { parent_view_id, name, thumbnail, layout, initial_data, set_as_current, index, section, view_id, icon, extra }, p10))
    }
}

/// Asks for a view that is its own parent.
#[derive(Clone, Debug)]
pub struct CreateOrphanViewPayloadPB {
    /// The id of the view.
    pub view_id: String,
    /// Its name.
    pub name: String,
    /// Its layout.
    pub layout: ViewLayout,
    /// Its initial content.
    pub initial_data: Vec<u8>,
}

impl Message for CreateOrphanViewPayloadPB {
    type Model = (Seq<char>, Seq<char>, ViewLayout, Seq<u8>);

    open spec fn model(&self) -> (Seq<char>, Seq<char>, ViewLayout, Seq<u8>) {
        (self.view_id.model(), self.name.model(), self.layout.model(), self.initial_data.model())
    }

    open spec fn wire(m: (Seq<char>, Seq<char>, ViewLayout, Seq<u8>)) -> Seq<u8> {
        <String as Message>::wire(m.0) + <String as Message>::wire(m.1) + <ViewLayout as Message>::wire(m.2) + <Vec<u8> as Message>::wire(m.3)
    }

    open spec fn take(b: Seq<u8>) -> Option<((Seq<char>, Seq<char>, ViewLayout, Seq<u8>), Seq<u8>)> {
        match <String as Message>::take(b) {
            None => None,
            Some((x0, r0)) => {
                match <String as Message>::take(r0) {
                    None => None,
                    Some((x1, r1)) => {
                        match <ViewLayout as Message>::take(r1) {
                            None => None,
                            Some((x2, r2)) => {
                                match <Vec<u8> as Message>::take(r2) {
                                    None => None,
                                    Some((x3, r3)) => Some(((x0, x1, x2, x3), r3)),
                                }
                            },
                        }
                    },
                }
            },
        }
    }

    open spec fn fits(m: (Seq<char>, Seq<char>, ViewLayout, Seq<u8>)) -> bool {
        <String as Message>::fits(m.0) && <String as Message>::fits(m.1) && <ViewLayout as Message>::fits(m.2) && <Vec<u8> as Message>::fits(m.3)
    }

    #[verifier::rlimit(60)]
    proof fn lemma_take_wire(m: (Seq<char>, Seq<char>, ViewLayout, Seq<u8>), rest: Seq<u8>) {
        assert((<String as Message>::wire(m.0) + <String as Message>::wire(m.1) + <ViewLayout as Message>::wire(m.2) + <Vec<u8> as Message>::wire(m.3)) + rest =~= (<String as Message>::wire(m.0) + <String as Message>::wire(m.1) + <ViewLayout as Message>::wire(m.2)) + (<Vec<u8> as Message>::wire(m.3) + rest));
        assert((<String as Message>::wire(m.0) + <String as Message>::wire(m.1) + <ViewLayout as Message>::wire(m.2)) + (<Vec<u8> as Message>::wire(m.3) + rest) =~= (<String as Message>::wire(m.0) + <String as Message>::wire(m.1)) + (<ViewLayout as Message>::wire(m.2) + (<Vec<u8> as Message>::wire(m.3) + rest)));
        assert((<String as Message>::wire(m.0) + <String as Message>::wire(m.1)) + (<ViewLayout as Message>::wire(m.2) + (<Vec<u8> as Message>::wire(m.3) + rest)) =~= (<String as Message>::wire(m.0)) + (<String as Message>::wire(m.1) + (<ViewLayout as Message>::wire(m.2) + (<Vec<u8> as Message>::wire(m.3) + rest))));
        <String as Message>::lemma_take_wire(m.0, (<String as Message>::wire(m.1) + (<ViewLayout as Message>::wire(m.2) + (<Vec<u8> as Message>::wire(m.3) + rest))));
        <String as Message>::lemma_take_wire(m.1, (<ViewLayout as Message>::wire(m.2) + (<Vec<u8> as Message>::wire(m.3) + rest)));
        <ViewLayout as Message>::lemma_take_wire(m.2, (<Vec<u8> as Message>::wire(m.3) + rest));
        <Vec<u8> as Message>::lemma_take_wire(m.3, rest);
    }

    fn put(&self, out: &mut Vec<u8>) {
        let ghost start = out@;
        self.view_id.put(out);
        self.name.put(out);
        assert(out@ =~= start + (<String as Message>::wire(self.view_id.model()) + <String as Message>::wire(self.name.model())));
        self.layout.put(out);
        assert(out@ =~= start + (<String as Message>::wire(self.view_id.model()) + <String as Message>::wire(self.name.model()) + <ViewLayout as Message>::wire(self.layout.model())));
        self.initial_data.put(out);
        assert(out@ =~= start + (<String as Message>::wire(self.view_id.model()) + <String as Message>::wire(self.name.model()) + <ViewLayout as Message>::wire(self.layout.model()) + <Vec<u8> as Message>::wire(self.initial_data.model())));
        assert(out@ =~= old(out)@ + Self::wire(self.model()));
    }

    fn get(b: &Vec<u8>, pos: usize) -> (r: Option<(CreateOrphanViewPayloadPB, usize)>) {
        let (view_id, p0) = match <String as Message>::get(b, pos) {
            Some(x) => x,
            None => return None,
        };
        let (name, p1) = match <String as Message>::get(b, p0) {
            Some(x) => x,
            None => return None,
        };
        let (layout, p2) = match <ViewLayout as Message>::get(b, p1) {
            Some(x) => x,
            None => return None,
        };
        let (initial_data, p3) = match <Vec<u8> as Message>::get(b, p2) {
            Some(x) => x,
            None => return None,
        };
        Some((CreateOrphanViewPayloadPB { view_id, name, layout, initial_data }, p3))
    }
}

/// A change to a view's name.
#[derive(Clone, Debug)]
pub struct UpdateViewPayloadPB {
    /// The view.
    pub view_id: String,
    /// The new name, if it changes.
    pub name: Option<String>,
}

impl Message for UpdateViewPayloadPB {
    type Model = (Seq<char>, Option<Seq<char>>);

    open spec fn model(&self) -> (Seq<char>, Option<Seq<char>>) {
        (self.view_id.model(), self.name.model())
    }

    open spec fn wire(m: (Seq<char>, Option<Seq<char>>)) -> Seq<u8> {
        <String as Message>::wire(m.0) + <Option<String> as Message>::wire(m.1)
    }

    open spec fn take(b: Seq<u8>) -> Option<((Seq<char>, Option<Seq<char>>), Seq<u8>)> {
        match <String as Message>::take(b) {
            None => None,
            Some((x0, r0)) => {
                match <Option<String> as Message>::take(r0) {
                    None => None,
                    Some((x1, r1)) => Some(((x0, x1), r1)),
                }
            },
        }
    }

    open spec fn fits(m: (Seq<char>, Option<Seq<char>>)) -> bool {
        <String as Message>::fits(m.0) && <Option<String> as Message>::fits(m.1)
    }

    proof fn lemma_take_wire(m: (Seq<char>, Option<Seq<char>>), rest: Seq<u8>) {
        assert((<String as Message>::wire(m.0) + <Option<String> as Message>::wire(m.1)) + rest =~= (<String as Message>::wire(m.0)) + (<Option<String> as Message>::wire(m.1) + rest));
        <String as Message>::lemma_take_wire(m.0, (<Option<String> as Message>::wire(m.1) + rest));
        <Option<String> as Message>::lemma_take_wire(m.1, rest);
    }

    fn put(&self, out: &mut Vec<u8>) {
        let ghost start = out@;
        self.view_id.put(out);
        self.name.put(out);
        assert(out@ =~= start + (<String as Message>::wire(self.view_id.model()) + <Option<String> as Message>::wire(self.name.model())));
        assert(out@ =~= old(out)@ + Self::wire(self.model()));
    }

    fn get(b: &Vec<u8>, pos: usize) -> (r: Option<(UpdateViewPayloadPB, usize)>) {
        let (view_id, p0) = match <String as Message>::get(b, pos) {
            Some(x) => x,
            None => return None,
        };
        let (name, p1) = match <Option<String> as Message>::get(b, p0) {
            Some(x) => x,
            None => return None,
        };
        Some((UpdateViewPayloadPB { view_id, name }, p1))
    }
}

/// A change to a view's icon.
#[derive(Clone, Debug)]
pub struct UpdateViewIconPayloadPB {
    /// The view.
    pub view_id: String,
    /// The new icon, or none to clear it.
    pub icon: Option<String>,
}

impl Message for UpdateViewIconPayloadPB {
    type Model = (Seq<char>, Option<Seq<char>>);

    open spec fn model(&self) -> (Seq<char>, Option<Seq<char>>) {
        (self.view_id.model(), self.icon.model())
    }

    open spec fn wire(m: (Seq<char>, Option<Seq<char>>)) -> Seq<u8> {
        <String as Message>::wire(m.0) + <Option<String> as Message>::wire(m.1)
    }

    open spec fn take(b: Seq<u8>) -> Option<((Seq<char>, Option<Seq<char>>), Seq<u8>)> {
        match <String as Message>::take(b) {
            None => None,
            Some((x0, r0)) => {
                match <Option<String> as Message>::take(r0) {
                    None => None,
                    Some((x1, r1)) => Some(((x0, x1), r1)),
                }
            },
        }
    }

    open spec fn fits(m: (Seq<char>, Option<Seq<char>>)) -> bool {
        <String as Message>::fits(m.0) && <Option<String> as Message>::fits(m.1)
    }

    proof fn lemma_take_wire(m: (Seq<char>, Option<Seq<char>>), rest: Seq<u8>) {
        assert((<String as Message>::wire(m.0) + <Option<String> as Message>::wire(m.1)) + rest =~= (<String as Message>::wire(m.0)) + (<Option<String> as Message>::wire(m.1) + rest));
        <String as Message>::lemma_take_wire(m.0, (<Option<String> as Message>::wire(m.1) + rest));
        <Option<String> as Message>::lemma_take_wire(m.1, rest);
    }

    fn put(&self, out: &mut Vec<u8>) {
        let ghost start = out@;
        self.view_id.put(out);
        self.icon.put(out);
        assert(out@ =~= start + (<String as Message>::wire(self.view_id.model()) + <Option<String> as Message>::wire(self.icon.model())));
        assert(out@ =~= old(out)@ + Self::wire(self.model()));
    }

    fn get(b: &Vec<u8>, pos: usize) -> (r: Option<(UpdateViewIconPayloadPB, usize)>) {
        let (view_id, p0) = match <String as Message>::get(b, pos) {
            Some(x) => x,
            None => return None,
        };
        let (icon, p1) = match <Option<String> as Message>::get(b, p0) {
            Some(x) => x,
            None => return None,
        };
        Some((UpdateViewIconPayloadPB { view_id, icon }, p1))
    }
}

/// Content to import under a parent view.
#[derive(Clone, Debug)]
pub struct ImportPayloadPB {
    /// Where the imported views go.
    pub parent_view_id: String,
    /// The name of the import.
    pub name: String,
    /// The content.
    pub data: Vec<u8>,
}

impl Message for ImportPayloadPB {
    type Model = (Seq<char>, Seq<char>, Seq<u8>);

    open spec fn model(&self) -> (Seq<char>, Seq<char>, Seq<u8>) {
        (self.parent_view_id.model(), self.name.model(), self.data.model())
    }

    open spec fn wire(m: (Seq<char>, Seq<char>, Seq<u8>)) -> Seq<u8> {
        <String as Message>::wire(m.0) + <String as Message>::wire(m.1) + <Vec<u8> as Message>::wire(m.2)
    }

    open spec fn take(b: Seq<u8>) -> Option<((Seq<char>, Seq<char>, Seq<u8>), Seq<u8>)> {
        match <String as Message>::take(b) {
            None => None,
            Some((x0, r0)) => {
                match <String as Message>::take(r0) {
                    None => None,
                    Some((x1, r1)) => {
                        match <Vec<u8> as Message>::take(r1) {
                            None => None,
                            Some((x2, r2)) => Some(((x0, x1, x2), r2)),
                        }
                    },
                }
            },
        }
    }

    open spec fn fits(m: (Seq<char>, Seq<char>, Seq<u8>)) -> bool {
        <String as Message>::fits(m.0) && <String as Message>::fits(m.1) && <Vec<u8> as Message>::fits(m.2)
    }

    proof fn lemma_take_wire(m: (Seq<char>, Seq<char>, Seq<u8>), rest: Seq<u8>) {
        assert((<String as Message>::wire(m.0) + <String as Message>::wire(m.1) + <Vec<u8> as Message>::wire(m.2)) + rest =~= (<String as Message>::wire(m.0) + <String as Message>::wire(m.1)) + (<Vec<u8> as Message>::wire(m.2) + rest));
        assert((<String as Message>::wire(m.0) + <String as Message>::wire(m.1)) + (<Vec<u8> as Message>::wire(m.2) + rest) =~= (<String as Message>::wire(m.0)) + (<String as Message>::wire(m.1) + (<Vec<u8> as Message>::wire(m.2) + rest)));
        <String as Message>::lemma_take_wire(m.0, (<String as Message>::wire(m.1) + (<Vec<u8> as Message>::wire(m.2) + rest)));
        <String as Message>::lemma_take_wire(m.1, (<Vec<u8> as Message>::wire(m.2) + rest));
        <Vec<u8> as Message>::lemma_take_wire(m.2, rest);
    }

    fn put(&self, out: &mut Vec<u8>) {
        let ghost start = out@;
        self.parent_view_id.put(out);
        self.name.put(out);
        assert(out@ =~= start + (<String as Message>::wire(self.parent_view_id.model()) + <String as Message>::wire(self.name.model())));
        self.data.put(out);
        assert(out@ =~= start + (<String as Message>::wire(self.parent_view_id.model()) + <String as Message>::wire(self.name.model()) + <Vec<u8> as Message>::wire(self.data.model())));
        assert(out@ =~= old(out)@ + Self::wire(self.model()));
    }

    fn get(b: &Vec<u8>, pos: usize) -> (r: Option<(ImportPayloadPB, usize)>) {
        let (parent_view_id, p0) = match <String as Message>::get(b, pos) {
            Some(x) => x,
            None => return None,
        };
        let (name, p1) = match <String as Message>::get(b, p0) {
            Some(x) => x,
            None => return None,
        };
        let (data, p2) = match <Vec<u8> as Message>::get(b, p1) {
            Some(x) => x,
            None => return None,
        };
        Some((ImportPayloadPB { parent_view_id, name, data }, p2))
    }
}

/// Asks for the publishable content of a view.
#[derive(Clone, Debug)]
pub struct GatherPublishPayloadPB {
    /// The view.
    pub view_id: String,
    /// Whether its descendants are gathered too.
    pub include_children: bool,
}

impl Message for GatherPublishPayloadPB {
    type Model = (Seq<char>, bool);

    open spec fn model(&self) -> (Seq<char>, bool) {
        (self.view_id.model(), self.include_children.model())
    }

    open spec fn wire(m: (Seq<char>, bool)) -> Seq<u8> {
        <String as Message>::wire(m.0) + <bool as Message>::wire(m.1)
    }

    open spec fn take(b: Seq<u8>) -> Option<((Seq<char>, bool), Seq<u8>)> {
        match <String as Message>::take(b) {
            None => None,
            Some((x0, r0)) => {
                match <bool as Message>::take(r0) {
                    None => None,
                    Some((x1, r1)) => Some(((x0, x1), r1)),
                }
            },
        }
    }

    open spec fn fits(m: (Seq<char>, bool)) -> bool {
        <String as Message>::fits(m.0) && <bool as Message>::fits(m.1)
    }

    proof fn lemma_take_wire(m: (Seq<char>, bool), rest: Seq<u8>) {
        assert((<String as Message>::wire(m.0) + <bool as Message>::wire(m.1)) + rest =~= (<String as Message>::wire(m.0)) + (<bool as Message>::wire(m.1) + rest));
        <String as Message>::lemma_take_wire(m.0, (<bool as Message>::wire(m.1) + rest));
        <bool as Message>::lemma_take_wire(m.1, rest);
    }

    fn put(&self, out: &mut Vec<u8>) {
        let ghost start = out@;
        self.view_id.put(out);
        self.include_children.put(out);
        assert(out@ =~= start + (<String as Message>::wire(self.view_id.model()) + <bool as Message>::wire(self.include_children.model())));
        assert(out@ =~= old(out)@ + Self::wire(self.model()));
    }

    fn get(b: &Vec<u8>, pos: usize) -> (r: Option<(GatherPublishPayloadPB, usize)>) {
        let (view_id, p0) = match <String as Message>::get(b, pos) {
            Some(x) => x,
            None => return None,
        };
        let (include_children, p1) = match <bool as Message>::get(b, p0) {
            Some(x) => x,
            None => return None,
        };
        Some((GatherPublishPayloadPB { view_id, include_children }, p1))
    }
}

/// An invitation into a workspace.
#[derive(Clone, Debug)]
pub struct WorkspaceInvitationPB {
    /// The invitation.
    pub invite_id: String,
    /// The workspace.
    pub workspace_id: String,
    /// Who is invited.
    pub invitee_email: String,
    /// Where it stands.
    pub status: InvitationStatus,
}

impl Message for WorkspaceInvitationPB {
    type Model = (Seq<char>, Seq<char>, Seq<char>, InvitationStatus);

    open spec fn model(&self) -> (Seq<char>, Seq<char>, Seq<char>, InvitationStatus) {
        (self.invite_id.model(), self.workspace_id.model(), self.invitee_email.model(), self.status.model())
    }

    open spec fn wire(m: (Seq<char>, Seq<char>, Seq<char>, InvitationStatus)) -> Seq<u8> {
        <String as Message>::wire(m.0) + <String as Message>::wire(m.1) + <String as Message>::wire(m.2) + <InvitationStatus as Message>::wire(m.3)
    }

    open spec fn take(b: Seq<u8>) -> Option<((Seq<char>, Seq<char>, Seq<char>, InvitationStatus), Seq<u8>)> {
        match <String as Message>::take(b) {
            None => None,
            Some((x0, r0)) => {
                match <String as Message>::take(r0) {
                    None => None,
                    Some((x1, r1)) => {
                        match <String as Message>::take(r1) {
                            None => None,
                            Some((x2, r2)) => {
                                match <InvitationStatus as Message>::take(r2) {
                                    None => None,
                                    Some((x3, r3)) => Some(((x0, x1, x2, x3), r3)),
                                }
                            },
                        }
                    },
                }
            },
        }
    }

    open spec fn fits(m: (Seq<char>, Seq<char>, Seq<char>, InvitationStatus)) -> bool {
        <String as Message>::fits(m.0) && <String as Message>::fits(m.1) && <String as Message>::fits(m.2) && <InvitationStatus as Message>::fits(m.3)
    }

    #[verifier::rlimit(60)]
    proof fn lemma_take_wire(m: (Seq<char>, Seq<char>, Seq<char>, InvitationStatus), rest: Seq<u8>) {
        assert((<String as Message>::wire(m.0) + <String as Message>::wire(m.1) + <String as Message>::wire(m.2) + <InvitationStatus as Message>::wire(m.3)) + rest =~= (<String as Message>::wire(m.0) + <String as Message>::wire(m.1) + <String as Message>::wire(m.2)) + (<InvitationStatus as Message>::wire(m.3) + rest));
        assert((<String as Message>::wire(m.0) + <String as Message>::wire(m.1) + <String as Message>::wire(m.2)) + (<InvitationStatus as Message>::wire(m.3) + rest) =~= (<String as Message>::wire(m.0) + <String as Message>::wire(m.1)) + (<String as Message>::wire(m.2) + (<InvitationStatus as Message>::wire(m.3) + rest)));
        assert((<String as Message>::wire(m.0) + <String as Message>::wire(m.1)) + (<String as Message>::wire(m.2) + (<InvitationStatus as Message>::wire(m.3) + rest)) =~= (<String as Message>::wire(m.0)) + (<String as Message>::wire(m.1) + (<String as Message>::wire(m.2) + (<InvitationStatus as Message>::wire(m.3) + rest))));
        <String as Message>::lemma_take_wire(m.0, (<String as Message>::wire(m.1) + (<String as Message>::wire(m.2) + (<InvitationStatus as Message>::wire(m.3) + rest))));
        <String as Message>::lemma_take_wire(m.1, (<String as Message>::wire(m.2) + (<InvitationStatus as Message>::wire(m.3) + rest)));
        <String as Message>::lemma_take_wire(m.2, (<InvitationStatus as Message>::wire(m.3) + rest));
        <InvitationStatus as Message>::lemma_take_wire(m.3, rest);
    }

    fn put(&self, out: &mut Vec<u8>) {
        let ghost start = out@;
        self.invite_id.put(out);
        self.workspace_id.put(out);
        assert(out@ =~= start + (<String as Message>::wire(self.invite_id.model()) + <String as Message>::wire(self.workspace_id.model())));
        self.invitee_email.put(out);
        assert(out@ =~= start + (<String as Message>::wire(self.invite_id.model()) + <String as Message>::wire(self.workspace_id.model()) + <String as Message>::wire(self.invitee_email.model())));
        self.status.put(out);
        assert(out@ =~= start + (<String as Message>::wire(self.invite_id.model()) + <String as Message>::wire(self.workspace_id.model()) + <String as Message>::wire(self.invitee_email.model()) + <InvitationStatus as Message>::wire(self.status.model())));
        assert(out@ =~= old(out)@ + Self::wire(self.model()));
    }

    fn get(b: &Vec<u8>, pos: usize) -> (r: Option<(WorkspaceInvitationPB, usize)>) {
        let (invite_id, p0) = match <String as Message>::get(b, pos) {
            Some(x) => x,
            None => return None,
        };
        let (workspace_id, p1) = match <String as Message>::get(b, p0) {
            Some(x) => x,
            None => return None,
        };
        let (invitee_email, p2) = match <String as Message>::get(b, p1) {
            Some(x) => x,
            None => return None,
        };
        let (status, p3) = match <InvitationStatus as Message>::get(b, p2) {
            Some(x) => x,
            None => return None,
        };
        Some((WorkspaceInvitationPB { invite_id, workspace_id, invitee_email, status }, p3))
    }
}

/// A member of a workspace.
#[derive(Clone, Debug)]
pub struct WorkspaceMemberPB {
    /// The member's email.
    pub email: String,
    /// The member's name.
    pub name: String,
    /// The member's role.
    pub role: Role,
}

impl Message for WorkspaceMemberPB {
    type Model = (Seq<char>, Seq<char>, Role);

    open spec fn model(&self) -> (Seq<char>, Seq<char>, Role) {
        (self.email.model(), self.name.model(), self.role.model())
    }

    open spec fn wire(m: (Seq<char>, Seq<char>, Role)) -> Seq<u8> {
        <String as Message>::wire(m.0) + <String as Message>::wire(m.1) + <Role as Message>::wire(m.2)
    }

    open spec fn take(b: Seq<u8>) -> Option<((Seq<char>, Seq<char>, Role), Seq<u8>)> {
        match <String as Message>::take(b) {
            None => None,
            Some((x0, r0)) => {
                match <String as Message>::take(r0) {
                    None => None,
                    Some((x1, r1)) => {
                        match <Role as Message>::take(r1) {
                            None => None,
                            Some((x2, r2)) => Some(((x0, x1, x2), r2)),
                        }
                    },
                }
            },
        }
    }

    open spec fn fits(m: (Seq<char>, Seq<char>, Role)) -> bool {
        <String as Message>::fits(m.0) && <String as Message>::fits(m.1) && <Role as Message>::fits(m.2)
    }

    proof fn lemma_take_wire(m: (Seq<char>, Seq<char>, Role), rest: Seq<u8>) {
        assert((<String as Message>::wire(m.0) + <String as Message>::wire(m.1) + <Role as Message>::wire(m.2)) + rest =~= (<String as Message>::wire(m.0) + <String as Message>::wire(m.1)) + (<Role as Message>::wire(m.2) + rest));
        assert((<String as Message>::wire(m.0) + <String as Message>::wire(m.1)) + (<Role as Message>::wire(m.2) + rest) =~= (<String as Message>::wire(m.0)) + (<String as Message>::wire(m.1) + (<Role as Message>::wire(m.2) + rest)));
        <String as Message>::lemma_take_wire(m.0, (<String as Message>::wire(m.1) + (<Role as Message>::wire(m.2) + rest)));
        <String as Message>::lemma_take_wire(m.1, (<Role as Message>::wire(m.2) + rest));
        <Role as Message>::lemma_take_wire(m.2, rest);
    }

    fn put(&self, out: &mut Vec<u8>) {
        let ghost start = out@;
        self.email.put(out);
        self.name.put(out);
        assert(out@ =~= start + (<String as Message>::wire(self.email.model()) + <String as Message>::wire(self.name.model())));
        self.role.put(out);
        assert(out@ =~= start + (<String as Message>::wire(self.email.model()) + <String as Message>::wire(self.name.model()) + <Role as Message>::wire(self.role.model())));
        assert(out@ =~= old(out)@ + Self::wire(self.model()));
    }

    fn get(b: &Vec<u8>, pos: usize) -> (r: Option<(WorkspaceMemberPB, usize)>) {
        let (email, p0) = match <String as Message>::get(b, pos) {
            Some(x) => x,
            None => return None,
        };
        let (name, p1) = match <String as Message>::get(b, p0) {
            Some(x) => x,
            None => return None,
        };
        let (role, p2) = match <Role as Message>::get(b, p1) {
            Some(x) => x,
            None => return None,
        };
        Some((WorkspaceMemberPB { email, name, role }, p2))
    }
}

/// A workspace.
#[derive(Clone, Debug)]
pub struct WorkspacePB {
    /// The workspace id.
    pub id: String,
    /// Its name.
    pub name: String,
    /// The ids of its top-level views.
    pub views: Vec<String>,
}

impl Message for WorkspacePB {
    type Model = (Seq<char>, Seq<char>, Seq<Seq<char>>);

    open spec fn model(&self) -> (Seq<char>, Seq<char>, Seq<Seq<char>>) {
        (self.id.model(), self.name.model(), self.views.model())
    }

    open spec fn wire(m: (Seq<char>, Seq<char>, Seq<Seq<char>>)) -> Seq<u8> {
        <String as Message>::wire(m.0) + <String as Message>::wire(m.1) + <Vec<String> as Message>::wire(m.2)
    }

    open spec fn take(b: Seq<u8>) -> Option<((Seq<char>, Seq<char>, Seq<Seq<char>>), Seq<u8>)> {
        match <String as Message>::take(b) {
            None => None,
            Some((x0, r0)) => {
                match <String as Message>::take(r0) {
                    None => None,
                    Some((x1, r1)) => {
                        match <Vec<String> as Message>::take(r1) {
                            None => None,
                            Some((x2, r2)) => Some(((x0, x1, x2), r2)),
                        }
                    },
                }
            },
        }
    }

    open spec fn fits(m: (Seq<char>, Seq<char>, Seq<Seq<char>>)) -> bool {
        <String as Message>::fits(m.0) && <String as Message>::fits(m.1) && <Vec<String> as Message>::fits(m.2)
    }

    proof fn lemma_take_wire(m: (Seq<char>, Seq<char>, Seq<Seq<char>>), rest: Seq<u8>) {
        assert((<String as Message>::wire(m.0) + <String as Message>::wire(m.1) + <Vec<String> as Message>::wire(m.2)) + rest =~= (<String as Message>::wire(m.0) + <String as Message>::wire(m.1)) + (<Vec<String> as Message>::wire(m.2) + rest));
        assert((<String as Message>::wire(m.0) + <String as Message>::wire(m.1)) + (<Vec<String> as Message>::wire(m.2) + rest) =~= (<String as Message>::wire(m.0)) + (<String as Message>::wire(m.1) + (<Vec<String> as Message>::wire(m.2) + rest)));
        <String as Message>::lemma_take_wire(m.0, (<String as Message>::wire(m.1) + (<Vec<String> as Message>::wire(m.2) + rest)));
        <String as Message>::lemma_take_wire(m.1, (<Vec<String> as Message>::wire(m.2) + rest));
        <Vec<String> as Message>::lemma_take_wire(m.2, rest);
    }

    fn put(&self, out: &mut Vec<u8>) {
        let ghost start = out@;
        self.id.put(out);
        self.name.put(out);
        assert(out@ =~= start + (<String as Message>::wire(self.id.model()) + <String as Message>::wire(self.name.model())));
        self.views.put(out);
        assert(out@ =~= start + (<String as Message>::wire(self.id.model()) + <String as Message>::wire(self.name.model()) + <Vec<String> as Message>::wire(self.views.model())));
        assert(out@ =~= old(out)@ + Self::wire(self.model()));
    }

    fn get(b: &Vec<u8>, pos: usize) -> (r: Option<(WorkspacePB, usize)>) {
        let (id, p0) = match <String as Message>::get(b, pos) {
            Some(x) => x,
            None => return None,
        };
        let (name, p1) = match <String as Message>::get(b, p0) {
            Some(x) => x,
            None => return None,
        };
        let (views, p2) = match <Vec<String> as Message>::get(b, p1) {
            Some(x) => x,
            None => return None,
        };
        Some((WorkspacePB { id, name, views }, p2))
    }
}

/// A workspace as one user sees it.
#[derive(Clone, Debug)]
pub struct UserWorkspacePB {
    /// The workspace id.
    pub workspace_id: String,
    /// Its name.
    pub name: String,
}

impl Message for UserWorkspacePB {
    type Model = (Seq<char>, Seq<char>);

    open spec fn model(&self) -> (Seq<char>, Seq<char>) {
        (self.workspace_id.model(), self.name.model())
    }

    open spec fn wire(m: (Seq<char>, Seq<char>)) -> Seq<u8> {
        <String as Message>::wire(m.0) + <String as Message>::wire(m.1)
    }

    open spec fn take(b: Seq<u8>) -> Option<((Seq<char>, Seq<char>), Seq<u8>)> {
        match <String as Message>::take(b) {
            None => None,
            Some((x0, r0)) => {
                match <String as Message>::take(r0) {
                    None => None,
                    Some((x1, r1)) => Some(((x0, x1), r1)),
                }
            },
        }
    }

    open spec fn fits(m: (Seq<char>, Seq<char>)) -> bool {
        <String as Message>::fits(m.0) && <String as Message>::fits(m.1)
    }

    proof fn lemma_take_wire(m: (Seq<char>, Seq<char>), rest: Seq<u8>) {
        assert((<String as Message>::wire(m.0) + <String as Message>::wire(m.1)) + rest =~= (<String as Message>::wire(m.0)) + (<String as Message>::wire(m.1) + rest));
        <String as Message>::lemma_take_wire(m.0, (<String as Message>::wire(m.1) + rest));
        <String as Message>::lemma_take_wire(m.1, rest);
    }

    fn put(&self, out: &mut Vec<u8>) {
        let ghost start = out@;
        self.workspace_id.put(out);
        self.name.put(out);
        assert(out@ =~= start + (<String as Message>::wire(self.workspace_id.model()) + <String as Message>::wire(self.name.model())));
        assert(out@ =~= old(out)@ + Self::wire(self.model()));
    }

    fn get(b: &Vec<u8>, pos: usize) -> (r: Option<(UserWorkspacePB, usize)>) {
        let (workspace_id, p0) = match <String as Message>::get(b, pos) {
            Some(x) => x,
            None => return None,
        };
        let (name, p1) = match <String as Message>::get(b, p0) {
            Some(x) => x,
            None => return None,
        };
        Some((UserWorkspacePB { workspace_id, name }, p1))
    }
}

/// The signed-in user.
#[derive(Clone, Debug)]
pub struct UserProfilePB {
    /// The user's email.
    pub email: String,
    /// The user's name.
    pub name: String,
}

impl Message for UserProfilePB {
    type Model = (Seq<char>, Seq<char>);

    open spec fn model(&self) -> (Seq<char>, Seq<char>) {
        (self.email.model(), self.name.model())
    }

    open spec fn wire(m: (Seq<char>, Seq<char>)) -> Seq<u8> {
        <String as Message>::wire(m.0) + <String as Message>::wire(m.1)
    }

    open spec fn take(b: Seq<u8>) -> Option<((Seq<char>, Seq<char>), Seq<u8>)> {
        match <String as Message>::take(b) {
            None => None,
            Some((x0, r0)) => {
                match <String as Message>::take(r0) {
                    None => None,
                    Some((x1, r1)) => Some(((x0, x1), r1)),
                }
            },
        }
    }

    open spec fn fits(m: (Seq<char>, Seq<char>)) -> bool {
        <String as Message>::fits(m.0) && <String as Message>::fits(m.1)
    }

    proof fn lemma_take_wire(m: (Seq<char>, Seq<char>), rest: Seq<u8>) {
        assert((<String as Message>::wire(m.0) + <String as Message>::wire(m.1)) + rest =~= (<String as Message>::wire(m.0)) + (<String as Message>::wire(m.1) + rest));
        <String as Message>::lemma_take_wire(m.0, (<String as Message>::wire(m.1) + rest));
        <String as Message>::lemma_take_wire(m.1, rest);
    }

    fn put(&self, out: &mut Vec<u8>) {
        let ghost start = out@;
        self.email.put(out);
        self.name.put(out);
        assert(out@ =~= start + (<String as Message>::wire(self.email.model()) + <String as Message>::wire(self.name.model())));
        assert(out@ =~= old(out)@ + Self::wire(self.model()));
    }

    fn get(b: &Vec<u8>, pos: usize) -> (r: Option<(UserProfilePB, usize)>) {
        let (email, p0) = match <String as Message>::get(b, pos) {
            Some(x) => x,
            None => return None,
        };
        let (name, p1) = match <String as Message>::get(b, p0) {
            Some(x) => x,
            None => return None,
        };
        Some((UserProfilePB { email, name }, p1))
    }
}

/// A view in the folder.
#[derive(Clone, Debug)]
pub struct ViewPB {
    /// The view id.
    pub id: String,
    /// The parent view, or the workspace.
    pub parent_view_id: String,
    /// Its name.
    pub name: String,
    /// Its layout.
    pub layout: ViewLayout,
    /// Its icon, if any.
    pub icon: Option<String>,
    /// The ids of its children, in order.
    pub child_views: Vec<String>,
    /// Extra metadata, if any.
    pub extra: Option<String>,
}

impl Message for ViewPB {
    type Model = (Seq<char>, Seq<char>, Seq<char>, ViewLayout, Option<Seq<char>>, Seq<Seq<char>>, Option<Seq<char>>);

    open spec fn model(&self) -> (Seq<char>, Seq<char>, Seq<char>, ViewLayout, Option<Seq<char>>, Seq<Seq<char>>, Option<Seq<char>>) {
        (self.id.model(), self.parent_view_id.model(), self.name.model(), self.layout.model(), self.icon.model(), self.child_views.model(), self.extra.model())
    }

    open spec fn wire(m: (Seq<char>, Seq<char>, Seq<char>, ViewLayout, Option<Seq<char>>, Seq<Seq<char>>, Option<Seq<char>>)) -> Seq<u8> {
        <String as Message>::wire(m.0) + <String as Message>::wire(m.1) + <String as Message>::wire(m.2) + <ViewLayout as Message>::wire(m.3) + <Option<String> as Message>::wire(m.4) + <Vec<String> as Message>::wire(m.5) + <Option<String> as Message>::wire(m.6)
    }

    open spec fn take(b: Seq<u8>) -> Option<((Seq<char>, Seq<char>, Seq<char>, ViewLayout, Option<Seq<char>>, Seq<Seq<char>>, Option<Seq<char>>), Seq<u8>)> {
        match <String as Message>::take(b) {
            None => None,
            Some((x0, r0)) => {
                match <String as Message>::take(r0) {
                    None => None,
                    Some((x1, r1)) => {
                        match <String as Message>::take(r1) {
                            None => None,
                            Some((x2, r2)) => {
                                match <ViewLayout as Message>::take(r2) {
                                    None => None,
                                    Some((x3, r3)) => {
                                        match <Option<String> as Message>::take(r3) {
                                            None => None,
                                            Some((x4, r4)) => {
                                                match <Vec<String> as Message>::take(r4) {
                                                    None => None,
                                                    Some((x5, r5)) => {
                                                        match <Option<String> as Message>::take(r5) {
                                                            None => None,
                                                            Some((x6, r6)) => Some(((x0, x1, x2, x3, x4, x5, x6), r6)),
                                                        }
                                                    },
                                                }
                                            },
                                        }
                                    },
                                }
                            },
                        }
                    },
                }
            },
        }
    }

    open spec fn fits(m: (Seq<char>, Seq<char>, Seq<char>, ViewLayout, Option<Seq<char>>, Seq<Seq<char>>, Option<Seq<char>>)) -> bool {
        <String as Message>::fits(m.0) && <String as Message>::fits(m.1) && <String as Message>::fits(m.2) && <ViewLayout as Message>::fits(m.3) && <Option<String> as Message>::fits(m.4) && <Vec<String> as Message>::fits(m.5) && <Option<String> as Message>::fits(m.6)
    }

    #[verifier::rlimit(60)]
    proof fn lemma_take_wire(m: (Seq<char>, Seq<char>, Seq<char>, ViewLayout, Option<Seq<char>>, Seq<Seq<char>>, Option<Seq<char>>), rest: Seq<u8>) {
        assert((<String as Message>::wire(m.0) + <String as Message>::wire(m.1) + <String as Message>::wire(m.2) + <ViewLayout as Message>::wire(m.3) + <Option<String> as Message>::wire(m.4) + <Vec<String> as Message>::wire(m.5) + <Option<String> as Message>::wire(m.6)) + rest =~= (<String as Message>::wire(m.0) + <String as Message>::wire(m.1) + <String as Message>::wire(m.2) + <ViewLayout as Message>::wire(m.3) + <Option<String> as Message>::wire(m.4) + <Vec<String> as Message>::wire(m.5)) + (<Option<String> as Message>::wire(m.6) + rest));
        assert((<String as Message>::wire(m.0) + <String as Message>::wire(m.1) + <String as Message>::wire(m.2) + <ViewLayout as Message>::wire(m.3) + <Option<String> as Message>::wire(m.4) + <Vec<String> as Message>::wire(m.5)) + (<Option<String> as Message>::wire(m.6) + rest) =~= (<String as Message>::wire(m.0) + <String as Message>::wire(m.1) + <String as Message>::wire(m.2) + <ViewLayout as Message>::wire(m.3) + <Option<String> as Message>::wire(m.4)) + (<Vec<String> as Message>::wire(m.5) + (<Option<String> as Message>::wire(m.6) + rest)));
        assert((<String as Message>::wire(m.0) + <String as Message>::wire(m.1) + <String as Message>::wire(m.2) + <ViewLayout as Message>::wire(m.3) + <Option<String> as Message>::wire(m.4)) + (<Vec<String> as Message>::wire(m.5) + (<Option<String> as Message>::wire(m.6) + rest)) =~= (<String as Message>::wire(m.0) + <String as Message>::wire(m.1) + <String as Message>::wire(m.2) + <ViewLayout as Message>::wire(m.3)) + (<Option<String> as Message>::wire(m.4) + (<Vec<String> as Message>::wire(m.5) + (<Option<String> as Message>::wire(m.6) + rest))));
        assert((<String as Message>::wire(m.0) + <String as Message>::wire(m.1) + <String as Message>::wire(m.2) + <ViewLayout as Message>::wire(m.3)) + (<Option<String> as Message>::wire(m.4) + (<Vec<String> as Message>::wire(m.5) + (<Option<String> as Message>::wire(m.6) + rest))) =~= (<String as Message>::wire(m.0) + <String as Message>::wire(m.1) + <String as Message>::wire(m.2)) + (<ViewLayout as Message>::wire(m.3) + (<Option<String> as Message>::wire(m.4) + (<Vec<String> as Message>::wire(m.5) + (<Option<String> as Message>::wire(m.6) + rest)))));
        assert((<String as Message>::wire(m.0) + <String as Message>::wire(m.1) + <String as Message>::wire(m.2)) + (<ViewLayout as Message>::wire(m.3) + (<Option<String> as Message>::wire(m.4) + (<Vec<String> as Message>::wire(m.5) + (<Option<String> as Message>::wire(m.6) + rest)))) =~= (<String as Message>::wire(m.0) + <String as Message>::wire(m.1)) + (<String as Message>::wire(m.2) + (<ViewLayout as Message>::wire(m.3) + (<Option<String> as Message>::wire(m.4) + (<Vec<String> as Message>::wire(m.5) + (<Option<String> as Message>::wire(m.6) + rest))))));
        assert((<String as Message>::wire(m.0) + <String as Message>::wire(m.1)) + (<String as Message>::wire(m.2) + (<ViewLayout as Message>::wire(m.3) + (<Option<String> as Message>::wire(m.4) + (<Vec<String> as Message>::wire(m.5) + (<Option<String> as Message>::wire(m.6) + rest))))) =~= (<String as Message>::wire(m.0)) + (<String as Message>::wire(m.1) + (<String as Message>::wire(m.2) + (<ViewLayout as Message>::wire(m.3) + (<Option<String> as Message>::wire(m.4) + (<Vec<String> as Message>::wire(m.5) + (<Option<String> as Message>::wire(m.6) + rest)))))));
        <String as Message>::lemma_take_wire(m.0, (<String as Message>::wire(m.1) + (<String as Message>::wire(m.2) + (<ViewLayout as Message>::wire(m.3) + (<Option<String> as Message>::wire(m.4) + (<Vec<String> as Message>::wire(m.5) + (<Option<String> as Message>::wire(m.6) + rest)))))));
        <String as Message>::lemma_take_wire(m.1, (<String as Message>::wire(m.2) + (<ViewLayout as Message>::wire(m.3) + (<Option<String> as Message>::wire(m.4) + (<Vec<String> as Message>::wire(m.5) + (<Option<String> as Message>::wire(m.6) + rest))))));
        <String as Message>::lemma_take_wire(m.2, (<ViewLayout as Message>::wire(m.3) + (<Option<String> as Message>::wire(m.4) + (<Vec<String> as Message>::wire(m.5) + (<Option<String> as Message>::wire(m.6) + rest)))));
        <ViewLayout as Message>::lemma_take_wire(m.3, (<Option<String> as Message>::wire(m.4) + (<Vec<String> as Message>::wire(m.5) + (<Option<String> as Message>::wire(m.6) + rest))));
        <Option<String> as Message>::lemma_take_wire(m.4, (<Vec<String> as Message>::wire(m.5) + (<Option<String> as Message>::wire(m.6) + rest)));
        <Vec<String> as Message>::lemma_take_wire(m.5, (<Option<String> as Message>::wire(m.6) + rest));
        <Option<String> as Message>::lemma_take_wire(m.6, rest);
    }

    #[verifier::rlimit(90)]
    fn put(&self, out: &mut Vec<u8>) {
        let ghost start = out@;
        self.id.put(out);
        self.parent_view_id.put(out);
        assert(out@ =~= start + (<String as Message>::wire(self.id.model()) + <String as Message>::wire(self.parent_view_id.model())));
        self.name.put(out);
        assert(out@ =~= start + (<String as Message>::wire(self.id.model()) + <String as Message>::wire(self.parent_view_id.model()) + <String as Message>::wire(self.name.model())));
        self.layout.put(out);
        assert(out@ =~= start + (<String as Message>::wire(self.id.model()) + <String as Message>::wire(self.parent_view_id.model()) + <String as Message>::wire(self.name.model()) + <ViewLayout as Message>::wire(self.layout.model())));
        self.icon.put(out);
        assert(out@ =~= start + (<String as Message>::wire(self.id.model()) + <String as Message>::wire(self.parent_view_id.model()) + <String as Message>::wire(self.name.model()) + <ViewLayout as Message>::wire(self.layout.model()) + <Option<String> as Message>::wire(self.icon.model())));
        self.child_views.put(out);
        assert(out@ =~= start + (<String as Message>::wire(self.id.model()) + <String as Message>::wire(self.parent_view_id.model()) + <String as Message>::wire(self.name.model()) + <ViewLayout as Message>::wire(self.layout.model()) + <Option<String> as Message>::wire(self.icon.model()) + <Vec<String> as Message>::wire(self.child_views.model())));
        self.extra.put(out);
        assert(out@ =~= start + (<String as Message>::wire(self.id.model()) + <String as Message>::wire(self.parent_view_id.model()) + <String as Message>::wire(self.name.model()) + <ViewLayout as Message>::wire(self.layout.model()) + <Option<String> as Message>::wire(self.icon.model()) + <Vec<String> as Message>::wire(self.child_views.model()) + <Option<String> as Message>::wire(self.extra.model())));
        assert(out@ =~= old(out)@ + Self::wire(self.model()));
    }

    fn get(b: &Vec<u8>, pos: usize) -> (r: Option<(ViewPB, usize)>) {
        let (id, p0) = match <String as Message>::get(b, pos) {
            Some(x) => x,
            None => return None,
        };
        let (parent_view_id, p1) = match <String as Message>::get(b, p0) {
            Some(x) => x,
            None => return None,
        };
        let (name, p2) = match <String as Message>::get(b, p1) {
            Some(x) => x,
            None => return None,
        };
        let (layout, p3) = match <ViewLayout as Message>::get(b, p2) {
            Some(x) => x,
            None => return None,
        };
        let (icon, p4) = match <Option<String> as Message>::get(b, p3) {
            Some(x) => x,
            None => return None,
        };
        let (child_views, p5) = match <Vec<String> as Message>::get(b, p4) {
            Some(x) => x,
            None => return None,
        };
        let (extra, p6) = match <Option<String> as Message>::get(b, p5) {
            Some(x) => x,
            None => return None,
        };
        Some((ViewPB { id, parent_view_id, name, layout, icon, child_views, extra }, p6))
    }
}

/// A view that was moved to the trash.
#[derive(Clone, Debug)]
pub struct TrashPB {
    /// The view id.
    pub id: String,
    /// Its name.
    pub name: String,
}

impl Message for TrashPB {
    type Model = (Seq<char>, Seq<char>);

    open spec fn model(&self) -> (Seq<char>, Seq<char>) {
        (self.id.model(), self.name.model())
    }

    open spec fn wire(m: (Seq<char>, Seq<char>)) -> Seq<u8> {
        <String as Message>::wire(m.0) + <String as Message>::wire(m.1)
    }

    open spec fn take(b: Seq<u8>) -> Option<((Seq<char>, Seq<char>), Seq<u8>)> {
        match <String as Message>::take(b) {
            None => None,
            Some((x0, r0)) => {
                match <String as Message>::take(r0) {
                    None => None,
                    Some((x1, r1)) => Some(((x0, x1), r1)),
                }
            },
        }
    }

    open spec fn fits(m: (Seq<char>, Seq<char>)) -> bool {
        <String as Message>::fits(m.0) && <String as Message>::fits(m.1)
    }

    proof fn lemma_take_wire(m: (Seq<char>, Seq<char>), rest: Seq<u8>) {
        assert((<String as Message>::wire(m.0) + <String as Message>::wire(m.1)) + rest =~= (<String as Message>::wire(m.0)) + (<String as Message>::wire(m.1) + rest));
        <String as Message>::lemma_take_wire(m.0, (<String as Message>::wire(m.1) + rest));
        <String as Message>::lemma_take_wire(m.1, rest);
    }

    fn put(&self, out: &mut Vec<u8>) {
        let ghost start = out@;
        self.id.put(out);
        self.name.put(out);
        assert(out@ =~= start + (<String as Message>::wire(self.id.model()) + <String as Message>::wire(self.name.model())));
        assert(out@ =~= old(out)@ + Self::wire(self.model()));
    }

    fn get(b: &Vec<u8>, pos: usize) -> (r: Option<(TrashPB, usize)>) {
        let (id, p0) = match <String as Message>::get(b, pos) {
            Some(x) => x,
            None => return None,
        };
        let (name, p1) = match <String as Message>::get(b, p0) {
            Some(x) => x,
            None => return None,
        };
        Some((TrashPB { id, name }, p1))
    }
}

/// The publishable content of one view.
#[derive(Clone, Debug)]
pub struct PublishPayloadPB {
    /// The view.
    pub view_id: String,
    /// Its encoded content.
    pub data: Vec<u8>,
}

impl Message for PublishPayloadPB {
    type Model = (Seq<char>, Seq<u8>);

    open spec fn model(&self) -> (Seq<char>, Seq<u8>) {
        (self.view_id.model(), self.data.model())
    }

    open spec fn wire(m: (Seq<char>, Seq<u8>)) -> Seq<u8> {
        <String as Message>::wire(m.0) + <Vec<u8> as Message>::wire(m.1)
    }

    open spec fn take(b: Seq<u8>) -> Option<((Seq<char>, Seq<u8>), Seq<u8>)> {
        match <String as Message>::take(b) {
            None => None,
            Some((x0, r0)) => {
                match <Vec<u8> as Message>::take(r0) {
                    None => None,
                    Some((x1, r1)) => Some(((x0, x1), r1)),
                }
            },
        }
    }

    open spec fn fits(m: (Seq<char>, Seq<u8>)) -> bool {
        <String as Message>::fits(m.0) && <Vec<u8> as Message>::fits(m.1)
    }

    proof fn lemma_take_wire(m: (Seq<char>, Seq<u8>), rest: Seq<u8>) {
        assert((<String as Message>::wire(m.0) + <Vec<u8> as Message>::wire(m.1)) + rest =~= (<String as Message>::wire(m.0)) + (<Vec<u8> as Message>::wire(m.1) + rest));
        <String as Message>::lemma_take_wire(m.0, (<Vec<u8> as Message>::wire(m.1) + rest));
        <Vec<u8> as Message>::lemma_take_wire(m.1, rest);
    }

    fn put(&self, out: &mut Vec<u8>) {
        let ghost start = out@;
        self.view_id.put(out);
        self.data.put(out);
        assert(out@ =~= start + (<String as Message>::wire(self.view_id.model()) + <Vec<u8> as Message>::wire(self.data.model())));
        assert(out@ =~= old(out)@ + Self::wire(self.model()));
    }

    fn get(b: &Vec<u8>, pos: usize) -> (r: Option<(PublishPayloadPB, usize)>) {
        let (view_id, p0) = match <String as Message>::get(b, pos) {
            Some(x) => x,
            None => return None,
        };
        let (data, p1) = match <Vec<u8> as Message>::get(b, p0) {
            Some(x) => x,
            None => return None,
        };
        Some((PublishPayloadPB { view_id, data }, p1))
    }
}

/// What a folder holds.
#[derive(Clone, Debug)]
pub struct FolderDataPB {
    /// The workspace.
    pub workspace_id: String,
    /// Every view of it.
    pub views: Vec<ViewPB>,
}

impl Message for FolderDataPB {
    type Model = (Seq<char>, Seq<<ViewPB as Message>::Model>);

    open spec fn model(&self) -> (Seq<char>, Seq<<ViewPB as Message>::Model>) {
        (self.workspace_id.model(), self.views.model())
    }

    open spec fn wire(m: (Seq<char>, Seq<<ViewPB as Message>::Model>)) -> Seq<u8> {
        <String as Message>::wire(m.0) + <Vec<ViewPB> as Message>::wire(m.1)
    }

    open spec fn take(b: Seq<u8>) -> Option<((Seq<char>, Seq<<ViewPB as Message>::Model>), Seq<u8>)> {
        match <String as Message>::take(b) {
            None => None,
            Some((x0, r0)) => {
                match <Vec<ViewPB> as Message>::take(r0) {
                    None => None,
                    Some((x1, r1)) => Some(((x0, x1), r1)),
                }
            },
        }
    }

    open spec fn fits(m: (Seq<char>, Seq<<ViewPB as Message>::Model>)) -> bool {
        <String as Message>::fits(m.0) && <Vec<ViewPB> as Message>::fits(m.1)
    }

    proof fn lemma_take_wire(m: (Seq<char>, Seq<<ViewPB as Message>::Model>), rest: Seq<u8>) {
        assert((<String as Message>::wire(m.0) + <Vec<ViewPB> as Message>::wire(m.1)) + rest =~= (<String as Message>::wire(m.0)) + (<Vec<ViewPB> as Message>::wire(m.1) + rest));
        <String as Message>::lemma_take_wire(m.0, (<Vec<ViewPB> as Message>::wire(m.1) + rest));
        <Vec<ViewPB> as Message>::lemma_take_wire(m.1, rest);
    }

    fn put(&self, out: &mut Vec<u8>) {
        let ghost start = out@;
        self.workspace_id.put(out);
        self.views.put(out);
        assert(out@ =~= start + (<String as Message>::wire(self.workspace_id.model()) + <Vec<ViewPB> as Message>::wire(self.views.model())));
        assert(out@ =~= old(out)@ + Self::wire(self.model()));
    }

    fn get(b: &Vec<u8>, pos: usize) -> (r: Option<(FolderDataPB, usize)>) {
        let (workspace_id, p0) = match <String as Message>::get(b, pos) {
            Some(x) => x,
            None => return None,
        };
        let (views, p1) = match <Vec<ViewPB> as Message>::get(b, p0) {
            Some(x) => x,
            None => return None,
        };
        Some((FolderDataPB { workspace_id, views }, p1))
    }
}

} // verus!
