//! The registry of handlers and the dispatcher that calls them.

use vstd::prelude::*;

use crate::command::CommandId;
use crate::envelope::{Envelope, Outcome};
use crate::error::{ErrorCode, ErrorModel, FlowyError};

verus! {

/// The business logic behind one command. It consumes the request payload,
/// if any, and answers with response bytes or an error.
pub trait Handler {
    fn handle(&self, payload: &Option<Vec<u8>>) -> Result<Vec<u8>, FlowyError>;
}

/// A command bound to its handler.
pub struct Route<H> {
    pub id: CommandId,
    pub handler: H,
}

/// The commands a process can serve, each bound to one handler.
pub struct Registry<H> {
    routes: Vec<Route<H>>,
}

/// No command occurs twice in `ids`.
pub open spec fn distinct(ids: Seq<CommandId>) -> bool {
    forall|i: int, j: int| 0 <= i < j < ids.len() ==> ids[i] != ids[j]
}

impl<H: Handler> Registry<H> {
    /// The registered commands, in order of registration.
    pub closed spec fn ids(&self) -> Seq<CommandId> {
        self.routes@.map_values(|r: Route<H>| r.id)
    }

    pub open spec fn wf(&self) -> bool {
        distinct(self.ids())
    }

    pub fn new() -> (r: Registry<H>)
        ensures
            r.wf(),
            r.ids() == Seq::<CommandId>::empty(),
    {
        let r = Registry { routes: Vec::new() };
        assert(r.ids() =~= Seq::<CommandId>::empty());
        r
    }

    /// The position of `id` among the registered commands.
    pub fn resolve(&self, id: CommandId) -> (r: Option<usize>)
        ensures
            match r {
                Some(i) => i < self.ids().len() && self.ids()[i as int] == id,
                None => !self.ids().contains(id),
            },
    {
        let mut i: usize = 0;
        while i < self.routes.len()
            invariant
                i <= self.routes@.len(),
                forall|j: int| 0 <= j < i ==> self.ids()[j] != id,
            decreases self.routes@.len() - i,
        {
            if self.routes[i].id == id {
                return Some(i);
            }
            i = i + 1;
        }
        None
    }

    pub fn is_registered(&self, id: CommandId) -> (r: bool)
        ensures
            r == self.ids().contains(id),
    {
        match self.resolve(id) {
            Some(_) => true,
            None => false,
        }
    }

    /// Binds `id` to `handler`; refuses a command that is bound already.
    pub fn register(&mut self, id: CommandId, handler: H) -> (r: Result<(), FlowyError>)
        requires
            old(self).wf(),
        ensures
            final(self).wf(),
            old(self).ids().contains(id) ==> (r matches Err(e) && e.code
                == ErrorCode::DuplicateRegistration) && final(self).ids() == old(self).ids(),
            !old(self).ids().contains(id) ==> r is Ok && final(self).ids() == old(self).ids().push(
                id,
            ),
    {
        if self.is_registered(id) {
            return Err(FlowyError::new(ErrorCode::DuplicateRegistration, "command registered twice"));
        }
        self.routes.push(Route { id, handler });
        assert(self.ids() =~= old(self).ids().push(id));
        Ok(())
    }
}

/// One handler call: the command, the request bytes, and what came back.
pub struct Delivery {
    pub id: CommandId,
    pub request: Option<Seq<u8>>,
    pub response: Outcome,
}

pub open spec fn payload_model(p: Option<Vec<u8>>) -> Option<Seq<u8>> {
    match p {
        Some(b) => Some(b@),
        None => None,
    }
}

/// Routes commands to the handlers of a registry that no longer changes, and
/// keeps the journal of every handler call it made.
pub struct Dispatcher<H> {
    registry: Registry<H>,
    journal: Ghost<Seq<Delivery>>,
    forgotten: Vec<FlowyError>,
}

impl<H: Handler> Dispatcher<H> {
    pub closed spec fn ids(&self) -> Seq<CommandId> {
        self.registry.ids()
    }

    /// Every handler call made so far, oldest first.
    pub closed spec fn journal(&self) -> Seq<Delivery> {
        self.journal@
    }

    /// The errors of the failed calls whose envelope was dropped, oldest first.
    pub closed spec fn forgotten(&self) -> Seq<ErrorModel> {
        self.forgotten@.map_values(|e: FlowyError| e.model())
    }

    pub closed spec fn wf(&self) -> bool {
        self.registry.wf()
    }

    pub fn new(registry: Registry<H>) -> (r: Dispatcher<H>)
        requires
            registry.wf(),
        ensures
            r.wf(),
            r.ids() == registry.ids(),
            r.journal() == Seq::<Delivery>::empty(),
            r.forgotten() == Seq::<ErrorModel>::empty(),
    {
        let r = Dispatcher { registry, journal: Ghost(Seq::empty()), forgotten: Vec::new() };
        assert(r.forgotten() =~= Seq::<ErrorModel>::empty());
        r
    }

    /// The errors of the failed calls whose envelope was dropped.
    pub fn forgotten_failures(&self) -> (r: &Vec<FlowyError>)
        ensures
            r@.map_values(|e: FlowyError| e.model()) == self.forgotten(),
    {
        &self.forgotten
    }

    pub fn is_registered(&self, id: CommandId) -> (r: bool)
        ensures
            r == self.ids().contains(id),
    {
        self.registry.is_registered(id)
    }

    /// The one place a handler is called: calls the handler at position `i`
    /// and journals the call.
    fn invoke(&mut self, i: usize, id: CommandId, payload: Option<Vec<u8>>) -> (r: Envelope)
        requires
            i < old(self).ids().len(),
            old(self).ids()[i as int] == id,
        ensures
            final(self).registry == old(self).registry,
            final(self).forgotten == old(self).forgotten,
            final(self).journal() == old(self).journal().push(
                Delivery { id, request: payload_model(payload), response: r.outcome() },
            ),
    {
        let answer = self.registry.routes[i].handler.handle(&payload);
        let r = match answer {
            Ok(b) => Envelope::Success(b),
            Err(e) => Envelope::Failure(e),
        };
        self.journal = Ghost(
            self.journal@.push(Delivery { id, request: payload_model(payload), response: r.outcome() }),
        );
        r
    }

    /// Calls the handler of `id` once with `payload` and wraps its answer.
    /// An unregistered command calls nothing and fails with `UnknownCommand`.
    pub fn dispatch(&mut self, id: CommandId, payload: Option<Vec<u8>>) -> (r: Envelope)
        requires
            old(self).wf(),
        ensures
            final(self).wf(),
            final(self).ids() == old(self).ids(),
            final(self).forgotten() == old(self).forgotten(),
            old(self).ids().contains(id) ==> final(self).journal() == old(self).journal().push(
                Delivery { id, request: payload_model(payload), response: r.outcome() },
            ),
            !old(self).ids().contains(id) ==> final(self).journal() == old(self).journal() && (r
                matches Envelope::Failure(e) && e.code == ErrorCode::UnknownCommand),
    {
        match self.registry.resolve(id) {
            None => Envelope::Failure(FlowyError::new(ErrorCode::UnknownCommand, "no handler for the command")),
            Some(i) => {
                self.invoke(i, id, payload)
            },
        }
    }

    /// Dispatches and drops the envelope; the error of a failure is kept
    /// among the forgotten failures.
    pub fn dispatch_and_forget(&mut self, id: CommandId, payload: Option<Vec<u8>>)
        requires
            old(self).wf(),
        ensures
            final(self).wf(),
            final(self).ids() == old(self).ids(),
            old(self).ids().contains(id) ==> final(self).journal().len() == old(self).journal().len() + 1
                && final(self).journal().drop_last() == old(self).journal()
                && final(self).journal().last().id == id
                && final(self).journal().last().request == payload_model(payload),
            !old(self).ids().contains(id) ==> final(self).journal() == old(self).journal(),
            old(self).ids().contains(id) ==> match final(self).journal().last().response {
                Ok(_) => final(self).forgotten() == old(self).forgotten(),
                Err(e) => final(self).forgotten() == old(self).forgotten().push(e),
            },
            !old(self).ids().contains(id) ==> final(self).forgotten().len() == old(self).forgotten().len() + 1
                && final(self).forgotten().drop_last() == old(self).forgotten()
                && final(self).forgotten().last().0 == ErrorCode::UnknownCommand,
    {
        match self.dispatch(id, payload) {
            Envelope::Success(_) => {},
            Envelope::Failure(e) => {
                self.forgotten.push(e);
                assert(self.forgotten() =~= old(self).forgotten().push(self.forgotten@.last().model()));
                assert(self.forgotten().drop_last() =~= old(self).forgotten());
            },
        }
    }
}

} // verus!
