//! What the engine answers, and how an answer is read.
//!
//! A [`Reply`] holds what one engine call left behind: its status code, what
//! the last-error slot held if the call failed, and what the engine wrote
//! to its output. Each operation answers in one [`Shape`]. An answer that
//! does not have the shape of its operation — a success without the promised
//! address, a state number outside the enumeration — means that the engine
//! broke its own contract; nothing in this crate goes on from such an answer.

use vstd::prelude::*;
use vstd::pervasive::unreached;
use crate::call::{views_of, Call, CallView, Op};
use crate::error::{translated, Error, ErrorView, LastError};
use crate::kinds::RepositoryState;
use crate::oid::Oid;
use crate::ptr::Ptr;

verus! {

/// The bit of a revision answer's flags that marks a single target.
pub const REVPARSE_SINGLE: u32 = 1;

/// What the engine found for one entry of a listing that it resolves entry
/// by entry.
#[derive(Clone, Copy, Debug, PartialEq, Eq, Structural)]
pub struct Found {
    /// The status code of the lookup.
    pub code: i32,
    /// The address of what was found.
    pub handle: Ptr,
}

/// What the engine wrote to the output of a call.
#[derive(Debug, PartialEq, Eq)]
pub enum Out {
    /// The call has no output.
    Nothing,
    /// An address.
    Handle(Ptr),
    /// A content hash.
    Id(Oid),
    /// The two ends of a revision expression and the flags that tell what
    /// kind of expression it was.
    Range { from: Ptr, to: Ptr, flags: u32 },
    /// Text without its terminating zero, or the null address in its place.
    Text(Option<Vec<u8>>),
    /// A list of texts, each without its terminating zero.
    Texts(Vec<Vec<u8>>),
    /// The lookups that the engine made for the entries of a listing, in the
    /// order in which it listed them.
    Found(Vec<Found>),
}

/// What one engine call left behind.
#[derive(Debug, PartialEq, Eq)]
pub struct Reply {
    /// The status code, or the number that the call returned in its place.
    pub code: i32,
    /// What the last-error slot held, read after a failed call.
    pub error: Option<LastError>,
    /// What the engine wrote to the output.
    pub out: Out,
}

/// The forms in which an operation answers.
#[derive(Clone, Copy, Debug, PartialEq, Eq, Structural)]
pub enum Shape {
    /// A status code and nothing else.
    Status,
    /// A status code and, on success, a non-null address.
    Handle,
    /// A status code and, on success, a content hash.
    Id,
    /// A status code and, on success, the ends and flags of a revision
    /// expression.
    Range,
    /// A status code and, on success, a list of texts.
    Texts,
    /// A status code and, on success, one successful lookup per entry.
    Found,
    /// A number that is 1 for yes; the call cannot fail.
    Truth,
    /// The number of a repository state; the call cannot fail.
    State,
    /// Text that is always there; the call cannot fail.
    Text,
    /// Text or the null address; the call cannot fail.
    OptText,
    /// A content hash; the call cannot fail.
    PlainId,
    /// Nothing at all.
    Nothing,
}

impl Op {
    /// The form in which this operation answers.
    pub open spec fn shape_spec(self) -> Shape {
        match self {
            Op::RepositoryFree => Shape::Nothing,
            Op::RepositoryIsBare | Op::RepositoryIsShallow => Shape::Truth,
            Op::RepositoryState => Shape::State,
            Op::RepositoryPath => Shape::Text,
            Op::RepositoryWorkdir | Op::RepositoryNamespace => Shape::OptText,
            Op::ObjectId => Shape::PlainId,
            Op::RepositoryIsEmpty | Op::Reset | Op::ResetDefault => Shape::Status,
            Op::Revparse => Shape::Range,
            Op::RemoteList => Shape::Texts,
            Op::SubmoduleForeach => Shape::Found,
            Op::BlobCreateFromBuffer | Op::BlobCreateFromDisk | Op::CommitCreate
            | Op::ReferenceNameToId => Shape::Id,
            _ => Shape::Handle,
        }
    }

    /// The form in which this operation answers.
    #[verifier::when_used_as_spec(shape_spec)]
    pub fn shape(self) -> (s: Shape)
        ensures
            s == self.shape_spec(),
    {
        match self {
            Op::RepositoryFree => Shape::Nothing,
            Op::RepositoryIsBare | Op::RepositoryIsShallow => Shape::Truth,
            Op::RepositoryState => Shape::State,
            Op::RepositoryPath => Shape::Text,
            Op::RepositoryWorkdir | Op::RepositoryNamespace => Shape::OptText,
            Op::ObjectId => Shape::PlainId,
            Op::RepositoryIsEmpty | Op::Reset | Op::ResetDefault => Shape::Status,
            Op::Revparse => Shape::Range,
            Op::RemoteList => Shape::Texts,
            Op::SubmoduleForeach => Shape::Found,
            Op::BlobCreateFromBuffer | Op::BlobCreateFromDisk | Op::CommitCreate
            | Op::ReferenceNameToId => Shape::Id,
            _ => Shape::Handle,
        }
    }
}

/// Whether the flags of a revision answer mark a single target.
pub open spec fn is_single(flags: u32) -> bool {
    flags & REVPARSE_SINGLE != 0
}

/// The end of a range that the address `p` stands for: none for the null
/// address.
pub open spec fn end_of(p: Ptr) -> Option<Ptr> {
    if p.addr == 0 {
        None
    } else {
        Some(p)
    }
}

/// Every lookup of `found` succeeded and gave a non-null address.
pub open spec fn all_found(found: Seq<Found>) -> bool {
    forall|i: int| 0 <= i < found.len() ==> (#[trigger] found[i]).code == 0 && found[i].handle.addr != 0
}

/// Whether every lookup of `found` succeeded and gave a non-null address.
pub fn every_lookup_succeeded(found: &Vec<Found>) -> (ok: bool)
    ensures
        ok == all_found(found@),
{
    let mut i: usize = 0;
    while i < found.len()
        invariant
            i <= found.len(),
            forall|j: int| 0 <= j < i ==> (#[trigger] found@[j]).code == 0 && found@[j].handle.addr != 0,
        decreases found.len() - i,
    {
        if found[i].code != 0 || found[i].handle.is_null() {
            return false;
        }
        i += 1;
    }
    true
}

impl Reply {
    /// Whether the call failed.
    pub open spec fn failed(self) -> bool {
        self.code < 0
    }

    /// The error that a failed call stands for.
    pub open spec fn failure(self) -> ErrorView {
        translated(self.code, self.error)
    }

    /// Whether this answer has the form `shape`.
    ///
    /// A failed call has every form that carries a status code: a failure is
    /// an answer like any other.
    pub open spec fn has_shape(self, shape: Shape) -> bool {
        match shape {
            Shape::Status | Shape::Truth | Shape::Nothing => true,
            Shape::Handle => !self.failed() ==> (self.out matches Out::Handle(p) && p.addr != 0),
            Shape::Id => !self.failed() ==> self.out is Id,
            Shape::Range => !self.failed() ==> (self.out matches Out::Range { from, to, flags }
                && (is_single(flags) ==> from.addr != 0 && to.addr == 0)),
            Shape::Texts => !self.failed() ==> self.out is Texts,
            Shape::Found => !self.failed() ==> (self.out matches Out::Found(found) && all_found(
                found@,
            )),
            Shape::State => RepositoryState::known(self.code),
            Shape::Text => self.out matches Out::Text(Some(_)),
            Shape::OptText => self.out is Text,
            Shape::PlainId => self.out is Id,
        }
    }

    /// Whether this answer has the form in which `op` answers.
    pub open spec fn answers(self, op: Op) -> bool {
        self.has_shape(op.shape_spec())
    }

    /// Whether this answer has the form in which `op` answers.
    pub fn is_answer_to(&self, op: Op) -> (ok: bool)
        ensures
            ok == self.answers(op),
    {
        match op.shape() {
            Shape::Status | Shape::Truth | Shape::Nothing => true,
            Shape::Handle => self.code < 0 || match &self.out {
                Out::Handle(p) => !p.is_null(),
                _ => false,
            },
            Shape::Id => self.code < 0 || match &self.out {
                Out::Id(_) => true,
                _ => false,
            },
            Shape::Range => self.code < 0 || match &self.out {
                Out::Range { from, to, flags } => *flags & REVPARSE_SINGLE == 0 || (!from.is_null()
                    && to.is_null()),
                _ => false,
            },
            Shape::Texts => self.code < 0 || match &self.out {
                Out::Texts(_) => true,
                _ => false,
            },
            Shape::Found => self.code < 0 || match &self.out {
                Out::Found(found) => every_lookup_succeeded(found),
                _ => false,
            },
            Shape::State => RepositoryState::from_raw(self.code).is_some(),
            Shape::Text => match &self.out {
                Out::Text(Some(_)) => true,
                _ => false,
            },
            Shape::OptText => match &self.out {
                Out::Text(_) => true,
                _ => false,
            },
            Shape::PlainId => match &self.out {
                Out::Id(_) => true,
                _ => false,
            },
        }
    }

    /// What an answer of status form leads to.
    pub open spec fn status_spec(self) -> Result<(), ErrorView> {
        if self.failed() {
            Err(self.failure())
        } else {
            Ok(())
        }
    }

    /// Reads an answer of status form: nothing on success, the error on
    /// failure.
    pub fn status(self) -> (res: Result<(), Error>)
        ensures
            match res {
                Ok(_) => self.status_spec() is Ok,
                Err(e) => self.status_spec() == Err::<(), ErrorView>(e@),
            },
    {
        if self.code < 0 {
            Err(Error::translate(self.code, self.error))
        } else {
            Ok(())
        }
    }

    /// What an answer that says yes or no after a status check leads to.
    pub open spec fn truth_spec(self) -> Result<bool, ErrorView> {
        if self.failed() {
            Err(self.failure())
        } else {
            Ok(self.code == 1)
        }
    }

    /// Reads an answer that may fail and otherwise says yes by 1.
    pub fn truth(self) -> (res: Result<bool, Error>)
        ensures
            match res {
                Ok(b) => self.truth_spec() == Ok::<bool, ErrorView>(b),
                Err(e) => self.truth_spec() == Err::<bool, ErrorView>(e@),
            },
    {
        if self.code < 0 {
            Err(Error::translate(self.code, self.error))
        } else {
            Ok(self.code == 1)
        }
    }

    /// What an answer of handle form leads to.
    pub open spec fn handle_spec(self) -> Result<Ptr, ErrorView> {
        if self.failed() {
            Err(self.failure())
        } else {
            Ok(self.out->Handle_0)
        }
    }

    /// Reads an answer of handle form: the address on success, the error on
    /// failure.
    pub fn handle(self) -> (res: Result<Ptr, Error>)
        requires
            self.has_shape(Shape::Handle),
        ensures
            match res {
                Ok(p) => self.handle_spec() == Ok::<Ptr, ErrorView>(p) && p.addr != 0,
                Err(e) => self.handle_spec() == Err::<Ptr, ErrorView>(e@),
            },
    {
        if self.code < 0 {
            Err(Error::translate(self.code, self.error))
        } else {
            match self.out {
                Out::Handle(p) => Ok(p),
                _ => unreached(),
            }
        }
    }

    /// What an answer of hash form leads to.
    pub open spec fn id_spec(self) -> Result<Seq<u8>, ErrorView> {
        if self.failed() {
            Err(self.failure())
        } else {
            Ok(self.out->Id_0@)
        }
    }

    /// Reads an answer of hash form: the hash on success, the error on
    /// failure.
    pub fn id(self) -> (res: Result<Oid, Error>)
        requires
            self.has_shape(Shape::Id),
        ensures
            match res {
                Ok(id) => self.id_spec() == Ok::<Seq<u8>, ErrorView>(id@),
                Err(e) => self.id_spec() == Err::<Seq<u8>, ErrorView>(e@),
            },
    {
        if self.code < 0 {
            Err(Error::translate(self.code, self.error))
        } else {
            match self.out {
                Out::Id(id) => Ok(id),
                _ => unreached(),
            }
        }
    }

    /// What an answer of list form leads to.
    pub open spec fn texts_spec(self) -> Result<Seq<Seq<u8>>, ErrorView> {
        if self.failed() {
            Err(self.failure())
        } else {
            Ok(views_of(self.out->Texts_0@))
        }
    }

    /// Reads an answer of list form: the texts in the engine's order on
    /// success, the error on failure.
    pub fn texts(self) -> (res: Result<Vec<Vec<u8>>, Error>)
        requires
            self.has_shape(Shape::Texts),
        ensures
            match res {
                Ok(list) => self.texts_spec() == Ok::<Seq<Seq<u8>>, ErrorView>(views_of(list@)),
                Err(e) => self.texts_spec() == Err::<Seq<Seq<u8>>, ErrorView>(e@),
            },
    {
        if self.code < 0 {
            Err(Error::translate(self.code, self.error))
        } else {
            match self.out {
                Out::Texts(list) => Ok(list),
                _ => unreached(),
            }
        }
    }

    /// What an answer of range form leads to: the first end alone where the
    /// flags mark a single target, else each end that is not null.
    pub open spec fn range_spec(self) -> Result<(Option<Ptr>, Option<Ptr>), ErrorView> {
        if self.failed() {
            Err(self.failure())
        } else if is_single(self.out->flags) {
            Ok((Some(self.out->from), None))
        } else {
            Ok((end_of(self.out->from), end_of(self.out->to)))
        }
    }

    /// Reads an answer of range form: the ends on success, the error on
    /// failure. An end that is there is never the null address.
    pub fn range(self) -> (res: Result<(Option<Ptr>, Option<Ptr>), Error>)
        requires
            self.has_shape(Shape::Range),
        ensures
            match res {
                Ok(ends) => {
                    &&& self.range_spec() == Ok::<(Option<Ptr>, Option<Ptr>), ErrorView>(ends)
                    &&& ends.0 matches Some(p) ==> p.addr != 0
                    &&& ends.1 matches Some(p) ==> p.addr != 0
                },
                Err(e) => self.range_spec() == Err::<(Option<Ptr>, Option<Ptr>), ErrorView>(e@),
            },
    {
        if self.code < 0 {
            Err(Error::translate(self.code, self.error))
        } else {
            match self.out {
                Out::Range { from, to, flags } => {
                    if flags & REVPARSE_SINGLE != 0 {
                        Ok((Some(from), None))
                    } else {
                        let first = if from.is_null() {
                            None
                        } else {
                            Some(from)
                        };
                        let second = if to.is_null() {
                            None
                        } else {
                            Some(to)
                        };
                        Ok((first, second))
                    }
                },
                _ => unreached(),
            }
        }
    }

    /// What an answer of lookup-list form leads to.
    pub open spec fn found_spec(self) -> Result<Seq<Found>, ErrorView> {
        if self.failed() {
            Err(self.failure())
        } else {
            Ok(self.out->Found_0@)
        }
    }

    /// Reads an answer of lookup-list form: the lookups in the engine's
    /// order, every one of them successful, or the error on failure.
    pub fn found(self) -> (res: Result<Vec<Found>, Error>)
        requires
            self.has_shape(Shape::Found),
        ensures
            match res {
                Ok(list) => self.found_spec() == Ok::<Seq<Found>, ErrorView>(list@) && all_found(
                    list@,
                ),
                Err(e) => self.found_spec() == Err::<Seq<Found>, ErrorView>(e@),
            },
    {
        if self.code < 0 {
            Err(Error::translate(self.code, self.error))
        } else {
            match self.out {
                Out::Found(list) => Ok(list),
                _ => unreached(),
            }
        }
    }

    /// The state that an answer of state form names.
    pub fn state(self) -> (s: RepositoryState)
        requires
            self.has_shape(Shape::State),
        ensures
            s == RepositoryState::of(self.code),
            s.raw_spec() == self.code,
    {
        match RepositoryState::from_raw(self.code) {
            Some(s) => s,
            None => unreached(),
        }
    }

    /// Reads an answer of plain hash form.
    pub fn plain_id(self) -> (id: Oid)
        requires
            self.has_shape(Shape::PlainId),
        ensures
            self.out is Id,
            self.out->Id_0@ == id@,
    {
        match self.out {
            Out::Id(id) => id,
            _ => unreached(),
        }
    }

    /// The text of an answer of text form, if there is one.
    pub open spec fn text_spec(self) -> Option<Seq<u8>> {
        match self.out {
            Out::Text(Some(bytes)) => Some(bytes@),
            _ => None,
        }
    }

    /// Reads an answer of text form: the text, or nothing where the engine
    /// gave the null address.
    pub fn text(self) -> (res: Option<Vec<u8>>)
        requires
            self.has_shape(Shape::OptText),
        ensures
            match res {
                Some(bytes) => self.text_spec() == Some(bytes@),
                None => self.text_spec() is None,
            },
    {
        match self.out {
            Out::Text(t) => t,
            _ => unreached(),
        }
    }
}

/// `reply` is what `engine` gave for a call that reads as `call`.
pub open spec fn performed<E: Fn(Call) -> Reply>(engine: &E, call: CallView, reply: Reply) -> bool {
    exists|c: Call| c@ == call && #[trigger] engine.ensures((c,), reply)
}

/// `engine` takes every call of `op`, and whatever it gives for one has the
/// form in which `op` answers.
///
/// An engine adapter meets this by stopping the program when the engine
/// breaks its contract, instead of handing the broken answer on.
pub open spec fn serves<E: Fn(Call) -> Reply>(engine: &E, op: Op) -> bool {
    &&& forall|c: Call| c.op == op ==> engine.requires((c,))
    &&& forall|c: Call, r: Reply| c.op == op && #[trigger] engine.ensures((c,), r) ==> r.answers(op)
}

/// Hands `call` to the engine and gives back its answer.
pub fn ask<E: Fn(Call) -> Reply>(engine: &E, call: Call) -> (reply: Reply)
    requires
        serves(engine, call.op),
    ensures
        performed(engine, call@, reply),
        reply.answers(call@.op),
{
    let ghost c = call;
    let reply = engine(call);
    assert(engine.ensures((c,), reply));
    reply
}

} // verus!
