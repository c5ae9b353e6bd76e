//! The repository handle and its operations.
//!
//! Every operation works the same way: it puts its arguments into the form
//! that the engine takes, hands the call to the engine, and reads the
//! answer. A failure that the engine reports comes back as an [`Error`];
//! a success comes back as a value or as a handle bound to the repository.
//!
//! The contract of an operation names the exact call that the engine gets
//! and says how the result follows from whatever the engine answered.

use core::marker::PhantomData;
use vstd::pervasive::unreached;
use vstd::prelude::*;
use vstd::string::StringSliceAdditionalSpecFns;
use vstd::utf8::{decode_utf8, valid_utf8};
use crate::call::{bytes_of, Call, CallView, Op};
use crate::error::{Error, ErrorView};
use crate::handle::{
    bind, bind_all, bound, wrap, wrapped, Blob, Branch, Branches, Child, Commit, Config, Handle,
    Index, NonNull, Object, Reference, References, Remote, Revspec, Signature, StringArray,
    Submodule, Tree,
};
use crate::kinds::{BranchType, ObjectKind, RepositoryState, ResetType};
use crate::marshal::{all_c_safe, c_safe, decode_text};
use crate::oid::Oid;
use crate::ptr::Ptr;
use crate::reply::{ask, performed, serves, Found, Reply, Shape};

verus! {

/// Makes `core::cell::Cell` known as a type. Nothing is claimed of it: a
/// repository holds it only as a marker that keeps the handle from being
/// shared between threads.
#[verifier::external_type_specification]
#[verifier::external_body]
#[verifier::reject_recursive_types(T)]
pub struct ExCell<T: ?Sized>(core::cell::Cell<T>);

/// An open repository: the one owner of the engine's repository resource.
///
/// Everything else that the engine makes within the repository borrows this
/// handle.
///
/// The engine does not guard a repository against use from two threads at
/// once, so a handle cannot be shared between threads.
#[derive(Debug)]
pub struct Repository {
    raw: NonNull,
    marker: PhantomData<core::cell::Cell<()>>,
}

impl View for Repository {
    type V = Ptr;

    closed spec fn view(&self) -> Ptr {
        self.raw@
    }
}

/// The bytes of an optional text.
pub open spec fn opt_bytes(text: Option<&str>) -> Option<Seq<u8>> {
    match text {
        Some(t) => Some(t.spec_bytes()),
        None => None,
    }
}

/// The address of an optional signature.
pub open spec fn opt_signature(sig: Option<&Signature>) -> Option<Ptr> {
    match sig {
        Some(s) => Some(s.ptr()),
        None => None,
    }
}

/// The address of an optional object.
pub open spec fn opt_object(obj: Option<&Object>) -> Option<Ptr> {
    match obj {
        Some(o) => Some(o.ptr()),
        None => None,
    }
}

/// `res` is what an answer of handle form leads to for a call that makes a
/// repository: the handle that owns the address that the engine gave, or the
/// error that it reported.
pub open spec fn opened(reply: Reply, res: Result<Repository, Error>) -> bool {
    match res {
        Ok(repo) => reply.handle_spec() == Ok::<Ptr, ErrorView>(repo@),
        Err(e) => reply.handle_spec() == Err::<Ptr, ErrorView>(e@),
    }
}

/// `res` is what an answer of hash form leads to.
pub open spec fn named(reply: Reply, res: Result<Oid, Error>) -> bool {
    match res {
        Ok(id) => reply.id_spec() == Ok::<Seq<u8>, ErrorView>(id@),
        Err(e) => reply.id_spec() == Err::<Seq<u8>, ErrorView>(e@),
    }
}

/// `res` is what an answer of status form leads to.
pub open spec fn done(reply: Reply, res: Result<(), Error>) -> bool {
    match res {
        Ok(_) => reply.status_spec() is Ok,
        Err(e) => reply.status_spec() == Err::<(), ErrorView>(e@),
    }
}

/// The addresses of `commits`, in the same order.
pub open spec fn ptrs_of(commits: Seq<&Commit>) -> Seq<Ptr> {
    Seq::new(commits.len(), |i: int| commits[i].ptr())
}

/// The handles of `subs` are those that `found` gave, in the same order, and
/// all belong to the repository at `repo`.
pub open spec fn listed(repo: Ptr, found: Seq<Found>, subs: Seq<Submodule>) -> bool {
    &&& subs.len() == found.len()
    &&& forall|i: int|
        0 <= i < subs.len() ==> (#[trigger] subs[i]).ptr() == found[i].handle && subs[i].owner()
            == repo
}

fn raw_of_signature(sig: Option<&Signature>) -> (p: Option<Ptr>)
    ensures
        p == opt_signature(sig),
{
    match sig {
        Some(s) => Some(s.raw()),
        None => None,
    }
}

fn bytes_of_text<'t>(text: Option<&'t str>) -> (b: Option<&'t [u8]>)
    ensures
        match b {
            Some(bytes) => opt_bytes(text) == Some(bytes@),
            None => opt_bytes(text) is None,
        },
{
    match text {
        Some(t) => Some(t.as_bytes()),
        None => None,
    }
}

impl Repository {
    /// Takes over the engine's repository at `ptr`.
    pub fn from_raw(ptr: Ptr) -> (repo: Repository)
        requires
            ptr.addr != 0,
        ensures
            repo@ == ptr,
    {
        Repository { raw: NonNull::new(ptr), marker: PhantomData }
    }

    /// The address of the engine's repository, which is not null.
    pub fn raw(&self) -> (p: Ptr)
        ensures
            p == self@,
            p.addr != 0,
    {
        self.raw.get()
    }

    /// Loads every submodule of the repository.
    ///
    /// The engine lists the submodules and looks each one up as it lists it;
    /// the handles come back in the order of the listing.
    pub fn submodules<'a, E: Fn(Call) -> Reply>(&'a self, engine: &E) -> (res: Result<
        Vec<Submodule<'a>>,
        Error,
    >)
        requires
            serves(engine, Op::SubmoduleForeach),
        ensures
            exists|reply: Reply| #[trigger]
                performed(engine, CallView::new(Op::SubmoduleForeach).handle(self@), reply)
                    && match res {
                    Ok(subs) => reply.found_spec() is Ok && listed(
                        self@,
                        reply.found_spec()->Ok_0,
                        subs@,
                    ),
                    Err(e) => reply.found_spec() == Err::<Seq<Found>, ErrorView>(e@),
                },
    {
        let reply = ask(engine, Call::new(Op::SubmoduleForeach).handle(self.raw()));
        match reply.found() {
            Ok(found) => Ok(bind_all(self, &found)),
            Err(e) => Err(e),
        }
    }

    /// What the repository is in the middle of.
    pub fn state<E: Fn(Call) -> Reply>(&self, engine: &E) -> (s: RepositoryState)
        requires
            serves(engine, Op::RepositoryState),
        ensures
            exists|reply: Reply| #[trigger]
                performed(engine, CallView::new(Op::RepositoryState).handle(self@), reply)
                    && RepositoryState::known(reply.code) && s == RepositoryState::of(reply.code),
    {
        let reply = ask(engine, Call::new(Op::RepositoryState).handle(self.raw()));
        reply.state()
    }

    /// Creates a commit from a tree, a message, an author, a committer and
    /// the parents in order, and gives its content hash.
    ///
    /// With `update_ref` the engine also moves that reference to the new
    /// commit. It refuses to do so, and creates nothing, when the reference
    /// exists and does not point at the first parent.
    pub fn commit<'a, E: Fn(Call) -> Reply>(
        &'a self,
        engine: &E,
        update_ref: Option<&str>,
        author: &Signature,
        committer: &Signature,
        message: &str,
        tree: &Tree<'a>,
        parents: &[&Commit<'a>],
    ) -> (res: Result<Oid, Error>)
        requires
            serves(engine, Op::CommitCreate),
            update_ref matches Some(r) ==> c_safe(r.spec_bytes()),
            c_safe(message.spec_bytes()),
        ensures
            exists|reply: Reply| #[trigger]
                performed(
                    engine,
                    CallView::new(Op::CommitCreate).handle(self@).opt_text(
                        opt_bytes(update_ref),
                    ).handle(author.ptr()).handle(committer.ptr()).opt_text(None).text(
                        message.spec_bytes(),
                    ).handle(tree.ptr()).size(parents@.len() as usize).handles(ptrs_of(parents@)),
                    reply,
                ) && named(reply, res),
    {
        let mut ptrs: Vec<Ptr> = Vec::with_capacity(parents.len());
        let mut i: usize = 0;
        while i < parents.len()
            invariant
                i <= parents.len(),
                ptrs@.len() == i,
                forall|j: int| 0 <= j < i ==> ptrs@[j] == (#[trigger] parents@[j]).ptr(),
            decreases parents.len() - i,
        {
            ptrs.push(parents[i].raw());
            i += 1;
        }
        assert(ptrs@ =~= ptrs_of(parents@));
        let call = Call::new(Op::CommitCreate).handle(self.raw()).opt_text(
            bytes_of_text(update_ref),
        ).handle(author.raw()).handle(committer.raw()).opt_text(None).text(
            message.as_bytes(),
        ).handle(tree.raw()).size(parents.len()).handles(ptrs);
        ask(engine, call).id()
    }

    /// Resolves a revision expression.
    ///
    /// An expression that names one object gives that object as the first
    /// end and no second end; a range gives each end that the engine
    /// resolved.
    pub fn revparse<'a, E: Fn(Call) -> Reply>(&'a self, engine: &E, spec: &str) -> (res: Result<
        Revspec<'a>,
        Error,
    >)
        requires
            serves(engine, Op::Revparse),
            c_safe(spec.spec_bytes()),
        ensures
            exists|reply: Reply| #[trigger]
                performed(
                    engine,
                    CallView::new(Op::Revparse).handle(self@).text(spec.spec_bytes()),
                    reply,
                ) && match res {
                    Ok(r) => reply.range_spec() == Ok::<(Option<Ptr>, Option<Ptr>), ErrorView>(
                        (r.from_ptr(), r.to_ptr()),
                    ) && r.owned_by(self@),
                    Err(e) => reply.range_spec() == Err::<(Option<Ptr>, Option<Ptr>), ErrorView>(
                        e@,
                    ),
                },
    {
        let call = Call::new(Op::Revparse).handle(self.raw()).text(spec.as_bytes());
        Revspec::resolve(self, ask(engine, call))
    }

    /// Creates a branch named `branch_name` that points at `target`.
    ///
    /// The engine refuses when the name is taken and `force` is not set; with
    /// `force` it replaces the branch.
    pub fn branch<'a, E: Fn(Call) -> Reply>(
        &'a self,
        engine: &E,
        branch_name: &str,
        target: &Commit<'a>,
        force: bool,
        signature: Option<&Signature>,
        log_message: &str,
    ) -> (res: Result<Branch<'a>, Error>)
        requires
            serves(engine, Op::BranchCreate),
            c_safe(branch_name.spec_bytes()),
            c_safe(log_message.spec_bytes()),
        ensures
            exists|reply: Reply| #[trigger]
                performed(
                    engine,
                    CallView::new(Op::BranchCreate).handle(self@).text(
                        branch_name.spec_bytes(),
                    ).handle(target.ptr()).flag(force).opt_handle(opt_signature(signature)).text(
                        log_message.spec_bytes(),
                    ),
                    reply,
                ) && bound(self@, reply, res),
    {
        let call = Call::new(Op::BranchCreate).handle(self.raw()).text(
            branch_name.as_bytes(),
        ).handle(target.raw()).flag(force).opt_handle(raw_of_signature(signature)).text(
            log_message.as_bytes(),
        );
        bind(self, ask(engine, call))
    }

    /// Updates the index entries at `paths` from the tree of `target`.
    ///
    /// Only the given paths are touched. Without a target the engine removes
    /// the entries at those paths from the index.
    pub fn reset_default<'a, E: Fn(Call) -> Reply>(
        &'a self,
        engine: &E,
        target: Option<&Object<'a>>,
        paths: &[&str],
    ) -> (res: Result<(), Error>)
        requires
            serves(engine, Op::ResetDefault),
            all_c_safe(bytes_of(paths@)),
        ensures
            exists|reply: Reply| #[trigger]
                performed(
                    engine,
                    CallView::new(Op::ResetDefault).handle(self@).opt_handle(
                        opt_object(target),
                    ).texts(bytes_of(paths@)),
                    reply,
                ) && done(reply, res),
    {
        let target_raw = match target {
            Some(t) => Some(t.raw()),
            None => None,
        };
        let call = Call::new(Op::ResetDefault).handle(self.raw()).opt_handle(target_raw).texts(
            paths,
        );
        ask(engine, call).status()
    }

    /// Creates a symbolic reference named `name` that points at the
    /// reference named `target`.
    ///
    /// The engine refuses when the name is taken and `force` is not set; with
    /// `force` it overwrites the reference.
    pub fn reference_symbolic<'a, E: Fn(Call) -> Reply>(
        &'a self,
        engine: &E,
        name: &str,
        target: &str,
        force: bool,
        sig: Option<&Signature>,
        log_message: &str,
    ) -> (res: Result<Reference<'a>, Error>)
        requires
            serves(engine, Op::ReferenceSymbolicCreate),
            c_safe(name.spec_bytes()),
            c_safe(target.spec_bytes()),
            c_safe(log_message.spec_bytes()),
        ensures
            exists|reply: Reply| #[trigger]
                performed(
                    engine,
                    CallView::new(Op::ReferenceSymbolicCreate).handle(self@).text(
                        name.spec_bytes(),
                    ).text(target.spec_bytes()).flag(force).opt_handle(opt_signature(sig)).text(
                        log_message.spec_bytes(),
                    ),
                    reply,
                ) && bound(self@, reply, res),
    {
        let call = Call::new(Op::ReferenceSymbolicCreate).handle(self.raw()).text(
            name.as_bytes(),
        ).text(target.as_bytes()).flag(force).opt_handle(raw_of_signature(sig)).text(
            log_message.as_bytes(),
        );
        bind(self, ask(engine, call))
    }

    /// Creates a direct reference named `name` that points at the object
    /// `id`.
    ///
    /// The engine refuses when the name is taken and `force` is not set; with
    /// `force` it overwrites the reference.
    pub fn reference<'a, E: Fn(Call) -> Reply>(
        &'a self,
        engine: &E,
        name: &str,
        id: Oid,
        force: bool,
        sig: Option<&Signature>,
        log_message: &str,
    ) -> (res: Result<Reference<'a>, Error>)
        requires
            serves(engine, Op::ReferenceCreate),
            c_safe(name.spec_bytes()),
            c_safe(log_message.spec_bytes()),
        ensures
            exists|reply: Reply| #[trigger]
                performed(
                    engine,
                    CallView::new(Op::ReferenceCreate).handle(self@).text(name.spec_bytes()).id(
                        id@,
                    ).flag(force).opt_handle(opt_signature(sig)).text(log_message.spec_bytes()),
                    reply,
                ) && bound(self@, reply, res),
    {
        let call = Call::new(Op::ReferenceCreate).handle(self.raw()).text(name.as_bytes()).id(
            id,
        ).flag(force).opt_handle(raw_of_signature(sig)).text(log_message.as_bytes());
        bind(self, ask(engine, call))
    }
}

impl Repository {
    fn make(reply: Reply) -> (res: Result<Repository, Error>)
        requires
            reply.has_shape(Shape::Handle),
        ensures
            opened(reply, res),
    {
        match reply.handle() {
            Ok(p) => Ok(Repository::from_raw(p)),
            Err(e) => Err(e),
        }
    }

    /// Opens the repository at `path`, be it bare or not.
    pub fn open<E: Fn(Call) -> Reply>(engine: &E, path: &[u8]) -> (res: Result<Repository, Error>)
        requires
            serves(engine, Op::RepositoryOpen),
            c_safe(path@),
        ensures
            exists|reply: Reply| #[trigger]
                performed(engine, CallView::new(Op::RepositoryOpen).text(path@), reply) && opened(
                    reply,
                    res,
                ),
    {
        Self::make(ask(engine, Call::new(Op::RepositoryOpen).text(path)))
    }

    fn init_<E: Fn(Call) -> Reply>(engine: &E, path: &[u8], bare: bool) -> (res: Result<
        Repository,
        Error,
    >)
        requires
            serves(engine, Op::RepositoryInit),
            c_safe(path@),
        ensures
            exists|reply: Reply| #[trigger]
                performed(
                    engine,
                    CallView::new(Op::RepositoryInit).text(path@).flag(bare),
                    reply,
                ) && opened(reply, res),
    {
        Self::make(ask(engine, Call::new(Op::RepositoryInit).text(path).flag(bare)))
    }

    /// Creates a repository with a working tree in the directory `path`.
    pub fn init<E: Fn(Call) -> Reply>(engine: &E, path: &[u8]) -> (res: Result<Repository, Error>)
        requires
            serves(engine, Op::RepositoryInit),
            c_safe(path@),
        ensures
            exists|reply: Reply| #[trigger]
                performed(
                    engine,
                    CallView::new(Op::RepositoryInit).text(path@).flag(false),
                    reply,
                ) && opened(reply, res),
    {
        Self::init_(engine, path, false)
    }

    /// Creates a bare repository in the directory `path`.
    pub fn init_bare<E: Fn(Call) -> Reply>(engine: &E, path: &[u8]) -> (res: Result<
        Repository,
        Error,
    >)
        requires
            serves(engine, Op::RepositoryInit),
            c_safe(path@),
        ensures
            exists|reply: Reply| #[trigger]
                performed(
                    engine,
                    CallView::new(Op::RepositoryInit).text(path@).flag(true),
                    reply,
                ) && opened(reply, res),
    {
        Self::init_(engine, path, true)
    }

    /// Clones the repository at `url` into the directory `into`.
    pub fn clone<E: Fn(Call) -> Reply>(engine: &E, url: &str, into: &[u8]) -> (res: Result<
        Repository,
        Error,
    >)
        requires
            serves(engine, Op::RepositoryClone),
            c_safe(url.spec_bytes()),
            c_safe(into@),
        ensures
            exists|reply: Reply| #[trigger]
                performed(
                    engine,
                    CallView::new(Op::RepositoryClone).text(url.spec_bytes()).text(into@),
                    reply,
                ) && opened(reply, res),
    {
        Self::make(ask(engine, Call::new(Op::RepositoryClone).text(url.as_bytes()).text(into)))
    }

    /// Gives the repository back to the engine. The handle is gone
    /// afterwards, so this happens once.
    pub fn free<E: Fn(Call) -> Reply>(self, engine: &E)
        requires
            serves(engine, Op::RepositoryFree),
        ensures
            exists|reply: Reply| #[trigger]
                performed(engine, CallView::new(Op::RepositoryFree).handle(self@), reply),
    {
        let _ = ask(engine, Call::new(Op::RepositoryFree).handle(self.raw()));
    }

    /// Resolves a revision expression that names exactly one object.
    pub fn revparse_single<'a, E: Fn(Call) -> Reply>(&'a self, engine: &E, spec: &str) -> (res:
        Result<Object<'a>, Error>)
        requires
            serves(engine, Op::RevparseSingle),
            c_safe(spec.spec_bytes()),
        ensures
            exists|reply: Reply| #[trigger]
                performed(
                    engine,
                    CallView::new(Op::RevparseSingle).handle(self@).text(spec.spec_bytes()),
                    reply,
                ) && bound(self@, reply, res),
    {
        let call = Call::new(Op::RevparseSingle).handle(self.raw()).text(spec.as_bytes());
        bind(self, ask(engine, call))
    }

    /// Whether the repository has no working tree.
    pub fn is_bare<E: Fn(Call) -> Reply>(&self, engine: &E) -> (b: bool)
        requires
            serves(engine, Op::RepositoryIsBare),
        ensures
            exists|reply: Reply| #[trigger]
                performed(engine, CallView::new(Op::RepositoryIsBare).handle(self@), reply) && b
                    == (reply.code == 1),
    {
        ask(engine, Call::new(Op::RepositoryIsBare).handle(self.raw())).code == 1
    }

    /// Whether the repository is a shallow clone.
    pub fn is_shallow<E: Fn(Call) -> Reply>(&self, engine: &E) -> (b: bool)
        requires
            serves(engine, Op::RepositoryIsShallow),
        ensures
            exists|reply: Reply| #[trigger]
                performed(engine, CallView::new(Op::RepositoryIsShallow).handle(self@), reply)
                    && b == (reply.code == 1),
    {
        ask(engine, Call::new(Op::RepositoryIsShallow).handle(self.raw())).code == 1
    }

    /// Whether the repository has no commits yet.
    pub fn is_empty<E: Fn(Call) -> Reply>(&self, engine: &E) -> (res: Result<bool, Error>)
        requires
            serves(engine, Op::RepositoryIsEmpty),
        ensures
            exists|reply: Reply| #[trigger]
                performed(engine, CallView::new(Op::RepositoryIsEmpty).handle(self@), reply)
                    && match res {
                    Ok(b) => reply.truth_spec() == Ok::<bool, ErrorView>(b),
                    Err(e) => reply.truth_spec() == Err::<bool, ErrorView>(e@),
                },
    {
        ask(engine, Call::new(Op::RepositoryIsEmpty).handle(self.raw())).truth()
    }

    /// The path of the control directory: the `.git` directory of a
    /// repository with a working tree, the repository itself when it is
    /// bare.
    pub fn path<E: Fn(Call) -> Reply>(&self, engine: &E) -> (p: Vec<u8>)
        requires
            serves(engine, Op::RepositoryPath),
        ensures
            exists|reply: Reply| #[trigger]
                performed(engine, CallView::new(Op::RepositoryPath).handle(self@), reply)
                    && reply.text_spec() == Some(p@),
    {
        let reply = ask(engine, Call::new(Op::RepositoryPath).handle(self.raw()));
        match reply.text() {
            Some(bytes) => bytes,
            None => unreached(),
        }
    }

    /// The path of the working tree, or nothing when the repository is
    /// bare.
    pub fn workdir<E: Fn(Call) -> Reply>(&self, engine: &E) -> (p: Option<Vec<u8>>)
        requires
            serves(engine, Op::RepositoryWorkdir),
        ensures
            exists|reply: Reply| #[trigger]
                performed(engine, CallView::new(Op::RepositoryWorkdir).handle(self@), reply)
                    && match p {
                    Some(bytes) => reply.text_spec() == Some(bytes@),
                    None => reply.text_spec() is None,
                },
    {
        ask(engine, Call::new(Op::RepositoryWorkdir).handle(self.raw())).text()
    }

    /// The active namespace as raw bytes, or nothing when there is none.
    pub fn namespace_bytes<E: Fn(Call) -> Reply>(&self, engine: &E) -> (ns: Option<Vec<u8>>)
        requires
            serves(engine, Op::RepositoryNamespace),
        ensures
            exists|reply: Reply| #[trigger]
                performed(engine, CallView::new(Op::RepositoryNamespace).handle(self@), reply)
                    && match ns {
                    Some(bytes) => reply.text_spec() == Some(bytes@),
                    None => reply.text_spec() is None,
                },
    {
        ask(engine, Call::new(Op::RepositoryNamespace).handle(self.raw())).text()
    }

    /// The active namespace as text, or nothing when there is none or when
    /// its bytes are not well-formed UTF-8.
    pub fn namespace<E: Fn(Call) -> Reply>(&self, engine: &E) -> (ns: Option<String>)
        requires
            serves(engine, Op::RepositoryNamespace),
        ensures
            exists|reply: Reply| #[trigger]
                performed(engine, CallView::new(Op::RepositoryNamespace).handle(self@), reply)
                    && match ns {
                    Some(text) => reply.text_spec() matches Some(bytes) && valid_utf8(bytes)
                        && text@ == decode_utf8(bytes),
                    None => reply.text_spec() matches Some(bytes) ==> !valid_utf8(bytes),
                },
    {
        match self.namespace_bytes(engine) {
            Some(bytes) => decode_text(bytes),
            None => None,
        }
    }

    /// The names of the remotes that the repository is configured with.
    pub fn remotes<E: Fn(Call) -> Reply>(&self, engine: &E) -> (res: Result<StringArray, Error>)
        requires
            serves(engine, Op::RemoteList),
        ensures
            exists|reply: Reply| #[trigger]
                performed(engine, CallView::new(Op::RemoteList).handle(self@), reply)
                    && match res {
                    Ok(names) => reply.texts_spec() == Ok::<Seq<Seq<u8>>, ErrorView>(names@),
                    Err(e) => reply.texts_spec() == Err::<Seq<Seq<u8>>, ErrorView>(e@),
                },
    {
        match ask(engine, Call::new(Op::RemoteList).handle(self.raw())).texts() {
            Ok(list) => Ok(StringArray::new(list)),
            Err(e) => Err(e),
        }
    }
}

impl Repository {
    /// Looks up the remote named `name`.
    pub fn find_remote<'a, E: Fn(Call) -> Reply>(
        &'a self,
        engine: &E,
        name: &str,
    ) -> (res: Result<Remote<'a>, Error>)
        requires
            serves(engine, Op::RemoteLoad),
            c_safe(name.spec_bytes()),
        ensures
            exists|reply: Reply| #[trigger]
                performed(
                    engine,
                    CallView::new(Op::RemoteLoad).handle(self@).text(name.spec_bytes()),
                    reply,
                ) && bound(self@, reply, res),
    {
        let call = Call::new(Op::RemoteLoad).handle(self.raw()).text(name.as_bytes());
        bind(self, ask(engine, call))
    }

    /// Adds a remote named `name` at `url`, with the default fetch rule, to the
    /// configuration of the repository.
    pub fn remote<'a, E: Fn(Call) -> Reply>(
        &'a self,
        engine: &E,
        name: &str,
        url: &str,
    ) -> (res: Result<Remote<'a>, Error>)
        requires
            serves(engine, Op::RemoteCreate),
            c_safe(name.spec_bytes()),
            c_safe(url.spec_bytes()),
        ensures
            exists|reply: Reply| #[trigger]
                performed(
                    engine,
                    CallView::new(Op::RemoteCreate).handle(self@).text(name.spec_bytes()).text(url.spec_bytes()),
                    reply,
                ) && bound(self@, reply, res),
    {
        let call = Call::new(Op::RemoteCreate).handle(self.raw()).text(name.as_bytes()).text(url.as_bytes());
        bind(self, ask(engine, call))
    }

    /// Makes a remote at `url` with the fetch rule `fetch` that lives in memory
    /// only. Such a remote has no name and cannot be saved.
    pub fn remote_anonymous<'a, E: Fn(Call) -> Reply>(
        &'a self,
        engine: &E,
        url: &str,
        fetch: &str,
    ) -> (res: Result<Remote<'a>, Error>)
        requires
            serves(engine, Op::RemoteCreateAnonymous),
            c_safe(url.spec_bytes()),
            c_safe(fetch.spec_bytes()),
        ensures
            exists|reply: Reply| #[trigger]
                performed(
                    engine,
                    CallView::new(Op::RemoteCreateAnonymous).handle(self@).text(url.spec_bytes()).text(fetch.spec_bytes()),
                    reply,
                ) && bound(self@, reply, res),
    {
        let call = Call::new(Op::RemoteCreateAnonymous).handle(self.raw()).text(url.as_bytes()).text(fetch.as_bytes());
        bind(self, ask(engine, call))
    }

    /// Moves the head to `target` and, by `kind`, brings the index and the
    /// working tree along.
    ///
    /// A soft reset moves the head only. A mixed reset also replaces the index
    /// by the tree of the target. A hard reset also replaces the working tree by
    /// the index; files that are untracked or ignored stay. The signature and
    /// the message, where given, go into the log of the head.
    pub fn reset<'a, E: Fn(Call) -> Reply>(
        &'a self,
        engine: &E,
        target: &Object<'a>,
        kind: ResetType,
        sig: Option<&Signature>,
        msg: Option<&str>,
    ) -> (res: Result<(), Error>)
        requires
            serves(engine, Op::Reset),
            msg matches Some(m) ==> c_safe(m.spec_bytes()),
        ensures
            exists|reply: Reply| #[trigger]
                performed(
                    engine,
                    CallView::new(Op::Reset).handle(self@).handle(target.ptr()).number(
                        kind.raw_spec(),
                    ).opt_handle(opt_signature(sig)).opt_text(opt_bytes(msg)),
                    reply,
                ) && done(reply, res),
    {
        let call = Call::new(Op::Reset).handle(self.raw()).handle(target.raw()).number(
            kind.raw(),
        ).opt_handle(raw_of_signature(sig)).opt_text(bytes_of_text(msg));
        ask(engine, call).status()
    }

    /// Resolves the head to the reference that it points at in the end.
    ///
    /// The engine reports a failure when the head points at a branch without
    /// commits or cannot be read.
    pub fn head<'a, E: Fn(Call) -> Reply>(
        &'a self,
        engine: &E,
    ) -> (res: Result<Reference<'a>, Error>)
        requires
            serves(engine, Op::RepositoryHead),
        ensures
            exists|reply: Reply| #[trigger]
                performed(
                    engine,
                    CallView::new(Op::RepositoryHead).handle(self@),
                    reply,
                ) && bound(self@, reply, res),
    {
        let call = Call::new(Op::RepositoryHead).handle(self.raw());
        bind(self, ask(engine, call))
    }

    /// Starts a walk over all references of the repository.
    pub fn references<'a, E: Fn(Call) -> Reply>(
        &'a self,
        engine: &E,
    ) -> (res: Result<References<'a>, Error>)
        requires
            serves(engine, Op::ReferenceIteratorNew),
        ensures
            exists|reply: Reply| #[trigger]
                performed(
                    engine,
                    CallView::new(Op::ReferenceIteratorNew).handle(self@),
                    reply,
                ) && bound(self@, reply, res),
    {
        let call = Call::new(Op::ReferenceIteratorNew).handle(self.raw());
        bind(self, ask(engine, call))
    }

    /// Starts a walk over the references whose names match `glob`. The engine
    /// does the matching.
    pub fn references_glob<'a, E: Fn(Call) -> Reply>(
        &'a self,
        engine: &E,
        glob: &str,
    ) -> (res: Result<References<'a>, Error>)
        requires
            serves(engine, Op::ReferenceIteratorGlobNew),
            c_safe(glob.spec_bytes()),
        ensures
            exists|reply: Reply| #[trigger]
                performed(
                    engine,
                    CallView::new(Op::ReferenceIteratorGlobNew).handle(self@).text(glob.spec_bytes()),
                    reply,
                ) && bound(self@, reply, res),
    {
        let call = Call::new(Op::ReferenceIteratorGlobNew).handle(self.raw()).text(glob.as_bytes());
        bind(self, ask(engine, call))
    }

    /// Starts a walk over the branches that `filter` lets through: local ones,
    /// remote ones, or both when there is no filter.
    pub fn branches<'a, E: Fn(Call) -> Reply>(
        &'a self,
        engine: &E,
        filter: Option<BranchType>,
    ) -> (res: Result<Branches<'a>, Error>)
        requires
            serves(engine, Op::BranchIteratorNew),
        ensures
            exists|reply: Reply| #[trigger]
                performed(
                    engine,
                    CallView::new(Op::BranchIteratorNew).handle(self@).number(
                        BranchType::filter_spec(filter),
                    ),
                    reply,
                ) && bound(self@, reply, res),
    {
        let call = Call::new(Op::BranchIteratorNew).handle(self.raw()).number(BranchType::filter(filter));
        bind(self, ask(engine, call))
    }

    /// The index of the repository.
    pub fn index<'a, E: Fn(Call) -> Reply>(
        &'a self,
        engine: &E,
    ) -> (res: Result<Index, Error>)
        requires
            serves(engine, Op::RepositoryIndex),
        ensures
            exists|reply: Reply| #[trigger]
                performed(
                    engine,
                    CallView::new(Op::RepositoryIndex).handle(self@),
                    reply,
                ) && wrapped(reply, res),
    {
        let call = Call::new(Op::RepositoryIndex).handle(self.raw());
        wrap(ask(engine, call))
    }

    /// The configuration of the repository, with the global and system files
    /// behind it where they exist.
    pub fn config<'a, E: Fn(Call) -> Reply>(
        &'a self,
        engine: &E,
    ) -> (res: Result<Config, Error>)
        requires
            serves(engine, Op::RepositoryConfig),
        ensures
            exists|reply: Reply| #[trigger]
                performed(
                    engine,
                    CallView::new(Op::RepositoryConfig).handle(self@),
                    reply,
                ) && wrapped(reply, res),
    {
        let call = Call::new(Op::RepositoryConfig).handle(self.raw());
        wrap(ask(engine, call))
    }

    /// Writes `data` to the store as a blob and gives its content hash.
    pub fn blob<'a, E: Fn(Call) -> Reply>(
        &'a self,
        engine: &E,
        data: &[u8],
    ) -> (res: Result<Oid, Error>)
        requires
            serves(engine, Op::BlobCreateFromBuffer),
        ensures
            exists|reply: Reply| #[trigger]
                performed(
                    engine,
                    CallView::new(Op::BlobCreateFromBuffer).handle(self@).data(data@).size(
                        data@.len() as usize,
                    ),
                    reply,
                ) && named(reply, res),
    {
        let call = Call::new(Op::BlobCreateFromBuffer).handle(self.raw()).data(data).size(data.len());
        ask(engine, call).id()
    }

    /// Writes the content of the file at `path` to the store as a blob and gives
    /// its content hash.
    pub fn blob_path<'a, E: Fn(Call) -> Reply>(
        &'a self,
        engine: &E,
        path: &[u8],
    ) -> (res: Result<Oid, Error>)
        requires
            serves(engine, Op::BlobCreateFromDisk),
            c_safe(path@),
        ensures
            exists|reply: Reply| #[trigger]
                performed(
                    engine,
                    CallView::new(Op::BlobCreateFromDisk).handle(self@).text(path@),
                    reply,
                ) && named(reply, res),
    {
        let call = Call::new(Op::BlobCreateFromDisk).handle(self.raw()).text(path);
        ask(engine, call).id()
    }

    /// Looks up the blob with content hash `oid`.
    pub fn find_blob<'a, E: Fn(Call) -> Reply>(
        &'a self,
        engine: &E,
        oid: Oid,
    ) -> (res: Result<Blob<'a>, Error>)
        requires
            serves(engine, Op::BlobLookup),
        ensures
            exists|reply: Reply| #[trigger]
                performed(
                    engine,
                    CallView::new(Op::BlobLookup).handle(self@).id(oid@),
                    reply,
                ) && bound(self@, reply, res),
    {
        let call = Call::new(Op::BlobLookup).handle(self.raw()).id(oid);
        bind(self, ask(engine, call))
    }

    /// Looks up the branch named `name` among the branches of kind
    /// `branch_type`.
    pub fn find_branch<'a, E: Fn(Call) -> Reply>(
        &'a self,
        engine: &E,
        name: &str,
        branch_type: BranchType,
    ) -> (res: Result<Branch<'a>, Error>)
        requires
            serves(engine, Op::BranchLookup),
            c_safe(name.spec_bytes()),
        ensures
            exists|reply: Reply| #[trigger]
                performed(
                    engine,
                    CallView::new(Op::BranchLookup).handle(self@).text(name.spec_bytes()).number(
                        branch_type.raw_spec(),
                    ),
                    reply,
                ) && bound(self@, reply, res),
    {
        let call = Call::new(Op::BranchLookup).handle(self.raw()).text(name.as_bytes()).number(branch_type.raw());
        bind(self, ask(engine, call))
    }

    /// Looks up the commit with content hash `oid`.
    pub fn find_commit<'a, E: Fn(Call) -> Reply>(
        &'a self,
        engine: &E,
        oid: Oid,
    ) -> (res: Result<Commit<'a>, Error>)
        requires
            serves(engine, Op::CommitLookup),
        ensures
            exists|reply: Reply| #[trigger]
                performed(
                    engine,
                    CallView::new(Op::CommitLookup).handle(self@).id(oid@),
                    reply,
                ) && bound(self@, reply, res),
    {
        let call = Call::new(Op::CommitLookup).handle(self.raw()).id(oid);
        bind(self, ask(engine, call))
    }

    /// Looks up the object with content hash `oid`. With `kind` the engine finds
    /// it only if it is of that kind.
    pub fn find_object<'a, E: Fn(Call) -> Reply>(
        &'a self,
        engine: &E,
        oid: Oid,
        kind: Option<ObjectKind>,
    ) -> (res: Result<Object<'a>, Error>)
        requires
            serves(engine, Op::ObjectLookup),
        ensures
            exists|reply: Reply| #[trigger]
                performed(
                    engine,
                    CallView::new(Op::ObjectLookup).handle(self@).id(oid@).number(
                        ObjectKind::expected_spec(kind),
                    ),
                    reply,
                ) && bound(self@, reply, res),
    {
        let call = Call::new(Op::ObjectLookup).handle(self.raw()).id(oid).number(ObjectKind::expected(kind));
        bind(self, ask(engine, call))
    }

    /// Looks up the reference with the exact name `name`.
    pub fn find_reference<'a, E: Fn(Call) -> Reply>(
        &'a self,
        engine: &E,
        name: &str,
    ) -> (res: Result<Reference<'a>, Error>)
        requires
            serves(engine, Op::ReferenceLookup),
            c_safe(name.spec_bytes()),
        ensures
            exists|reply: Reply| #[trigger]
                performed(
                    engine,
                    CallView::new(Op::ReferenceLookup).handle(self@).text(name.spec_bytes()),
                    reply,
                ) && bound(self@, reply, res),
    {
        let call = Call::new(Op::ReferenceLookup).handle(self.raw()).text(name.as_bytes());
        bind(self, ask(engine, call))
    }

    /// Resolves the reference named `name` straight to the content hash that it
    /// points at in the end, without making a handle on the way.
    pub fn refname_to_id<'a, E: Fn(Call) -> Reply>(
        &'a self,
        engine: &E,
        name: &str,
    ) -> (res: Result<Oid, Error>)
        requires
            serves(engine, Op::ReferenceNameToId),
            c_safe(name.spec_bytes()),
        ensures
            exists|reply: Reply| #[trigger]
                performed(
                    engine,
                    CallView::new(Op::ReferenceNameToId).handle(self@).text(name.spec_bytes()),
                    reply,
                ) && named(reply, res),
    {
        let call = Call::new(Op::ReferenceNameToId).handle(self.raw()).text(name.as_bytes());
        ask(engine, call).id()
    }

    /// Makes a signature from the configured name and address and the current
    /// time. The engine reports a failure when either is not configured.
    pub fn signature<'a, E: Fn(Call) -> Reply>(
        &'a self,
        engine: &E,
    ) -> (res: Result<Signature, Error>)
        requires
            serves(engine, Op::SignatureDefault),
        ensures
            exists|reply: Reply| #[trigger]
                performed(
                    engine,
                    CallView::new(Op::SignatureDefault).handle(self@),
                    reply,
                ) && wrapped(reply, res),
    {
        let call = Call::new(Op::SignatureDefault).handle(self.raw());
        wrap(ask(engine, call))
    }

    /// Sets up a new submodule at `path` for the repository at `url`.
    ///
    /// This records the submodule in the configuration and prepares an empty
    /// repository for it. Fetching, checking out and finishing are further steps
    /// of the caller.
    pub fn submodule<'a, E: Fn(Call) -> Reply>(
        &'a self,
        engine: &E,
        url: &str,
        path: &[u8],
        use_gitlink: bool,
    ) -> (res: Result<Submodule<'a>, Error>)
        requires
            serves(engine, Op::SubmoduleAddSetup),
            c_safe(url.spec_bytes()),
            c_safe(path@),
        ensures
            exists|reply: Reply| #[trigger]
                performed(
                    engine,
                    CallView::new(Op::SubmoduleAddSetup).handle(self@).text(url.spec_bytes()).text(path@).flag(
                        use_gitlink,
                    ),
                    reply,
                ) && bound(self@, reply, res),
    {
        let call = Call::new(Op::SubmoduleAddSetup).handle(self.raw()).text(url.as_bytes()).text(path).flag(use_gitlink);
        bind(self, ask(engine, call))
    }

    /// Looks up the submodule with the name or path `name`.
    pub fn find_submodule<'a, E: Fn(Call) -> Reply>(
        &'a self,
        engine: &E,
        name: &str,
    ) -> (res: Result<Submodule<'a>, Error>)
        requires
            serves(engine, Op::SubmoduleLookup),
            c_safe(name.spec_bytes()),
        ensures
            exists|reply: Reply| #[trigger]
                performed(
                    engine,
                    CallView::new(Op::SubmoduleLookup).handle(self@).text(name.spec_bytes()),
                    reply,
                ) && bound(self@, reply, res),
    {
        let call = Call::new(Op::SubmoduleLookup).handle(self.raw()).text(name.as_bytes());
        bind(self, ask(engine, call))
    }

    /// Looks up the tree with content hash `oid`.
    pub fn find_tree<'a, E: Fn(Call) -> Reply>(
        &'a self,
        engine: &E,
        oid: Oid,
    ) -> (res: Result<Tree<'a>, Error>)
        requires
            serves(engine, Op::TreeLookup),
        ensures
            exists|reply: Reply| #[trigger]
                performed(
                    engine,
                    CallView::new(Op::TreeLookup).handle(self@).id(oid@),
                    reply,
                ) && bound(self@, reply, res),
    {
        let call = Call::new(Op::TreeLookup).handle(self.raw()).id(oid);
        bind(self, ask(engine, call))
    }
}

} // verus!
