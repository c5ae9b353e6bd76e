//! Handles: values that own one resource of the engine.
//!
//! A handle holds the address of its resource and nothing else. The address
//! is never null: a handle is only ever made from an address that a
//! successful engine call gave. A handle that the engine made within a
//! repository borrows that repository, so that it cannot be used once the
//! repository is gone.

use vstd::prelude::*;
use crate::call::{views_of, Call, CallView, Op};
use crate::oid::Oid;
use crate::error::{Error, ErrorView};
use crate::ptr::Ptr;
use crate::reply::{all_found, ask, performed, serves, Found, Reply, Shape};
use crate::repository::Repository;

verus! {

/// An address that is not null.
#[derive(Debug, PartialEq, Eq)]
pub struct NonNull {
    ptr: Ptr,
}

impl View for NonNull {
    type V = Ptr;

    closed spec fn view(&self) -> Ptr {
        self.ptr
    }
}

impl NonNull {
    #[verifier::type_invariant]
    spec fn not_null(self) -> bool {
        self.ptr.addr != 0
    }

    /// Keeps the address `ptr`.
    pub fn new(ptr: Ptr) -> (n: NonNull)
        requires
            ptr.addr != 0,
        ensures
            n@ == ptr,
    {
        NonNull { ptr }
    }

    /// The address, which is not null.
    pub fn get(&self) -> (p: Ptr)
        ensures
            p == self@,
            p.addr != 0,
    {
        proof {
            use_type_invariant(self);
        }
        self.ptr
    }
}

/// A handle that stands on its own.
pub trait Handle: Sized {
    /// The address of the resource.
    spec fn ptr(&self) -> Ptr;

    /// Takes over the resource at `raw`.
    fn from_raw(raw: Ptr) -> (h: Self)
        requires
            raw.addr != 0,
        ensures
            h.ptr() == raw,
    ;

    /// The address of the resource, which is not null.
    fn raw(&self) -> (p: Ptr)
        ensures
            p == self.ptr(),
            p.addr != 0,
    ;
}

/// A handle to something inside a repository. It borrows the repository for
/// as long as it lives.
pub trait Child<'a>: Sized {
    /// The address of the resource.
    spec fn ptr(&self) -> Ptr;

    /// The address of the repository that this handle belongs to.
    spec fn owner(&self) -> Ptr;

    /// Takes over the resource at `raw`, which lives in `repo`.
    fn from_raw(repo: &'a Repository, raw: Ptr) -> (h: Self)
        requires
            raw.addr != 0,
        ensures
            h.ptr() == raw,
            h.owner() == repo@,
    ;

    /// The address of the resource, which is not null.
    fn raw(&self) -> (p: Ptr)
        ensures
            p == self.ptr(),
            p.addr != 0,
    ;
}

/// `res` is what an answer of handle form leads to: a handle to the address
/// that the engine gave, or the error that it reported.
pub open spec fn wrapped<T: Handle>(reply: Reply, res: Result<T, Error>) -> bool {
    match res {
        Ok(h) => reply.handle_spec() == Ok::<Ptr, ErrorView>(h.ptr()),
        Err(e) => reply.handle_spec() == Err::<Ptr, ErrorView>(e@),
    }
}

/// Reads an answer of handle form into a handle of its own.
pub fn wrap<T: Handle>(reply: Reply) -> (res: Result<T, Error>)
    requires
        reply.has_shape(Shape::Handle),
    ensures
        wrapped(reply, res),
{
    match reply.handle() {
        Ok(p) => Ok(T::from_raw(p)),
        Err(e) => Err(e),
    }
}

/// `res` is what an answer of handle form leads to within the repository at
/// `repo`: a handle to the address that the engine gave, bound to that
/// repository, or the error that it reported.
pub open spec fn bound<'a, T: Child<'a>>(repo: Ptr, reply: Reply, res: Result<T, Error>) -> bool {
    match res {
        Ok(h) => reply.handle_spec() == Ok::<Ptr, ErrorView>(h.ptr()) && h.owner() == repo,
        Err(e) => reply.handle_spec() == Err::<Ptr, ErrorView>(e@),
    }
}

/// Reads an answer of handle form into a handle bound to `repo`.
pub fn bind<'a, T: Child<'a>>(repo: &'a Repository, reply: Reply) -> (res: Result<T, Error>)
    requires
        reply.has_shape(Shape::Handle),
    ensures
        bound(repo@, reply, res),
{
    match reply.handle() {
        Ok(p) => Ok(T::from_raw(repo, p)),
        Err(e) => Err(e),
    }
}

/// Makes one handle bound to `repo` for each lookup of `found`, in the same
/// order.
pub fn bind_all<'a, T: Child<'a>>(repo: &'a Repository, found: &Vec<Found>) -> (out: Vec<T>)
    requires
        all_found(found@),
    ensures
        out@.len() == found@.len(),
        forall|i: int|
            0 <= i < out@.len() ==> (#[trigger] out@[i]).ptr() == found@[i].handle && out@[i].owner()
                == repo@,
{
    let mut out: Vec<T> = Vec::with_capacity(found.len());
    let mut i: usize = 0;
    while i < found.len()
        invariant
            i <= found.len(),
            all_found(found@),
            out@.len() == i,
            forall|j: int|
                0 <= j < i ==> (#[trigger] out@[j]).ptr() == found@[j].handle && out@[j].owner()
                    == repo@,
        decreases found.len() - i,
    {
        let entry = found[i];
        assert(found@[i as int].handle.addr != 0);
        out.push(T::from_raw(repo, entry.handle));
        i += 1;
    }
    out
}

/// Any object of the store.
#[derive(Debug)]
pub struct Object<'a> {
    raw: NonNull,
    repo: &'a Repository,
}

impl<'a> Child<'a> for Object<'a> {
    closed spec fn ptr(&self) -> Ptr {
        self.raw@
    }

    closed spec fn owner(&self) -> Ptr {
        self.repo@
    }

    fn from_raw(repo: &'a Repository, raw: Ptr) -> (h: Self) {
        Object { raw: NonNull::new(raw), repo }
    }

    fn raw(&self) -> (p: Ptr) {
        self.raw.get()
    }
}

impl<'a> Object<'a> {
    /// The content hash of the object.
    pub fn id<E: Fn(Call) -> Reply>(&self, engine: &E) -> (id: Oid)
        requires
            serves(engine, Op::ObjectId),
        ensures
            exists|reply: Reply| #[trigger]
                performed(engine, CallView::new(Op::ObjectId).handle(self.ptr()), reply)
                    && reply.out is Id && reply.out->Id_0@ == id@,
    {
        ask(engine, Call::new(Op::ObjectId).handle(self.raw())).plain_id()
    }
}

/// A named pointer to an object or to another reference.
#[derive(Debug)]
pub struct Reference<'a> {
    raw: NonNull,
    repo: &'a Repository,
}

impl<'a> Child<'a> for Reference<'a> {
    closed spec fn ptr(&self) -> Ptr {
        self.raw@
    }

    closed spec fn owner(&self) -> Ptr {
        self.repo@
    }

    fn from_raw(repo: &'a Repository, raw: Ptr) -> (h: Self) {
        Reference { raw: NonNull::new(raw), repo }
    }

    fn raw(&self) -> (p: Ptr) {
        self.raw.get()
    }
}

/// A walk over the references of a repository. It runs forward once; a second
/// walk needs a fresh one from the repository.
#[derive(Debug)]
pub struct References<'a> {
    raw: NonNull,
    repo: &'a Repository,
}

impl<'a> Child<'a> for References<'a> {
    closed spec fn ptr(&self) -> Ptr {
        self.raw@
    }

    closed spec fn owner(&self) -> Ptr {
        self.repo@
    }

    fn from_raw(repo: &'a Repository, raw: Ptr) -> (h: Self) {
        References { raw: NonNull::new(raw), repo }
    }

    fn raw(&self) -> (p: Ptr) {
        self.raw.get()
    }
}

/// A walk over the branches of a repository. It runs forward once; a second
/// walk needs a fresh one from the repository.
#[derive(Debug)]
pub struct Branches<'a> {
    raw: NonNull,
    repo: &'a Repository,
}

impl<'a> Child<'a> for Branches<'a> {
    closed spec fn ptr(&self) -> Ptr {
        self.raw@
    }

    closed spec fn owner(&self) -> Ptr {
        self.repo@
    }

    fn from_raw(repo: &'a Repository, raw: Ptr) -> (h: Self) {
        Branches { raw: NonNull::new(raw), repo }
    }

    fn raw(&self) -> (p: Ptr) {
        self.raw.get()
    }
}

/// A remote repository that this one knows by name or by address.
#[derive(Debug)]
pub struct Remote<'a> {
    raw: NonNull,
    repo: &'a Repository,
}

impl<'a> Child<'a> for Remote<'a> {
    closed spec fn ptr(&self) -> Ptr {
        self.raw@
    }

    closed spec fn owner(&self) -> Ptr {
        self.repo@
    }

    fn from_raw(repo: &'a Repository, raw: Ptr) -> (h: Self) {
        Remote { raw: NonNull::new(raw), repo }
    }

    fn raw(&self) -> (p: Ptr) {
        self.raw.get()
    }
}

/// A repository nested in the working tree of this one.
#[derive(Debug)]
pub struct Submodule<'a> {
    raw: NonNull,
    repo: &'a Repository,
}

impl<'a> Child<'a> for Submodule<'a> {
    closed spec fn ptr(&self) -> Ptr {
        self.raw@
    }

    closed spec fn owner(&self) -> Ptr {
        self.repo@
    }

    fn from_raw(repo: &'a Repository, raw: Ptr) -> (h: Self) {
        Submodule { raw: NonNull::new(raw), repo }
    }

    fn raw(&self) -> (p: Ptr) {
        self.raw.get()
    }
}

/// The content of a file.
#[derive(Debug)]
pub struct Blob<'a> {
    raw: NonNull,
    repo: &'a Repository,
}

impl<'a> Child<'a> for Blob<'a> {
    closed spec fn ptr(&self) -> Ptr {
        self.raw@
    }

    closed spec fn owner(&self) -> Ptr {
        self.repo@
    }

    fn from_raw(repo: &'a Repository, raw: Ptr) -> (h: Self) {
        Blob { raw: NonNull::new(raw), repo }
    }

    fn raw(&self) -> (p: Ptr) {
        self.raw.get()
    }
}

/// A commit.
#[derive(Debug)]
pub struct Commit<'a> {
    raw: NonNull,
    repo: &'a Repository,
}

impl<'a> Child<'a> for Commit<'a> {
    closed spec fn ptr(&self) -> Ptr {
        self.raw@
    }

    closed spec fn owner(&self) -> Ptr {
        self.repo@
    }

    fn from_raw(repo: &'a Repository, raw: Ptr) -> (h: Self) {
        Commit { raw: NonNull::new(raw), repo }
    }

    fn raw(&self) -> (p: Ptr) {
        self.raw.get()
    }
}

/// A directory listing.
#[derive(Debug)]
pub struct Tree<'a> {
    raw: NonNull,
    repo: &'a Repository,
}

impl<'a> Child<'a> for Tree<'a> {
    closed spec fn ptr(&self) -> Ptr {
        self.raw@
    }

    closed spec fn owner(&self) -> Ptr {
        self.repo@
    }

    fn from_raw(repo: &'a Repository, raw: Ptr) -> (h: Self) {
        Tree { raw: NonNull::new(raw), repo }
    }

    fn raw(&self) -> (p: Ptr) {
        self.raw.get()
    }
}

/// The staging area of a repository.
#[derive(Debug)]
pub struct Index {
    raw: NonNull,
}

impl Handle for Index {
    closed spec fn ptr(&self) -> Ptr {
        self.raw@
    }

    fn from_raw(raw: Ptr) -> (h: Self) {
        Index { raw: NonNull::new(raw) }
    }

    fn raw(&self) -> (p: Ptr) {
        self.raw.get()
    }
}

/// A stack of configuration files.
#[derive(Debug)]
pub struct Config {
    raw: NonNull,
}

impl Handle for Config {
    closed spec fn ptr(&self) -> Ptr {
        self.raw@
    }

    fn from_raw(raw: Ptr) -> (h: Self) {
        Config { raw: NonNull::new(raw) }
    }

    fn raw(&self) -> (p: Ptr) {
        self.raw.get()
    }
}

/// A name, an address and a time, as recorded with an action. It stands on its
/// own once made.
#[derive(Debug)]
pub struct Signature {
    raw: NonNull,
}

impl Handle for Signature {
    closed spec fn ptr(&self) -> Ptr {
        self.raw@
    }

    fn from_raw(raw: Ptr) -> (h: Self) {
        Signature { raw: NonNull::new(raw) }
    }

    fn raw(&self) -> (p: Ptr) {
        self.raw.get()
    }
}

/// A reference that is a branch. It wraps the reference: the two share one
/// resource.
#[derive(Debug)]
pub struct Branch<'a> {
    inner: Reference<'a>,
}

impl<'a> Branch<'a> {
    /// Takes `reference` as a branch.
    pub fn wrap(reference: Reference<'a>) -> (b: Branch<'a>)
        ensures
            b.ptr() == reference.ptr(),
            b.owner() == reference.owner(),
    {
        Branch { inner: reference }
    }

    /// The reference behind this branch.
    pub fn get(&self) -> (r: &Reference<'a>)
        ensures
            r.ptr() == self.ptr(),
            r.owner() == self.owner(),
    {
        &self.inner
    }

    /// Gives the reference back.
    pub fn into_reference(self) -> (r: Reference<'a>)
        ensures
            r.ptr() == self.ptr(),
            r.owner() == self.owner(),
    {
        self.inner
    }
}

impl<'a> Child<'a> for Branch<'a> {
    closed spec fn ptr(&self) -> Ptr {
        self.inner.ptr()
    }

    closed spec fn owner(&self) -> Ptr {
        self.inner.owner()
    }

    fn from_raw(repo: &'a Repository, raw: Ptr) -> (h: Self) {
        Branch { inner: Reference::from_raw(repo, raw) }
    }

    fn raw(&self) -> (p: Ptr) {
        self.inner.raw()
    }
}

/// What a revision expression resolved to: one object, or the two ends of a
/// range.
#[derive(Debug)]
pub struct Revspec<'a> {
    from: Option<Object<'a>>,
    to: Option<Object<'a>>,
}

impl<'a> Revspec<'a> {
    /// The address of the first end, if there is one.
    pub closed spec fn from_ptr(&self) -> Option<Ptr> {
        match self.from {
            Some(o) => Some(o.ptr()),
            None => None,
        }
    }

    /// The address of the second end, if there is one.
    pub closed spec fn to_ptr(&self) -> Option<Ptr> {
        match self.to {
            Some(o) => Some(o.ptr()),
            None => None,
        }
    }

    /// Both ends, where there are any, belong to the repository at `repo`.
    pub closed spec fn owned_by(&self, repo: Ptr) -> bool {
        &&& self.from matches Some(o) ==> o.owner() == repo
        &&& self.to matches Some(o) ==> o.owner() == repo
    }

    /// Puts the two ends together.
    pub fn from_objects(from: Option<Object<'a>>, to: Option<Object<'a>>) -> (r: Revspec<'a>)
        ensures
            r.from_ptr() == match from {
                Some(o) => Some(o.ptr()),
                None => None,
            },
            r.to_ptr() == match to {
                Some(o) => Some(o.ptr()),
                None => None,
            },
    {
        Revspec { from, to }
    }

    /// Reads an answer of range form into the objects that it names, bound to
    /// `repo`.
    pub fn resolve(repo: &'a Repository, reply: Reply) -> (res: Result<Revspec<'a>, Error>)
        requires
            reply.has_shape(Shape::Range),
        ensures
            match res {
                Ok(r) => reply.range_spec() == Ok::<(Option<Ptr>, Option<Ptr>), ErrorView>(
                    (r.from_ptr(), r.to_ptr()),
                ) && r.owned_by(repo@),
                Err(e) => reply.range_spec() == Err::<(Option<Ptr>, Option<Ptr>), ErrorView>(e@),
            },
    {
        match reply.range() {
            Ok((first, second)) => {
                let from = match first {
                    Some(p) => Some(Object::from_raw(repo, p)),
                    None => None,
                };
                let to = match second {
                    Some(p) => Some(Object::from_raw(repo, p)),
                    None => None,
                };
                Ok(Revspec { from, to })
            },
            Err(e) => Err(e),
        }
    }

    /// The first end: the object itself where the expression named one.
    pub fn from(&self) -> (o: Option<&Object<'a>>)
        ensures
            match o {
                Some(obj) => self.from_ptr() == Some(obj.ptr()),
                None => self.from_ptr() is None,
            },
    {
        self.from.as_ref()
    }

    /// The second end, which only a range has.
    pub fn to(&self) -> (o: Option<&Object<'a>>)
        ensures
            match o {
                Some(obj) => self.to_ptr() == Some(obj.ptr()),
                None => self.to_ptr() is None,
            },
    {
        self.to.as_ref()
    }
}

/// A list of texts that the engine gave, in the engine's order.
#[derive(Debug, PartialEq, Eq)]
pub struct StringArray {
    items: Vec<Vec<u8>>,
}

impl View for StringArray {
    type V = Seq<Seq<u8>>;

    closed spec fn view(&self) -> Seq<Seq<u8>> {
        views_of(self.items@)
    }
}

impl StringArray {
    /// The list made of `items`.
    pub fn new(items: Vec<Vec<u8>>) -> (a: StringArray)
        ensures
            a@ == views_of(items@),
    {
        StringArray { items }
    }

    /// The number of texts.
    pub fn len(&self) -> (n: usize)
        ensures
            n == self@.len(),
    {
        self.items.len()
    }

    /// The text at place `i`, or nothing past the end.
    pub fn get(&self, i: usize) -> (t: Option<&[u8]>)
        ensures
            match t {
                Some(bytes) => i < self@.len() && bytes@ == self@[i as int],
                None => i >= self@.len(),
            },
    {
        if i < self.items.len() {
            Some(self.items[i].as_slice())
        } else {
            None
        }
    }
}

} // verus!
