//! Engine calls as plain data.
//!
//! A [`Call`] names one operation of the engine and lists the arguments that
//! the operation takes, in the engine's own order and already in the
//! engine's own form: addresses, zero-terminated text, numbers. Places where
//! the engine writes a result are no arguments; what it writes comes back in
//! the reply.

use vstd::prelude::*;
use vstd::string::StringSliceAdditionalSpecFns;
use crate::marshal::{all_c_safe, c_safe, c_string, c_strings, to_c_string};
use crate::oid::Oid;
use crate::ptr::Ptr;

verus! {

/// The operations of the engine that a repository handle uses.
#[derive(Clone, Copy, Debug, PartialEq, Eq, Structural)]
pub enum Op {
    RepositoryOpen,
    RepositoryInit,
    RepositoryClone,
    RepositoryFree,
    Revparse,
    RevparseSingle,
    RepositoryIsBare,
    RepositoryIsShallow,
    RepositoryIsEmpty,
    RepositoryPath,
    RepositoryState,
    RepositoryWorkdir,
    RepositoryNamespace,
    RemoteList,
    RemoteLoad,
    RemoteCreate,
    RemoteCreateAnonymous,
    Reset,
    ResetDefault,
    RepositoryHead,
    ReferenceIteratorNew,
    ReferenceIteratorGlobNew,
    SubmoduleForeach,
    BranchIteratorNew,
    RepositoryIndex,
    RepositoryConfig,
    BlobCreateFromBuffer,
    BlobCreateFromDisk,
    BlobLookup,
    BranchCreate,
    BranchLookup,
    CommitCreate,
    CommitLookup,
    ObjectLookup,
    ObjectId,
    ReferenceCreate,
    ReferenceSymbolicCreate,
    ReferenceLookup,
    ReferenceNameToId,
    SignatureDefault,
    SubmoduleAddSetup,
    SubmoduleLookup,
    TreeLookup,
}

/// One argument of an engine call.
#[derive(Debug, PartialEq, Eq)]
pub enum Arg {
    /// An address; the null address where the engine takes "none".
    Handle(Ptr),
    /// Text, closed by its terminating zero.
    Text(Vec<u8>),
    /// Text closed by its terminating zero, or no text.
    OptText(Option<Vec<u8>>),
    /// A number, a flag as 0 or 1, or the number of an enumeration value.
    Number(i32),
    /// A count of elements or bytes.
    Size(usize),
    /// A content hash.
    Id(Oid),
    /// An array of addresses.
    Handles(Vec<Ptr>),
    /// An array of texts, each closed by its terminating zero.
    Texts(Vec<Vec<u8>>),
    /// A buffer of bytes.
    Data(Vec<u8>),
}

/// An [`Arg`] as plain values.
pub enum ArgView {
    Handle(Ptr),
    Text(Seq<u8>),
    OptText(Option<Seq<u8>>),
    Number(i32),
    Size(usize),
    Id(Seq<u8>),
    Handles(Seq<Ptr>),
    Texts(Seq<Seq<u8>>),
    Data(Seq<u8>),
}

impl View for Arg {
    type V = ArgView;

    open spec fn view(&self) -> ArgView {
        match self {
            Arg::Handle(p) => ArgView::Handle(*p),
            Arg::Text(t) => ArgView::Text(t@),
            Arg::OptText(t) => ArgView::OptText(
                match t {
                    Some(bytes) => Some(bytes@),
                    None => None,
                },
            ),
            Arg::Number(n) => ArgView::Number(*n),
            Arg::Size(n) => ArgView::Size(*n),
            Arg::Id(id) => ArgView::Id(id@),
            Arg::Handles(ps) => ArgView::Handles(ps@),
            Arg::Texts(ts) => ArgView::Texts(views_of(ts@)),
            Arg::Data(d) => ArgView::Data(d@),
        }
    }
}

/// One call into the engine: the operation and its arguments in order.
#[derive(Debug, PartialEq, Eq)]
pub struct Call {
    pub op: Op,
    pub args: Vec<Arg>,
}

/// A [`Call`] as plain values.
pub struct CallView {
    pub op: Op,
    pub args: Seq<ArgView>,
}

impl View for Call {
    type V = CallView;

    open spec fn view(&self) -> CallView {
        CallView { op: self.op, args: Seq::new(self.args@.len(), |i: int| self.args@[i]@) }
    }
}

/// The number that stands for a flag: 1 when it is set, 0 when it is not.
pub open spec fn flag(b: bool) -> i32 {
    if b {
        1
    } else {
        0
    }
}

/// The address that stands for an optional handle: its own, or the null
/// address when there is none.
pub open spec fn or_null(p: Option<Ptr>) -> Ptr {
    match p {
        Some(ptr) => ptr,
        None => Ptr { addr: 0 },
    }
}

/// The contents of each buffer of `buffers`, in the same order.
pub open spec fn views_of(buffers: Seq<Vec<u8>>) -> Seq<Seq<u8>> {
    Seq::new(buffers.len(), |i: int| buffers[i]@)
}

/// The bytes of each text of `texts`, in the same order.
pub open spec fn bytes_of(texts: Seq<&str>) -> Seq<Seq<u8>> {
    Seq::new(texts.len(), |i: int| texts[i].spec_bytes())
}

impl CallView {
    /// The call of `op` without arguments.
    pub open spec fn new(op: Op) -> CallView {
        CallView { op, args: Seq::empty() }
    }

    /// This call with `arg` as one more argument.
    pub open spec fn with(self, arg: ArgView) -> CallView {
        CallView { op: self.op, args: self.args.push(arg) }
    }

    /// This call with the address `p` as one more argument.
    pub open spec fn handle(self, p: Ptr) -> CallView {
        self.with(ArgView::Handle(p))
    }

    /// This call with the address of an optional handle as one more argument.
    pub open spec fn opt_handle(self, p: Option<Ptr>) -> CallView {
        self.with(ArgView::Handle(or_null(p)))
    }

    /// This call with the text `bytes` as one more argument.
    pub open spec fn text(self, bytes: Seq<u8>) -> CallView {
        self.with(ArgView::Text(c_string(bytes)))
    }

    /// This call with an optional text as one more argument.
    pub open spec fn opt_text(self, bytes: Option<Seq<u8>>) -> CallView {
        self.with(
            ArgView::OptText(
                match bytes {
                    Some(b) => Some(c_string(b)),
                    None => None,
                },
            ),
        )
    }

    /// This call with the number `n` as one more argument.
    pub open spec fn number(self, n: i32) -> CallView {
        self.with(ArgView::Number(n))
    }

    /// This call with the flag `b` as one more argument.
    pub open spec fn flag(self, b: bool) -> CallView {
        self.with(ArgView::Number(flag(b)))
    }

    /// This call with the count `n` as one more argument.
    pub open spec fn size(self, n: usize) -> CallView {
        self.with(ArgView::Size(n))
    }

    /// This call with the content hash `id` as one more argument.
    pub open spec fn id(self, id: Seq<u8>) -> CallView {
        self.with(ArgView::Id(id))
    }

    /// This call with the array of addresses `ps` as one more argument.
    pub open spec fn handles(self, ps: Seq<Ptr>) -> CallView {
        self.with(ArgView::Handles(ps))
    }

    /// This call with the array of texts `texts` as one more argument.
    pub open spec fn texts(self, texts: Seq<Seq<u8>>) -> CallView {
        self.with(ArgView::Texts(c_strings(texts)))
    }

    /// This call with the buffer `bytes` as one more argument.
    pub open spec fn data(self, bytes: Seq<u8>) -> CallView {
        self.with(ArgView::Data(bytes))
    }
}

impl Call {
    /// The call of `op` without arguments.
    pub fn new(op: Op) -> (c: Call)
        ensures
            c@ == CallView::new(op),
    {
        let c = Call { op, args: Vec::new() };
        assert(c@.args =~= Seq::empty());
        c
    }

    /// Adds `arg` as the next argument.
    pub fn with(self, arg: Arg) -> (c: Call)
        ensures
            c@ == self@.with(arg@),
    {
        let mut args = self.args;
        args.push(arg);
        let c = Call { op: self.op, args };
        assert(c@.args =~= self@.args.push(arg@));
        c
    }

    /// Adds the address `p` as the next argument.
    pub fn handle(self, p: Ptr) -> (c: Call)
        ensures
            c@ == self@.handle(p),
    {
        self.with(Arg::Handle(p))
    }

    /// Adds the address of an optional handle as the next argument: the null
    /// address when there is none.
    pub fn opt_handle(self, p: Option<Ptr>) -> (c: Call)
        ensures
            c@ == self@.opt_handle(p),
    {
        match p {
            Some(ptr) => self.with(Arg::Handle(ptr)),
            None => self.with(Arg::Handle(Ptr::null())),
        }
    }

    /// Adds the text `bytes`, closed by its terminating zero, as the next
    /// argument.
    pub fn text(self, bytes: &[u8]) -> (c: Call)
        requires
            c_safe(bytes@),
        ensures
            c@ == self@.text(bytes@),
    {
        self.with(Arg::Text(to_c_string(bytes)))
    }

    /// Adds an optional text as the next argument.
    pub fn opt_text(self, bytes: Option<&[u8]>) -> (c: Call)
        requires
            bytes matches Some(b) ==> c_safe(b@),
        ensures
            c@ == self@.opt_text(
                match bytes {
                    Some(b) => Some(b@),
                    None => None,
                },
            ),
    {
        match bytes {
            Some(b) => self.with(Arg::OptText(Some(to_c_string(b)))),
            None => self.with(Arg::OptText(None)),
        }
    }

    /// Adds the number `n` as the next argument.
    pub fn number(self, n: i32) -> (c: Call)
        ensures
            c@ == self@.number(n),
    {
        self.with(Arg::Number(n))
    }

    /// Adds the flag `b` as the next argument: 1 when set, 0 when not.
    pub fn flag(self, b: bool) -> (c: Call)
        ensures
            c@ == self@.flag(b),
    {
        if b {
            self.with(Arg::Number(1))
        } else {
            self.with(Arg::Number(0))
        }
    }

    /// Adds the count `n` as the next argument.
    pub fn size(self, n: usize) -> (c: Call)
        ensures
            c@ == self@.size(n),
    {
        self.with(Arg::Size(n))
    }

    /// Adds the content hash `id` as the next argument.
    pub fn id(self, id: Oid) -> (c: Call)
        ensures
            c@ == self@.id(id@),
    {
        self.with(Arg::Id(id))
    }

    /// Adds the array of addresses `ps` as the next argument.
    pub fn handles(self, ps: Vec<Ptr>) -> (c: Call)
        ensures
            c@ == self@.handles(ps@),
    {
        self.with(Arg::Handles(ps))
    }

    /// Adds the texts of `texts`, each closed by its terminating zero and in
    /// the same order, as one array argument.
    pub fn texts(self, texts: &[&str]) -> (c: Call)
        requires
            all_c_safe(bytes_of(texts@)),
        ensures
            c@ == self@.texts(bytes_of(texts@)),
    {
        let mut out: Vec<Vec<u8>> = Vec::with_capacity(texts.len());
        let mut i: usize = 0;
        while i < texts.len()
            invariant
                i <= texts.len(),
                all_c_safe(bytes_of(texts@)),
                out@.len() == i,
                forall|j: int| 0 <= j < i ==> (#[trigger] out@[j])@ == c_string(texts@[j].spec_bytes()),
            decreases texts.len() - i,
        {
            let bytes = texts[i].as_bytes();
            assert(bytes@ == bytes_of(texts@)[i as int]);
            out.push(to_c_string(bytes));
            i += 1;
        }
        assert(views_of(out@) =~= c_strings(bytes_of(texts@)));
        self.with(Arg::Texts(out))
    }

    /// Adds a copy of the buffer `bytes` as the next argument.
    pub fn data(self, bytes: &[u8]) -> (c: Call)
        ensures
            c@ == self@.data(bytes@),
    {
        self.with(Arg::Data(vstd::slice::slice_to_vec(bytes)))
    }
}

} // verus!
