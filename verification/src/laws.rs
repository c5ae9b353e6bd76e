//! What holds of every call and every answer.

use vstd::prelude::*;
use crate::call::Op;
use crate::error::{Error, ErrorView, EXISTS, NOT_FAST_FORWARD};
use crate::handle::{bound, wrapped, Branch, Child, Handle};
use crate::marshal::{c_safe, c_string};
use crate::oid::Oid;
use crate::ptr::Ptr;
use crate::reply::{is_single, Reply, Shape};
use crate::repository::{done, named, opened, Repository};

verus! {

impl Shape {
    /// Whether an answer of this form starts with a status code that can
    /// report a failure.
    pub open spec fn carries_status(self) -> bool {
        self is Status || self is Handle || self is Id || self is Range || self is Texts
            || self is Found
    }
}

/// The place of the first zero byte of `bytes`, or their number when none is
/// zero.
pub open spec fn first_zero(bytes: Seq<u8>) -> int
    decreases bytes.len(),
{
    if bytes.len() == 0 {
        0
    } else if bytes[0] == 0 {
        0
    } else {
        1 + first_zero(bytes.drop_first())
    }
}

/// What the engine reads from `bytes` as text: everything before the first
/// zero byte.
pub open spec fn read_text(bytes: Seq<u8>) -> Seq<u8> {
    bytes.subrange(0, first_zero(bytes))
}

proof fn first_zero_of_c_string(bytes: Seq<u8>)
    ensures
        0 <= first_zero(c_string(bytes)) <= bytes.len(),
        c_safe(bytes) <==> first_zero(c_string(bytes)) == bytes.len(),
    decreases bytes.len(),
{
    let s = c_string(bytes);
    if bytes.len() == 0 {
        assert(s[0] == 0);
    } else {
        assert(s.drop_first() =~= c_string(bytes.drop_first()));
        first_zero_of_c_string(bytes.drop_first());
        assert(s[0] == bytes[0]);
        if c_safe(bytes) {
            assert forall|i: int| 0 <= i < bytes.drop_first().len() implies bytes.drop_first()[i]
                != 0 by {
                assert(bytes.drop_first()[i] == bytes[i + 1]);
            }
        } else if bytes[0] != 0 {
            let k = choose|k: int| 0 <= k < bytes.len() && bytes[k] == 0;
            assert(bytes.drop_first()[k - 1] == bytes[k]);
        }
    }
}

/// Text that is handed over is read back unchanged exactly when it holds no
/// zero byte. Text with a zero byte inside would reach the engine cut short.
pub proof fn text_reads_back(bytes: Seq<u8>)
    ensures
        c_safe(bytes) <==> read_text(c_string(bytes)) == bytes,
{
    first_zero_of_c_string(bytes);
    if c_safe(bytes) {
        assert(read_text(c_string(bytes)) =~= bytes);
    }
}

/// A failed call has the form of every operation that reports failures: the
/// failure comes back as an error and never counts as a breach of the
/// engine's contract.
pub proof fn failure_has_every_status_form(reply: Reply, shape: Shape)
    requires
        reply.failed(),
        shape.carries_status(),
    ensures
        reply.has_shape(shape),
        reply.status_spec() == Err::<(), ErrorView>(reply.failure()),
        reply.handle_spec() == Err::<Ptr, ErrorView>(reply.failure()),
        reply.id_spec() == Err::<Seq<u8>, ErrorView>(reply.failure()),
        reply.failure().code == reply.code,
{
}

/// An answer of handle form gives either a non-null address or an error
/// with the engine's status code, and which of the two depends on the sign
/// of the status code alone.
pub proof fn handle_or_error(reply: Reply)
    requires
        reply.has_shape(Shape::Handle),
    ensures
        match reply.handle_spec() {
            Ok(p) => reply.code >= 0 && p.addr != 0,
            Err(e) => reply.code < 0 && e == reply.failure() && e.code == reply.code,
        },
{
}

/// An operation that makes a repository succeeds exactly when the engine
/// reports success, and then owns the address that the engine gave.
pub proof fn opened_exactly_on_success(reply: Reply, res: Result<Repository, Error>)
    requires
        opened(reply, res),
    ensures
        res is Ok <==> reply.code >= 0,
        res matches Ok(repo) ==> repo@ == reply.out->Handle_0,
        res matches Err(e) ==> e@ == reply.failure() && e@.code == reply.code,
{
}

/// An operation that makes a handle within a repository succeeds exactly
/// when the engine reports success. The handle then holds the address that
/// the engine gave and belongs to that repository; a failure carries the
/// engine's status code, class and message.
pub proof fn bound_exactly_on_success<'a, T: Child<'a>>(
    repo: Ptr,
    reply: Reply,
    res: Result<T, Error>,
)
    requires
        bound(repo, reply, res),
    ensures
        res is Ok <==> reply.code >= 0,
        res matches Ok(h) ==> h.ptr() == reply.out->Handle_0 && h.owner() == repo,
        res matches Err(e) ==> e@ == reply.failure() && e@.code == reply.code,
{
}

/// An operation that makes a handle of its own succeeds exactly when the
/// engine reports success.
pub proof fn wrapped_exactly_on_success<T: Handle>(reply: Reply, res: Result<T, Error>)
    requires
        wrapped(reply, res),
    ensures
        res is Ok <==> reply.code >= 0,
        res matches Ok(h) ==> h.ptr() == reply.out->Handle_0,
        res matches Err(e) ==> e@ == reply.failure() && e@.code == reply.code,
{
}

/// An operation that gives a content hash succeeds exactly when the engine
/// reports success, and then gives the hash that the engine wrote.
pub proof fn named_exactly_on_success(reply: Reply, res: Result<Oid, Error>)
    requires
        named(reply, res),
    ensures
        res is Ok <==> reply.code >= 0,
        res matches Ok(id) ==> id@ == reply.out->Id_0@,
        res matches Err(e) ==> e@ == reply.failure() && e@.code == reply.code,
{
}

/// An operation that gives nothing back succeeds exactly when the engine
/// reports success.
pub proof fn done_exactly_on_success(reply: Reply, res: Result<(), Error>)
    requires
        done(reply, res),
    ensures
        res is Ok <==> reply.code >= 0,
        res matches Err(e) ==> e@ == reply.failure() && e@.code == reply.code,
{
}

/// When the engine refuses to create a branch because the name is taken, the
/// refusal is an ordinary answer and comes back as an error with the engine's
/// status code, class and message. No handle is made.
pub proof fn taken_branch_name_is_an_error<'a>(
    repo: Ptr,
    reply: Reply,
    res: Result<Branch<'a>, Error>,
)
    requires
        reply.code == EXISTS,
        bound(repo, reply, res),
    ensures
        reply.answers(Op::BranchCreate),
        res matches Err(e) && e@ == reply.failure() && e@.code == EXISTS,
{
}

/// When the engine refuses to move a reference to a new commit because the
/// reference does not point at the first parent, the refusal comes back as an
/// error with the engine's status code. No content hash is given.
pub proof fn stale_parent_is_an_error(reply: Reply, res: Result<Oid, Error>)
    requires
        reply.code == NOT_FAST_FORWARD,
        named(reply, res),
    ensures
        reply.answers(Op::CommitCreate),
        res matches Err(e) && e@ == reply.failure() && e@.code == NOT_FAST_FORWARD,
{
}

/// A revision answer that marks a single target gives that target as the
/// first end and has no second end.
pub proof fn single_target_has_no_second_end(reply: Reply)
    requires
        reply.has_shape(Shape::Range),
        !reply.failed(),
        is_single(reply.out->flags),
    ensures
        reply.range_spec() == Ok::<(Option<Ptr>, Option<Ptr>), ErrorView>(
            (Some(reply.out->from), None),
        ),
        reply.out->from.addr != 0,
        reply.out->to.addr == 0,
{
}

} // verus!
