//! The app-server messages that arrive while the client waits for
//! something else.
//!
//! A wait is a pass over the messages: first those set aside before, in
//! the order they arrived, then new ones. A message the wait does not
//! handle is set aside again, in its place, for a later wait; so a wait
//! reads each waiting message once, the reply it waits for reaches it, and
//! nothing it leaves is lost or reordered.

use vstd::prelude::*;
use crate::json::Json;

verus! {

/// The messages waiting to be handled, in the order they arrived.
pub struct Backlog {
    /// The messages set aside during the current pass.
    deferred: Vec<Json>,
    /// The messages of the current pass that have not been read yet.
    unread: Vec<Json>,
}

impl Backlog {
    /// Every message that waits to be handled, in the order it arrived.
    pub closed spec fn waiting(&self) -> Seq<Json> {
        self.deferred@ + self.unread@
    }

    /// The waiting messages that the current pass has not read yet.
    pub closed spec fn unread(&self) -> Seq<Json> {
        self.unread@
    }

    /// No message waits.
    pub fn new() -> (b: Backlog)
        ensures
            b.waiting() == Seq::<Json>::empty(),
            b.unread() == Seq::<Json>::empty(),
    {
        let b = Backlog { deferred: Vec::new(), unread: Vec::new() };
        assert(b.waiting() =~= Seq::<Json>::empty());
        b
    }

    /// Starts a pass: every waiting message is unread again, in order.
    pub fn begin_pass(&mut self)
        ensures
            final(self).waiting() == old(self).waiting(),
            final(self).unread() == old(self).waiting(),
    {
        self.deferred.append(&mut self.unread);
        std::mem::swap(&mut self.deferred, &mut self.unread);
        assert(self.waiting() =~= old(self).waiting());
    }

    /// The next waiting message that this pass has not read, taken out of
    /// the backlog; nothing when the pass has read them all.
    pub fn next_unread(&mut self) -> (m: Option<Json>)
        ensures
            old(self).unread().len() == 0 ==> m is None && final(self).waiting() == old(self).waiting() && final(self).unread()
                == old(self).unread(),
            old(self).unread().len() > 0 ==> m == Some(old(self).unread()[0]) && final(self).unread() == old(self).unread().drop_first()
                && final(self).waiting() == old(self).waiting().remove(old(self).waiting().len() - old(self).unread().len()),
    {
        if self.unread.len() == 0 {
            return None;
        }
        let ghost i = self.deferred@.len() as int;
        let m = self.unread.remove(0);
        assert(self.unread@ =~= old(self).unread@.drop_first());
        assert(self.waiting() =~= old(self).waiting().remove(i));
        Some(m)
    }

    /// Sets `message` aside for a later pass, after the messages set aside
    /// before it and before those this pass has not read.
    pub fn defer(&mut self, message: Json)
        ensures
            final(self).unread() == old(self).unread(),
            final(self).waiting() == old(self).waiting().insert(old(self).waiting().len() - old(self).unread().len(), message),
    {
        let ghost i = self.deferred@.len() as int;
        self.deferred.push(message);
        assert(self.waiting() =~= old(self).waiting().insert(i, message));
    }
}

/// Setting aside the message that a pass has just read puts it back in
/// its place: after `next_unread` took `message` out of `before`, giving
/// `read`, and `defer` set it aside, giving `after`, the waiting messages
/// are those of `before`, and the pass has one message fewer to read.
pub proof fn lemma_defer_undoes_read(before: Backlog, read: Backlog, after: Backlog, message: Json)
    requires
        before.unread().len() > 0,
        message == before.unread()[0],
        read.unread() == before.unread().drop_first(),
        read.waiting() == before.waiting().remove(before.waiting().len() - before.unread().len()),
        after.unread() == read.unread(),
        after.waiting() == read.waiting().insert(read.waiting().len() - read.unread().len(), message),
    ensures
        after.waiting() == before.waiting(),
        after.unread().len() == before.unread().len() - 1,
{
    let k = before.deferred@.len() as int;
    assert(before.waiting()[k] == message);
    assert(read.waiting().len() - read.unread().len() == k);
    assert(after.waiting() =~= before.waiting());
}

} // verus!
