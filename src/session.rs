//! Sequencing of successive launches: the handles of the running reader and
//! waiter tasks, and the barrier that retires them before new ones start.

use vstd::prelude::*;

verus! {

/// The handles of one generation of background tasks, if any is running:
/// at most one reader task and one waiter task.
pub struct TaskSlots<H> {
    reader: Option<H>,
    waiter: Option<H>,
}

/// The stored handles in the order in which they are retired: reader first.
pub open spec fn pending_of<H>(reader: Option<H>, waiter: Option<H>) -> Seq<H> {
    let r = match reader {
        Some(h) => seq![h],
        None => Seq::empty(),
    };
    match waiter {
        Some(h) => r.push(h),
        None => r,
    }
}

impl<H> View for TaskSlots<H> {
    type V = (Option<H>, Option<H>);

    closed spec fn view(&self) -> (Option<H>, Option<H>) {
        (self.reader, self.waiter)
    }
}

impl<H> TaskSlots<H> {
    /// The handles still to be retired, reader first.
    pub open spec fn pending(&self) -> Seq<H> {
        pending_of(self@.0, self@.1)
    }

    /// No task of an earlier generation is left to retire.
    pub open spec fn is_clear(&self) -> bool {
        self@.0 is None && self@.1 is None
    }

    /// Slots with no task stored.
    pub fn new() -> (r: TaskSlots<H>)
        ensures
            r.is_clear(),
    {
        TaskSlots { reader: None, waiter: None }
    }

    /// Whether no task is stored.
    pub fn clear(&self) -> (r: bool)
        ensures
            r == self.is_clear(),
    {
        self.reader.is_none() && self.waiter.is_none()
    }

    /// Takes out every stored handle, reader first, for the caller to wait
    /// on; the slots are left clear.
    pub fn retire(&mut self) -> (r: Vec<H>)
        ensures
            r@ == old(self).pending(),
            final(self).is_clear(),
    {
        let mut r: Vec<H> = Vec::new();
        let reader = self.reader.take();
        if let Some(h) = reader {
            r.push(h);
        }
        let waiter = self.waiter.take();
        if let Some(h) = waiter {
            r.push(h);
        }
        assert(r@ =~= old(self).pending());
        r
    }

    /// Stores the handles of a newly launched generation. Allowed only once
    /// the previous generation has been retired.
    pub fn install(&mut self, reader: H, waiter: H)
        requires
            old(self).is_clear(),
        ensures
            final(self)@ == (Some(reader), Some(waiter)),
            final(self).pending() == seq![reader, waiter],
    {
        self.reader = Some(reader);
        self.waiter = Some(waiter);
        assert(self.pending() =~= seq![reader, waiter]);
    }
}

/// The slots admit a new generation (`install`) exactly when no handle of
/// the previous one is left to retire.
pub proof fn lemma_install_waits_for_retire<H>(slots: TaskSlots<H>)
    ensures
        slots.is_clear() <==> slots.pending().len() == 0,
{
}

} // verus!
