//! Bounded host-side staging storage for one vertex layout.

use vstd::prelude::*;

verus! {

/// The number of vertices that a GPU vertex buffer holds, and so the most
/// that are staged between two flushes.
pub const BUFFER_SIZE: usize = 1024;

/// The vertices staged for one GPU buffer since the last flush.
pub struct Batch<V> {
    staged: Vec<V>,
}

impl<V> View for Batch<V> {
    type V = Seq<V>;

    closed spec fn view(&self) -> Seq<V> {
        self.staged@
    }
}

impl<V> Batch<V> {
    /// A batch never holds more than the GPU buffer does.
    pub open spec fn wf(&self) -> bool {
        self@.len() <= BUFFER_SIZE
    }

    /// An empty batch with room for a full buffer.
    pub fn new() -> (b: Batch<V>)
        ensures
            b@ == Seq::<V>::empty(),
            b.wf(),
    {
        Batch { staged: Vec::with_capacity(BUFFER_SIZE) }
    }

    /// The number of vertices staged.
    pub fn len(&self) -> (n: usize)
        ensures
            n == self@.len(),
    {
        self.staged.len()
    }

    /// Whether nothing is staged.
    pub fn is_empty(&self) -> (e: bool)
        ensures
            e == (self@.len() == 0),
    {
        self.staged.len() == 0
    }

    /// The vertices staged, oldest first.
    pub fn as_slice(&self) -> (s: &[V])
        ensures
            s@ == self@,
    {
        self.staged.as_slice()
    }

    /// Stages `v`. A batch that is full leaves first, whole and in order,
    /// and is handed back for submission; `v` then starts the next one.
    pub fn push(&mut self, v: V) -> (full: Option<Vec<V>>)
        requires
            old(self).wf(),
        ensures
            final(self).wf(),
            old(self)@.len() < BUFFER_SIZE ==> full is None && final(self)@ == old(self)@.push(v),
            old(self)@.len() == BUFFER_SIZE ==> full is Some && full->0@ == old(self)@
                && final(self)@ == seq![v],
    {
        if self.staged.len() == BUFFER_SIZE {
            let mut out: Vec<V> = Vec::with_capacity(BUFFER_SIZE);
            std::mem::swap(&mut self.staged, &mut out);
            self.staged.push(v);
            Some(out)
        } else {
            self.staged.push(v);
            None
        }
    }

    /// Empties the batch and hands back what was staged, or nothing if
    /// nothing was.
    pub fn flush(&mut self) -> (batch: Option<Vec<V>>)
        ensures
            final(self)@ == Seq::<V>::empty(),
            old(self)@.len() == 0 ==> batch is None,
            old(self)@.len() > 0 ==> batch is Some && batch->0@ == old(self)@,
    {
        if self.staged.len() == 0 {
            None
        } else {
            let mut out: Vec<V> = Vec::with_capacity(BUFFER_SIZE);
            std::mem::swap(&mut self.staged, &mut out);
            Some(out)
        }
    }
}

} // verus!
