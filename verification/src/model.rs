//! The back-end as a mathematical state: what is staged, what has been
//! submitted, and how pushing and flushing change the two.

use vstd::prelude::*;
use vstd::seq_lib::lemma_flatten_concat;
use crate::batch::BUFFER_SIZE;
use crate::shader::Dialect;
use crate::vertex::{Vertex, VertexUV, colors_match, flat_vertices, vertex_count};

verus! {

/// The number of full batches that have left once `total` vertices have been
/// staged, one after another, since staging was last empty. A batch leaves
/// only when a further vertex arrives and finds it full.
pub open spec fn flushes(total: nat) -> nat {
    if total == 0 {
        0
    } else {
        ((total - 1) / (BUFFER_SIZE as int)) as nat
    }
}

/// The `j`-th run of `BUFFER_SIZE` vertices of `all`.
pub open spec fn chunk<V>(all: Seq<V>, j: int) -> Seq<V> {
    all.subrange(j * BUFFER_SIZE, (j + 1) * BUFFER_SIZE)
}

/// The full batches that have left once the vertices of `all` have been
/// staged one after another, oldest first.
pub open spec fn full_batches<V>(all: Seq<V>) -> Seq<Seq<V>> {
    Seq::new(flushes(all.len()), |j: int| chunk(all, j))
}

/// The vertices still staged once those of `all` have been staged one after
/// another.
pub open spec fn remainder<V>(all: Seq<V>) -> Seq<V> {
    all.subrange(flushes(all.len()) * BUFFER_SIZE, all.len() as int)
}

/// The contents of a GPU buffer after a batch has been uploaded to it: the
/// batch fills the first slots, the others keep what they held.
pub open spec fn upload<V>(buffer: Seq<Option<V>>, batch: Seq<V>) -> Seq<Option<V>> {
    Seq::new(
        buffer.len(),
        |i: int|
            if i < batch.len() {
                Some(batch[i])
            } else {
                buffer[i]
            },
    )
}

/// The contents of a GPU buffer after the device has executed the
/// submissions `submitted`, oldest first, on a buffer that held `buffer`.
pub open spec fn replay<V>(buffer: Seq<Option<V>>, submitted: Seq<Seq<V>>) -> Seq<Option<V>>
    decreases submitted.len(),
{
    if submitted.len() == 0 {
        buffer
    } else {
        upload(replay(buffer, submitted.drop_last()), submitted.last())
    }
}

/// The state of a back-end.
pub struct Model<S> {
    /// The dialect resolved at construction.
    pub dialect: Dialect,
    /// The flat-coloured vertices staged since the last flush, oldest first.
    pub staged: Seq<Vertex<S>>,
    /// The textured vertices staged since the last flush, oldest first.
    pub staged_uv: Seq<VertexUV<S>>,
    /// The vertices of each submission recorded and not yet handed to the
    /// device, oldest first. A submission uploads its vertices to the first
    /// slots of the GPU buffer and draws a triangle list over exactly those.
    pub submitted: Seq<Seq<Vertex<S>>>,
}

impl<S> Model<S> {
    /// Staging never outgrows the GPU buffer, no encoding fills the textured
    /// staging storage, and no submission is empty or larger than the
    /// buffer.
    pub open spec fn wf(self) -> bool {
        &&& self.staged.len() <= BUFFER_SIZE
        &&& self.staged_uv.len() == 0
        &&& forall|j: int|
            0 <= j < self.submitted.len() ==> 0 < (#[trigger] self.submitted[j]).len()
                <= BUFFER_SIZE
    }

    /// The state right after construction: nothing staged, nothing
    /// submitted.
    pub open spec fn empty(dialect: Dialect) -> Model<S> {
        Model {
            dialect,
            staged: Seq::empty(),
            staged_uv: Seq::empty(),
            submitted: Seq::empty(),
        }
    }

    /// The state after the vertices `vs` have been pushed: they join what
    /// was staged, every full buffer's worth that a further vertex found in
    /// its way has been submitted, and the rest is staged.
    pub open spec fn push(self, vs: Seq<Vertex<S>>) -> Model<S> {
        Model {
            staged: remainder(self.staged + vs),
            submitted: self.submitted + full_batches(self.staged + vs),
            ..self
        }
    }

    /// The state after a flush: what was staged has been submitted as one
    /// batch; where nothing was staged, nothing has changed.
    pub open spec fn flush(self) -> Model<S> {
        if self.staged.len() == 0 {
            self
        } else {
            Model {
                staged: Seq::empty(),
                submitted: self.submitted.push(self.staged),
                ..self
            }
        }
    }

    /// The state after the recorded submissions have been handed to the
    /// device.
    pub open spec fn reset(self) -> Model<S> {
        Model { submitted: Seq::empty(), ..self }
    }

    /// Every vertex that the state holds, in draw order: those of the
    /// submissions, oldest first, then those staged.
    pub open spec fn in_order(self) -> Seq<Vertex<S>> {
        self.submitted.flatten() + self.staged
    }
}

/// Staging one more vertex after those of `all`: where what was staged
/// fills the buffer, it leaves as the next batch and the vertex is staged
/// alone; else the vertex joins what was staged.
pub proof fn lemma_stage_one<V>(all: Seq<V>, v: V)
    ensures
        remainder(all).len() <= BUFFER_SIZE,
        remainder(all).len() == BUFFER_SIZE ==> {
            &&& full_batches(all.push(v)) == full_batches(all).push(remainder(all))
            &&& remainder(all.push(v)) == seq![v]
        },
        remainder(all).len() < BUFFER_SIZE ==> {
            &&& full_batches(all.push(v)) == full_batches(all)
            &&& remainder(all.push(v)) == remainder(all).push(v)
        },
{
    let b = BUFFER_SIZE as int;
    let t = all.len() as int;
    let k = flushes(all.len()) as int;
    let k2 = flushes(all.push(v).len()) as int;
    assert(k2 == t / b);
    if remainder(all).len() == BUFFER_SIZE {
        assert(k2 == k + 1);
        assert(full_batches(all.push(v)) =~= full_batches(all).push(remainder(all))) by {
            assert forall|j: int| 0 <= j < k2 implies #[trigger] full_batches(all.push(v))[j]
                == full_batches(all).push(remainder(all))[j] by {
                assert(chunk(all.push(v), j) =~= if j < k {
                    chunk(all, j)
                } else {
                    remainder(all)
                });
            }
        }
        assert(remainder(all.push(v)) =~= seq![v]);
    } else {
        assert(k2 == k);
        assert(full_batches(all.push(v)) =~= full_batches(all)) by {
            assert forall|j: int| 0 <= j < k2 implies #[trigger] full_batches(all.push(v))[j]
                == full_batches(all)[j] by {
                assert(chunk(all.push(v), j) =~= chunk(all, j));
            }
        }
        assert(remainder(all.push(v)) =~= remainder(all).push(v));
    }
}

/// What is staged and not more than a buffer's worth has had no batch leave
/// and is its own remainder.
pub proof fn lemma_within_buffer<V>(all: Seq<V>)
    requires
        all.len() <= BUFFER_SIZE,
    ensures
        full_batches(all) == Seq::<Seq<V>>::empty(),
        remainder(all) == all,
{
    assert(flushes(all.len()) == 0);
    assert(full_batches(all) =~= Seq::<Seq<V>>::empty());
    assert(remainder(all) =~= all);
}

/// The batches that have left and what is still staged are, end to end, the
/// vertices that were staged: none is lost, none moved.
pub proof fn lemma_batches_partition<V>(all: Seq<V>)
    ensures
        full_batches(all).flatten() + remainder(all) == all,
    decreases all.len(),
{
    if all.len() == 0 {
        lemma_within_buffer(all);
        assert(full_batches(all).flatten() + remainder(all) =~= all);
    } else {
        let before = all.drop_last();
        let v = all.last();
        assert(before.push(v) =~= all);
        lemma_batches_partition(before);
        lemma_stage_one(before, v);
        if remainder(before).len() == BUFFER_SIZE {
            full_batches(before).lemma_flatten_push(remainder(before));
        }
        assert(full_batches(all).flatten() + remainder(all) =~= (full_batches(before).flatten()
            + remainder(before)).push(v));
    }
}

/// Draw order is kept: a push adds its vertices behind all that the state
/// held, and a flush moves none.
pub proof fn lemma_order_kept<S>(m: Model<S>, vs: Seq<Vertex<S>>)
    ensures
        m.push(vs).in_order() == m.in_order() + vs,
        m.flush().in_order() == m.in_order(),
{
    let all = m.staged + vs;
    lemma_batches_partition(all);
    lemma_flatten_concat(m.submitted, full_batches(all));
    assert(m.push(vs).in_order() =~= m.submitted.flatten() + (full_batches(all).flatten()
        + remainder(all)));
    assert(m.push(vs).in_order() =~= m.in_order() + vs);
    if m.staged.len() > 0 {
        m.submitted.lemma_flatten_push(m.staged);
    } else {
        assert(m.in_order() =~= m.flush().in_order());
    }
}

/// Only the count staged since the last flush decides when a batch leaves:
/// two lists pushed one after the other leave the state that the two pushed
/// as one list would.
pub proof fn lemma_push_accumulates<S>(m: Model<S>, a: Seq<Vertex<S>>, b: Seq<Vertex<S>>)
    requires
        m.wf(),
    ensures
        m.push(a).push(b) == m.push(a + b),
    decreases b.len(),
{
    let first = m.push(a);
    if b.len() == 0 {
        lemma_push_wf(m, a);
        assert(first.staged + b =~= first.staged);
        lemma_within_buffer(first.staged);
        assert(first.submitted + Seq::<Seq<Vertex<S>>>::empty() =~= first.submitted);
        assert(a + b =~= a);
    } else {
        let shorter = b.drop_last();
        let v = b.last();
        lemma_push_accumulates(m, a, shorter);
        let x = first.staged + shorter;
        let y = m.staged + (a + shorter);
        assert(first.push(shorter) == m.push(a + shorter));
        lemma_stage_one(x, v);
        lemma_stage_one(y, v);
        assert(first.staged + b =~= x.push(v));
        assert(m.staged + (a + b) =~= y.push(v));
        assert(remainder(x) == remainder(y));
        assert(first.submitted + full_batches(x) == m.submitted + full_batches(y));
        if remainder(x).len() == BUFFER_SIZE {
            assert(first.submitted + full_batches(x).push(remainder(x)) =~= (first.submitted
                + full_batches(x)).push(remainder(x)));
            assert(m.submitted + full_batches(y).push(remainder(y)) =~= (m.submitted
                + full_batches(y)).push(remainder(y)));
        }
    }
}

/// Pushing keeps a well-formed state well-formed: what is staged never
/// exceeds the buffer, and every batch that left was exactly full.
pub proof fn lemma_push_wf<S>(m: Model<S>, vs: Seq<Vertex<S>>)
    requires
        m.wf(),
    ensures
        m.push(vs).wf(),
        m.push(vs).staged.len() <= BUFFER_SIZE,
        forall|j: int|
            m.submitted.len() <= j < m.push(vs).submitted.len() ==> (
            #[trigger] m.push(vs).submitted[j]).len() == BUFFER_SIZE,
{
    let all = m.staged + vs;
    let k = flushes(all.len()) as int;
    assert forall|j: int| 0 <= j < k implies (#[trigger] full_batches(all)[j]).len()
        == BUFFER_SIZE by {
        assert((j + 1) * BUFFER_SIZE <= k * BUFFER_SIZE) by (nonlinear_arith)
            requires
                j + 1 <= k,
        ;
    }
}

/// The flat vertices of a well-formed triangle list that fits the buffer,
/// pushed where nothing was staged, are exactly what is staged afterwards:
/// as many as the list describes, entry `i` with the position
/// `vertices[2i..2i+2]` and the colour `colors[4i..4i+4]`, and nothing has
/// been submitted on the way.
pub proof fn lemma_push_stages_all<S>(m: Model<S>, vertices: Seq<S>, colors: Seq<S>)
    requires
        m.wf(),
        m.staged.len() == 0,
        colors_match(vertices.len(), colors.len()),
        vertex_count(vertices.len()) <= BUFFER_SIZE,
    ensures
        m.push(flat_vertices(vertices, colors)).staged.len() == vertex_count(vertices.len()),
        m.push(flat_vertices(vertices, colors)).submitted == m.submitted,
        forall|i: int|
            #![trigger m.push(flat_vertices(vertices, colors)).staged[i]]
            0 <= i < vertex_count(vertices.len()) ==> {
                let v = m.push(flat_vertices(vertices, colors)).staged[i];
                &&& v.pos@ == vertices.subrange(2 * i, 2 * i + 2)
                &&& v.color@ == colors.subrange(4 * i, 4 * i + 4)
            },
{
    let vs = flat_vertices(vertices, colors);
    assert(m.staged + vs =~= vs);
    lemma_within_buffer(vs);
    assert(m.submitted + Seq::<Seq<Vertex<S>>>::empty() =~= m.submitted);
}

/// A push that takes the count staged since the last flush to `total`
/// submits `flushes(total)` batches and leaves the rest staged, never more
/// than the buffer holds. Up to `BUFFER_SIZE` nothing is submitted; from
/// there to twice `BUFFER_SIZE` exactly one batch is, and what stays is
/// `total` modulo `BUFFER_SIZE`, or a whole buffer where that is zero.
pub proof fn lemma_push_counts<S>(m: Model<S>, vs: Seq<Vertex<S>>)
    requires
        m.wf(),
    ensures
        ({
            let total = m.staged.len() + vs.len();
            let after = m.push(vs);
            &&& after.staged.len() <= BUFFER_SIZE
            &&& after.submitted.len() == m.submitted.len() + flushes(total)
            &&& after.staged.len() == total - flushes(total) * BUFFER_SIZE
            &&& total <= BUFFER_SIZE ==> flushes(total) == 0
            &&& BUFFER_SIZE < total <= 2 * BUFFER_SIZE ==> flushes(total) == 1
            &&& total > 0 && total % (BUFFER_SIZE as nat) != 0 ==> after.staged.len() == total % (
            BUFFER_SIZE as nat)
            &&& total > 0 && total % (BUFFER_SIZE as nat) == 0 ==> after.staged.len()
                == BUFFER_SIZE
        }),
{
}

/// After a push where nothing was staged and a flush, the device finds the
/// pushed vertices in the first slots of the GPU buffer, in the order in
/// which they were pushed, whatever the buffer held and whatever was
/// submitted before.
pub proof fn lemma_round_trip<S>(m: Model<S>, vs: Seq<Vertex<S>>, buffer: Seq<Option<Vertex<S>>>)
    requires
        m.wf(),
        m.staged.len() == 0,
        vs.len() <= BUFFER_SIZE,
        buffer.len() == BUFFER_SIZE,
    ensures
        replay(buffer, m.push(vs).flush().submitted).subrange(0, vs.len() as int) == vs.map_values(
            |v: Vertex<S>| Some(v),
        ),
{
    assert(m.staged + vs =~= vs);
    lemma_within_buffer(vs);
    assert(m.submitted + Seq::<Seq<Vertex<S>>>::empty() =~= m.submitted);
    let after = m.push(vs).flush();
    if vs.len() > 0 {
        assert(after.submitted.drop_last() =~= m.submitted);
        lemma_replay_len(buffer, m.submitted);
    }
}

/// Executing submissions does not change the size of the GPU buffer.
pub proof fn lemma_replay_len<V>(buffer: Seq<Option<V>>, submitted: Seq<Seq<V>>)
    ensures
        replay(buffer, submitted).len() == buffer.len(),
    decreases submitted.len(),
{
    if submitted.len() > 0 {
        lemma_replay_len(buffer, submitted.drop_last());
    }
}

} // verus!
