//! The graphics back-end: capability queries, the push of a triangle list,
//! and its submission.

use vstd::prelude::*;
use crate::batch::{BUFFER_SIZE, Batch};
use crate::model::{Model, lemma_push_wf, lemma_stage_one, lemma_within_buffer};
use crate::shader::{Dialect, InitError, Program};
use crate::vertex::{Vertex, VertexUV, colors_match, flat_vertices, vertex_count};

verus! {

/// One recorded submission: upload `vertices` to the first slots of the GPU
/// buffer of the flat layout, then draw, with the flat program and under the
/// back-end's draw state, a triangle list over exactly those vertices.
#[derive(Debug, PartialEq)]
pub struct Submission<S> {
    /// The vertices to upload and draw, in the order in which they were
    /// pushed.
    pub vertices: Vec<Vertex<S>>,
}

/// The vertices of each of a sequence of submissions.
pub open spec fn batches<S>(commands: Seq<Submission<S>>) -> Seq<Seq<Vertex<S>>> {
    Seq::new(commands.len(), |j: int| commands[j].vertices@)
}

/// Why a triangle list was refused.
#[derive(Clone, Copy, Debug, PartialEq, Eq, Structural)]
pub enum PushError {
    /// The colour array does not hold four scalars for each of the
    /// `vertices` vertices that the position array describes: it holds
    /// `colors` scalars.
    ColorLength { vertices: usize, colors: usize },
}

/// The graphics back-end.
pub struct Gfx2d<S> {
    dialect: Dialect,
    vertex_data: Batch<Vertex<S>>,
    vertex_data_uv: Batch<VertexUV<S>>,
    commands: Vec<Submission<S>>,
}

impl<S> View for Gfx2d<S> {
    type V = Model<S>;

    closed spec fn view(&self) -> Model<S> {
        Model {
            dialect: self.dialect,
            staged: self.vertex_data@,
            staged_uv: self.vertex_data_uv@,
            submitted: batches(self.commands@),
        }
    }
}

impl<S: Copy> Gfx2d<S> {
    /// The invariant of a back-end: that of its state.
    pub open spec fn wf(&self) -> bool {
        self@.wf()
    }

    /// Creates a new Gfx2d object for a context whose dialect is `dialect`,
    /// given what linking the flat and the textured program in that dialect
    /// came to. There is a back-end only if both programs linked; a failure
    /// is reported with the device's log, that of the flat program first.
    pub fn new(dialect: Dialect, flat: Result<(), String>, textured: Result<(), String>) -> (r:
        Result<Gfx2d<S>, InitError>)
        ensures
            match (flat, textured) {
                (Err(log), _) => r matches Err(e) && e == (InitError::LinkFailed {
                    program: Program::Flat,
                    log,
                }),
                (Ok(_), Err(log)) => r matches Err(e) && e == (InitError::LinkFailed {
                    program: Program::Textured,
                    log,
                }),
                (Ok(_), Ok(_)) => r matches Ok(g) && g.wf() && g@ == Model::<S>::empty(dialect),
            },
    {
        match flat {
            Err(log) => Err(InitError::LinkFailed { program: Program::Flat, log }),
            Ok(_) => match textured {
                Err(log) => Err(InitError::LinkFailed { program: Program::Textured, log }),
                Ok(_) => {
                    let g = Gfx2d {
                        dialect,
                        vertex_data: Batch::new(),
                        vertex_data_uv: Batch::new(),
                        commands: Vec::new(),
                    };
                    assert(g@.submitted =~= Seq::empty());
                    Ok(g)
                },
            },
        }
    }

    /// The dialect in which the programs were linked.
    pub fn dialect(&self) -> (d: Dialect)
        ensures
            d == self@.dialect,
    {
        self.dialect
    }

    /// Returns the command buffer to be submitted to device: the
    /// submissions recorded since the last reset, oldest first.
    pub fn as_buffer(&self) -> (commands: &Vec<Submission<S>>)
        ensures
            batches(commands@) == self@.submitted,
    {
        &self.commands
    }

    /// Forgets the recorded submissions, once they have been handed to the
    /// device. What is staged stays.
    pub fn reset(&mut self)
        requires
            old(self).wf(),
        ensures
            final(self).wf(),
            final(self)@ == old(self)@.reset(),
    {
        self.commands.clear();
        assert(self@.submitted =~= Seq::empty());
    }

    /// The flat-coloured vertices staged since the last flush, oldest first.
    pub fn staged(&self) -> (s: &[Vertex<S>])
        ensures
            s@ == self@.staged,
    {
        self.vertex_data.as_slice()
    }

    /// The textured vertices staged since the last flush, oldest first.
    pub fn staged_uv(&self) -> (s: &[VertexUV<S>])
        ensures
            s@ == self@.staged_uv,
    {
        self.vertex_data_uv.as_slice()
    }

    /// Whether the back-end accepts flat triangle lists with `xy` positions
    /// and `rgba` colours. It always does.
    pub fn supports_tri_list_xy_f32_rgba_f32(&self) -> (yes: bool)
        ensures
            yes,
    {
        true
    }

    /// Whether the back-end accepts textured triangle lists with `xy`
    /// positions, `rgba` colours and `uv` texture coordinates. It has no
    /// push for them, so it never does.
    pub fn supports_tri_list_xy_f32_rgba_f32_uv_f32(&self) -> (yes: bool)
        ensures
            !yes,
    {
        false
    }

    /// Pushes a flat triangle list: `vertices` holds two scalars for each
    /// vertex, `colors` four. The vertices join what is staged, in the order
    /// given; whenever one finds the staging storage full, that batch is
    /// submitted first. A list whose colour array has another length is
    /// refused and changes nothing.
    ///
    /// A batch is cut where the buffer ends, which may be inside a triangle:
    /// flush first where every submission is to hold whole triangles.
    pub fn tri_list_xy_f32_rgba_f32(&mut self, vertices: &[S], colors: &[S]) -> (r: Result<
        (),
        PushError,
    >)
        requires
            old(self).wf(),
        ensures
            final(self).wf(),
            final(self)@.staged.len() <= BUFFER_SIZE,
            colors_match(vertices@.len(), colors@.len()) ==> r is Ok && final(self)@ == old(
                self,
            )@.push(flat_vertices(vertices@, colors@)),
            !colors_match(vertices@.len(), colors@.len()) ==> final(self)@ == old(self)@ && r
                == Err::<(), PushError>(
                PushError::ColorLength {
                    vertices: vertex_count(vertices@.len()) as usize,
                    colors: colors@.len() as usize,
                },
            ),
    {
        let n = vertices.len() / 2;
        let given = colors.len();
        if given / 4 != n || given % 4 != 0 {
            return Err(PushError::ColorLength { vertices: n, colors: given });
        }
        let ghost before = self@;
        let ghost vs = flat_vertices(vertices@, colors@);
        proof {
            assert(before.staged + vs.take(0) =~= before.staged);
            lemma_within_buffer(before.staged);
            assert(before.submitted + Seq::<Seq<Vertex<S>>>::empty() =~= before.submitted);
        }
        let mut i: usize = 0;
        while i < n
            invariant
                i <= n,
                n == vertex_count(vertices@.len()),
                given == colors@.len() == 4 * n,
                vs == flat_vertices(vertices@, colors@),
                before.wf(),
                self.wf(),
                self@ == before.push(vs.take(i as int)),
            decreases n - i,
        {
            let v = Vertex::new(
                [vertices[2 * i], vertices[2 * i + 1]],
                [colors[4 * i], colors[4 * i + 1], colors[4 * i + 2], colors[4 * i + 3]],
            );
            let ghost all = before.staged + vs.take(i as int);
            let ghost recorded = self.commands@;
            proof {
                assert(v == vs[i as int]);
                lemma_stage_one(all, v);
                assert(before.staged + vs.take(i + 1) =~= all.push(v));
            }
            let full = self.vertex_data.push(v);
            if let Some(batch) = full {
                self.commands.push(Submission { vertices: batch });
                assert(batches(self.commands@) =~= batches(recorded).push(batch@));
            }
            i += 1;
            proof {
                assert(self@.submitted =~= before.push(vs.take(i as int)).submitted);
                lemma_push_wf(before, vs.take(i as int));
            }
        }
        assert(vs.take(n as int) =~= vs);
        Ok(())
    }

    /// Submits what is staged as one batch and leaves the staging storage
    /// empty. Where nothing is staged, nothing is submitted.
    pub fn flush(&mut self)
        requires
            old(self).wf(),
        ensures
            final(self).wf(),
            final(self)@ == old(self)@.flush(),
            final(self)@.staged == Seq::<Vertex<S>>::empty(),
            old(self)@.staged.len() == 0 ==> final(self)@ == old(self)@,
    {
        let ghost recorded = self.commands@;
        if let Some(batch) = self.vertex_data.flush() {
            self.commands.push(Submission { vertices: batch });
            assert(batches(self.commands@) =~= batches(recorded).push(batch@));
        } else {
            assert(self@.staged =~= old(self)@.staged);
        }
    }
}

} // verus!
