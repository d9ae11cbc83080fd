use gfx_graphics::{Dialect, Gfx2d, PushError, Submission, Vertex, BUFFER_SIZE};

fn backend() -> Gfx2d<f32> {
    Gfx2d::new(Dialect::CoreGlsl, Ok(()), Ok(())).unwrap()
}

/// `n` vertices: vertex `i` at `(i, -i)` with colour `(i, 0.25, 0.5, 1)`.
fn list(n: usize) -> (Vec<f32>, Vec<f32>) {
    let mut vertices = Vec::new();
    let mut colors = Vec::new();
    for i in 0..n {
        vertices.push(i as f32);
        vertices.push(-(i as f32));
        colors.push(i as f32);
        colors.push(0.25);
        colors.push(0.5);
        colors.push(1.0);
    }
    (vertices, colors)
}

fn expected(from: usize, to: usize) -> Vec<Vertex<f32>> {
    (from..to)
        .map(|i| Vertex { pos: [i as f32, -(i as f32)], color: [i as f32, 0.25, 0.5, 1.0] })
        .collect()
}

#[test]
fn buffer_size_is_1024() {
    assert_eq!(BUFFER_SIZE, 1024);
}

#[test]
fn staging_is_empty_after_construction() {
    let g = backend();
    assert!(g.staged().is_empty());
    assert!(g.staged_uv().is_empty());
    assert!(g.as_buffer().is_empty());
    assert_eq!(g.dialect(), Dialect::CoreGlsl);
}

#[test]
fn push_stages_each_vertex_from_its_slices() {
    let mut g = backend();
    let vertices = [10.0, 11.0, 20.0, 21.0, 30.0, 31.0, 40.0, 41.0];
    let colors = [
        0.1, 0.2, 0.3, 0.4, 0.5, 0.6, 0.7, 0.8, 0.9, 1.0, 1.1, 1.2, 1.3, 1.4, 1.5, 1.6,
    ];
    assert_eq!(g.tri_list_xy_f32_rgba_f32(&vertices, &colors), Ok(()));
    let staged = g.staged();
    assert_eq!(staged.len(), 4);
    for i in 0..4 {
        assert_eq!(&staged[i].pos[..], &vertices[2 * i..2 * i + 2]);
        assert_eq!(&staged[i].color[..], &colors[4 * i..4 * i + 4]);
    }
    assert!(g.as_buffer().is_empty());
}

#[test]
fn push_of_n_vertices_stages_n() {
    for n in [0usize, 1, 2, 3, 7, 100, 1023, 1024] {
        let mut g = backend();
        let (vertices, colors) = list(n);
        assert_eq!(g.tri_list_xy_f32_rgba_f32(&vertices, &colors), Ok(()));
        assert_eq!(g.staged(), &expected(0, n)[..]);
        assert!(g.as_buffer().is_empty());
    }
}

#[test]
fn odd_position_array_leaves_its_last_scalar_out() {
    let mut g = backend();
    let vertices = [1.0, 2.0, 3.0, 4.0, 5.0];
    let colors = [0.0, 0.1, 0.2, 0.3, 1.0, 1.1, 1.2, 1.3];
    assert_eq!(g.tri_list_xy_f32_rgba_f32(&vertices, &colors), Ok(()));
    assert_eq!(
        g.staged(),
        &[
            Vertex { pos: [1.0, 2.0], color: [0.0, 0.1, 0.2, 0.3] },
            Vertex { pos: [3.0, 4.0], color: [1.0, 1.1, 1.2, 1.3] },
        ][..]
    );
}

#[test]
fn pushes_accumulate_until_flushed() {
    let mut g = backend();
    let (v1, c1) = list(3);
    g.tri_list_xy_f32_rgba_f32(&v1, &c1).unwrap();
    g.tri_list_xy_f32_rgba_f32(&v1, &c1).unwrap();
    let mut both = expected(0, 3);
    both.extend(expected(0, 3));
    assert_eq!(g.staged(), &both[..]);
    g.flush();
    assert!(g.staged().is_empty());
    assert_eq!(g.as_buffer(), &vec![Submission { vertices: both }]);
}

#[test]
fn staging_is_empty_after_flush() {
    let mut g = backend();
    let (vertices, colors) = list(5);
    g.tri_list_xy_f32_rgba_f32(&vertices, &colors).unwrap();
    assert_eq!(g.staged().len(), 5);
    g.flush();
    assert!(g.staged().is_empty());
    assert!(g.staged_uv().is_empty());
    assert_eq!(g.as_buffer().len(), 1);
    assert_eq!(g.as_buffer()[0].vertices.len(), 5);
}

#[test]
fn empty_flush_issues_no_draw() {
    let mut g = backend();
    assert_eq!(g.tri_list_xy_f32_rgba_f32(&[], &[]), Ok(()));
    g.flush();
    assert!(g.as_buffer().is_empty());
    assert!(g.staged().is_empty());
}

#[test]
fn second_flush_is_a_no_op() {
    let mut g = backend();
    let (vertices, colors) = list(3);
    g.tri_list_xy_f32_rgba_f32(&vertices, &colors).unwrap();
    g.flush();
    g.flush();
    assert_eq!(g.as_buffer().len(), 1);
}

#[test]
fn round_trip_of_one_triangle() {
    let mut g = backend();
    let vertices = [0.0, 0.0, 1.0, 0.0, 0.0, 1.0];
    let colors = [1.0, 0.0, 0.0, 1.0, 1.0, 0.0, 0.0, 1.0, 1.0, 0.0, 0.0, 1.0];
    g.tri_list_xy_f32_rgba_f32(&vertices, &colors).unwrap();
    g.flush();
    let red = [1.0, 0.0, 0.0, 1.0];
    assert_eq!(
        g.as_buffer(),
        &vec![Submission {
            vertices: vec![
                Vertex { pos: [0.0, 0.0], color: red },
                Vertex { pos: [1.0, 0.0], color: red },
                Vertex { pos: [0.0, 1.0], color: red },
            ],
        }]
    );
}

#[test]
fn a_full_buffer_is_not_flushed_until_one_more_arrives() {
    let mut g = backend();
    let (vertices, colors) = list(BUFFER_SIZE);
    g.tri_list_xy_f32_rgba_f32(&vertices, &colors).unwrap();
    assert_eq!(g.staged().len(), BUFFER_SIZE);
    assert!(g.as_buffer().is_empty());
    g.tri_list_xy_f32_rgba_f32(&[7.0, 8.0], &[0.0, 0.0, 0.0, 1.0]).unwrap();
    assert_eq!(g.as_buffer().len(), 1);
    assert_eq!(g.as_buffer()[0].vertices, expected(0, BUFFER_SIZE));
    assert_eq!(g.staged(), &[Vertex { pos: [7.0, 8.0], color: [0.0, 0.0, 0.0, 1.0] }][..]);
}

#[test]
fn exceeding_the_buffer_flushes_once() {
    let mut g = backend();
    let (vertices, colors) = list(BUFFER_SIZE + 1);
    g.tri_list_xy_f32_rgba_f32(&vertices, &colors).unwrap();
    assert_eq!(g.as_buffer().len(), 1);
    assert_eq!(g.as_buffer()[0].vertices, expected(0, BUFFER_SIZE));
    assert_eq!(g.staged(), &expected(BUFFER_SIZE, BUFFER_SIZE + 1)[..]);
}

#[test]
fn cumulative_count_decides_the_flush() {
    let mut g = backend();
    let (v1, c1) = list(1000);
    let (v2, c2) = list(100);
    g.tri_list_xy_f32_rgba_f32(&v1, &c1).unwrap();
    assert!(g.as_buffer().is_empty());
    g.tri_list_xy_f32_rgba_f32(&v2, &c2).unwrap();
    assert_eq!(g.as_buffer().len(), 1);
    let mut first = expected(0, 1000);
    first.extend(expected(0, 24));
    assert_eq!(g.as_buffer()[0].vertices, first);
    assert_eq!(g.staged().len(), 1100 % BUFFER_SIZE);
    assert_eq!(g.staged(), &expected(24, 100)[..]);
}

#[test]
fn staged_count_never_exceeds_the_buffer() {
    for n in [1025usize, 2047, 2048, 2049, 3072, 5000] {
        let mut g = backend();
        let (vertices, colors) = list(n);
        g.tri_list_xy_f32_rgba_f32(&vertices, &colors).unwrap();
        let flushes = (n - 1) / BUFFER_SIZE;
        assert_eq!(g.as_buffer().len(), flushes);
        for (j, submission) in g.as_buffer().iter().enumerate() {
            assert_eq!(submission.vertices, expected(j * BUFFER_SIZE, (j + 1) * BUFFER_SIZE));
        }
        assert!(g.staged().len() <= BUFFER_SIZE);
        assert_eq!(g.staged(), &expected(flushes * BUFFER_SIZE, n)[..]);
    }
}

#[test]
fn two_buffers_leave_one_staged_whole() {
    let mut g = backend();
    let (vertices, colors) = list(2 * BUFFER_SIZE);
    g.tri_list_xy_f32_rgba_f32(&vertices, &colors).unwrap();
    assert_eq!(g.as_buffer().len(), 1);
    assert_eq!(g.staged().len(), BUFFER_SIZE);
}

#[test]
fn draw_order_is_the_push_order() {
    let mut g = backend();
    let mut pushed = Vec::new();
    for n in [700usize, 700, 3, 0, 1024, 5] {
        let (vertices, colors) = list(n);
        g.tri_list_xy_f32_rgba_f32(&vertices, &colors).unwrap();
        pushed.extend(expected(0, n));
    }
    g.flush();
    let drawn: Vec<Vertex<f32>> =
        g.as_buffer().iter().flat_map(|s| s.vertices.iter().copied()).collect();
    assert_eq!(drawn, pushed);
    for submission in g.as_buffer() {
        assert!(!submission.vertices.is_empty());
        assert!(submission.vertices.len() <= BUFFER_SIZE);
    }
}

#[test]
fn short_colour_array_is_refused() {
    let mut g = backend();
    let (v, c) = list(2);
    g.tri_list_xy_f32_rgba_f32(&v, &c).unwrap();
    let r = g.tri_list_xy_f32_rgba_f32(&[0.0, 0.0, 1.0, 1.0], &[1.0, 1.0, 1.0, 1.0]);
    assert_eq!(r, Err(PushError::ColorLength { vertices: 2, colors: 4 }));
    assert_eq!(g.staged(), &expected(0, 2)[..]);
    assert!(g.as_buffer().is_empty());
}

#[test]
fn long_colour_array_is_refused() {
    let mut g = backend();
    let r = g.tri_list_xy_f32_rgba_f32(&[0.0, 0.0], &[1.0, 1.0, 1.0, 1.0, 1.0]);
    assert_eq!(r, Err(PushError::ColorLength { vertices: 1, colors: 5 }));
    let r = g.tri_list_xy_f32_rgba_f32(&[0.0], &[1.0, 1.0, 1.0, 1.0]);
    assert_eq!(r, Err(PushError::ColorLength { vertices: 0, colors: 4 }));
    let r = g.tri_list_xy_f32_rgba_f32(&[], &[1.0]);
    assert_eq!(r, Err(PushError::ColorLength { vertices: 0, colors: 1 }));
    assert!(g.staged().is_empty());
}

#[test]
fn reset_forgets_submissions_and_keeps_staging() {
    let mut g = backend();
    let (vertices, colors) = list(BUFFER_SIZE + 2);
    g.tri_list_xy_f32_rgba_f32(&vertices, &colors).unwrap();
    assert_eq!(g.as_buffer().len(), 1);
    g.reset();
    assert!(g.as_buffer().is_empty());
    assert_eq!(g.staged(), &expected(BUFFER_SIZE, BUFFER_SIZE + 2)[..]);
    g.flush();
    assert_eq!(g.as_buffer().len(), 1);
    assert_eq!(g.as_buffer()[0].vertices, expected(BUFFER_SIZE, BUFFER_SIZE + 2));
}

#[test]
fn flat_triangle_lists_are_supported() {
    let mut g = backend();
    assert!(g.supports_tri_list_xy_f32_rgba_f32());
    let (vertices, colors) = list(BUFFER_SIZE + 1);
    g.tri_list_xy_f32_rgba_f32(&vertices, &colors).unwrap();
    assert!(g.supports_tri_list_xy_f32_rgba_f32());
    g.flush();
    assert!(g.supports_tri_list_xy_f32_rgba_f32());
}

#[test]
fn textured_triangle_lists_are_not_supported() {
    let mut g = backend();
    assert!(!g.supports_tri_list_xy_f32_rgba_f32_uv_f32());
    let (vertices, colors) = list(3);
    g.tri_list_xy_f32_rgba_f32(&vertices, &colors).unwrap();
    assert!(!g.supports_tri_list_xy_f32_rgba_f32_uv_f32());
    assert!(g.staged_uv().is_empty());
}

#[test]
fn scalars_other_than_f32_are_moved_alike() {
    let mut g: Gfx2d<u32> = Gfx2d::new(Dialect::LegacyGlsl, Ok(()), Ok(())).unwrap();
    g.tri_list_xy_f32_rgba_f32(&[1, 2, 3, 4], &[5, 6, 7, 8, 9, 10, 11, 12]).unwrap();
    assert_eq!(
        g.staged(),
        &[
            Vertex { pos: [1, 2], color: [5, 6, 7, 8] },
            Vertex { pos: [3, 4], color: [9, 10, 11, 12] },
        ][..]
    );
    assert_eq!(g.dialect(), Dialect::LegacyGlsl);
}

#[test]
fn two_pushes_leave_what_one_would() {
    for (a, b) in [(0usize, 0usize), (3, 0), (0, 3), (1000, 24), (1000, 25), (1024, 1), (1500, 1500)] {
        let mut twice = backend();
        let (va, ca) = list(a);
        let (vb, cb) = list(b);
        twice.tri_list_xy_f32_rgba_f32(&va, &ca).unwrap();
        twice.tri_list_xy_f32_rgba_f32(&vb, &cb).unwrap();
        let mut once = backend();
        let mut v = va.clone();
        v.extend(&vb);
        let mut c = ca.clone();
        c.extend(&cb);
        once.tri_list_xy_f32_rgba_f32(&v, &c).unwrap();
        assert_eq!(twice.staged(), once.staged());
        assert_eq!(twice.as_buffer(), once.as_buffer());
    }
}

#[test]
fn round_trip_keeps_any_list_that_fits() {
    for n in [1usize, 2, 3, 6, 341, 1023, 1024] {
        let mut g = backend();
        let (old_vertices, old_colors) = list(7);
        g.tri_list_xy_f32_rgba_f32(&old_vertices, &old_colors).unwrap();
        g.flush();
        let (vertices, colors) = list(n);
        g.tri_list_xy_f32_rgba_f32(&vertices, &colors).unwrap();
        g.flush();
        let last = g.as_buffer().last().unwrap();
        assert_eq!(last.vertices, expected(0, n));
        assert_eq!(g.as_buffer().len(), 2);
    }
}
