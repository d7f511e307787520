use terrain_gen::erosion::{cell_corners, erosion_kernel, erosion_runs, in_interior, KernelCell};
use terrain_gen::rng::Lcg;

#[test]
fn zero_iterations_do_nothing() {
    assert!(!erosion_runs(32, 32, 0));
    assert!(erosion_runs(32, 32, 1));
    assert!(!erosion_runs(2, 32, 1000));
    assert!(!erosion_runs(32, 2, 1000));
    assert!(erosion_runs(3, 3, 1));
}

#[test]
fn interior_excludes_the_border() {
    assert!(in_interior(1, 1, 32, 32));
    assert!(in_interior(30, 30, 32, 32));
    assert!(!in_interior(0, 5, 32, 32));
    assert!(!in_interior(5, 0, 32, 32));
    assert!(!in_interior(31, 5, 32, 32));
    assert!(!in_interior(5, 31, 32, 32));
    assert!(!in_interior(1, 1, 2, 2));
    assert!(!in_interior(0, 0, 0, 0));
}

#[test]
fn corners_of_a_cell() {
    assert_eq!(cell_corners(1, 1, 32, 32), (33, 34, 65, 66));
    assert_eq!(cell_corners(30, 30, 32, 32), (990, 991, 1022, 1023));
}

#[test]
fn kernel_in_the_middle() {
    let k = erosion_kernel(5, 5, 32, 32);
    assert_eq!(k.len(), 29);
    assert_eq!(k[0], KernelCell { col: 5, row: 2, index: 69, dist_sq: 9 });
    assert_eq!(k[14], KernelCell { col: 5, row: 5, index: 165, dist_sq: 0 });
    for w in k.windows(2) {
        assert!(w[0].index < w[1].index);
    }
    assert!(k.iter().all(|c| c.dist_sq <= 9));
}

#[test]
fn kernel_clipped_at_the_corner() {
    let k = erosion_kernel(0, 0, 32, 32);
    let cells: Vec<(usize, usize)> = k.iter().map(|c| (c.row, c.col)).collect();
    assert_eq!(
        cells,
        vec![(0, 0), (0, 1), (0, 2), (0, 3), (1, 0), (1, 1), (1, 2), (2, 0), (2, 1), (2, 2), (3, 0)]
    );
    assert_eq!(k[10].index, 96);
}

#[test]
fn kernel_on_a_tiny_buffer() {
    let k = erosion_kernel(0, 0, 1, 1);
    assert_eq!(k, vec![KernelCell { col: 0, row: 0, index: 0, dist_sq: 0 }]);
}

#[test]
fn generator_sequence() {
    let mut g = Lcg::new(42);
    assert_eq!(g.state, 9039304369631583587);
    assert_eq!(g.next_u32(), 1174617376);
    assert_eq!(g.state, 10089886432707446966);
    assert_eq!(g.next_u32(), 680585755);
    assert_eq!(g.next_u32(), 1884505463);
    let mut h = Lcg::new(0);
    assert_eq!(h.state, 1);
    assert_eq!(h.next_u32(), 908834774);
}

#[test]
fn generator_is_reproducible() {
    let mut a = Lcg::new(7);
    let mut b = Lcg::new(7);
    for _ in 0..100 {
        let x = a.next_u32();
        assert_eq!(x, b.next_u32());
        assert!(x <= 0x7fff_ffff);
    }
}
