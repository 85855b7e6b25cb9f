use dirty::geom::meshgen::checkerboard;
use dirty::mesh::{extrude_indices, gen_checkerboard};

#[test]
fn checkerboard_tiles_and_indices() {
    let b = checkerboard(2, 2);
    assert_eq!(b.cells.len(), 4);
    let dark: Vec<bool> = b.cells.iter().map(|c| c.dark).collect();
    assert_eq!(dark, vec![true, false, true, false]);
    assert_eq!((b.cells[2].row, b.cells[2].col), (1, 0));
    assert_eq!(&b.indices[..12], &[0, 2, 1, 0, 3, 2, 4, 6, 5, 4, 7, 6]);
    assert_eq!(b.indices.len(), 24);
    let odd = checkerboard(3, 2);
    let dark: Vec<bool> = odd.cells.iter().map(|c| c.dark).collect();
    assert_eq!(dark, vec![true, false, true, false, true, false]);
    assert_eq!((odd.cells[4].row, odd.cells[4].col), (1, 1));
}

#[test]
fn checkerboard_border_edges() {
    let (layout, edges) = gen_checkerboard(2, 2);
    assert_eq!(layout.cells.len(), 4);
    assert_eq!(edges, vec![(0, 3), (0, 1), (4, 7), (7, 6), (9, 10), (8, 9), (13, 14), (15, 14)]);
    let (_, one) = gen_checkerboard(1, 1);
    assert_eq!(one, vec![(0, 3), (1, 2), (0, 1), (3, 2)]);
}

#[test]
fn extrusion_indices() {
    let r = extrude_indices(&[0, 1, 2], &[(0, 1)], 3);
    assert_eq!(r, vec![0, 1, 2, 3, 4, 5, 0, 1, 3, 3, 4, 1]);
    assert_eq!(extrude_indices(&[], &[], 0), Vec::<u32>::new());
}
