use dirty::batch::BatchedMesh;

#[test]
fn same_state_meshes_share_a_draw() {
    let mut b: BatchedMesh<u8, &str> = BatchedMesh::new(100, 100);
    assert!(b.empty());
    let d = b.push(false, "sprite", &[1, 2, 3], &[0, 1, 2]);
    assert!(d.is_empty());
    let d = b.push(true, "sprite", &[4, 5, 6], &[0, 2, 1]);
    assert!(d.is_empty());
    let d = b.flush().unwrap();
    assert_eq!(d.state, "sprite");
    assert_eq!(d.verts, vec![1, 2, 3, 4, 5, 6]);
    assert_eq!(d.indices, vec![0, 1, 2, 3, 5, 4]);
    assert!(b.empty());
    assert_eq!(b.draw_count(), 1);
    assert!(b.flush().is_none());
    assert_eq!(b.draw_count(), 1);
}

#[test]
fn state_change_flushes() {
    let mut b: BatchedMesh<u8, u32> = BatchedMesh::new(100, 100);
    b.push(false, 1, &[1, 1, 1], &[0, 1, 2]);
    let d = b.push(false, 2, &[2, 2], &[0, 1]);
    assert_eq!(d.len(), 1);
    assert_eq!(d[0].state, 1);
    assert_eq!(d[0].verts, vec![1, 1, 1]);
    assert_eq!(b.state(), &Some(2));
    let d = b.flush().unwrap();
    assert_eq!(d.state, 2);
    assert_eq!(d.indices, vec![0, 1]);
    assert_eq!(b.draw_count(), 2);
    b.clear_draw_count();
    assert_eq!(b.draw_count(), 0);
}

#[test]
fn reaching_the_vertex_limit_flushes() {
    let mut b: BatchedMesh<u8, u32> = BatchedMesh::new(4, 100);
    b.push(false, 1, &[1, 1], &[0, 1]);
    let d = b.push(true, 1, &[2, 2], &[0, 1]);
    assert_eq!(d.len(), 1);
    assert_eq!(d[0].verts, vec![1, 1]);
    // The flush dropped the state, so the queued vertices wait for the next
    // state set by a push.
    assert_eq!(b.state(), &None);
    assert!(b.flush().is_none());
    assert!(!b.empty());
    let d = b.push(false, 3, &[3], &[0]);
    assert!(d.is_empty());
    let d = b.flush().unwrap();
    assert_eq!(d.state, 3);
    assert_eq!(d.verts, vec![2, 2, 3]);
    assert_eq!(d.indices, vec![0, 1, 2]);
}

#[test]
fn every_pushed_vertex_is_drawn_once() {
    let mut b: BatchedMesh<u32, u32> = BatchedMesh::new(5, 7);
    let mut drawn: Vec<u32> = Vec::new();
    let mut all: Vec<u32> = Vec::new();
    let mut state = 0u32;
    for i in 0..20u32 {
        let verts = vec![i * 10, i * 10 + 1];
        if i % 3 == 0 {
            state += 1;
        }
        let new_same = b.state() == &Some(state);
        for d in b.push(new_same, state, &verts, &[0, 1, 1]) {
            drawn.extend(d.verts);
        }
        all.extend(verts);
    }
    // A queue left without a state after a full flush takes the next state
    // set by a push; an empty mesh sets one.
    for d in b.push(false, 999, &[], &[]) {
        drawn.extend(d.verts);
    }
    if let Some(d) = b.flush() {
        drawn.extend(d.verts);
    }
    assert!(b.empty());
    assert_eq!(drawn, all);
}
