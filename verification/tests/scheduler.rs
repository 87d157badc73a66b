use gpu_bvh::calculate_passes;
use gpu_bvh::BvhNode;
use gpu_bvh::CombineNodePass;

#[test]
fn mock_bvh() {
    const N: usize = 7;

    // expected for n = 7:
    //                               ( pass 0        ) ( pass 1  ) ( root )
    // nodes           0 1 2 3 4 5 6 [0 1] [2 3] [4 5] [6 7] [8 9] [10 11]
    // node indices    0 1 2 3 4 5 6 7     8     9     10    11    12

    let mut aabbs: [usize; N * 2] = [0; N * 2];
    for i in 0..N {
        aabbs[i] = i;
    }
    let mut nodes = [BvhNode::new_leaf(0); N * 2];

    let mut passes = Vec::new();
    calculate_passes(N, &mut passes);
    assert_eq!(
        passes.as_slice(),
        &[
            CombineNodePass {
                src_start: 0,
                dst_start: 7,
                parent_count: 3
            },
            CombineNodePass {
                src_start: 6,
                dst_start: 10,
                parent_count: 2
            },
            CombineNodePass {
                src_start: 10,
                dst_start: 12,
                parent_count: 1
            },
        ]
    );

    for i in 0..N {
        nodes[i] = BvhNode::new_leaf(u32::try_from(i).unwrap());
    }

    for &CombineNodePass {
        src_start,
        dst_start,
        parent_count,
    } in &passes
    {
        for i in 0..parent_count {
            let src = src_start + i * 2;
            let dst = usize::try_from(dst_start + i).unwrap();
            nodes[dst] = BvhNode::new_tree(src);
            aabbs[dst] = dst; // combine AABBs on GPU
        }
    }

    let node_count = usize::try_from(passes.last().unwrap().dst_start).unwrap();
    assert_eq!(
        &nodes[0..=node_count],
        &[
            // Leaves
            BvhNode::new_leaf(0),
            BvhNode::new_leaf(1),
            BvhNode::new_leaf(2),
            BvhNode::new_leaf(3),
            BvhNode::new_leaf(4),
            BvhNode::new_leaf(5),
            BvhNode::new_leaf(6),
            // Level 0
            BvhNode::new_tree(0),
            BvhNode::new_tree(2),
            BvhNode::new_tree(4),
            // Level 1
            BvhNode::new_tree(6),
            BvhNode::new_tree(8),
            // Root
            BvhNode::new_tree(10),
        ]
    );
    assert_eq!(aabbs.as_slice(), &[0, 1, 2, 3, 4, 5, 6, 7, 8, 9, 10, 11, 12, 0]);
}

fn passes_for(n: usize) -> Vec<CombineNodePass> {
    let mut passes = Vec::new();
    calculate_passes(n, &mut passes);
    passes
}

#[test]
fn pass_count_is_ceil_log2() {
    assert_eq!(passes_for(0).len(), 0);
    assert_eq!(passes_for(1).len(), 0);
    assert_eq!(passes_for(2).len(), 1);
    assert_eq!(passes_for(3).len(), 2);
    assert_eq!(passes_for(4).len(), 2);
    assert_eq!(passes_for(5).len(), 3);
    assert_eq!(passes_for(7).len(), 3);
    assert_eq!(passes_for(8).len(), 3);
    assert_eq!(passes_for(9).len(), 4);
    assert_eq!(passes_for(1024).len(), 10);
    assert_eq!(passes_for(1025).len(), 11);
}

#[test]
fn every_leaf_is_read_exactly_once() {
    for n in 2..200usize {
        let passes = passes_for(n);
        let mut read_count = vec![0usize; n];
        for p in &passes {
            let src = usize::try_from(p.src_start).unwrap();
            let count = usize::try_from(p.parent_count).unwrap();
            for idx in src..src + 2 * count {
                if idx < n {
                    read_count[idx] += 1;
                }
            }
        }
        for (idx, &c) in read_count.iter().enumerate() {
            assert_eq!(c, 1, "leaf {} of {} read {} times", idx, n, c);
        }
    }
}

#[test]
fn root_is_the_last_pass_destination() {
    for n in 2..200usize {
        let passes = passes_for(n);
        let last = passes.last().unwrap();
        // The last pass writes a single node, the root, at index 2n - 2;
        // the valid node range is [0, 2n - 1).
        assert_eq!(last.parent_count, 1);
        assert_eq!(usize::try_from(last.dst_start).unwrap(), 2 * n - 2);
        let node_count = 2 * n - 1;
        assert_eq!(usize::try_from(last.dst_start).unwrap(), node_count - 1);
    }
}

#[test]
fn scheduling_is_idempotent() {
    for n in [0usize, 1, 2, 5, 7, 100, 12345] {
        let first = passes_for(n);
        let second = passes_for(n);
        assert_eq!(first, second);
    }
}

#[test]
fn odd_leaf_carry_positions() {
    // n = 5: the first level merges two pairs and carries leaf 4; the
    // carried leaf must appear in the next pass's read window exactly
    // once, neither duplicated nor skipped.
    let passes = passes_for(5);
    assert_eq!(
        passes.as_slice(),
        &[
            CombineNodePass {
                src_start: 0,
                dst_start: 5,
                parent_count: 2
            },
            CombineNodePass {
                src_start: 4,
                dst_start: 7,
                parent_count: 1
            },
            CombineNodePass {
                src_start: 6,
                dst_start: 8,
                parent_count: 1
            },
        ]
    );

    // Leaf 4 is carried past pass 0 (which reads [0, 4)) and read by
    // pass 1 (which reads [4, 6)); no later pass reads it again.
    let mut reads_of_carried = 0;
    for p in &passes {
        let src = u32::try_from(p.src_start).unwrap();
        if src <= 4 && 4 < src + 2 * p.parent_count {
            reads_of_carried += 1;
        }
    }
    assert_eq!(reads_of_carried, 1);
    assert!(passes[0].src_start + 2 * passes[0].parent_count <= 4);

    // Root sits at the final dst_start, 2n - 2 == 8.
    assert_eq!(passes.last().unwrap().dst_start, 8);
}

#[test]
fn node_encoding_round_trips() {
    let leaf = BvhNode::new_leaf(42);
    assert!(!leaf.is_tree());
    assert_eq!(leaf.payload(), 42);
    assert_eq!(leaf.index, 42);

    let tree = BvhNode::new_tree(10);
    assert!(tree.is_tree());
    assert_eq!(tree.payload(), 10);
    assert_eq!(tree.index, 10 | gpu_bvh::BVH_NODE_TREE_FLAG);
    assert_eq!(tree.index, 0x8000_000A);

    let top = BvhNode::new_tree(0x7FFF_FFFF);
    assert!(top.is_tree());
    assert_eq!(top.payload(), 0x7FFF_FFFF);
    assert_eq!(top.index, u32::MAX);
}

#[test]
fn dispatch_arithmetic_covers_all_parents() {
    assert_eq!(gpu_bvh::workgroup_count(0), 0);
    assert_eq!(gpu_bvh::workgroup_count(1), 1);
    assert_eq!(gpu_bvh::workgroup_count(64), 1);
    assert_eq!(gpu_bvh::workgroup_count(65), 2);
    assert_eq!(gpu_bvh::workgroup_count(6400), 100);

    assert_eq!(gpu_bvh::dispatch_dims(0), (0, 0));
    assert_eq!(gpu_bvh::dispatch_dims(100), (100, 1));
    assert_eq!(gpu_bvh::dispatch_dims(65534), (65534, 1));
    let dims = gpu_bvh::dispatch_dims(70000);
    assert_eq!(dims, (65535, 2));
    assert!(u64::from(dims.0) * u64::from(dims.1) >= 70000);
    for total in [1u32, 65535, 65536, 0x200_0000] {
        let (x, y) = gpu_bvh::dispatch_dims(total);
        assert!(x <= 65535 && y <= 65535);
        assert!(u64::from(x) * u64::from(y) >= u64::from(total));
    }
}
