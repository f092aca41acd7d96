use ccargo::graph::Graph;

fn sample() -> Graph<u64> {
    // b -> a, b -> c, c -> b, d -> b
    let mut g: Graph<u64> = Graph::new();
    g.add(10);
    g.add(20);
    g.add(30);
    g.add(40);
    g.link(20, 10);
    g.link(20, 30);
    g.link(30, 20);
    g.link(40, 20);
    g
}

#[test]
fn cycles_finds_the_scc() {
    let g = sample();
    let comps = g.cycles();
    assert_eq!(1, comps.len());
    let mut c = comps[0].clone();
    c.sort();
    // nodes 20 and 30 form the only non-trivial strongly connected component
    assert_eq!(vec![1usize, 2usize], c);
}

#[test]
fn cycles_empty_on_dag() {
    let mut g: Graph<u64> = Graph::new();
    g.add(1);
    g.add(2);
    g.link(1, 2);
    let comps = g.cycles();
    assert_eq!(0, comps.len());
}

#[test]
fn parallel_stages_partition_dag() {
    let mut g: Graph<u64> = Graph::new();
    // edges point at prerequisites: 3 -> 1, 3 -> 2, 4 -> 3
    g.add(1);
    g.add(2);
    g.add(3);
    g.add(4);
    g.link(3, 1);
    g.link(3, 2);
    g.link(4, 3);
    let stages = g.parallel_stages();
    // every node exactly once
    let mut seen: Vec<usize> = stages.iter().flatten().cloned().collect();
    seen.sort();
    assert_eq!(vec![0, 1, 2, 3], seen);
    // prerequisites come strictly earlier
    let stage_of = |v: usize| stages.iter().position(|s| s.contains(&v)).unwrap();
    assert!(stage_of(0) < stage_of(2));
    assert!(stage_of(1) < stage_of(2));
    assert!(stage_of(2) < stage_of(3));
}

#[test]
fn parallel_stages_stall_on_cycle() {
    let g = sample();
    let stages = g.parallel_stages();
    let seen: Vec<usize> = stages.iter().flatten().cloned().collect();
    // only the node outside every cycle path is released
    assert!(seen.contains(&0));
    assert!(!seen.contains(&1));
    assert!(!seen.contains(&2));
}

#[test]
fn remove_cycles_breaks_the_cycle() {
    let mut g = sample();
    let comps = g.cycles();
    let removed = g.remove_cycles(&comps);
    assert_eq!(1, removed.len());
    let again = g.cycles();
    assert_eq!(0, again.len());
    let stages = g.parallel_stages();
    let seen: Vec<usize> = stages.iter().flatten().cloned().collect();
    assert_eq!(4, seen.len());
}

#[test]
fn bitvec_set_get_clear() {
    let mut b = ccargo::graph::BitVec::with_size(200);
    assert!(!b.get(0));
    assert!(!b.get(199));
    b.set(63);
    b.set(64);
    b.set(199);
    assert!(b.get(63) && b.get(64) && b.get(199));
    assert!(!b.get(62) && !b.get(65) && !b.get(198));
    b.clear(64);
    assert!(!b.get(64) && b.get(63));
    b.reset();
    assert!(!b.get(63) && !b.get(199));
    assert_eq!(ccargo::graph::mask(3), 8);
    assert_eq!(ccargo::graph::mask(64), 1);
}
