use nexus::risk::dependence::vine_copula_builder::{
    c_vine_structure, d_vine_structure, VineEdge, VineLevel,
};

fn edge(var1: usize, var2: usize, conditioning_set: Vec<usize>) -> VineEdge {
    VineEdge { var1, var2, conditioning_set }
}

#[test]
fn test_c_vine_construction() {
    // The C-vine ordering of the three-variable correlation matrix
    // [[1, .5, .3], [.5, 1, .4], [.3, .4, 1]]: the variable with the
    // strongest total correlation first.
    let order = vec![1, 0, 2];
    let trees = c_vine_structure(&order).unwrap();
    assert_eq!(order.len(), 3);
    assert!(!trees.is_empty());
    assert_eq!(
        trees,
        vec![
            VineLevel { level: 1, edges: vec![edge(1, 0, vec![]), edge(1, 2, vec![])] },
            VineLevel { level: 2, edges: vec![edge(1, 1, vec![0])] },
        ]
    );
}

#[test]
fn test_d_vine_construction() {
    // All pairs equally correlated: the ordering keeps the variables in place.
    let order = vec![0, 1, 2, 3];
    let trees = d_vine_structure(&order).unwrap();
    assert_eq!(order.len(), 4);
    assert_eq!(
        trees,
        vec![
            VineLevel { level: 1, edges: vec![edge(0, 1, vec![]), edge(1, 2, vec![]), edge(2, 3, vec![])] },
            VineLevel { level: 2, edges: vec![edge(0, 2, vec![1]), edge(1, 3, vec![2])] },
            VineLevel { level: 3, edges: vec![edge(0, 1, vec![2])] },
        ]
    );
}

#[test]
fn empty_order_builds_no_vine() {
    assert_eq!(c_vine_structure(&vec![]), None);
    assert_eq!(d_vine_structure(&vec![]), None);
}

#[test]
fn single_variable_gives_one_empty_tree() {
    let expected = vec![VineLevel { level: 1, edges: vec![] }];
    assert_eq!(c_vine_structure(&vec![7]), Some(expected));
    let expected = vec![VineLevel { level: 1, edges: vec![] }];
    assert_eq!(d_vine_structure(&vec![7]), Some(expected));
}

#[test]
fn c_vine_edges_all_start_at_the_root() {
    let order = vec![3, 1, 4, 0, 2];
    let trees = c_vine_structure(&order).unwrap();
    let sizes: Vec<usize> = trees.iter().map(|t| t.edges.len()).collect();
    assert_eq!(sizes, vec![4, 6, 15]);
    for tree in &trees {
        for e in &tree.edges {
            assert_eq!(e.var1, 3);
        }
    }
}

#[test]
fn c_vine_with_a_missing_level_is_not_built() {
    // For six variables the fourth level has no edge, so the fifth has no
    // predecessor.
    assert_eq!(c_vine_structure(&vec![0, 1, 2, 3, 4, 5]), None);
}

#[test]
fn d_vine_level_sizes_shrink_by_one() {
    let order: Vec<usize> = (0..7).collect();
    let trees = d_vine_structure(&order).unwrap();
    assert_eq!(trees.len(), 6);
    for (k, tree) in trees.iter().enumerate() {
        assert_eq!(tree.level, k + 1);
        assert_eq!(tree.edges.len(), 6 - k);
    }
}
