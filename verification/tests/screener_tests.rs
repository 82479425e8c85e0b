use ngx_radar::screener::{
    first_min_index, group_by_name, last_max_index, rank_by_key, sort_key_from_arg, top_ranked,
    SortKey,
};

#[test]
fn ranking_is_descending_and_stable() {
    let keys = vec![5, 9, 5, -3, 9, 0];
    assert_eq!(rank_by_key(&keys), vec![1, 4, 0, 2, 5, 3]);
    assert_eq!(rank_by_key(&Vec::new()), Vec::<usize>::new());
    assert_eq!(rank_by_key(&vec![i64::MIN, i64::MAX]), vec![1, 0]);
}

#[test]
fn top_ranked_takes_a_prefix() {
    let keys = vec![1, 3, 2];
    assert_eq!(top_ranked(&keys, 2), vec![1, 2]);
    assert_eq!(top_ranked(&keys, 0), Vec::<usize>::new());
    assert_eq!(top_ranked(&keys, 10), vec![1, 2, 0]);
}

#[test]
fn groups_follow_first_appearance() {
    let names: Vec<String> = ["Finance", "Energy", "Finance", "Fintech", "Energy"]
        .iter()
        .map(|s| s.to_string())
        .collect();
    let g = group_by_name(&names);
    assert_eq!(g.names, vec!["Finance".to_string(), "Energy".to_string(), "Fintech".to_string()]);
    assert_eq!(g.group_of, vec![0, 1, 0, 2, 1]);
    let empty = group_by_name(&Vec::new());
    assert!(empty.names.is_empty() && empty.group_of.is_empty());
}

#[test]
fn extreme_positions() {
    assert_eq!(last_max_index(&vec![1, 7, 3, 7, 2]), Some(3));
    assert_eq!(first_min_index(&vec![4, 1, 3, 1, 2]), Some(1));
    assert_eq!(last_max_index(&Vec::new()), None);
    assert_eq!(first_min_index(&Vec::new()), None);
    assert_eq!(last_max_index(&vec![-2]), Some(0));
}

#[test]
fn sort_keys() {
    assert_eq!(sort_key_from_arg("volume"), SortKey::Volume);
    assert_eq!(sort_key_from_arg("price"), SortKey::Price);
    assert_eq!(sort_key_from_arg("change"), SortKey::AsFetched);
    assert_eq!(sort_key_from_arg("Volume"), SortKey::AsFetched);
}
