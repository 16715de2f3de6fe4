use std::collections::{HashMap, HashSet};

use arcade_physics::terrain::wave_function_collapse::{collapse_cell, collapse_with, compatible};
use arcade_physics::terrain::wave_function_collapse::{count_of, most_frequent, passes_all};

fn set_of(values: &[u16]) -> HashSet<u16> {
    values.iter().copied().collect()
}

fn rule_book(entries: &[(u16, &[u16])]) -> HashMap<u16, HashSet<u16>> {
    let mut rules: HashMap<u16, HashSet<u16>> = HashMap::new();
    for (tile, beside) in entries {
        rules.insert(*tile, beside.iter().copied().collect());
    }
    rules
}

#[test]
fn the_only_allowed_value_is_chosen() {
    let rules = rule_book(&[(1, &[1, 2]), (2, &[1, 2, 3]), (3, &[3, 2])]);
    let neighbors: Vec<u16> = vec![1, 1, 1, 2, 3, 3];
    assert_eq!(compatible(&rules, &neighbors), set_of(&[2]));
    for _ in 0..50 {
        assert_eq!(collapse_cell(&rules, &neighbors), 2);
    }
}

#[test]
fn a_drawn_value_is_always_an_allowed_one() {
    let rules = rule_book(&[(1, &[1, 2, 3, 9]), (2, &[1, 2, 3, 9]), (3, &[1, 2, 3]), (4, &[4])]);
    let neighbors: Vec<u16> = vec![1, 2, 7];
    let allowed = compatible(&rules, &neighbors);
    assert_eq!(allowed, set_of(&[1, 2, 3]));
    let mut seen: HashSet<u16> = HashSet::new();
    for _ in 0..400 {
        let value = collapse_cell(&rules, &neighbors);
        assert!(allowed.contains(&value));
        seen.insert(value);
    }
    assert!(seen.len() > 1);
}

#[test]
fn without_an_allowed_value_the_most_frequent_neighbor_wins() {
    let rules = rule_book(&[(1, &[1]), (2, &[2])]);
    assert!(compatible(&rules, &vec![1, 2, 2]).is_empty());
    assert_eq!(collapse_cell(&rules, &vec![1, 2, 2]), 2);
    assert_eq!(collapse_cell(&rules, &vec![2, 1]), 2);
    assert_eq!(collapse_cell(&rules, &vec![1, 2, 2, 1]), 1);
    let empty: HashMap<u16, HashSet<u16>> = HashMap::new();
    assert_eq!(collapse_cell(&empty, &vec![]), 0);
    assert_eq!(collapse_cell(&empty, &vec![5, 6, 6]), 6);
}

#[test]
fn neighbors_without_a_rule_do_not_constrain() {
    let rules = rule_book(&[(1, &[]), (2, &[])]);
    assert!(passes_all(&rules, &vec![7, 8], 1));
    assert!(passes_all(&rules, &vec![], 99));
    assert!(!passes_all(&rules, &vec![7, 1], 1));
    assert_eq!(compatible(&rules, &vec![7, 8]), set_of(&[1, 2]));
}

#[test]
fn most_frequent_prefers_the_earliest_among_equals() {
    assert_eq!(most_frequent(&vec![]), 0);
    assert_eq!(most_frequent(&vec![3, 1, 1, 3]), 3);
    assert_eq!(most_frequent(&vec![1, 3, 3, 1, 3]), 3);
    assert_eq!(most_frequent(&vec![9]), 9);
    assert_eq!(count_of(&vec![1, 3, 3, 1, 3], 3), 3);
    assert_eq!(count_of(&vec![1, 3, 3, 1, 3], 4), 0);
}

#[test]
fn the_draw_decides_only_where_something_is_allowed() {
    assert_eq!(collapse_with(&set_of(&[]), &vec![4, 4, 5], Some(9)), 4);
    assert_eq!(collapse_with(&set_of(&[7, 8]), &vec![4, 4, 5], Some(8)), 8);
    assert_eq!(collapse_with(&set_of(&[7, 8]), &vec![4, 4, 5], None), 0);
}
