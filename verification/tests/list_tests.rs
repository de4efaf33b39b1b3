use cons_list::List;

fn collect_u64(list: &List<u64>) -> Vec<u64> {
    let mut it = list.iter();
    let mut got: Vec<u64> = Vec::new();
    while let Some(v) = it.next() {
        got.push(*v);
    }
    got
}

#[test]
fn test_list() {
    let data = List::from_vec(vec![1, 2, 3, 3, 4, 5, 6]);
    println!("{}", data.debug_string());
}

#[test]
fn order_preserved() {
    let data = List::from_vec(vec![10, 20, 30, 40]);
    assert_eq!(collect_u64(&data), vec![10, 20, 30, 40]);
}

#[test]
fn empty_list_yields_nothing() {
    let data: List<u64> = List::new();
    assert_eq!(collect_u64(&data), Vec::<u64>::new());
}

#[test]
fn empty_list_renders_brackets() {
    let data: List<u64> = List::new();
    assert_eq!(data.debug_string(), "[]");
}

#[test]
fn empty_build_matches_new() {
    let data: List<u64> = List::from_vec(Vec::new());
    assert_eq!(collect_u64(&data), Vec::<u64>::new());
    assert_eq!(data.debug_string(), "[]");
}

#[test]
fn length_matches_input() {
    for n in 0..6u64 {
        let values: Vec<u64> = (0..n).collect();
        let data = List::from_vec(values.clone());
        assert_eq!(collect_u64(&data).len(), values.len());
    }
}

#[test]
fn iterating_twice_gives_same_sequence() {
    let data = List::from_vec(vec![7, 8, 9]);
    let first = collect_u64(&data);
    let second = collect_u64(&data);
    assert_eq!(first, second);
    assert_eq!(first, vec![7, 8, 9]);
}

#[test]
fn duplicates_are_preserved() {
    let data = List::from_vec(vec![1, 2, 2, 3]);
    assert_eq!(collect_u64(&data), vec![1, 2, 2, 3]);
}

#[test]
fn formatting_scenario() {
    let data = List::from_vec(vec![1, 2, 3, 3, 4, 5, 6]);
    assert_eq!(data.debug_string(), "[1, 2, 3, 3, 4, 5, 6]");
}

#[test]
fn single_element() {
    let data = List::from_vec(vec![42]);
    let mut it = data.iter();
    assert_eq!(it.next(), Some(&42));
    assert_eq!(it.next(), None);
    assert_eq!(data.debug_string(), "[42]");
}

#[test]
fn exhaustion_is_sticky() {
    let data = List::from_vec(vec![5]);
    let mut it = data.iter();
    assert_eq!(it.next(), Some(&5));
    assert_eq!(it.next(), None);
    assert_eq!(it.next(), None);
    assert_eq!(it.next(), None);
}

#[test]
fn multi_digit_rendering() {
    let data = List::from_vec(vec![0, 10, 12345, u64::MAX]);
    assert_eq!(data.debug_string(), "[0, 10, 12345, 18446744073709551615]");
}

#[test]
fn other_element_types() {
    let data = List::from_vec(vec![String::from("a"), String::from("bc")]);
    let mut it = data.iter();
    assert_eq!(it.next().map(|s| s.as_str()), Some("a"));
    assert_eq!(it.next().map(|s| s.as_str()), Some("bc"));
    assert_eq!(it.next(), None);
}
