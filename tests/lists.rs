use wtfm::wizard::lists::{pick_next, remove_selected};

fn texts(items: &[&str]) -> Vec<String> {
    items.iter().map(|s| s.to_string()).collect()
}

#[test]
fn removal_takes_out_exactly_the_chosen_items() {
    let mut list = texts(&["a", "b", "c", "d", "e"]);
    remove_selected(&mut list, &vec![0, 2, 3]);
    assert_eq!(list, texts(&["b", "e"]));
}

#[test]
fn removal_of_nothing_and_of_everything() {
    let mut list = texts(&["a", "b"]);
    remove_selected(&mut list, &vec![]);
    assert_eq!(list, texts(&["a", "b"]));
    remove_selected(&mut list, &vec![0, 1]);
    assert!(list.is_empty());
}

#[test]
fn picking_every_item_gives_a_permutation() {
    let original = texts(&["x", "y", "z"]);
    let mut pool = original.clone();
    let mut placed: Vec<String> = Vec::new();
    pick_next(&mut pool, &mut placed, 2);
    pick_next(&mut pool, &mut placed, 0);
    pick_next(&mut pool, &mut placed, 0);
    assert!(pool.is_empty());
    assert_eq!(placed, texts(&["z", "x", "y"]));
    let mut a = placed.clone();
    let mut b = original.clone();
    a.sort();
    b.sort();
    assert_eq!(a, b);
}
