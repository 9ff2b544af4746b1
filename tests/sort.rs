use chanlib::sort::bubblesort::Bubblesort;
use chanlib::sort::insertionsort::InsertionSort;
use chanlib::sort::quicksort::QuickSort;
use chanlib::sort::selectionsort::SelectionSort;
use chanlib::sort::Sort;

fn do_sort<T: Sort>() {
    let mut arr = vec![4, 2, 5, 3, 1];
    T::sort(&mut arr);
    assert_eq!(arr, [1, 2, 3, 4, 5]);
}

fn check_sorts_like_std<T: Sort>() {
    let cases: Vec<Vec<i32>> = vec![
        vec![],
        vec![7],
        vec![2, 2, 2],
        vec![3, 1, 2, 3, 1, 2],
        vec![9, 8, 7, 6, 5, 4, 3, 2, 1, 0],
        vec![i32::MAX, i32::MIN, 0, -1, 1],
        vec![1, 2, 3, 4],
    ];
    for case in cases {
        let mut got = case.clone();
        T::sort(&mut got);
        let mut want = case.clone();
        want.sort();
        assert_eq!(got, want);
    }
}

struct StdSorter;
impl Sort for StdSorter {
    fn sort(v: &mut Vec<i32>) {
        v.sort();
    }
}

#[test]
fn test_std() {
    do_sort::<StdSorter>();
}

#[test]
fn test_bubble() {
    do_sort::<Bubblesort>();
}

#[test]
fn test_insertion() {
    do_sort::<InsertionSort>();
}

#[test]
fn test_selection() {
    do_sort::<SelectionSort>();
}

#[test]
fn test_quick() {
    do_sort::<QuickSort>();
}

#[test]
fn sorts_agree_with_std_on_edge_cases() {
    check_sorts_like_std::<Bubblesort>();
    check_sorts_like_std::<InsertionSort>();
    check_sorts_like_std::<SelectionSort>();
    check_sorts_like_std::<QuickSort>();
}

#[test]
fn swap_entries_exchanges_two_places() {
    let mut v = vec![1, 2, 3];
    chanlib::sort::swap_entries(&mut v, 0, 2);
    assert_eq!(v, vec![3, 2, 1]);
}
