use chanlib::func::{accept_fn, accept_fn_mut, accept_fn_once, bar};

#[test]
fn fn_item_is_zero_size() {
    assert_eq!(std::mem::size_of_val(&bar::<i32>), 0);
    assert_eq!(std::mem::size_of_val(&bar::<u32>), 0);
}

#[test]
fn closure_capturing_nothing() {
    let f = |_| {
        let _ = 1;
    };
    assert_eq!(std::mem::size_of_val(&f), 0);

    accept_fn(f);
    accept_fn_mut(f);
    accept_fn_once(f);
}

#[test]
fn closure_capturing_shared_reference() {
    let s = "x".to_owned();
    // Borrowed explicitly: a bare `let _ = s;` captures nothing under edition 2021.
    let f = |_| {
        let _r = &s;
    };
    assert_eq!(std::mem::size_of_val(&f), 8);

    accept_fn(f);
    accept_fn_mut(f);
    accept_fn_once(f);
}

#[test]
fn closure_capturing_mutable_reference() {
    let mut s = "x".to_owned();
    let mut f = |_| {
        s.clear();
    };
    assert_eq!(std::mem::size_of_val(&f), 8);

    accept_fn_mut(&mut f);
    accept_fn_once(f);
}

#[test]
fn closure_capturing_ownership_consume() {
    let s = "x".to_owned();
    let f = |_| drop(s);
    assert_eq!(std::mem::size_of_val(&f), 24);

    accept_fn_once(f);
}

#[test]
fn closures_are_called_once_with_one() {
    let mut seen = Vec::new();
    accept_fn_mut(|x| seen.push(x));
    assert_eq!(seen, vec![1]);
    let mut total = 0u32;
    accept_fn_once(|x| total += x * 5);
    assert_eq!(total, 5);
}
