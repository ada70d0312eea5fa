use kakap::page::{
    Page, MAX_ITEMS_PER_PAGE, MAX_PAGE_NUMBER, MIN_ITEMS_PER_PAGE, MIN_PAGE_NUMBER,
};

#[test]
fn err_page_number_lower_than_min() {
    let res = Page::new(MIN_PAGE_NUMBER - 1, MIN_ITEMS_PER_PAGE);
    assert!(res.is_err());
}

#[test]
fn err_items_per_page_lower_than_min() {
    let res = Page::new(MIN_PAGE_NUMBER, MIN_ITEMS_PER_PAGE - 1);
    assert!(res.is_err());
}

#[test]
fn err_items_per_page_higher_than_max() {
    let res = Page::new(MIN_PAGE_NUMBER, MAX_ITEMS_PER_PAGE + 1);
    assert!(res.is_err());
}

#[test]
fn first() {
    let res = Page::first();

    assert_eq!(res.page_number, MIN_PAGE_NUMBER);
    assert_eq!(res.items_per_page, MAX_ITEMS_PER_PAGE);
}

#[test]
fn page_next() {
    let a = Page::first();
    let b = a.next();

    assert!(b.is_some());
    assert_eq!(a.page_number + 1, b.unwrap().page_number);
    assert_eq!(a.items_per_page, b.unwrap().items_per_page);
}

#[test]
fn last_next() {
    let a = Page::new(MAX_PAGE_NUMBER, MAX_ITEMS_PER_PAGE).ok();
    let b = a.and_then(|a| a.next());

    assert!(a.is_some());
    assert!(b.is_none());
}

#[test]
fn new_round_trips_in_bounds_fields() {
    let p = Page::new(10, 17).unwrap();
    assert_eq!(p.page_number, 10);
    assert_eq!(p.items_per_page, 17);
}

#[test]
fn last_next_with_other_page_size() {
    let a = Page::new(MAX_PAGE_NUMBER, 1).unwrap();
    assert!(a.next().is_none());
}

#[test]
fn each_violated_bound_names_its_own_message() {
    assert_eq!(
        Page::new(0, 100).err().unwrap().msg,
        "Invalid page, must be 1 or above"
    );
    assert_eq!(
        Page::new(1, 0).err().unwrap().msg,
        "Invalid limit, must be 1 or above"
    );
    assert_eq!(
        Page::new(1, 251).err().unwrap().msg,
        "Invalid limit, must be 250 or below"
    );
}
