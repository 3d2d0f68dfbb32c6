use lumina::typesetting::pagination::{paginate_flow, PageSlice};

#[test]
fn returns_empty_for_no_items() {
    let pages = paginate_flow(&[], 120);
    assert!(pages.is_empty());
}

#[test]
fn splits_when_items_overflow_page_height() {
    let pages = paginate_flow(&[10, 10, 10], 25);

    assert_eq!(
        pages,
        vec![
            PageSlice {
                start: 0,
                end: 2,
                used_height: 20
            },
            PageSlice {
                start: 2,
                end: 3,
                used_height: 10
            }
        ]
    );
}

#[test]
fn starts_new_page_after_exact_fit() {
    let pages = paginate_flow(&[10, 15, 5], 25);

    assert_eq!(
        pages,
        vec![
            PageSlice {
                start: 0,
                end: 2,
                used_height: 25
            },
            PageSlice {
                start: 2,
                end: 3,
                used_height: 5
            }
        ]
    );
}

#[test]
fn oversized_item_forms_a_page() {
    let pages = paginate_flow(&[30, 5], 20);

    assert_eq!(
        pages,
        vec![
            PageSlice {
                start: 0,
                end: 1,
                used_height: 30
            },
            PageSlice {
                start: 1,
                end: 2,
                used_height: 5
            }
        ]
    );
}

#[test]
fn ignores_negative_heights_and_keeps_zero_height_with_content() {
    let pages = paginate_flow(&[-5, 0, 6, 0, 6], 10);

    assert_eq!(
        pages,
        vec![
            PageSlice {
                start: 0,
                end: 4,
                used_height: 6
            },
            PageSlice {
                start: 4,
                end: 5,
                used_height: 6
            }
        ]
    );
}

#[test]
fn negative_page_height_puts_each_item_on_its_own_page() {
    let pages = paginate_flow(&[3, 4], -10);
    assert_eq!(
        pages,
        vec![
            PageSlice { start: 0, end: 1, used_height: 3 },
            PageSlice { start: 1, end: 2, used_height: 4 }
        ]
    );
}

#[test]
fn heights_saturate_instead_of_overflowing() {
    let pages = paginate_flow(&[i32::MAX, 0], i32::MAX);
    assert_eq!(pages, vec![PageSlice { start: 0, end: 2, used_height: i32::MAX }]);
}
