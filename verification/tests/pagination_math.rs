//! Page arithmetic: the last page is the ceiling of total over limit.

use ponzu_back::pagination::last_page_for;

#[test]
fn no_records_means_no_pages() {
    assert_eq!(last_page_for(0, 10), 0);
    assert_eq!(last_page_for(0, 1), 0);
}

#[test]
fn one_record_fills_one_page() {
    assert_eq!(last_page_for(1, 10), 1);
}

#[test]
fn twenty_one_records_at_ten_a_page_need_three_pages() {
    assert_eq!(last_page_for(21, 10), 3);
}

#[test]
fn exact_multiples_need_no_extra_page() {
    assert_eq!(last_page_for(20, 10), 2);
    assert_eq!(last_page_for(10, 10), 1);
}

#[test]
fn limit_one_gives_one_page_per_record() {
    assert_eq!(last_page_for(7, 1), 7);
}

#[test]
fn large_totals_do_not_overflow() {
    assert_eq!(last_page_for(u64::MAX, 1), u64::MAX);
    assert_eq!(last_page_for(u64::MAX, u64::MAX), 1);
}
