use regnotes::lexical::strncmp;
use std::cmp::Ordering;

#[test]
fn strncmp_equal_within_the_bound() {
    assert_eq!(strncmp("RAX", "RAX", 3), Ordering::Equal);
    assert_eq!(strncmp("RAX arg1", "RAX", 3), Ordering::Equal);
    assert_eq!(strncmp("abcX", "abcY", 3), Ordering::Equal);
    assert_eq!(strncmp("abc", "abd", 2), Ordering::Equal);
}

#[test]
fn strncmp_first_difference_decides() {
    assert_eq!(strncmp("abc", "abd", 3), Ordering::Less);
    assert_eq!(strncmp("abd", "abc", 3), Ordering::Greater);
    assert_eq!(strncmp("R8", "RAX", 3), Ordering::Less);
    assert_eq!(strncmp("RAX", "R8", 3), Ordering::Greater);
    assert_eq!(strncmp("b", "abc", 3), Ordering::Greater);
}

#[test]
fn strncmp_shorter_side_comes_first() {
    assert_eq!(strncmp("R8", "R8 ", 3), Ordering::Less);
    assert_eq!(strncmp("R8 ", "R8", 3), Ordering::Greater);
    assert_eq!(strncmp("", "a", 3), Ordering::Less);
    assert_eq!(strncmp("a", "", 3), Ordering::Greater);
    assert_eq!(strncmp("R8", "R8", 3), Ordering::Equal);
    assert_eq!(strncmp("", "", 3), Ordering::Equal);
}

#[test]
fn strncmp_with_zero_length_is_equal() {
    assert_eq!(strncmp("abc", "xyz", 0), Ordering::Equal);
    assert_eq!(strncmp("", "xyz", 0), Ordering::Equal);
}

#[test]
fn strncmp_with_a_bound_past_both_ends() {
    assert_eq!(strncmp("abc", "abc", 10), Ordering::Equal);
    assert_eq!(strncmp("abc", "abcd", 10), Ordering::Less);
    assert_eq!(strncmp("abc", "abcd", usize::MAX), Ordering::Less);
}

#[test]
fn strncmp_is_case_sensitive() {
    assert_eq!(strncmp("rax", "RAX", 3), Ordering::Greater);
    assert_eq!(strncmp("RAX", "rax", 3), Ordering::Less);
}

#[test]
fn strncmp_orders_by_scalar_value() {
    assert_eq!(strncmp("\u{e9}", "z", 1), Ordering::Greater);
    assert_eq!(strncmp("z", "\u{e9}", 1), Ordering::Less);
    assert_eq!(strncmp("\u{1f600}", "\u{ffff}", 1), Ordering::Greater);
    assert_eq!(strncmp("a\u{e9}b", "a\u{e9}c", 2), Ordering::Equal);
}

#[test]
fn strncmp_agrees_with_the_iterator_comparison() {
    let words = ["", "R", "R8", "R8 ", "RAX", "RAx", "rax", "R10", "R1", "\u{e9}", "end "];
    for a in words {
        for b in words {
            for n in 0..5 {
                assert_eq!(
                    strncmp(a, b, n),
                    a.chars().take(n).cmp(b.chars().take(n)),
                    "{:?} {:?} {}",
                    a,
                    b,
                    n
                );
            }
        }
    }
}
