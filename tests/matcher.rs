use lexington::util::ResetIterator;
use lexington::{Combine, Matcher};

fn cursor(s: &str) -> ResetIterator {
    ResetIterator::new(s.chars().collect())
}

#[test]
fn test_01() {
    let mut input = cursor("(");
    let matcher = '(';
    assert!(matcher.matches(&mut input));
    assert_eq!(input.next(), None);
}

#[test]
fn test_02() {
    let mut input = cursor("(abc");
    let matcher = '(';
    assert!(matcher.matches(&mut input));
    assert_eq!(input.next(), Some('a'));
}

#[test]
fn test_03() {
    let mut input = cursor("(");
    let matcher = '('.or(')');
    assert!(matcher.matches(&mut input));
    assert_eq!(input.next(), None);
}

#[test]
fn test_04() {
    let mut input = cursor(")");
    let matcher = '('.or(')');
    assert!(matcher.matches(&mut input));
    assert_eq!(input.next(), None);
}

#[test]
fn test_05() {
    let mut input = cursor("((((");
    let matcher = '('.one_or_more();
    assert!(matcher.matches(&mut input));
    assert_eq!(input.next(), None);
}

#[test]
fn test_06() {
    let mut input = cursor(")");
    let matcher = '('.or(')').one_or_more();
    assert!(matcher.matches(&mut input));
    assert_eq!(input.next(), None);
}
