use dprint_locator::text::{concatenate, starts_with};

#[test]
fn starts_with_accepts_a_prefix() {
    assert!(starts_with("dprint-0.50.0", "dprint-"));
}

#[test]
fn starts_with_accepts_the_whole_text() {
    assert!(starts_with("dprint-", "dprint-"));
}

#[test]
fn starts_with_accepts_the_empty_prefix() {
    assert!(starts_with("anything", ""));
    assert!(starts_with("", ""));
}

#[test]
fn starts_with_rejects_a_longer_prefix() {
    assert!(!starts_with("dprint", "dprint-"));
    assert!(!starts_with("", "d"));
}

#[test]
fn starts_with_rejects_a_difference() {
    assert!(!starts_with("dprintx0.50.0", "dprint-"));
    assert!(!starts_with("Dprint-0.50.0", "dprint-"));
    assert!(!starts_with("my-dprint-0.50.0", "dprint-"));
}

#[test]
fn starts_with_compares_characters_not_bytes() {
    assert!(starts_with("été-2", "été-"));
    assert!(!starts_with("ete-2", "été-"));
    assert!(!starts_with("é", "e"));
}

#[test]
fn starts_with_agrees_with_std() {
    let texts = ["", "d", "dprint", "dprint-", "dprint-1", "x-dprint-", "dprinT-", "é-", "éé"];
    for s in texts {
        for prefix in texts {
            assert_eq!(starts_with(s, prefix), s.starts_with(prefix));
        }
    }
}

#[test]
fn concatenate_puts_the_second_after_the_first() {
    assert_eq!(concatenate("dprint-", "0.50.0"), "dprint-0.50.0");
    assert_eq!(concatenate("", "b"), "b");
    assert_eq!(concatenate("a", ""), "a");
    assert_eq!(concatenate("", ""), "");
}
