use shyper::text::{contains, decimal, hex, replace_all, same_text};

#[test]
fn decimal_is_plain() {
    assert_eq!(decimal(0), "0");
    assert_eq!(decimal(9), "9");
    assert_eq!(decimal(10), "10");
    assert_eq!(decimal(1024), "1024");
    assert_eq!(decimal(u64::MAX), u64::MAX.to_string());
}

#[test]
fn hex_is_lower_case() {
    assert_eq!(hex(0), "0");
    assert_eq!(hex(15), "f");
    assert_eq!(hex(0x60007000), "60007000");
    assert_eq!(hex(0xdeadbeef), "deadbeef");
    assert_eq!(hex(u64::MAX), format!("{:x}", u64::MAX));
}

#[test]
fn different_numbers_are_written_differently() {
    for a in 0..40u64 {
        for b in 0..40u64 {
            assert_eq!(decimal(a) == decimal(b), a == b);
            assert_eq!(hex(a) == hex(b), a == b);
        }
    }
}

#[test]
fn texts_are_compared() {
    assert!(same_text("ab", "ab"));
    assert!(!same_text("ab", "abc"));
    assert!(same_text("", ""));
}

#[test]
fn contains_finds_substrings() {
    assert!(contains("dos/mbr boot sector", "boot sector"));
    assert!(contains("abc", "abc"));
    assert!(contains("abc", ""));
    assert!(contains("", ""));
    assert!(contains("aab", "ab"));
    assert!(!contains("abc", "abcd"));
    assert!(!contains("ac", "b"));
    assert!(contains("größe", "ß"));
}

#[test]
fn replace_all_is_leftmost_without_overlap() {
    assert_eq!(replace_all("aaa", "aa", "b"), "ba");
    assert_eq!(replace_all("x=1 x=2", "x=", "yy="), "yy=1 yy=2");
    assert_eq!(replace_all("", "a", "b"), "");
    assert_eq!(replace_all("äbä", "ä", "o"), "obo");
    let line = "console=ttyS0 root=/dev/vda rw root=/dev/vda";
    assert_eq!(
        replace_all(line, "root=/dev/vda", "root=/dev/vda1"),
        line.replace("root=/dev/vda", "root=/dev/vda1")
    );
}

#[test]
fn replace_of_absent_text_changes_nothing() {
    assert_eq!(replace_all("root=/dev/sda", "root=/dev/vda", "x"), "root=/dev/sda");
}
