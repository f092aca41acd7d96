use ccargo::paths::normalize;

fn norm(s: &str) -> Vec<u8> {
    normalize(s.as_bytes())
}

#[test]
fn normalize_() {
    assert_eq!(b"a/b/c".to_vec(), norm("a/b/c"));
    assert_eq!(b"a/b/c/e".to_vec(), norm("a/b/c/./e"));
    assert_eq!(b"a/b/e".to_vec(), norm("a/b/c/../e"));
}

#[test]
fn normalize_absolute_and_idempotent() {
    assert_eq!(b"/a/b".to_vec(), norm("/a/./b"));
    assert_eq!(b"/e".to_vec(), norm("/a/../../e"));
    assert_eq!(b"e".to_vec(), norm("a/../../e"));
    assert_eq!(b"".to_vec(), norm(""));
    let cases = ["a/b/c/./e", "a//b", "/x/../y/.", "../..", "a/b/../../../c"];
    for c in cases {
        let once = norm(c);
        let twice = normalize(&once);
        assert_eq!(once, twice);
    }
}

#[test]
fn join_and_strip() {
    assert_eq!(b"/r/s".to_vec(), ccargo::paths::join(b"/r", b"s"));
    assert_eq!(b"/s".to_vec(), ccargo::paths::join(b"/r", b"/s"));
    assert_eq!(
        Some(b"s/t.c".to_vec()),
        ccargo::paths::strip_prefix(b"/r/s/t.c", b"/r")
    );
    assert_eq!(None, ccargo::paths::strip_prefix(b"/q/s", b"/r"));
    assert_eq!(b"/r/a/b.o".to_vec(), ccargo::paths::abs(b"a/./b.o", b"/r"));
}

#[test]
fn file_name_parts() {
    assert_eq!(b"c.txt".to_vec(), ccargo::paths::file_name(b"a/b/c.txt"));
    assert_eq!(b"a/b".to_vec(), ccargo::paths::parent(b"a/b/c.txt"));
    assert_eq!(b"a/b/c.o".to_vec(), ccargo::paths::with_extension(b"a/b/c.txt", b"o"));
    assert_eq!(b"a/b/c".to_vec(), ccargo::paths::with_extension(b"a/b/c.txt", b""));
    assert_eq!(b"a/b.d/c.o".to_vec(), ccargo::paths::with_extension(b"a/b.d/c", b"o"));
    assert_eq!(Some(b"txt".to_vec()), ccargo::paths::extension(b"a/b/c.txt"));
    assert_eq!(None, ccargo::paths::extension(b"a/b/noext"));
}
