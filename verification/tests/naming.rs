use volume_backup::naming::{archive_name, sanitize};

#[test]
fn sanitize_replaces_every_separator() {
    assert_eq!(sanitize("/a/b"), "_a_b");
    assert_eq!(sanitize("/var/lib/db"), "_var_lib_db");
    assert_eq!(sanitize("//"), "__");
}

#[test]
fn sanitize_keeps_what_is_no_separator() {
    assert_eq!(sanitize(""), "");
    assert_eq!(sanitize("data"), "data");
    assert_eq!(sanitize("a_b.c-d"), "a_b.c-d");
    assert_eq!(sanitize("\\srv\\x"), "\\srv\\x");
    assert_eq!(sanitize("/données/été"), "_données_été");
}

#[test]
fn sanitize_is_idempotent() {
    for path in ["/a/b", "", "/", "plain", "/var/lib/db/", "a/_/b"] {
        let once = sanitize(path);
        assert_eq!(sanitize(&once), once);
        assert!(!once.contains('/'));
        assert_eq!(once.chars().count(), path.chars().count());
    }
}

#[test]
fn sanitize_tells_paths_without_underscore_apart() {
    let paths = ["/data", "/data/a", "/dat/aa", "/var/lib/db", "data/", ""];
    for a in paths {
        for b in paths {
            assert_eq!(sanitize(a) == sanitize(b), a == b);
        }
    }
    assert_eq!(sanitize("/a_b"), sanitize("/a/b"));
}

#[test]
fn archive_name_joins_name_path_and_suffix() {
    assert_eq!(archive_name("web", "/data"), "web_data.tar");
    assert_eq!(archive_name("db", "/var/lib/db"), "db_var_lib_db.tar");
    assert_eq!(archive_name("", ""), ".tar");
    assert_eq!(archive_name("web", "data"), "webdata.tar");
}
