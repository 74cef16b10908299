use std::path::{Path, PathBuf};
use zephyrfs_cli::paths::{
    path_extension, path_file_name, path_file_stem, path_join, path_with_extension,
    path_with_file_name,
};

const CASES: &[&str] = &[
    "", "/", ".", "..", "./", "../", "a", "a/", "a/.", "a/..", "/a", "//a", "a//b", "a/./b",
    "./a", "./a/", "./.", "/.", ".bashrc", "a.b.c", "a.", "..x", "dir/a.txt/", "dir/a.txt/.",
    "a/b/../c", "/usr/bin/", "tmp/foo.txt", "foo.txt/.", "foo.txt/.//", "foo.txt/..",
    "x/.hidden", "x/.hidden.txt", "archive.tar.gz", "/root.d/file", "dir//a.txt", "./a.zfs",
    "/a.zfs", "a.txt.zfs", "naïve/ünï.cödé", "...", "a/...", ". /a",
];


#[test]
fn file_name_matches_std() {
    for c in CASES {
        assert_eq!(path_file_name(c), Path::new(c).file_name().map(|x| x.to_str().unwrap().to_string()), "file_name of {:?}", c);
    }
}

#[test]
fn file_stem_matches_std() {
    for c in CASES {
        assert_eq!(path_file_stem(c), Path::new(c).file_stem().map(|x| x.to_str().unwrap().to_string()), "file_stem of {:?}", c);
    }
}

#[test]
fn extension_matches_std() {
    for c in CASES {
        assert_eq!(path_extension(c), Path::new(c).extension().map(|x| x.to_str().unwrap().to_string()), "extension of {:?}", c);
    }
}

#[test]
fn join_matches_std() {
    for a in CASES {
        for b in ["x", ".zephyrfs", "/abs", "", "a/b"] {
            let expected = Path::new(a).join(b).to_str().unwrap().to_string();
            assert_eq!(path_join(a, b), expected, "join of {:?} and {:?}", a, b);
        }
    }
}

#[test]
fn with_extension_matches_std() {
    for c in CASES {
        for e in ["zfs", "txt.zfs", "", "decrypted"] {
            let mut p = PathBuf::from(c);
            p.set_extension(e);
            assert_eq!(
                path_with_extension(c, e),
                p.to_str().unwrap().to_string(),
                "set_extension of {:?} to {:?}",
                c,
                e
            );
        }
    }
}

#[test]
fn with_file_name_matches_std() {
    for c in CASES {
        for n in ["b", "x.txt", "stem"] {
            let mut p = PathBuf::from(c);
            p.set_file_name(n);
            assert_eq!(
                path_with_file_name(c, n),
                p.to_str().unwrap().to_string(),
                "set_file_name of {:?} to {:?}",
                c,
                n
            );
        }
    }
}

