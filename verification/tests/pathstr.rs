use dumbgram::pathstr::{file_name, file_stem, join, parent, with_file_name};
use std::path::Path;

const SAMPLES: &[&str] = &[
    "", "/", "//", ".", "./", "..", "../", "a", "a/", "a//", "a/b", "a//b", "a/b/", "a/b/.", "a/./b", "./a",
    "./a/", "/a", "//a", "/a/b", "/a/b/", "a/..", "a/../", "../a", ".bashrc", "dir/.bashrc", "x.tar.gz",
    "dir/x.tar.gz", "/etc/dumbgram/config.toml", "config.toml", "a/.", "/.", "/./", "a.b/", ".a.b",
];

fn std_parent(p: &str) -> Option<String> {
    Path::new(p).parent().map(|q| q.to_str().unwrap().to_string())
}

#[test]
fn parent_follows_std_path() {
    for p in SAMPLES {
        assert_eq!(parent(p), std_parent(p), "parent of {p:?}");
    }
}

#[test]
fn file_name_and_stem_follow_std_path() {
    for p in SAMPLES {
        let expected = Path::new(p).file_name().map(|n| n.to_str().unwrap().to_string());
        assert_eq!(file_name(p), expected, "file name of {p:?}");
        let expected = Path::new(p).file_stem().map(|n| n.to_str().unwrap().to_string());
        assert_eq!(file_stem(p), expected, "file stem of {p:?}");
    }
}

#[test]
fn with_file_name_and_join_follow_std_path() {
    for p in SAMPLES {
        for name in ["x.state.toml", "b"] {
            let expected = Path::new(p).with_file_name(name).to_str().unwrap().to_string();
            assert_eq!(with_file_name(p, name), expected, "{p:?} with file name {name:?}");
        }
        for rel in ["c", "/abs", "c/d"] {
            let expected = Path::new(p).join(rel).to_str().unwrap().to_string();
            assert_eq!(join(p, rel), expected, "{p:?} joined with {rel:?}");
        }
    }
}
