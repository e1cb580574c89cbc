use deepseek_cli::path_components::{components_of, same_path};
use std::path::Path;

const SAMPLES: &[&str] = &[
    "", "/", "//", "/x", "/x/", "//x", "/x//", "/x/.", "/./x", "x", "x/", "./x", ".", "./",
    "./.", "..", "../x", "x/..", "a/./b", "a/b", "a/b/", "a//b", "/a/b/.", "/a/b", ".a", "a.",
    "/.hidden", "x/../y",
];

#[test]
fn same_path_agrees_with_std_path_equality() {
    for a in SAMPLES {
        for b in SAMPLES {
            assert_eq!(
                same_path(a, b),
                Path::new(a) == Path::new(b),
                "comparing {a:?} and {b:?}"
            );
        }
    }
}

#[test]
fn components_agree_with_std_components() {
    for s in SAMPLES {
        let ours: Vec<String> = components_of(s).into_iter().map(|c| c.into_iter().collect()).collect();
        let theirs: Vec<String> = Path::new(s)
            .components()
            .map(|c| c.as_os_str().to_string_lossy().into_owned())
            .collect();
        assert_eq!(ours, theirs, "components of {s:?}");
    }
}
