use muscat::paths::{extension, template_path};
use std::path::{Path, PathBuf};

/// The template path as the standard path type derives it.
fn by_std(target: &str) -> String {
    let mut name = PathBuf::from(target);
    name.set_extension("");
    match Path::new(target).extension() {
        Some(ext) => format!("{}-temp.{}", name.display(), ext.to_str().unwrap()),
        None => format!("{}-temp", name.display()),
    }
}

const SAMPLES: [&str; 40] = [
    "style.css",
    "config",
    "dir/style.css",
    "/abs/dir/style.css",
    "a.b.c",
    "archive.tar.gz",
    ".bashrc",
    ".config/app.toml",
    "dir.d/file",
    "dir.d/file.txt",
    "a.",
    "a..",
    "...",
    "..a",
    ".a.b",
    "foo/",
    "foo.txt/",
    "foo.txt//",
    "foo/.",
    "foo.txt/.",
    "foo.txt/./",
    "./foo.txt",
    "./.",
    ".",
    "./",
    "..",
    "../",
    "foo/..",
    "foo/../bar.rs",
    "",
    "/",
    "//",
    "/.",
    "/..",
    "a//b.c",
    "a/./b.c",
    "héllo.wörld",
    "名前.txt",
    "with space.txt",
    "-temp.css",
];

#[test]
fn template_path_of_a_stylesheet() {
    assert_eq!(template_path("style.css"), "style-temp.css");
}

#[test]
fn template_path_without_extension() {
    assert_eq!(template_path("config"), "config-temp");
}

#[test]
fn template_path_keeps_the_directory() {
    assert_eq!(
        template_path("/home/user/.config/app/theme.toml"),
        "/home/user/.config/app/theme-temp.toml"
    );
    assert_eq!(template_path("themes.d/dark"), "themes.d/dark-temp");
}

#[test]
fn template_path_splits_at_the_last_dot_only() {
    assert_eq!(template_path("archive.tar.gz"), "archive.tar-temp.gz");
    assert_eq!(template_path(".bashrc"), ".bashrc-temp");
    assert_eq!(template_path("a."), "a-temp.");
}

#[test]
fn template_path_of_a_path_without_file_name() {
    assert_eq!(template_path(""), "-temp");
    assert_eq!(template_path(".."), "..-temp");
    assert_eq!(template_path("/"), "/-temp");
}

#[test]
fn template_path_agrees_with_std_paths() {
    for target in SAMPLES {
        assert_eq!(template_path(target), by_std(target), "target {:?}", target);
    }
}

#[test]
fn extension_agrees_with_std_paths() {
    for path in SAMPLES {
        let expected = Path::new(path).extension().map(|ext| ext.to_str().unwrap().to_string());
        assert_eq!(extension(path), expected, "path {:?}", path);
    }
}

#[test]
fn template_keeps_stem_and_extension_of_named_targets() {
    for target in SAMPLES {
        let target_path = Path::new(target);
        if target_path.file_name().is_none() {
            continue;
        }
        let template = template_path(target);
        let template_path = Path::new(&template);
        let stem = format!("{}-temp", target_path.file_stem().unwrap().to_str().unwrap());
        let template_stem = template_path.file_stem().unwrap().to_str().unwrap();
        assert_eq!(template_stem, stem, "target {:?}", target);
        assert_eq!(template_path.extension(), target_path.extension(), "target {:?}", target);
    }
}
