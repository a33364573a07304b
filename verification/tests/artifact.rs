use std::path::PathBuf;

use cdylib_plugin::{cdylib_path, ArtifactPath, LocateError, Platform, Profile};

fn segments(items: &[&str]) -> Vec<String> {
    items.iter().map(|item| item.to_string()).collect()
}

fn located(dir: &str, package: &str, profile: Profile, platform: Platform) -> ArtifactPath {
    match cdylib_path(Some(dir), Some(package), profile, platform) {
        Ok(path) => path,
        Err(error) => panic!("{}", error.message()),
    }
}

fn as_path_buf(path: &ArtifactPath) -> PathBuf {
    let mut buf = PathBuf::from(&path.root);
    for segment in &path.segments {
        buf.push(segment);
    }
    buf
}

#[test]
fn macos_debug_plugin_end_to_end() {
    let path = located("/home/u/proj", "my-plugin", Profile::Debug, Platform::MacOs);
    assert_eq!(path.root, "/home/u/proj");
    assert_eq!(path.segments, segments(&["target", "debug", "libmy_plugin.dylib"]));
    assert_eq!(path.to_text(Platform::MacOs), "/home/u/proj/target/debug/libmy_plugin.dylib");
}

#[test]
fn release_build_lies_in_release_dir() {
    let path = located("/home/u/proj", "my-plugin", Profile::Release, Platform::Other);
    assert_eq!(path.segments, segments(&["target", "release", "libmy_plugin.so"]));
    assert_eq!(path.to_text(Platform::Other), "/home/u/proj/target/release/libmy_plugin.so");
}

#[test]
fn windows_path_uses_backslashes() {
    let path = located("C:\\work\\proj", "my-plugin", Profile::Debug, Platform::Windows);
    assert_eq!(path.segments, segments(&["target", "debug", "my_plugin.dll"]));
    assert_eq!(path.to_text(Platform::Windows), "C:\\work\\proj\\target\\debug\\my_plugin.dll");
}

#[test]
fn parent_is_profile_dir_below_target() {
    for (profile, name) in [(Profile::Debug, "debug"), (Profile::Release, "release")] {
        let mut path = located("/home/u/proj", "my-plugin", profile, Platform::Other);
        assert!(path.pop());
        assert_eq!(path.root, "/home/u/proj");
        assert_eq!(path.segments, segments(&["target", name]));
        let text = path.to_text(Platform::Other);
        assert_eq!(text, format!("/home/u/proj/target/{name}"));
        assert!(!text.ends_with('/'));
        assert!(!text.contains("//"));
    }
}

#[test]
fn no_separator_is_doubled_after_root_dir() {
    let mut path = located("/", "my-plugin", Profile::Debug, Platform::Other);
    assert_eq!(path.to_text(Platform::Other), "/target/debug/libmy_plugin.so");
    assert!(path.pop());
    assert_eq!(path.to_text(Platform::Other), "/target/debug");
    let path = located("/home/u/proj/", "p", Profile::Release, Platform::MacOs);
    assert_eq!(path.to_text(Platform::MacOs), "/home/u/proj/target/release/libp.dylib");
    let path = located("C:/proj/", "p", Profile::Release, Platform::Windows);
    assert_eq!(path.to_text(Platform::Windows), "C:/proj/target\\release\\p.dll");
}

#[test]
fn empty_working_dir_gives_relative_path() {
    let path = located("", "p", Profile::Debug, Platform::Other);
    assert_eq!(path.root, "");
    assert_eq!(path.to_text(Platform::Other), "target/debug/libp.so");
}

#[test]
fn backslash_is_no_separator_off_windows() {
    let path = located("odd\\", "p", Profile::Debug, Platform::Other);
    assert_eq!(path.to_text(Platform::Other), "odd\\/target/debug/libp.so");
}

#[test]
fn text_agrees_with_path_buf_on_this_machine() {
    let platform = if std::path::MAIN_SEPARATOR == '\\' {
        Platform::Windows
    } else {
        Platform::Other
    };
    let sep = std::path::MAIN_SEPARATOR;
    let roots = [
        format!("{sep}"),
        format!("{sep}home{sep}u{sep}proj"),
        format!("{sep}home{sep}u{sep}proj{sep}"),
        "relative".to_string(),
        String::new(),
    ];
    for root in &roots {
        for profile in [Profile::Debug, Profile::Release] {
            let mut path = located(root, "my-plugin", profile, platform);
            assert_eq!(PathBuf::from(path.to_text(platform)), as_path_buf(&path));
            assert_eq!(as_path_buf(&path).to_str(), Some(path.to_text(platform).as_str()));
            let mut buf = as_path_buf(&path);
            assert!(buf.pop());
            assert!(path.pop());
            assert_eq!(buf, as_path_buf(&path));
            assert_eq!(buf.to_str(), Some(path.to_text(platform).as_str()));
        }
    }
}

#[test]
fn path_is_absolute_where_working_dir_is() {
    let path = located("/home/u/proj", "my-plugin", Profile::Debug, Platform::Other);
    assert!(path.to_text(Platform::Other).starts_with("/home/u/proj"));
    assert!(path.to_text(Platform::Other).starts_with('/'));
}

#[test]
fn missing_working_dir_is_reported() {
    let located = cdylib_path(None, Some("my-plugin"), Profile::Debug, Platform::Other);
    assert_eq!(located, Err(LocateError::WorkingDirectoryUnavailable));
}

#[test]
fn missing_package_name_is_reported() {
    let located = cdylib_path(Some("/home/u/proj"), None, Profile::Debug, Platform::Other);
    assert_eq!(located, Err(LocateError::MissingEnvironment));
}

#[test]
fn missing_working_dir_is_reported_first() {
    let located = cdylib_path(None, None, Profile::Release, Platform::Windows);
    assert_eq!(located, Err(LocateError::WorkingDirectoryUnavailable));
}

#[test]
fn error_messages_differ_and_are_fixed() {
    assert_eq!(
        LocateError::WorkingDirectoryUnavailable.message(),
        "the current working directory is not available"
    );
    assert_eq!(
        LocateError::MissingEnvironment.message(),
        "the environment does not name the package"
    );
}

#[test]
fn pop_removes_one_segment_at_a_time() {
    let mut path = ArtifactPath { root: "r".to_string(), segments: segments(&["a", "b"]) };
    assert!(path.pop());
    assert_eq!(path.segments, segments(&["a"]));
    assert!(path.pop());
    assert_eq!(path.segments, Vec::<String>::new());
    assert!(!path.pop());
    assert_eq!(path.root, "r");
    assert_eq!(path.segments, Vec::<String>::new());
    assert_eq!(path.to_text(Platform::Other), "r");
}

#[test]
fn text_of_hand_made_path() {
    let path = ArtifactPath { root: "/a".to_string(), segments: segments(&["b", "c.txt"]) };
    assert_eq!(path.to_text(Platform::Other), "/a/b/c.txt");
    assert_eq!(path.to_text(Platform::MacOs), "/a/b/c.txt");
    assert_eq!(path.to_text(Platform::Windows), "/a\\b\\c.txt");
}

#[test]
fn clone_keeps_root_and_segments() {
    let path = located("/home/u/proj", "my-plugin", Profile::Debug, Platform::Other);
    let copy = path.clone();
    assert_eq!(copy, path);
    assert_eq!(copy.root, "/home/u/proj");
    assert_eq!(copy.segments, segments(&["target", "debug", "libmy_plugin.so"]));
}
