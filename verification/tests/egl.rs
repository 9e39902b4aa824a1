use plug_gui::egl::{directory, egl_library_names, gl_library_paths, EglRequest, EglSearch};
use std::path::Path;

#[test]
fn the_versioned_library_is_tried_first() {
    assert_eq!(egl_library_names(), vec!["libEGL.so.1", "libEGL.so"]);
}

#[test]
fn gl_libraries_are_found_in_order() {
    let maps = "7f00-7f01 r-xp 00000000 08:01 1  /usr/lib/libc.so.6\n\
                7f02-7f03 r-xp 00000000 08:01 2  /nix/store/x-libglvnd-1.7/lib/libGLX.so.0\n\
                7f04-7f05 rw-p 00000000 00:00 0 \n\
                7f06-7f07 r-xp 00000000 08:01 3  /opt/gl/libGLdispatch.so.0\n";
    assert_eq!(
        gl_library_paths(maps),
        vec!["/nix/store/x-libglvnd-1.7/lib/libGLX.so.0", "/opt/gl/libGLdispatch.so.0"]
    );
}

#[test]
fn a_mapping_may_come_more_than_once() {
    assert_eq!(gl_library_paths("a /x/libGL.so\nb /x/libGL.so"), vec!["/x/libGL.so", "/x/libGL.so"]);
}

#[test]
fn without_gl_libraries_nothing_is_found() {
    assert!(gl_library_paths("").is_empty());
    assert!(gl_library_paths("\n\n").is_empty());
    assert!(gl_library_paths("7f00 /usr/lib/libgl.so\n").is_empty());
}

#[test]
fn the_last_word_of_a_line_counts() {
    assert!(gl_library_paths("/x/libGL.so (deleted)\n").is_empty());
    assert_eq!(gl_library_paths("x /x/libGL.so \t\r\n"), vec!["/x/libGL.so"]);
    assert_eq!(gl_library_paths("x\u{2003}/x/libglvnd/y"), vec!["/x/libglvnd/y"]);
}

fn drive(maps: &str, loads: impl Fn(&str) -> bool, exists: impl Fn(&str) -> bool) -> Vec<String> {
    let mut search = EglSearch::new(maps);
    let mut log = vec![];
    loop {
        let success = match search.request() {
            EglRequest::LookFor(path) => {
                log.push(format!("look {path}"));
                exists(&path)
            }
            EglRequest::Load(path) => {
                log.push(format!("load {path}"));
                loads(&path)
            }
            EglRequest::NoDirectory => {
                log.push("no directory".to_string());
                return log;
            }
            EglRequest::NotLoaded => {
                log.push("not loaded".to_string());
                return log;
            }
            EglRequest::Loaded => {
                log.push("loaded".to_string());
                return log;
            }
        };
        search.report(success);
    }
}

#[test]
fn the_first_directory_with_the_library_is_taken() {
    let maps = "x /a/libGL.so\nx /b/libGL.so\nx /c/libGL.so\n";
    let log = drive(maps, |path| path == "/b/libEGL.so", |path| path != "/a/libEGL.so.1");
    assert_eq!(
        log,
        vec![
            "look /a/libEGL.so.1",
            "look /b/libEGL.so.1",
            "load /b/libEGL.so.1",
            "load /b/libEGL.so",
            "loaded"
        ]
    );
}

#[test]
fn directories_hold_what_a_path_names() {
    for path in [
        "/nix/lib/libGL.so",
        "/libGL.so",
        "libGL.so",
        "./libGL.so",
        "/x//libGL.so",
        "/x/libGL/",
        "/x/libGL/./.",
        "/x/libGL/..",
        "/x/./libGL.so",
        "/x//y/./z/libGL.so",
        "//libGL.so",
        "/./libGL.so",
        "././/libGL.so",
        "a/../libGL.so",
        "..",
        ".",
        "./",
        "/",
        "/.",
        "//",
        "",
    ] {
        let parent = Path::new(path).parent();
        let joined = parent.map(|dir| dir.join("libEGL.so.1"));
        let found = directory(path).map(|dir| format!("{dir}libEGL.so.1"));
        assert_eq!(found.as_deref(), joined.as_ref().and_then(|path| path.to_str()), "{path}");
    }
}

#[test]
fn a_search_may_find_no_directory() {
    assert_eq!(drive("x /a/libGL.so\n", |_| true, |_| false), vec!["look /a/libEGL.so.1", "no directory"]);
    assert_eq!(drive("", |_| true, |_| true), vec!["no directory"]);
}

#[test]
fn a_search_may_load_nothing() {
    let log = drive("x /a/libGL.so\nx /b/libGL.so\n", |_| false, |_| true);
    // Another directory is not tried.
    assert_eq!(log.last().unwrap(), "not loaded");
    assert_eq!(log.len(), 4);
}

#[test]
fn a_finished_search_stays_finished() {
    let mut search = EglSearch::new("");
    search.report(true);
    assert!(matches!(search.request(), EglRequest::NoDirectory));
}
