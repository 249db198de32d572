use markdown_viewer::error::MarkdownViewerError;
use markdown_viewer::launch::{
    first_markdown_path_from_args, first_markdown_path_from_urls, join_path_text,
    markdown_path_from_arg,
};
use markdown_viewer::markdown_file::{check_markdown_path, is_markdown_file, title_from_path};
use markdown_viewer::text::{char_is_whitespace, trim_text, word_len};
use markdown_viewer::paths::{is_same_path, is_within, PathPlatform};
use markdown_viewer::resolve::{
    canonicalize_existing_path, path_from_input, resolve_path_input, CanonicalProbe,
};

#[test]
fn markdown_extension_check_is_case_insensitive() {
    assert!(is_markdown_file("/tmp/guide.md", PathPlatform::Unix));
    assert!(is_markdown_file("/tmp/spec.MARKDOWN", PathPlatform::Unix));
    assert!(!is_markdown_file("/tmp/spec.txt", PathPlatform::Unix));
}

#[test]
fn markdown_extension_edge_cases() {
    assert!(is_markdown_file("notes.mdown", PathPlatform::Unix));
    assert!(is_markdown_file("/a/b.MkD", PathPlatform::Unix));
    assert!(is_markdown_file("/a/b.mkdn", PathPlatform::Unix));
    assert!(!is_markdown_file("/tmp/.md", PathPlatform::Unix));
    assert!(!is_markdown_file("/tmp/md", PathPlatform::Unix));
    assert!(!is_markdown_file("/tmp/guide.md.txt", PathPlatform::Unix));
    assert!(!is_markdown_file("/tmp/guide.mdx", PathPlatform::Unix));
    assert!(!is_markdown_file("/", PathPlatform::Unix));
    assert!(!is_markdown_file("", PathPlatform::Unix));
    assert!(is_markdown_file("/tmp/guide.md/", PathPlatform::Unix));
}

#[test]
fn title_from_path_uses_readable_stem() {
    assert_eq!(title_from_path("/tmp/engineering-notes_v2.md", PathPlatform::Unix), "engineering notes v2");
    assert_eq!(title_from_path("/tmp/archive.tar.md", PathPlatform::Unix), "archive.tar");
    assert_eq!(title_from_path("/tmp/.hidden", PathPlatform::Unix), ".hidden");
    assert_eq!(title_from_path("/tmp/plain", PathPlatform::Unix), "plain");
    assert_eq!(title_from_path("/", PathPlatform::Unix), "Markdown");
    assert_eq!(title_from_path("", PathPlatform::Unix), "Markdown");
    assert_eq!(title_from_path("/tmp/..", PathPlatform::Unix), "Markdown");
}

#[test]
fn containment_is_by_whole_components() {
    assert!(is_within(PathPlatform::Unix, "/ws/docs/assets/img.svg", "/ws/docs"));
    assert!(!is_within(PathPlatform::Unix, "/ws/outside/img.svg", "/ws/docs"));
    assert!(!is_within(PathPlatform::Unix, "/ws/docs2/img.svg", "/ws/docs"));
    assert!(is_within(PathPlatform::Unix, "/ws//docs/./img.svg", "/ws/docs/"));
    assert!(is_within(PathPlatform::Unix, "/anything", "/"));
    assert!(!is_within(PathPlatform::Unix, "ws/docs/img.svg", "/ws/docs"));
    assert!(is_same_path(PathPlatform::Unix, "/tmp//a.md", "/tmp/a.md"));
    assert!(!is_same_path(PathPlatform::Unix, "/tmp/A.md", "/tmp/a.md"));
}

#[test]
fn resolve_path_input_supports_file_url_for_existing_files() {
    let probe = |path: &str| {
        if path == "/tmp/mdv-repo.md" {
            CanonicalProbe::Resolved {
                canonical: "/private/tmp/mdv-repo.md".to_string(),
                is_file: true,
            }
        } else {
            CanonicalProbe::NotFound
        }
    };
    let resolved =
        resolve_path_input("file:///tmp/mdv-repo.md", &probe).expect("file URL should resolve");
    let expected = resolve_path_input("/tmp/mdv-repo.md", &probe)
        .expect("temp markdown should canonicalize");
    assert_eq!(resolved, expected);
    assert_eq!(resolved, "/private/tmp/mdv-repo.md");
}

#[test]
fn path_from_input_reads_file_urls() {
    assert_eq!(path_from_input("file:///tmp/a.md").ok().as_deref(), Some("/tmp/a.md"));
    assert_eq!(path_from_input("FILE:///tmp/a.md").ok().as_deref(), Some("/tmp/a.md"));
    assert_eq!(
        path_from_input("file:///tmp/with%20space.md").ok().as_deref(),
        Some("/tmp/with space.md")
    );
    assert_eq!(path_from_input("/tmp/a.md").ok().as_deref(), Some("/tmp/a.md"));
    assert_eq!(path_from_input("notes/a.md").ok().as_deref(), Some("notes/a.md"));
    assert_eq!(
        path_from_input("https://example.com/readme.md").ok().as_deref(),
        Some("https://example.com/readme.md")
    );
    match path_from_input("file://example.com/tmp/a.md") {
        Err(MarkdownViewerError::FileNotFound(path)) => {
            assert_eq!(path, "file://example.com/tmp/a.md")
        }
        other => panic!("unexpected result: {other:?}"),
    }
}

#[test]
fn canonicalize_existing_path_rejects_directories() {
    let error = canonicalize_existing_path(
        "/tmp",
        CanonicalProbe::Resolved {
            canonical: "/tmp".to_string(),
            is_file: false,
        },
    )
    .expect_err("directories are not valid markdown files");

    match error {
        MarkdownViewerError::FileNotFound(path) => assert_eq!(path, "/tmp"),
        other => panic!("unexpected error variant: {other:?}"),
    }
}

#[test]
fn canonicalize_existing_path_outcomes() {
    let ok = canonicalize_existing_path(
        "./a.md",
        CanonicalProbe::Resolved {
            canonical: "/home/u/a.md".to_string(),
            is_file: true,
        },
    );
    assert_eq!(ok.ok().as_deref(), Some("/home/u/a.md"));
    match canonicalize_existing_path("/nope.md", CanonicalProbe::NotFound) {
        Err(MarkdownViewerError::FileNotFound(path)) => assert_eq!(path, "/nope.md"),
        other => panic!("unexpected result: {other:?}"),
    }
    match canonicalize_existing_path(
        "/secret.md",
        CanonicalProbe::Failed {
            reason: "permission denied".to_string(),
        },
    ) {
        Err(MarkdownViewerError::ReadFile { path, reason }) => {
            assert_eq!(path, "/secret.md");
            assert_eq!(reason, "permission denied");
        }
        other => panic!("unexpected result: {other:?}"),
    }
}

#[test]
fn resolve_path_input_skips_probe_for_foreign_file_url() {
    let result = resolve_path_input("file://remote-host/a.md", &|_: &str| -> CanonicalProbe {
        panic!("the filesystem is not asked about a remote file URL")
    });
    assert!(matches!(result, Err(MarkdownViewerError::FileNotFound(_))));
}

fn fake_filesystem(path: &str) -> CanonicalProbe {
    match path {
        "/docs/readme.md" | "/work/docs/readme.md" => CanonicalProbe::Resolved {
            canonical: "/docs/readme.md".to_string(),
            is_file: true,
        },
        "/docs/notes.txt" => CanonicalProbe::Resolved {
            canonical: "/docs/notes.txt".to_string(),
            is_file: true,
        },
        "/work/docs" => CanonicalProbe::Resolved {
            canonical: "/work/docs".to_string(),
            is_file: false,
        },
        _ => CanonicalProbe::NotFound,
    }
}

#[test]
fn markdown_path_from_arg_resolves_relative_paths_from_working_directory() {
    assert_eq!(
        markdown_path_from_arg("docs/readme.md", Some("/work"), PathPlatform::Unix, &fake_filesystem).as_deref(),
        Some("/docs/readme.md")
    );
    assert_eq!(
        markdown_path_from_arg("  /docs/readme.md\n", None, PathPlatform::Unix, &fake_filesystem).as_deref(),
        Some("/docs/readme.md")
    );
    assert_eq!(markdown_path_from_arg("docs/readme.md", None, PathPlatform::Unix, &fake_filesystem), None);
    assert_eq!(markdown_path_from_arg("--verbose", Some("/work"), PathPlatform::Unix, &fake_filesystem), None);
    assert_eq!(markdown_path_from_arg("   ", Some("/work"), PathPlatform::Unix, &fake_filesystem), None);
    assert_eq!(markdown_path_from_arg("/docs/notes.txt", None, PathPlatform::Unix, &fake_filesystem), None);
}

#[test]
fn first_markdown_path_from_args_uses_first_valid_markdown_candidate() {
    let args = vec![
        "markdown-viewer".to_string(),
        "/docs/notes.txt".to_string(),
        "/docs/readme.md".to_string(),
    ];
    assert_eq!(
        first_markdown_path_from_args(&args, None, PathPlatform::Unix, &fake_filesystem).as_deref(),
        Some("/docs/readme.md")
    );
    let only_program = vec!["/docs/readme.md".to_string()];
    assert_eq!(first_markdown_path_from_args(&only_program, None, PathPlatform::Unix, &fake_filesystem), None);
}

#[test]
fn first_markdown_path_from_urls_uses_first_valid_file_url_candidate() {
    let urls = vec![
        "https://example.com/readme.md".to_string(),
        "file:///docs/notes.txt".to_string(),
        "file:///docs/readme.md".to_string(),
    ];
    assert_eq!(
        first_markdown_path_from_urls(&urls, PathPlatform::Unix, &fake_filesystem).as_deref(),
        Some("/docs/readme.md")
    );
    assert_eq!(first_markdown_path_from_urls(&Vec::new(), PathPlatform::Unix, &fake_filesystem), None);
}

#[test]
fn join_path_follows_path_join() {
    assert_eq!(join_path_text("/work", "docs/a.md", PathPlatform::Unix), "/work/docs/a.md");
    assert_eq!(join_path_text("/work/", "docs/a.md", PathPlatform::Unix), "/work/docs/a.md");
    assert_eq!(join_path_text("/work", "/abs/a.md", PathPlatform::Unix), "/abs/a.md");
    assert_eq!(join_path_text("", "a.md", PathPlatform::Unix), "a.md");
}

#[test]
fn trim_and_word_count_follow_unicode_whitespace() {
    assert_eq!(trim_text("  hello world \t\n"), "hello world");
    assert_eq!(trim_text("\u{3000}x\u{a0}"), "x");
    assert_eq!(trim_text("   "), "");
    assert_eq!(word_len("Text  link words\ncode"), 4);
    assert_eq!(word_len(""), 0);
    assert_eq!(word_len("   "), 0);
    assert_eq!(word_len("one"), 1);
    assert_eq!(word_len("\u{3000}a\u{3000}b\u{3000}"), 2);
}

#[test]
fn only_markdown_paths_are_read() {
    assert_eq!(check_markdown_path("/docs/readme.md".to_string(), PathPlatform::Unix).ok().as_deref(), Some("/docs/readme.md"));
    match check_markdown_path("/docs/notes.txt".to_string(), PathPlatform::Unix) {
        Err(MarkdownViewerError::NotMarkdown(path)) => assert_eq!(path, "/docs/notes.txt"),
        other => panic!("unexpected result: {other:?}"),
    }
}

#[test]
fn dot_components_follow_std_paths() {
    // A leading `.` is a component of its own; one that is not leading is none.
    assert!(!is_same_path(PathPlatform::Unix, "./a", "a"));
    assert!(is_same_path(PathPlatform::Unix, "./a", "./a/."));
    assert!(is_same_path(PathPlatform::Unix, "a/./b", "a/b"));
    assert!(is_within(PathPlatform::Unix, "./a/b", "./a"));
    assert!(!is_within(PathPlatform::Unix, "a/b", "./a"));
    // A trailing `.` is ignored when taking the name and the parent.
    assert!(is_markdown_file("a.md/.", PathPlatform::Unix));
    assert!(is_markdown_file("/ws/docs/main.md/./", PathPlatform::Unix));
    assert_eq!(title_from_path("/tmp/weekly_notes.md/.", PathPlatform::Unix), "weekly notes");
    assert_eq!(title_from_path(".", PathPlatform::Unix), "Markdown");
    assert!(!is_markdown_file("/.", PathPlatform::Unix));
}

#[test]
fn whitespace_matches_std_for_every_char() {
    for code in 0..=0x10FFFFu32 {
        if let Some(c) = char::from_u32(code) {
            assert_eq!(char_is_whitespace(c), c.is_whitespace(), "U+{code:04X}");
        }
    }
}

#[test]
fn bare_drive_file_urls_name_no_file() {
    for input in ["file:///C:", "file:///c|", "file:///C%3A"] {
        match path_from_input(input) {
            Err(MarkdownViewerError::FileNotFound(path)) => assert_eq!(path, input),
            other => panic!("unexpected result for {input}: {other:?}"),
        }
    }
    assert_eq!(path_from_input("file:///C:/docs/a.md").ok().is_some(), true);
}

#[test]
fn windows_rules_for_titles_markdown_and_joins() {
    assert_eq!(title_from_path(r"C:\docs\my-notes.md", PathPlatform::Windows), "my notes");
    assert!(is_markdown_file(r"C:\docs\a.MD", PathPlatform::Windows));
    assert!(!is_markdown_file(r"C:\docs.md\a", PathPlatform::Windows));
    assert_eq!(
        join_path_text(r"C:\work", r"docs\a.md", PathPlatform::Windows),
        r"C:\work\docs\a.md"
    );
    assert_eq!(join_path_text(r"C:\work\", "a.md", PathPlatform::Windows), r"C:\work\a.md");
    assert_eq!(join_path_text(r"C:\work", r"D:\x.md", PathPlatform::Windows), r"D:\x.md");
    assert_eq!(join_path_text("/work", "a.md", PathPlatform::Unix), "/work/a.md");
}
