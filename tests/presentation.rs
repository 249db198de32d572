use std::sync::atomic::{AtomicBool, Ordering};
use std::sync::{Arc, Mutex};

use markdown_viewer::commands::{
    load_reply, start_markdown_watch_inner, stop_markdown_watch_inner, watch_start_reply,
    MARKDOWN_FILE_UPDATED_EVENT,
};
use markdown_viewer::document::{RenderPreferences, WordCountRules};
use markdown_viewer::dto::{
    to_render_preferences, MarkdownDocumentDto, RenderPreferencesDto, WordCountRulesDto,
};
use markdown_viewer::error::{to_user_error, MarkdownViewerError};
use markdown_viewer::models::{MarkdownDocumentOutput, TocEntryOutput};
use markdown_viewer::opener::open_detached_with;
use markdown_viewer::ports::MarkdownWatchService;
use markdown_viewer::use_cases::WatchMarkdownFileUseCase;

#[test]
fn word_count_rules_default_matches_reader_expectations() {
    let rules = WordCountRules::default();
    assert!(rules.include_links);
    assert!(!rules.include_code);
    assert!(!rules.include_front_matter);
}

#[test]
fn render_preferences_default_is_safe_and_predictable() {
    let preferences = RenderPreferences::default();
    assert!(!preferences.performance_mode);
    assert!(preferences.word_count_rules.include_links);
    assert!(!preferences.word_count_rules.include_code);
    assert!(!preferences.word_count_rules.include_front_matter);
}

#[test]
fn to_render_preferences_defaults_when_input_is_none() {
    let preferences = to_render_preferences(None);
    assert!(!preferences.performance_mode);
    assert!(preferences.word_count_rules.include_links);
    assert!(!preferences.word_count_rules.include_code);
    assert!(!preferences.word_count_rules.include_front_matter);
}

#[test]
fn to_render_preferences_maps_all_fields() {
    let preferences = to_render_preferences(Some(RenderPreferencesDto {
        performance_mode: true,
        word_count_rules: Some(WordCountRulesDto {
            include_links: false,
            include_code: true,
            include_front_matter: true,
        }),
    }));

    assert!(preferences.performance_mode);
    assert!(!preferences.word_count_rules.include_links);
    assert!(preferences.word_count_rules.include_code);
    assert!(preferences.word_count_rules.include_front_matter);
}

#[test]
fn to_render_preferences_fills_missing_rules_with_defaults() {
    let preferences = to_render_preferences(Some(RenderPreferencesDto {
        performance_mode: true,
        word_count_rules: None,
    }));
    assert!(preferences.performance_mode);
    assert!(preferences.word_count_rules.include_links);
    assert!(!preferences.word_count_rules.include_code);
    assert!(!preferences.word_count_rules.include_front_matter);
}

#[test]
fn markdown_document_conversion_preserves_rendered_and_metadata_fields() {
    let app_output = MarkdownDocumentOutput {
        path: "/tmp/guide.md".to_string(),
        title: "Spec".to_string(),
        source: "# Spec".to_string(),
        html: "<h1 id=\"mdv-spec\">Spec</h1>".to_string(),
        toc: vec![TocEntryOutput {
            level: 1,
            id: "mdv-spec".to_string(),
            text: "Spec".to_string(),
        }],
        word_count: 320,
        reading_time_minutes: 2,
    };

    let dto: MarkdownDocumentDto = app_output.into();

    assert_eq!(dto.path, "/tmp/guide.md");
    assert_eq!(dto.title, "Spec");
    assert_eq!(dto.source, "# Spec");
    assert_eq!(dto.html, "<h1 id=\"mdv-spec\">Spec</h1>");
    assert_eq!(dto.toc.len(), 1);
    assert_eq!(dto.toc[0].id, "mdv-spec");
    assert_eq!(dto.word_count, 320);
    assert_eq!(dto.reading_time_minutes, 2);
}

#[test]
fn render_preferences_dto_to_application_matches_helper_function() {
    let dto = RenderPreferencesDto {
        performance_mode: true,
        word_count_rules: Some(WordCountRulesDto {
            include_links: true,
            include_code: false,
            include_front_matter: true,
        }),
    };

    let direct = dto.to_application();
    let helper = to_render_preferences(Some(dto));

    assert_eq!(direct.performance_mode, helper.performance_mode);
    assert_eq!(
        direct.word_count_rules.include_links,
        helper.word_count_rules.include_links
    );
    assert_eq!(
        direct.word_count_rules.include_code,
        helper.word_count_rules.include_code
    );
    assert_eq!(
        direct.word_count_rules.include_front_matter,
        helper.word_count_rules.include_front_matter
    );
}

#[test]
fn open_detached_with_invokes_target_opener() {
    let target = "/tmp/target.txt";
    let opened = Arc::new(Mutex::new(Vec::<String>::new()));
    let opened_capture = Arc::clone(&opened);

    let result = open_detached_with(target, move |path: &str| {
        opened_capture
            .lock()
            .expect("opened path state should be lockable")
            .push(path.to_string());
        Ok(())
    });

    assert!(result.is_ok());
    let opened = opened.lock().expect("opened path state should be lockable");
    assert_eq!(opened.as_slice(), [target.to_string()]);
}

#[test]
fn open_detached_with_maps_failures_to_open_linked_file_error() {
    let target = "/tmp/target.txt";
    let called = Arc::new(AtomicBool::new(false));
    let called_capture = Arc::clone(&called);

    let error = open_detached_with(target, move |_: &str| {
        called_capture.store(true, Ordering::Relaxed);
        Err(std::io::Error::new(
            std::io::ErrorKind::PermissionDenied,
            "permission denied",
        ))
    })
    .expect_err("open should fail");

    assert!(called.load(Ordering::Relaxed));
    match error {
        MarkdownViewerError::OpenLinkedFile { path, reason } => {
            assert_eq!(path, target);
            assert!(reason.contains("permission denied"));
        }
        other => panic!("unexpected error variant: {other:?}"),
    }
}

struct TestWatchService {
    fail_on_start: bool,
    started_path: Mutex<Option<String>>,
    stop_called: AtomicBool,
}

impl TestWatchService {
    fn new(fail_on_start: bool) -> Self {
        Self {
            fail_on_start,
            started_path: Mutex::new(None),
            stop_called: AtomicBool::new(false),
        }
    }
}

impl MarkdownWatchService for TestWatchService {
    fn start<F: Fn(String) + Send + Sync + ?Sized + 'static>(
        &self,
        path_input: &str,
        on_changed: Arc<F>,
    ) -> Result<(), MarkdownViewerError> {
        self.started_path
            .lock()
            .expect("watch start state should be lockable")
            .replace(path_input.to_string());

        if self.fail_on_start {
            return Err(MarkdownViewerError::Watch {
                path: path_input.to_string(),
                reason: "watch failure".to_string(),
            });
        }

        on_changed(path_input.to_string());
        Ok(())
    }

    fn stop(&self) {
        self.stop_called.store(true, Ordering::Relaxed);
    }
}

#[test]
fn start_markdown_watch_inner_emits_event_with_expected_payload_shape() {
    let watch_service = Arc::new(TestWatchService::new(false));
    let watch_use_case = WatchMarkdownFileUseCase::new(Arc::clone(&watch_service));
    let emitted = Arc::new(Mutex::new(Vec::<(String, String)>::new()));
    let emitted_capture = Arc::clone(&emitted);

    start_markdown_watch_inner("/tmp/live.md", &watch_use_case, move |event, payload| {
        emitted_capture
            .lock()
            .expect("event capture should be lockable")
            .push((event.to_string(), payload.path));
    })
    .expect("watch should start");

    let emitted = emitted.lock().expect("event capture should be lockable");
    assert_eq!(emitted.len(), 1);
    assert_eq!(emitted[0].0, MARKDOWN_FILE_UPDATED_EVENT);
    assert_eq!(emitted[0].1, "/tmp/live.md");
    assert_eq!(
        watch_service
            .started_path
            .lock()
            .expect("watch start state should be lockable")
            .as_deref(),
        Some("/tmp/live.md")
    );
}

#[test]
fn start_markdown_watch_inner_maps_errors_to_user_message() {
    let watch_service = Arc::new(TestWatchService::new(true));
    let watch_use_case = WatchMarkdownFileUseCase::new(watch_service);
    let emit_called = Arc::new(AtomicBool::new(false));
    let emit_called_capture = Arc::clone(&emit_called);

    let error = start_markdown_watch_inner("/tmp/fail.md", &watch_use_case, move |_, _| {
        emit_called_capture.store(true, Ordering::Relaxed);
    })
    .expect_err("watch should fail");

    assert!(error.contains("file watcher error for /tmp/fail.md: watch failure"));
    assert!(!emit_called.load(Ordering::Relaxed));
}

#[test]
fn stop_markdown_watch_inner_delegates_to_watch_use_case() {
    let watch_service = Arc::new(TestWatchService::new(false));
    let watch_use_case = WatchMarkdownFileUseCase::new(Arc::clone(&watch_service));

    stop_markdown_watch_inner(&watch_use_case);

    assert!(watch_service.stop_called.load(Ordering::Relaxed));
}

#[test]
fn user_messages_name_each_error() {
    let cases = vec![
        (MarkdownViewerError::FileNotFound("/a.md".to_string()), "file does not exist: /a.md"),
        (MarkdownViewerError::NotMarkdown("/a.txt".to_string()), "not a markdown file: /a.txt"),
        (
            MarkdownViewerError::ReadFile {
                path: "/a.md".to_string(),
                reason: "denied".to_string(),
            },
            "failed to read file /a.md: denied",
        ),
        (
            MarkdownViewerError::Watch {
                path: "/a.md".to_string(),
                reason: "busy".to_string(),
            },
            "file watcher error for /a.md: busy",
        ),
        (
            MarkdownViewerError::InvalidSourceDocumentPath("/".to_string()),
            "invalid source document path: /",
        ),
        (
            MarkdownViewerError::ResolvePath {
                path: "/x".to_string(),
                reason: "gone".to_string(),
            },
            "failed to resolve path /x: gone",
        ),
        (
            MarkdownViewerError::LinkedFileOutsideAllowedDirectory {
                path: "/etc/passwd".to_string(),
                allowed_directory: "/ws/docs".to_string(),
            },
            "linked file is outside allowed directory: /ws/docs (target: /etc/passwd)",
        ),
        (
            MarkdownViewerError::OpenLinkedFile {
                path: "/a.svg".to_string(),
                reason: "no viewer".to_string(),
            },
            "failed to open linked file /a.svg: no viewer",
        ),
    ];
    for (error, expected) in cases {
        assert_eq!(error.message(), expected);
        assert_eq!(to_user_error(error), expected);
    }
}

#[test]
fn replies_carry_the_answer_or_its_message() {
    assert_eq!(watch_start_reply(Ok(())), Ok(()));
    assert_eq!(
        watch_start_reply(Err(MarkdownViewerError::Watch {
            path: "/tmp/fail.md".to_string(),
            reason: "watch failure".to_string(),
        })),
        Err("file watcher error for /tmp/fail.md: watch failure".to_string())
    );
    match load_reply(Err(MarkdownViewerError::NotMarkdown("/tmp/a.txt".to_string()))) {
        Err(message) => assert_eq!(message, "not a markdown file: /tmp/a.txt"),
        Ok(_) => panic!("an error is passed on as its message"),
    }
    let document = MarkdownDocumentOutput {
        path: "/tmp/a.md".to_string(),
        title: "A".to_string(),
        source: "# A".to_string(),
        html: "<h1>A</h1>".to_string(),
        toc: Vec::new(),
        word_count: 1,
        reading_time_minutes: 1,
    };
    let dto = load_reply(Ok(document)).expect("a document is passed on");
    assert_eq!(dto.path, "/tmp/a.md");
    assert_eq!(dto.html, "<h1>A</h1>");
}
