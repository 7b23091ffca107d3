use languages::completions::{
    completion_highlight_name, completion_kind_message, completion_label, process_completions,
    trim_sort_text, CompletionItem, CompletionKind,
};
use languages::server::{
    package_name, server_binary_arguments, server_name, server_script_path, CachedAction,
    CachedEvent, CachedLookup, CachedPhase, FetchAction, FetchEvent, FetchPhase, ServerFetch,
};
use languages::label::LabelRun;
use languages::symbols::{symbol_label, symbol_source, SymbolKind};
use languages::tasks::python_task_templates;

fn trimmed(text: Option<&str>) -> Option<String> {
    let mut sort_text = text.map(|t| t.to_string());
    trim_sort_text(&mut sort_text);
    sort_text
}

fn item(label: &str, kind: Option<CompletionKind>, detail: Option<&str>) -> CompletionItem {
    CompletionItem {
        label: label.to_string(),
        kind,
        detail: detail.map(|d| d.to_string()),
        sort_text: None,
    }
}

#[test]
fn sort_text_drops_symbol_name() {
    assert_eq!(trimmed(Some("12.0001.foo")), Some("12.0001".to_string()));
    assert_eq!(trimmed(Some("09.9999.__init__")), Some("09.9999".to_string()));
}

#[test]
fn sort_text_keeps_everything_before_second_dot() {
    assert_eq!(trimmed(Some("a.b.c.d")), Some("a.b".to_string()));
    assert_eq!(trimmed(Some("a.b.")), Some("a.b".to_string()));
    assert_eq!(trimmed(Some("..")), Some(".".to_string()));
    assert_eq!(trimmed(Some("...")), Some(".".to_string()));
}

#[test]
fn sort_text_with_fewer_than_two_dots_is_unchanged() {
    assert_eq!(trimmed(Some("a.b")), Some("a.b".to_string()));
    assert_eq!(trimmed(Some("abc")), Some("abc".to_string()));
    assert_eq!(trimmed(Some("")), Some("".to_string()));
    assert_eq!(trimmed(Some(".")), Some(".".to_string()));
    assert_eq!(trimmed(None), None);
}

#[test]
fn sort_text_with_wide_characters_is_cut_at_the_second_dot() {
    assert_eq!(trimmed(Some("é.ü.名前")), Some("é.ü".to_string()));
    assert_eq!(trimmed(Some("名前.x.y")), Some("名前.x".to_string()));
}

#[test]
fn trimming_twice_is_trimming_once() {
    for text in ["12.0001.foo", "a.b", "...", "x.y.z.w", "", "名.前.x"] {
        let once = trimmed(Some(text));
        let twice = trimmed(once.as_deref());
        assert_eq!(once, twice);
    }
}

#[test]
fn process_completions_trims_each_item_and_keeps_the_rest() {
    let mut items = vec![
        CompletionItem {
            label: "foo".to_string(),
            kind: Some(CompletionKind::Function),
            detail: Some("def foo()".to_string()),
            sort_text: Some("12.0001.foo".to_string()),
        },
        CompletionItem {
            label: "bar".to_string(),
            kind: None,
            detail: None,
            sort_text: None,
        },
        CompletionItem {
            label: "baz".to_string(),
            kind: Some(CompletionKind::Variable),
            detail: None,
            sort_text: Some("05.baz".to_string()),
        },
    ];
    process_completions(&mut items);
    assert_eq!(items.len(), 3);
    assert_eq!(items[0].sort_text.as_deref(), Some("12.0001"));
    assert_eq!(items[0].label, "foo");
    assert!(matches!(items[0].kind, Some(CompletionKind::Function)));
    assert_eq!(items[0].detail.as_deref(), Some("def foo()"));
    assert_eq!(items[1].sort_text, None);
    assert_eq!(items[1].label, "bar");
    assert_eq!(items[2].sort_text.as_deref(), Some("05.baz"));
}

#[test]
fn process_completions_on_no_items() {
    let mut items: Vec<CompletionItem> = Vec::new();
    process_completions(&mut items);
    assert!(items.is_empty());
}

#[test]
fn kind_messages() {
    assert_eq!(completion_kind_message(Some(CompletionKind::Text)), "The kind is TEXT");
    assert_eq!(completion_kind_message(Some(CompletionKind::Method)), "The kind is METHOD");
    assert_eq!(completion_kind_message(Some(CompletionKind::EnumMember)), "The kind is ENUM_MEMBER");
    assert_eq!(
        completion_kind_message(Some(CompletionKind::TypeParameter)),
        "The kind is TYPE_PARAMETER"
    );
    assert_eq!(completion_kind_message(None), "The kind is None");
    assert_eq!(completion_kind_message(Some(CompletionKind::Other)), "Unknown CompletionItemKind");
}

#[test]
fn highlight_names_by_kind() {
    assert_eq!(
        completion_highlight_name(&item("m", Some(CompletionKind::Method), Some("(self)"))),
        Some("function.method")
    );
    assert_eq!(completion_highlight_name(&item("m", Some(CompletionKind::Method), None)), None);
    assert_eq!(
        completion_highlight_name(&item("f", Some(CompletionKind::Function), None)),
        Some("function")
    );
    assert_eq!(completion_highlight_name(&item("C", Some(CompletionKind::Class), None)), Some("type"));
    assert_eq!(
        completion_highlight_name(&item("K", Some(CompletionKind::Constant), None)),
        Some("constant")
    );
    assert_eq!(completion_highlight_name(&item("v", Some(CompletionKind::Variable), None)), None);
    assert_eq!(completion_highlight_name(&item("t", Some(CompletionKind::Text), None)), None);
    assert_eq!(completion_highlight_name(&item("n", None, None)), None);
}

#[test]
fn completion_label_covers_the_whole_label() {
    let label = completion_label(&item("print", Some(CompletionKind::Function), None), Some(7)).unwrap();
    assert_eq!(label.text, "print");
    assert_eq!(label.runs.len(), 1);
    assert_eq!(label.runs[0].range, 0..5);
    assert_eq!(label.runs[0].highlight, 7);
    assert_eq!(label.filter_range, 0..5);
}

#[test]
fn completion_label_ranges_count_bytes() {
    let label = completion_label(&item("café", Some(CompletionKind::Class), None), Some(3)).unwrap();
    assert_eq!(label.text, "café");
    assert_eq!(label.runs[0].range, 0..5);
    assert_eq!(label.filter_range, 0..5);
}

#[test]
fn completion_label_absent_without_style() {
    assert!(completion_label(&item("print", Some(CompletionKind::Function), None), None).is_none());
    assert!(completion_label(&item("x", Some(CompletionKind::Variable), None), Some(1)).is_none());
    assert!(completion_label(&item("m", Some(CompletionKind::Method), None), Some(1)).is_none());
    assert!(completion_label(&item("m", None, None), Some(1)).is_none());
    assert!(completion_label(&item("m", Some(CompletionKind::Method), Some("d")), Some(1)).is_some());
}

#[test]
fn symbol_source_for_functions_and_methods() {
    for kind in [SymbolKind::Function, SymbolKind::Method] {
        let source = symbol_source("foo", kind).unwrap();
        assert_eq!(source.text, "def foo():\n");
        assert_eq!(source.display_range, 0..7);
        assert_eq!(source.filter_range, 4..7);
    }
}

#[test]
fn symbol_source_for_classes_and_constants() {
    let class = symbol_source("Bar", SymbolKind::Class).unwrap();
    assert_eq!(class.text, "class Bar:");
    assert_eq!(class.display_range, 0..9);
    assert_eq!(class.filter_range, 6..9);
    let constant = symbol_source("LIMIT", SymbolKind::Constant).unwrap();
    assert_eq!(constant.text, "LIMIT = 0");
    assert_eq!(constant.display_range, 0..5);
    assert_eq!(constant.filter_range, 0..5);
}

#[test]
fn symbol_source_absent_for_other_kinds() {
    assert!(symbol_source("x", SymbolKind::Other).is_none());
}

#[test]
fn symbol_label_shows_the_definition_head() {
    let source = symbol_source("foo", SymbolKind::Function).unwrap();
    let runs = vec![LabelRun { range: 0..3, highlight: 1 }, LabelRun { range: 4..7, highlight: 2 }];
    let label = symbol_label(source, runs);
    assert_eq!(label.text, "def foo");
    assert_eq!(label.filter_range, 4..7);
    assert_eq!(label.runs.len(), 2);
    assert_eq!(label.runs[1].range, 4..7);
    assert_eq!(label.runs[1].highlight, 2);
    assert_eq!(&label.text[label.filter_range.clone()], "foo");
}

#[test]
fn symbol_label_with_wide_name_filters_the_name() {
    let source = symbol_source("naïve", SymbolKind::Class).unwrap();
    assert_eq!(source.filter_range, 6..12);
    let label = symbol_label(source, Vec::new());
    assert_eq!(label.text, "class naïve");
    assert_eq!(&label.text[label.filter_range.clone()], "naïve");
    let constant = symbol_label(symbol_source("ü", SymbolKind::Constant).unwrap(), Vec::new());
    assert_eq!(constant.text, "ü");
    assert_eq!(constant.filter_range, 0..2);
}

#[test]
fn python_tasks() {
    let tasks = python_task_templates("$ZED_SELECTED_TEXT", "$ZED_FILE");
    assert_eq!(tasks.len(), 2);
    assert_eq!(tasks[0].label, "execute selection");
    assert_eq!(tasks[0].command, "python3");
    assert_eq!(tasks[0].args, vec!["-c".to_string(), "$ZED_SELECTED_TEXT".to_string()]);
    assert_eq!(tasks[1].label, "run '$ZED_FILE'");
    assert_eq!(tasks[1].command, "python3");
    assert_eq!(tasks[1].args, vec!["$ZED_FILE".to_string()]);
}

#[test]
fn server_names_and_arguments() {
    assert_eq!(server_name(), "pyright");
    assert_eq!(package_name(), "pyright");
    assert_eq!(server_script_path(), "node_modules/pyright/langserver.index.js");
    assert_eq!(
        server_binary_arguments("/srv/pyright/node_modules/pyright/langserver.index.js"),
        vec![
            "/srv/pyright/node_modules/pyright/langserver.index.js".to_string(),
            "--stdio".to_string()
        ]
    );
}

fn start_fetch() -> (ServerFetch, FetchAction) {
    ServerFetch::start("/srv/py".to_string(), "/srv/py/server.js".to_string(), "1.1.300".to_string())
}

#[test]
fn fetch_asks_first_whether_to_install() {
    let (fetch, action) = start_fetch();
    assert!(matches!(fetch.phase, FetchPhase::AwaitingInstallDecision));
    match action {
        FetchAction::CheckInstall { package, server_path, container_dir, version } => {
            assert_eq!(package, "pyright");
            assert_eq!(server_path, "/srv/py/server.js");
            assert_eq!(container_dir, "/srv/py");
            assert_eq!(version, "1.1.300");
        }
        _ => panic!("expected an install check"),
    }
}

#[test]
fn fetch_installs_then_completes() {
    let (mut fetch, _) = start_fetch();
    match fetch.step(FetchEvent::InstallDecision(true)) {
        FetchAction::Install { container_dir, packages } => {
            assert_eq!(container_dir, "/srv/py");
            assert_eq!(packages.len(), 1);
            assert_eq!(packages[0].name, "pyright");
            assert_eq!(packages[0].version, "1.1.300");
        }
        _ => panic!("expected an installation"),
    }
    assert!(matches!(fetch.phase, FetchPhase::AwaitingInstall));
    assert!(matches!(fetch.step(FetchEvent::InstallFinished(true)), FetchAction::ResolveNodePath));
    match fetch.step(FetchEvent::NodePath(Some("/usr/bin/node".to_string()))) {
        FetchAction::Complete(binary) => {
            assert_eq!(binary.path, "/usr/bin/node");
            assert!(binary.env.is_none());
            assert_eq!(binary.arguments, vec!["/srv/py/server.js".to_string(), "--stdio".to_string()]);
        }
        _ => panic!("expected a binary"),
    }
    assert!(matches!(fetch.phase, FetchPhase::Finished));
}

#[test]
fn fetch_skips_installation_when_up_to_date() {
    let (mut fetch, _) = start_fetch();
    assert!(matches!(fetch.step(FetchEvent::InstallDecision(false)), FetchAction::ResolveNodePath));
    assert!(matches!(fetch.phase, FetchPhase::AwaitingNodePath));
    assert!(matches!(
        fetch.step(FetchEvent::NodePath(Some("node".to_string()))),
        FetchAction::Complete(_)
    ));
}

#[test]
fn fetch_aborts_on_failures() {
    let (mut fetch, _) = start_fetch();
    fetch.step(FetchEvent::InstallDecision(true));
    assert!(matches!(fetch.step(FetchEvent::InstallFinished(false)), FetchAction::Abort));
    assert!(matches!(fetch.phase, FetchPhase::Finished));

    let (mut fetch, _) = start_fetch();
    fetch.step(FetchEvent::InstallDecision(false));
    assert!(matches!(fetch.step(FetchEvent::NodePath(None)), FetchAction::Abort));
    assert!(matches!(fetch.phase, FetchPhase::Finished));
}

#[test]
fn finished_fetch_stays_finished() {
    let (mut fetch, _) = start_fetch();
    fetch.step(FetchEvent::InstallDecision(false));
    fetch.step(FetchEvent::NodePath(Some("node".to_string())));
    assert!(matches!(fetch.step(FetchEvent::InstallDecision(true)), FetchAction::Abort));
    assert!(matches!(fetch.phase, FetchPhase::Finished));
    assert!(matches!(
        fetch.step(FetchEvent::NodePath(Some("node".to_string()))),
        FetchAction::Abort
    ));
}

#[test]
fn fetch_rejects_out_of_order_events() {
    let (mut fetch, _) = start_fetch();
    assert!(matches!(
        fetch.step(FetchEvent::NodePath(Some("node".to_string()))),
        FetchAction::Abort
    ));
    assert!(matches!(fetch.phase, FetchPhase::Finished));
}

#[test]
fn cached_lookup_finds_installed_server() {
    let (mut lookup, action) = CachedLookup::start("/srv/py/server.js".to_string());
    match action {
        CachedAction::CheckScript { server_path } => assert_eq!(server_path, "/srv/py/server.js"),
        _ => panic!("expected a script check"),
    }
    assert!(matches!(lookup.step(CachedEvent::ScriptExists(true)), CachedAction::ResolveNodePath));
    match lookup.step(CachedEvent::NodePath(Some("/usr/bin/node".to_string()))) {
        CachedAction::Found(binary) => {
            assert_eq!(binary.path, "/usr/bin/node");
            assert!(binary.env.is_none());
            assert_eq!(binary.arguments, vec!["/srv/py/server.js".to_string(), "--stdio".to_string()]);
        }
        _ => panic!("expected a binary"),
    }
    assert!(matches!(lookup.phase, CachedPhase::Finished));
}

#[test]
fn cached_lookup_reports_missing_script() {
    let (mut lookup, _) = CachedLookup::start("/srv/py/server.js".to_string());
    match lookup.step(CachedEvent::ScriptExists(false)) {
        CachedAction::ReportMissing { server_path } => assert_eq!(server_path, "/srv/py/server.js"),
        _ => panic!("expected a missing-script report"),
    }
    assert!(matches!(lookup.phase, CachedPhase::Finished));
    assert!(matches!(lookup.step(CachedEvent::ScriptExists(true)), CachedAction::NotFound));
}

#[test]
fn cached_lookup_without_node_finds_nothing() {
    let (mut lookup, _) = CachedLookup::start("/srv/py/server.js".to_string());
    lookup.step(CachedEvent::ScriptExists(true));
    assert!(matches!(lookup.step(CachedEvent::NodePath(None)), CachedAction::NotFound));
    assert!(matches!(lookup.phase, CachedPhase::Finished));
}
