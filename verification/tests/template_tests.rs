use site_helpers::templates::{
    classify_read, engine_extension, policy_for_path, EscapePolicy, ReadOutcome, TemplateRegistry,
};

#[test]
fn engine_owns_j2_files() {
    assert_eq!(engine_extension(), "j2");
}

#[test]
fn resolve_registered_name() {
    let mut reg = TemplateRegistry::new();
    assert!(reg.register("index".to_string(), "pages/index.html".to_string()));
    assert!(reg.register("about".to_string(), "pages/about.j2".to_string()));
    assert_eq!(reg.resolve("index"), Some("pages/index.html".to_string()));
    assert_eq!(reg.resolve("about"), Some("pages/about.j2".to_string()));
}

#[test]
fn resolve_is_idempotent() {
    let mut reg = TemplateRegistry::new();
    assert!(reg.register("index".to_string(), "pages/index.html".to_string()));
    let first = reg.resolve("index");
    let second = reg.resolve("index");
    assert_eq!(first, second);
    assert_eq!(reg.resolve("index"), Some("pages/index.html".to_string()));
}

#[test]
fn resolve_unregistered_name_is_absent() {
    let mut reg = TemplateRegistry::new();
    assert!(reg.register("index".to_string(), "pages/index.html".to_string()));
    assert_eq!(reg.resolve("missing"), None);
    assert_eq!(TemplateRegistry::new().resolve("anything"), None);
}

#[test]
fn register_overwrites_duplicate_name() {
    let mut reg = TemplateRegistry::new();
    assert!(reg.register("index".to_string(), "pages/index.html".to_string()));
    assert!(reg.register("about".to_string(), "pages/about.j2".to_string()));
    assert!(!reg.register("index".to_string(), "elsewhere/index.txt".to_string()));
    assert_eq!(reg.len(), 2);
    assert_eq!(reg.resolve("index"), Some("elsewhere/index.txt".to_string()));
    assert_eq!(reg.resolve("about"), Some("pages/about.j2".to_string()));
}

#[test]
fn from_pairs_keeps_last_occurrence() {
    let reg = TemplateRegistry::from_pairs(vec![
        ("index".to_string(), "old/index.j2".to_string()),
        ("about".to_string(), "pages/about.j2".to_string()),
        ("index".to_string(), "new/index.j2".to_string()),
    ]);
    assert_eq!(reg.resolve("index"), Some("new/index.j2".to_string()));
    assert_eq!(reg.resolve("about"), Some("pages/about.j2".to_string()));
    assert_eq!(reg.resolve("missing"), None);
}

#[test]
fn escape_policy_follows_extension() {
    assert_eq!(policy_for_path("pages/index.html"), EscapePolicy::Html);
    assert_eq!(policy_for_path("pages/partial.htm"), EscapePolicy::Html);
    assert_eq!(policy_for_path("feeds/atom.xml"), EscapePolicy::Html);
    assert_eq!(policy_for_path("mail/plain.txt"), EscapePolicy::NoEscape);
    assert_eq!(policy_for_path("noextension"), EscapePolicy::NoEscape);
    assert_eq!(policy_for_path("html"), EscapePolicy::NoEscape);
}

#[test]
fn escape_policy_ignores_engine_extension() {
    assert_eq!(policy_for_path("pages/index.html.j2"), EscapePolicy::Html);
    assert_eq!(policy_for_path("pages/partial.htm.jinja"), EscapePolicy::Html);
    assert_eq!(policy_for_path("feeds/atom.xml.jinja2"), EscapePolicy::Html);
    assert_eq!(policy_for_path("pages/note.j2"), EscapePolicy::NoEscape);
    assert_eq!(policy_for_path("mail/plain.txt.j2"), EscapePolicy::NoEscape);
    assert_eq!(policy_for_path("bare.jinja"), EscapePolicy::NoEscape);
}

#[test]
fn escape_policy_of_registered_name() {
    let mut reg = TemplateRegistry::new();
    assert!(reg.register("index".to_string(), "pages/index.html.j2".to_string()));
    assert!(reg.register("note".to_string(), "pages/note.j2".to_string()));
    assert_eq!(reg.auto_escape_policy("index"), EscapePolicy::Html);
    assert_eq!(reg.auto_escape_policy("note"), EscapePolicy::NoEscape);
}

#[test]
fn escape_policy_of_unregistered_name_is_none() {
    let reg = TemplateRegistry::new();
    assert_eq!(reg.auto_escape_policy("anything"), EscapePolicy::NoEscape);
}

#[test]
fn absent_file_loads_as_none() {
    let loaded = classify_read(ReadOutcome::FileAbsent);
    match loaded {
        Ok(None) => (),
        _ => panic!("a file deleted after registration must load as absent"),
    }
}

#[test]
fn read_content_loads_as_some() {
    let loaded = classify_read(ReadOutcome::Content("Hello {{ name }}!".to_string()));
    match loaded {
        Ok(Some(text)) => assert_eq!(text, "Hello {{ name }}!"),
        _ => panic!("read content must come back as loaded source"),
    }
}

#[test]
fn read_failure_is_hard_error() {
    let loaded = classify_read(ReadOutcome::Failure("permission denied".to_string()));
    match loaded {
        Err(e) => assert_eq!(e.message, "permission denied"),
        _ => panic!("a read failure other than absence must be a hard error"),
    }
}
