//! End-to-end and per-component tests of the frame-data site builder,
//! run against the real template engine and JSON parser.

use framesite::assets::{copy_plan, CopyAction, TreeEntry};
use framesite::entity::links_of;
use framesite::error::BuildError;
use framesite::loader::{load_all, SourceFile};
use framesite::names::to_character_name;
use framesite::paths::{file_stem, index_path, join_path, page_path};
use framesite::pipeline::build_site;

fn source(name: &str, text: &str) -> SourceFile {
    SourceFile {
        name: name.to_string(),
        text: text.to_string(),
    }
}

#[test]
fn normalize_single_word() {
    assert_eq!(to_character_name("hwoarang"), "Hwoarang");
}

#[test]
fn normalize_two_words() {
    assert_eq!(to_character_name("bryan fury"), "Bryan Fury");
}

#[test]
fn normalize_empty() {
    assert_eq!(to_character_name(""), "");
}

#[test]
fn normalize_leading_space() {
    assert_eq!(to_character_name(" ok"), " Ok");
}

#[test]
fn normalize_keeps_length_and_inner_characters() {
    let raw = "jack-8 PROTO v2";
    let out = to_character_name(raw);
    assert_eq!(out.chars().count(), raw.chars().count());
    let rs: Vec<char> = raw.chars().collect();
    let os: Vec<char> = out.chars().collect();
    for i in 1..rs.len() {
        if rs[i - 1] != ' ' && rs[i] != ' ' {
            assert_eq!(os[i], rs[i]);
        }
    }
}

#[test]
fn normalize_hyphen_is_not_a_separator() {
    assert_eq!(to_character_name("devil-jin"), "Devil-jin");
}

#[test]
fn stem_strips_last_extension_only() {
    assert_eq!(file_stem("hwoarang.json"), "hwoarang");
    assert_eq!(file_stem("a.b.json"), "a.b");
    assert_eq!(file_stem("noext"), "noext");
    assert_eq!(file_stem(".json"), ".json");
}

#[test]
fn paths_are_built_under_the_output_dir() {
    assert_eq!(page_path("build", "hwoarang"), "build/hwoarang.html");
    assert_eq!(index_path("build"), "build/index.html");
    assert_eq!(join_path("build", "css/site.css"), "build/css/site.css");
}

#[test]
fn loader_returns_one_entity_per_file_with_stem_ids() {
    let files = vec![
        source("hwoarang.json", r#"{"1_2": {"damage": 15}}"#),
        source("bryan fury.json", r#"{"df_2": {"damage": 12}}"#),
        source("jin.json", "{}"),
    ];
    let characters = load_all(&files).unwrap();
    assert_eq!(characters.len(), 3);
    let ids: Vec<&str> = characters.iter().map(|c| c.id.as_str()).collect();
    assert_eq!(ids, vec!["hwoarang", "bryan fury", "jin"]);
    assert_eq!(characters[1].name, "Bryan Fury");
    for i in 0..characters.len() {
        for j in 0..i {
            assert_ne!(characters[i].id, characters[j].id);
        }
    }
}

#[test]
fn loader_fails_fast_on_one_malformed_file() {
    let files = vec![
        source("hwoarang.json", r#"{"1_2": {"damage": 15}}"#),
        source("broken.json", r#"{"1_2": "#),
        source("jin.json", "{}"),
    ];
    let result = load_all(&files);
    assert_eq!(result.err(), Some(BuildError::DataFormatError));
}

#[test]
fn links_carry_id_and_display_name_in_order() {
    let files = vec![source("bryan fury.json", "{}"), source("jin.json", "{}")];
    let characters = load_all(&files).unwrap();
    let links = links_of(&characters);
    assert_eq!(links.len(), 2);
    assert_eq!(links[0].url, "bryan fury");
    assert_eq!(links[0].name, "Bryan Fury");
    assert_eq!(links[1].url, "jin");
    assert_eq!(links[1].name, "Jin");
}

#[test]
fn copy_plan_mirrors_files_and_directories() {
    let entries = vec![
        TreeEntry {
            rel: "a.txt".to_string(),
            is_dir: false,
        },
        TreeEntry {
            rel: "sub".to_string(),
            is_dir: true,
        },
        TreeEntry {
            rel: "sub/b.txt".to_string(),
            is_dir: false,
        },
    ];
    let plan = copy_plan(&entries, "static", "build");
    assert_eq!(plan.len(), 4);
    match &plan[0] {
        CopyAction::MakeDir(p) => assert_eq!(p, "build"),
        _ => panic!("first action must create the destination"),
    }
    match &plan[1] {
        CopyAction::CopyFile(from, to) => {
            assert_eq!(from, "static/a.txt");
            assert_eq!(to, "build/a.txt");
        }
        _ => panic!("a.txt must be copied"),
    }
    match &plan[2] {
        CopyAction::MakeDir(p) => assert_eq!(p, "build/sub"),
        _ => panic!("sub must be created"),
    }
    match &plan[3] {
        CopyAction::CopyFile(from, to) => {
            assert_eq!(from, "static/sub/b.txt");
            assert_eq!(to, "build/sub/b.txt");
        }
        _ => panic!("sub/b.txt must be copied"),
    }
}

fn echo_templates() -> tera::Tera {
    let mut tera = tera::Tera::new();
    tera.add_raw_template("[character].html", "<h1>{{ name }}</h1><pre>{{ data }}</pre>")
        .unwrap();
    tera.add_raw_template(
        "index.html",
        "{% for link in data %}<a href=\"{{ link.url }}.html\">{{ link.name }}</a>{% endfor %}",
    )
    .unwrap();
    tera
}

#[test]
fn build_renders_pages_and_index() {
    let tera = echo_templates();
    let files = vec![source("hwoarang.json", r#"{"1_2": {"damage": 15}}"#)];
    let out = build_site(&tera, &files, "build").unwrap();
    assert_eq!(out.pages.len(), 1);
    assert_eq!(out.pages[0].path, "build/hwoarang.html");
    assert!(out.pages[0].html.contains("Hwoarang"));
    assert_eq!(out.index.path, "build/index.html");
    assert!(out.index.html.contains("hwoarang.html"));
    assert!(out.index.html.contains("Hwoarang"));
}

#[test]
fn build_fails_with_data_format_error_on_malformed_input() {
    let tera = echo_templates();
    let files = vec![source("broken.json", "not json at all {{")];
    let result = build_site(&tera, &files, "build");
    assert_eq!(result.err(), Some(BuildError::DataFormatError));
}

#[test]
fn build_fails_with_template_error_when_a_template_is_missing() {
    let tera = tera::Tera::new();
    let files = vec![source("jin.json", "{}")];
    let result = build_site(&tera, &files, "build");
    assert_eq!(result.err(), Some(BuildError::TemplateError));
}

#[test]
fn build_twice_gives_byte_identical_output() {
    let tera = echo_templates();
    let files = vec![
        source("hwoarang.json", r#"{"1_2": {"damage": 15}}"#),
        source("bryan fury.json", r#"{"df_2": {"damage": 12}}"#),
    ];
    let first = build_site(&tera, &files, "build").unwrap();
    let second = build_site(&tera, &files, "build").unwrap();
    assert_eq!(first.pages.len(), second.pages.len());
    for (a, b) in first.pages.iter().zip(second.pages.iter()) {
        assert_eq!(a.path, b.path);
        assert_eq!(a.html.as_bytes(), b.html.as_bytes());
    }
    assert_eq!(first.index.path, second.index.path);
    assert_eq!(first.index.html.as_bytes(), second.index.html.as_bytes());
}

#[test]
fn error_descriptions_name_the_failing_stage() {
    assert!(!BuildError::IoError.describe().is_empty());
    assert!(!BuildError::DataFormatError.describe().is_empty());
    assert!(!BuildError::TemplateError.describe().is_empty());
}
