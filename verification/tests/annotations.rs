use mdbook_buildtime_annotations::book::annotate_book;
use mdbook_buildtime_annotations::footer::compose_footer;
use mdbook_buildtime_annotations::manifest::parse_cargo_toml;
use mdbook_buildtime_annotations::revision::truncate_revision;
use mdbook_buildtime_annotations::{Book, BookItem, CargoPackage, CargoToml, Chapter, Config, Processor};

fn chapter(content: &str, sub_items: Vec<BookItem>) -> BookItem {
    BookItem::Chapter(Chapter {
        content: content.to_string(),
        sub_items,
    })
}

fn chapter_content(item: &BookItem) -> &str {
    match item {
        BookItem::Chapter(ch) => ch.content.as_str(),
        BookItem::Separator => panic!("expected a chapter"),
    }
}

#[test]
fn truncate_keeps_short_identifier() {
    let r = truncate_revision("abc", 100);
    assert_eq!(r, "abc");
}

#[test]
fn truncate_keeps_identifier_of_exact_length() {
    let id = "0123456789012345678901234567890123456789";
    let r = truncate_revision(id, 40);
    assert_eq!(r, id);
}

#[test]
fn truncate_cuts_long_identifier() {
    let r = truncate_revision("0123456789abcdef", 10);
    assert_eq!(r, "0123456789");
    assert_eq!(r.len(), 10);
}

#[test]
fn truncate_to_zero_is_empty() {
    let r = truncate_revision("abcdef", 0);
    assert_eq!(r, "");
}

#[test]
fn truncate_counts_characters_not_bytes() {
    let r = truncate_revision("héllo", 2);
    assert_eq!(r, "hé");
}

#[test]
fn manifest_package_takes_precedence() {
    let text = "[package]\nname = \"foo\"\nversion = \"1.0\"\n\n[workspace]\nname = \"bar\"\nversion = \"2.0\"\n";
    let manifest = parse_cargo_toml(text).expect("manifest should parse");
    assert_eq!(manifest.name(), Some("foo"));
    assert_eq!(manifest.version(), Some("1.0"));
}

#[test]
fn manifest_falls_back_to_workspace() {
    let text = "[workspace]\nname = \"bar\"\nversion = \"2.0\"\n";
    let manifest = parse_cargo_toml(text).expect("manifest should parse");
    assert_eq!(manifest.name(), Some("bar"));
    assert_eq!(manifest.version(), Some("2.0"));
}

#[test]
fn manifest_without_tables_has_no_identity() {
    let manifest = parse_cargo_toml("other = 1\n").expect("manifest should parse");
    assert_eq!(manifest.name(), None);
    assert_eq!(manifest.version(), None);
}

#[test]
fn manifest_that_is_not_toml_fails() {
    let r = parse_cargo_toml("this is = = not a manifest [");
    assert!(r.is_err());
    assert!(!r.unwrap_err().message.is_empty());
}

#[test]
fn constructed_manifest_prefers_package() {
    let manifest = CargoToml {
        package: Some(CargoPackage {
            name: "foo".to_string(),
            version: "1.0".to_string(),
        }),
        workspace: Some(CargoPackage {
            name: "bar".to_string(),
            version: "2.0".to_string(),
        }),
    };
    assert_eq!(manifest.package().unwrap().name, "foo");
    assert_eq!(manifest.name(), Some("foo"));
    assert_eq!(manifest.version(), Some("1.0"));
}

#[test]
fn footer_orders_name_revision_version() {
    let r = compose_footer(Some("foo"), Some("abc"), Some("1.0"), true, true, true);
    assert_eq!(r, Some("<footer>foo @abc v1.0</footer>".to_string()));
}

#[test]
fn footer_keeps_order_with_name_disabled() {
    let r = compose_footer(Some("foo"), Some("abc"), Some("1.0"), false, true, true);
    assert_eq!(r, Some("<footer>@abc v1.0</footer>".to_string()));
}

#[test]
fn footer_with_single_fact_has_no_separator() {
    let r = compose_footer(None, None, Some("1.0"), true, true, true);
    assert_eq!(r, Some("<footer>v1.0</footer>".to_string()));
}

#[test]
fn footer_after_empty_name_has_no_leading_separator() {
    let r = compose_footer(Some(""), None, Some("1.0"), true, true, true);
    assert_eq!(r, Some("<footer>v1.0</footer>".to_string()));
}

#[test]
fn footer_skips_when_no_facts_available() {
    let r = compose_footer(None, None, None, true, true, true);
    assert_eq!(r, None);
}

#[test]
fn footer_skips_when_all_flags_disabled() {
    let r = compose_footer(Some("foo"), Some("abc"), Some("1.0"), false, false, false);
    assert_eq!(r, None);
}

#[test]
fn annotate_mutates_exactly_the_chapters() {
    let mut book = Book {
        sections: vec![
            chapter("first", vec![]),
            BookItem::Separator,
            chapter("second", vec![]),
        ],
    };
    annotate_book(&mut book, "<footer>foo v1.0</footer>");
    assert_eq!(book.sections.len(), 3);
    assert_eq!(chapter_content(&book.sections[0]), "first<footer>foo v1.0</footer>");
    assert_eq!(book.sections[1], BookItem::Separator);
    assert_eq!(chapter_content(&book.sections[2]), "second<footer>foo v1.0</footer>");
}

#[test]
fn annotate_reaches_nested_chapters() {
    let mut book = Book {
        sections: vec![chapter("top", vec![chapter("nested", vec![]), BookItem::Separator])],
    };
    annotate_book(&mut book, "[f]");
    match &book.sections[0] {
        BookItem::Chapter(ch) => {
            assert_eq!(ch.content, "top[f]");
            assert_eq!(chapter_content(&ch.sub_items[0]), "nested[f]");
            assert_eq!(ch.sub_items[1], BookItem::Separator);
        }
        BookItem::Separator => panic!("expected a chapter"),
    }
}

#[test]
fn annotate_twice_appends_twice() {
    let mut book = Book {
        sections: vec![chapter("body ", vec![])],
    };
    annotate_book(&mut book, "<footer>x</footer>");
    annotate_book(&mut book, "<footer>x</footer>");
    assert_eq!(
        chapter_content(&book.sections[0]),
        "body <footer>x</footer><footer>x</footer>"
    );
}

#[test]
fn handle_bookitem_leaves_separator_alone() {
    let mut item = BookItem::Separator;
    Processor.handle_bookitem(&mut item, "<footer>x</footer>");
    assert_eq!(item, BookItem::Separator);
}

#[test]
fn handle_bookitem_annotates_chapter() {
    let mut item = chapter("text", vec![]);
    Processor.handle_bookitem(&mut item, "!");
    assert_eq!(chapter_content(&item), "text!");
}

#[test]
fn config_defaults() {
    let cfg = Config::resolve(None, None, None, None, None, None);
    assert_eq!(cfg.commit_characters, 10);
    assert_eq!(cfg.workspace_dir, "../");
    assert_eq!(cfg.git_dir, "../");
    assert!(cfg.package_name);
    assert!(cfg.package_version);
    assert!(cfg.git_commit);
}

#[test]
fn config_overrides() {
    let cfg = Config::resolve(
        Some(7),
        Some("ws".to_string()),
        Some("repo".to_string()),
        Some(false),
        Some(true),
        Some(false),
    );
    assert_eq!(cfg.commit_characters, 7);
    assert_eq!(cfg.workspace_dir, "ws");
    assert_eq!(cfg.git_dir, "repo");
    assert!(!cfg.package_name);
    assert!(cfg.package_version);
    assert!(!cfg.git_commit);
}

#[test]
fn processor_name() {
    assert_eq!(Processor.name(), "build-annotations");
}

#[test]
fn run_annotates_with_all_facts() {
    let cfg = Config::resolve(None, None, None, None, None, None);
    let manifest = parse_cargo_toml("[package]\nname = \"foo\"\nversion = \"1.0\"\n").unwrap();
    let book = Book {
        sections: vec![chapter("hello ", vec![])],
    };
    let out = Processor.run(&cfg, &manifest, Some("0123456789abcdef"), book);
    assert_eq!(
        chapter_content(&out.sections[0]),
        "hello <footer>foo @0123456789 v1.0</footer>"
    );
}

#[test]
fn run_with_workspace_manifest_and_no_repository() {
    let cfg = Config::resolve(None, None, None, None, None, None);
    let manifest = parse_cargo_toml("[workspace]\nname = \"bar\"\nversion = \"2.0\"\n").unwrap();
    let book = Book {
        sections: vec![chapter("x", vec![])],
    };
    let out = Processor.run(&cfg, &manifest, None, book);
    assert_eq!(chapter_content(&out.sections[0]), "x<footer>bar v2.0</footer>");
}

#[test]
fn run_without_facts_returns_book_unchanged() {
    let cfg = Config::resolve(None, None, None, None, None, None);
    let manifest = parse_cargo_toml("").unwrap();
    let book = Book {
        sections: vec![chapter("hello", vec![]), BookItem::Separator],
    };
    let expected = Book {
        sections: vec![chapter("hello", vec![]), BookItem::Separator],
    };
    let out = Processor.run(&cfg, &manifest, None, book);
    assert_eq!(out, expected);
}

#[test]
fn run_with_disabled_facts_skips_annotation() {
    let cfg = Config::resolve(None, None, None, Some(false), Some(false), Some(false));
    let manifest = parse_cargo_toml("[package]\nname = \"foo\"\nversion = \"1.0\"\n").unwrap();
    let book = Book {
        sections: vec![chapter("hello", vec![])],
    };
    let out = Processor.run(&cfg, &manifest, Some("abcdef"), book);
    assert_eq!(chapter_content(&out.sections[0]), "hello");
}
