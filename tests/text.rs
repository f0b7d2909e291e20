use ssg_mng::content::{normalize_list, normalize_text, ContentDto, ContentEntity, FrontMatterDto};
use ssg_mng::config::Config;
use ssg_mng::error::AppError;
use ssg_mng::markup::{strip_tags, MarkupToken};
use ssg_mng::text::{collapse_whitespace, fold_ideographic, normalize_query_text, remove_whitespace, take_chars};

fn s(v: &str) -> String {
    v.to_string()
}

fn open(name: &str) -> MarkupToken {
    MarkupToken::Open { name: s(name), alt: None }
}

fn text(t: &str) -> MarkupToken {
    MarkupToken::Text(s(t))
}

#[test]
fn whitespace_helpers() {
    assert_eq!(collapse_whitespace("  a \t b\n\nc  "), "a b c");
    assert_eq!(collapse_whitespace(""), "");
    assert_eq!(collapse_whitespace(" \u{3000} "), "\u{3000}");
    assert_eq!(fold_ideographic("a\u{3000}b"), "a b");
    assert_eq!(normalize_query_text("東京\u{3000}タワー  夜景"), "東京 タワー 夜景");
    assert_eq!(remove_whitespace(" a b\tc "), "abc");
    assert_eq!(take_chars("日本語テキスト", 3), "日本語");
    assert_eq!(take_chars("ab", 5), "ab");
}

#[test]
fn lists_are_cleaned_deduplicated_and_capped() {
    let list = Some(vec![s(" r u s t "), s("rust"), s(""), s("go\u{3000}lang"), s("verification"), s("x")]);
    assert_eq!(normalize_list(list.clone(), 3, 8), vec![s("rust"), s("golang"), s("verifica")]);
    assert_eq!(normalize_list(list, 10, 4), vec![s("rust"), s("gola"), s("veri"), s("x")]);
    assert_eq!(normalize_list(None, 3, 8), Vec::<String>::new());
}

#[test]
fn texts_are_collapsed_or_trimmed_then_cut() {
    assert_eq!(normalize_text(Some(s("  Hello \u{3000} World ")), 80, true), "Hello World");
    assert_eq!(normalize_text(Some(s("\n line one\n line two \n")), 80, false), "line one\n line two");
    assert_eq!(normalize_text(Some(s("abcdef")), 3, true), "abc");
    assert_eq!(normalize_text(None, 3, true), "");
}

#[test]
fn content_record_from_client_values() {
    let cfg = Config::with_identity(s("ssg"), s("secret"));
    let dto = ContentDto {
        id: None,
        matter: Some(FrontMatterDto {
            title: Some(s(" My  title ")),
            date: None,
            description: Some(s("about")),
            draft: Some(false),
            tags: Some(vec![s("a"), s("a"), s("b")]),
            categories: None,
        }),
        body: Some(s("  body text  ")),
    };
    let e = ContentEntity::from_dto(dto, s("generated"), 42, &cfg.content);
    assert_eq!(e.id, "generated");
    assert_eq!(e.matter.title, "My title");
    assert_eq!(e.matter.date, 42);
    assert!(!e.matter.draft);
    assert_eq!(e.matter.tags, vec![s("a"), s("b")]);
    assert!(e.matter.categories.is_empty());
    assert_eq!(e.body, "body text");
    assert!(e.check_required().is_ok());
    let d = e.to_document(s("plain"));
    assert_eq!((d.id.as_str(), d.body.as_str(), d.description.as_str(), d.date), ("generated", "plain", "about", 42));

    let empty = ContentEntity::from_dto(ContentDto { id: Some(s("x")), matter: None, body: None }, s("y"), 7, &cfg.content);
    assert_eq!(empty.id, "x");
    assert!(empty.matter.draft);
    assert!(matches!(empty.check_required(), Err(AppError::BadRequest(_))));
}

#[test]
fn markup_is_reduced_to_indexable_text() {
    let toks = vec![
        open("body"),
        open("p"),
        text("Hello"),
        open("b"),
        text("world"),
        MarkupToken::Close,
        MarkupToken::Close,
        open("script"),
        text("var x = 1;"),
        open("span"),
        text("hidden"),
        MarkupToken::Close,
        MarkupToken::Close,
        MarkupToken::Open { name: s("img"), alt: Some(s("a picture")) },
        MarkupToken::Close,
        open("style"),
        text("p { }"),
        MarkupToken::Close,
        open("img"),
        MarkupToken::Close,
        text("  end\n"),
        MarkupToken::Close,
    ];
    assert_eq!(strip_tags(&toks), "Hello world a picture end");
    assert_eq!(strip_tags(&vec![]), "");
}

#[test]
fn missing_values_get_defaults() {
    let fm = FrontMatterDto::new(9);
    assert_eq!(fm.title, Some(String::new()));
    assert_eq!((fm.date, fm.draft), (Some(9), Some(true)));
    let partial = FrontMatterDto {
        title: Some(s("t")),
        date: None,
        description: None,
        draft: Some(false),
        tags: None,
        categories: Some(vec![s("c")]),
    };
    let filled = partial.default(5);
    assert_eq!(filled.title, Some(s("t")));
    assert_eq!((filled.date, filled.draft), (Some(5), Some(false)));
    assert_eq!(filled.tags, Some(vec![]));
    assert_eq!(filled.categories, Some(vec![s("c")]));
    let c = ContentDto { id: None, matter: None, body: Some(s("b")) }.default(s("new"), 3);
    assert_eq!(c.id, Some(s("new")));
    assert_eq!(c.matter.map(|m| m.date), Some(Some(3)));
    assert_eq!(c.body, Some(s("b")));
    let n = ContentDto::new(s("id"), 4);
    assert_eq!((n.id, n.body), (Some(s("id")), Some(String::new())));
}
