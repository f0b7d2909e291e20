use ssg_mng::config::{clamp_i64, clamp_usize, Cli, Config, PartialConfig, PartialSearchConfig, PartialServerConfig};
use ssg_mng::dto::{public_query, public_request, visible_content, SearchQueryDto, SearchRequestDto, SearchContentDto, SearchResponseDto};
use ssg_mng::content::{ContentDto, FrontMatterDto};
use ssg_mng::document::IndexedDocument;
use ssg_mng::error::{ApiError, AppError};
use ssg_mng::pagination::{search_window, SearchResult};
use ssg_mng::query::SearchParams;
use ssg_mng::repository::{compose_markdown, split_front_matter, ContentRepositoryImpl, HtmlParserRepositoryImpl};

fn s(v: &str) -> String {
    v.to_string()
}

fn base() -> Config {
    Config::with_identity(s("ssg"), s("secret"))
}

fn cli() -> Cli {
    Cli {
        host: None,
        cors: None,
        no_cors: false,
        static_dir: None,
        no_static: false,
        log_level: None,
        no_log: false,
        allow_signup: false,
        no_allow_signup: false,
    }
}

#[test]
fn clamps() {
    assert_eq!(clamp_usize(5, 8, 32), 8);
    assert_eq!(clamp_usize(40, 8, 32), 32);
    assert_eq!(clamp_usize(16, 8, 32), 16);
    assert_eq!(clamp_i64(-5, 1, 10), 1);
    assert_eq!(clamp_i64(11, 1, 10), 10);
}

#[test]
fn file_values_override_defaults() {
    let mut c = base();
    c.merge(PartialConfig {
        server: Some(PartialServerConfig { host: Some(s("127.0.0.1:8080")), cors: None, static_dir: Some(s("www")) }),
        content: None,
        search: Some(PartialSearchConfig {
            dictionary_dir: None,
            index_dir: None,
            max_index_count: Some(50),
            search_limit: None,
            memory_budget_in_bytes: None,
        }),
        security: None,
        log: None,
    });
    assert_eq!(c.server.host, "127.0.0.1:8080");
    assert_eq!(c.server.static_dir, Some(s("www")));
    assert_eq!(c.search.index_limit, 50);
    assert_eq!(c.search.search_limit, 1000);
    c.normalize(false);
    assert_eq!(c.search.index_limit, 100);
    assert_eq!(c.server.static_dir, None);
}

#[test]
fn out_of_range_limits_are_clamped() {
    let mut c = base();
    c.content.title_max_len = 1;
    c.content.max_categories = 9;
    c.security.expire = 10;
    c.search.memory_budget_in_bytes = usize::MAX;
    c.log.level = Some(s("info"));
    c.normalize(true);
    assert_eq!(c.content.title_max_len, 80);
    assert_eq!(c.content.max_categories, 5);
    assert_eq!(c.security.expire, 180);
    assert_eq!(c.search.memory_budget_in_bytes, 99_999_999);
    assert_eq!(c.log.level, Some(s("info")));
    c.log.level = Some(s("[[[not a filter"));
    c.normalize(true);
    assert_eq!(c.log.level, None);
}

#[test]
fn command_line_overrides() {
    let mut c = base();
    c.server.cors = vec![s("a")];
    let mut o = cli();
    o.host = Some(s("h:1"));
    o.no_cors = true;
    o.cors = Some(vec![s("b")]);
    o.allow_signup = true;
    o.no_allow_signup = true;
    o.log_level = Some(s("debug"));
    c.apply_cli(o, false);
    assert_eq!(c.server.host, "h:1");
    assert!(c.server.cors.is_empty());
    assert!(!c.security.allow_signup);
    assert_eq!(c.log.level, Some(s("debug")));
    let mut o = cli();
    o.static_dir = Some(s("missing"));
    o.allow_signup = true;
    c.apply_cli(o, false);
    assert_eq!(c.server.static_dir, None);
    assert!(c.security.allow_signup);
}

#[test]
fn repositories_take_their_directories() {
    let c = base();
    assert_eq!(ContentRepositoryImpl::new(&c.content).output_path, "output/markdown");
    let h = HtmlParserRepositoryImpl::new(&c.content);
    assert_eq!((h.template_path.as_str(), h.output_path.as_str()), ("data/templates", "output/public_html"));
}

#[test]
fn errors_map_to_statuses() {
    assert_eq!(ApiError::from(AppError::BadRequest(s("x"))).status(), 400);
    assert_eq!(ApiError(AppError::DataConflict(s("x"))).status(), 409);
    assert_eq!(ApiError(AppError::Unexpected(s("disk"))).status(), 500);
    assert_eq!(ApiError(AppError::Unexpected(s("disk"))).client_message(), "An internal server error occurred");
    assert_eq!(AppError::DataNotFound(s("p1")).message(), "Data not found: p1");
    assert_eq!(AppError::ServerBusy().message(), "Server busy");
}

#[test]
fn markdown_file_layout() {
    let text = compose_markdown("  title: a\n ", "# Body\n");
    assert_eq!(text, "---\ntitle: a\n---\n# Body\n");
    assert_eq!(split_front_matter(&text), Ok((s("title: a"), s("# Body\n"))));
    assert_eq!(split_front_matter("---\n---\nbody"), Ok((s(""), s("body"))));
    assert!(matches!(split_front_matter("no marker"), Err(AppError::Unexpected(_))));
    assert!(matches!(split_front_matter("---\ntitle: a\n"), Err(AppError::Unexpected(_))));
}

#[test]
fn public_requests_exclude_drafts() {
    let req = SearchRequestDto {
        word: Some(s("w")),
        draft: Some(true),
        date_from: None,
        date_to: None,
        tags: None,
        categories: None,
        page: Some(2),
        per_page: None,
    };
    let p = public_request(req);
    assert_eq!(p.draft, Some(false));
    assert_eq!(p.word, Some(s("w")));
    let q = public_query(SearchQueryDto { page: Some(3), per_page: Some(5) });
    assert_eq!((q.draft, q.page, q.per_page), (Some(false), Some(3), Some(5)));
    let params = SearchParams::from(SearchQueryDto { page: Some(3), per_page: None });
    assert_eq!((params.page, params.word), (Some(3), None));
    let params = SearchParams::from(q);
    assert_eq!(params.draft, Some(false));

    let content = |draft: Option<bool>| ContentDto {
        id: Some(s("p")),
        matter: Some(FrontMatterDto { title: None, date: None, description: None, draft, tags: None, categories: None }),
        body: None,
    };
    assert!(visible_content(Some(content(Some(false)))).is_some());
    assert!(visible_content(Some(content(Some(true)))).is_none());
    assert!(visible_content(Some(content(None))).is_none());
    assert!(visible_content(None).is_none());
}

#[test]
fn hit_descriptions_fall_back_to_the_body() {
    let mut d = IndexedDocument {
        id: s("p"),
        title: s("t"),
        description: s("  summary "),
        body: s("abcdefghij"),
        draft: false,
        date: 0,
        tags: vec![],
        categories: vec![],
    };
    assert_eq!(SearchContentDto::from_document(d.clone(), 5).matter.description, "summary");
    d.description = s("   ");
    assert_eq!(SearchContentDto::from_document(d.clone(), 5).matter.description, "abcd\u{2026}");
    assert_eq!(SearchContentDto::from_document(d.clone(), 10).matter.description, "abcdefghij");
    let w = search_window(1, 1000, None, None);
    let r = SearchResponseDto::from_result(SearchResult::new(w, vec![d]), 5);
    assert_eq!((r.page, r.max_page, r.contents.len()), (1, 1, 1));
    assert_eq!(r.contents[0].matter.description, "abcd\u{2026}");
}
