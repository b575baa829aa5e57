use blog_site::content::default_posts;
use blog_site::content::default_registry;
use blog_site::post::BlogPost;
use blog_site::registry::Registry;
use blog_site::registry::RegistryError;
use blog_site::registry::ResolveError;
use blog_site::render::render_blog_list;
use blog_site::render::render_home_page;
use blog_site::render::render_markdown_block;
use blog_site::render::render_post_page;
use blog_site::router::not_found_message;
use blog_site::router::render_path;
use blog_site::router::route_for;
use blog_site::router::Route;

fn post(slug: &str, title: &str, date: &str, content: &str) -> BlogPost {
    BlogPost::new(
        date.to_string(),
        title.to_string(),
        "a description".to_string(),
        slug.to_string(),
        content.to_string(),
        vec!["tag".to_string()],
    )
}

#[test]
fn resolving_known_slug_returns_its_post() {
    let registry = default_registry("bevy text".to_string(), "femboy text".to_string());
    let found = registry.resolve("going-femboy").unwrap();
    assert_eq!(found.slug(), "going-femboy");
    assert_eq!(found.title(), "Top Reasons of why Femboy is the Best");
    assert_eq!(found.date(), "March 10th, 2024");
    assert_eq!(found.content(), "femboy text");
    assert_eq!(
        found.tags(),
        &vec![
            "humerous".to_string(),
            "rant".to_string(),
            "very funny".to_string()
        ]
    );
}

#[test]
fn resolving_every_registry_slug_succeeds() {
    let registry = default_registry("b".to_string(), "f".to_string());
    for slug in registry.slugs() {
        let found = registry.resolve(&slug).unwrap();
        assert_eq!(found.slug(), &slug);
    }
}

#[test]
fn resolving_missing_slug_is_not_found() {
    let registry = default_registry("b".to_string(), "f".to_string());
    let err = registry.resolve("nonexistent-slug").unwrap_err();
    let ResolveError::PostNotFound(slug) = err;
    assert_eq!(slug, "nonexistent-slug");
}

#[test]
fn resolving_in_empty_registry_is_not_found() {
    let registry = Registry::new(Vec::new()).unwrap();
    assert_eq!(registry.len(), 0);
    let err = registry.resolve("anything").unwrap_err();
    let ResolveError::PostNotFound(slug) = err;
    assert_eq!(slug, "anything");
}

#[test]
fn not_found_page_names_the_requested_path() {
    let message = not_found_message(&vec!["nonexistent-slug".to_string()]);
    assert!(message.contains("/nonexistent-slug"));
    assert!(message.contains("Page not found"));
}

#[test]
fn duplicate_slugs_are_rejected() {
    let posts = vec![
        post("same", "first", "March 1st, 2024", "a"),
        post("same", "second", "March 2nd, 2024", "b"),
    ];
    let err = Registry::new(posts).unwrap_err();
    let RegistryError::DuplicateSlug(slug) = err;
    assert_eq!(slug, "same");
}

#[test]
fn distinct_slugs_are_accepted() {
    let posts = vec![
        post("one", "first", "March 1st, 2024", "a"),
        post("two", "second", "March 2nd, 2024", "b"),
    ];
    assert!(Registry::new(posts).is_ok());
}

#[test]
fn markdown_conversion_is_deterministic() {
    let source = "# Title\n\nSome *emphasis* and a [link](https://example.com).";
    let first = render_markdown_block(source);
    let second = render_markdown_block(source);
    assert_eq!(first, second);
}

#[test]
fn markdown_heading_becomes_h1() {
    let rendered = render_markdown_block("# Hi");
    assert!(rendered.contains("<h1>"));
    assert!(rendered.contains("Hi"));
}

#[test]
fn markdown_block_wraps_converted_html() {
    let rendered = render_markdown_block("plain");
    let inner = markdown::to_html("plain");
    assert_eq!(
        rendered,
        format!("<div class=\"markdown-body\">{}</div>", inner)
    );
}

#[test]
fn listing_keeps_declared_order() {
    let posts = vec![
        post("going-femboy", "Femboy", "March 10th, 2024", "f"),
        post("building-tetris-in-bevy", "Bevy", "March 11th, 2024", "b"),
    ];
    let registry = Registry::new(posts).unwrap();
    assert_eq!(
        registry.slugs(),
        vec![
            "going-femboy".to_string(),
            "building-tetris-in-bevy".to_string()
        ]
    );
}

#[test]
fn default_posts_keep_their_declared_order_and_metadata() {
    let posts = default_posts("bevy text".to_string(), "femboy text".to_string());
    assert_eq!(posts.len(), 2);
    assert_eq!(posts[0].slug(), "building-tetris-in-bevy");
    assert_eq!(posts[0].title(), "My journey with bevy");
    assert_eq!(posts[0].date(), "March 11th, 2024");
    assert_eq!(posts[0].description(), "Building a simple game using bevy 0.12");
    assert_eq!(posts[0].content(), "bevy text");
    assert_eq!(
        posts[0].tags(),
        &vec![
            "fun".to_string(),
            "programming".to_string(),
            "sadness".to_string()
        ]
    );
    assert_eq!(posts[1].slug(), "going-femboy");
    assert_eq!(posts[1].description(), "The femboy thesis we've all wished for");
}

#[test]
fn rendered_post_page_holds_every_field() {
    let p = post("s", "A Title", "March 1st, 2024", "# Hi");
    let page = render_post_page(&p);
    let inner = markdown::to_html("# Hi");
    assert_eq!(
        page,
        format!(
            "A Title\nMarch 1st, 2024\ntag\n<div class=\"markdown-body\">{}</div>",
            inner
        )
    );
}

#[test]
fn rendered_home_page_greets_and_renders_the_introduction() {
    let page = render_home_page("intro");
    let inner = markdown::to_html("intro");
    assert_eq!(
        page,
        format!(
            "Hi I'm Kyle!\n<div class=\"markdown-body\">{}</div>",
            inner
        )
    );
}

#[test]
fn rendered_list_page_shows_titles_over_dates() {
    let posts = vec![
        post("a", "First", "March 1st, 2024", "x"),
        post("b", "Second", "March 2nd, 2024", "y"),
    ];
    let registry = Registry::new(posts).unwrap();
    let page = render_blog_list(&registry);
    assert_eq!(page, "First\nMarch 1st, 2024\n\nSecond\nMarch 2nd, 2024");
}

#[test]
fn empty_path_renders_as_bare_slash() {
    assert_eq!(render_path(&Vec::<String>::new()), "/");
}

#[test]
fn path_segments_are_joined_with_slashes() {
    assert_eq!(
        render_path(&vec!["blog".to_string(), "going-femboy".to_string()]),
        "/blog/going-femboy"
    );
}

#[test]
fn routes_follow_the_table() {
    assert!(matches!(route_for(Vec::new()), Route::Home));
    assert!(matches!(
        route_for(vec!["blog".to_string()]),
        Route::BlogList
    ));
    assert!(matches!(
        route_for(vec!["blog".to_string(), "going-femboy".to_string()]),
        Route::PostBlog(slug) if slug == "going-femboy"
    ));
    assert!(matches!(
        route_for(vec!["elsewhere".to_string()]),
        Route::PageNotFound(segments) if segments == vec!["elsewhere".to_string()]
    ));
    assert!(matches!(
        route_for(vec!["blog".to_string(), "a".to_string(), "b".to_string()]),
        Route::PageNotFound(segments) if segments.len() == 3
    ));
}

#[test]
fn cloned_post_keeps_every_field() {
    let p = post("s", "T", "D", "C");
    let q = p.clone();
    assert_eq!(q.slug(), p.slug());
    assert_eq!(q.title(), p.title());
    assert_eq!(q.date(), p.date());
    assert_eq!(q.description(), p.description());
    assert_eq!(q.content(), p.content());
    assert_eq!(q.tags(), p.tags());
}

#[test]
fn nav_links_lead_home_and_to_the_blog() {
    let links = blog_site::router::nav_links();
    assert_eq!(
        links,
        vec![
            ("KYLE".to_string(), "/".to_string()),
            ("Blog".to_string(), "/blog".to_string())
        ]
    );
}

#[test]
fn blog_page_puts_the_heading_over_its_content() {
    assert_eq!(
        blog_site::render::render_blog_page("inner text"),
        "Blog\ninner text"
    );
}
