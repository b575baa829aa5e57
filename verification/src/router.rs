//! Client-side routing: which page a URL path selects, and the text of the
//! not-found page for a path that selects none.
use vstd::prelude::*;

use crate::text::join_with;
use crate::text::joined_with;

verus! {

/// Mathematical model of a routing decision.
pub enum RouteView {
    Home,
    BlogList,
    PostBlog(Seq<char>),
    PageNotFound(Seq<Seq<char>>),
}

/// The page a URL path selects: the home page at the root, the post list
/// under the blog prefix, one post under the blog prefix with its slug, and
/// the not-found page (carrying the full unmatched path) for everything else.
#[derive(Debug)]
pub enum Route {
    Home,
    BlogList,
    PostBlog(String),
    PageNotFound(Vec<String>),
}

impl View for Route {
    type V = RouteView;

    closed spec fn view(&self) -> RouteView {
        match self {
            Route::Home => RouteView::Home,
            Route::BlogList => RouteView::BlogList,
            Route::PostBlog(slug) => RouteView::PostBlog(slug@),
            Route::PageNotFound(segments) => RouteView::PageNotFound(segments.deep_view()),
        }
    }
}

/// The routing table over already-extracted path segments.
pub open spec fn route_of(segments: Seq<Seq<char>>) -> RouteView {
    if segments.len() == 0 {
        RouteView::Home
    } else if segments.len() == 1 && segments[0] == "blog"@ {
        RouteView::BlogList
    } else if segments.len() == 2 && segments[0] == "blog"@ {
        RouteView::PostBlog(segments[1])
    } else {
        RouteView::PageNotFound(segments)
    }
}

/// Decides which page the path segments select, following the routing table.
pub fn route_for(segments: Vec<String>) -> (r: Route)
    ensures
        r@ == route_of(segments.deep_view()),
{
    if segments.len() == 0 {
        return Route::Home;
    }
    let is_blog = segments[0] == String::from_str("blog");
    if segments.len() == 1 && is_blog {
        Route::BlogList
    } else if segments.len() == 2 && is_blog {
        let mut segments = segments;
        let slug = segments.pop().unwrap();
        Route::PostBlog(slug)
    } else {
        Route::PageNotFound(segments)
    }
}

/// The navigation bar's links: each label with the path it leads to, in
/// display order.
pub fn nav_links() -> (r: Vec<(String, String)>)
    ensures
        r@.len() == 2,
        r@[0].0@ == "KYLE"@,
        r@[0].1@ == "/"@,
        r@[1].0@ == "Blog"@,
        r@[1].1@ == "/blog"@,
{
    let mut r: Vec<(String, String)> = Vec::new();
    r.push((String::from_str("KYLE"), String::from_str("/")));
    r.push((String::from_str("Blog"), String::from_str("/blog")));
    r
}

/// The textual form of a path: a leading separator, then the segments joined
/// by the separator; the empty path reads as the bare separator.
pub open spec fn path_string(segments: Seq<Seq<char>>) -> Seq<char> {
    "/"@ + joined_with(segments, "/"@)
}

/// Reconstructs the textual form of a path from its segments.
pub fn render_path(segments: &Vec<String>) -> (r: String)
    ensures
        r@ == path_string(segments.deep_view()),
{
    let mut r = String::from_str("/");
    let joined = join_with(segments, "/");
    r.append(joined.as_str());
    r
}

/// The not-found page: an apology and the reconstructed path that failed to
/// match.
pub open spec fn not_found_text(segments: Seq<Seq<char>>) -> Seq<char> {
    "Page not found\nWe are terribly sorry, but the page you requested doesn't exist.\nLog:\nAttempt to navigate to: "@
        + path_string(segments)
}

/// Renders the not-found page for the full unmatched path. Pure formatting;
/// no state.
pub fn not_found_message(segments: &Vec<String>) -> (r: String)
    ensures
        r@ == not_found_text(segments.deep_view()),
{
    let mut r = String::from_str(
        "Page not found\nWe are terribly sorry, but the page you requested doesn't exist.\nLog:\nAttempt to navigate to: ",
    );
    let path = render_path(segments);
    r.append(path.as_str());
    r
}

} // verus!
