//! Page rendering: markdown-to-HTML conversion through an outside converter,
//! and the verified assembly of the pages around it.
use vstd::prelude::*;

use crate::post::BlogPost;
use crate::post::PostView;
use crate::registry::Registry;
use crate::text::join_with;
use crate::text::joined_with;

verus! {

/// The HTML that the markdown converter produces for a markdown source text.
pub uninterp spec fn html_of(markdown_src: Seq<char>) -> Seq<char>;

/// Relies on markdown::to_html: a total markdown-to-HTML conversion (it never
/// fails) whose output depends on the input string alone.
#[verifier::external_body]
fn md_to_html(content: &str) -> (r: String)
    ensures
        r@ == html_of(content@),
{
    markdown::to_html(content)
}

/// Markdown conversion is deterministic: two conversions of equal input
/// strings yield equal output strings.
pub proof fn lemma_markdown_deterministic(
    markdown_src: Seq<char>,
    first: Seq<char>,
    second: Seq<char>,
)
    requires
        first == html_of(markdown_src),
        second == html_of(markdown_src),
    ensures
        first == second,
{
}

/// A markdown body block: the converted HTML inside its enclosing element.
pub open spec fn markdown_block_text(content: Seq<char>) -> Seq<char> {
    "<div class=\"markdown-body\">"@ + html_of(content) + "</div>"@
}

/// Converts raw markdown and wraps the resulting HTML in its body element.
pub fn render_markdown_block(content: &str) -> (r: String)
    ensures
        r@ == markdown_block_text(content@),
{
    let mut r = String::from_str("<div class=\"markdown-body\">");
    let html = md_to_html(content);
    r.append(html.as_str());
    r.append("</div>");
    r
}

/// A post's page: title, date and tag line, then the rendered content.
pub open spec fn post_page_text(p: PostView) -> Seq<char> {
    p.title + "\n"@ + p.date + "\n"@ + joined_with(p.tags, ", "@) + "\n"@ + markdown_block_text(
        p.content,
    )
}

/// Renders one post's full page.
pub fn render_post_page(post: &BlogPost) -> (r: String)
    ensures
        r@ == post_page_text(post@),
{
    let mut r = String::new();
    r.append(post.title().as_str());
    r.append("\n");
    r.append(post.date().as_str());
    r.append("\n");
    let tag_line = join_with(post.tags(), ", ");
    r.append(tag_line.as_str());
    r.append("\n");
    let block = render_markdown_block(post.content().as_str());
    r.append(block.as_str());
    proof {
        assert(r@ =~= post_page_text(post@));
    }
    r
}

/// The home page: the greeting, then the rendered introduction.
pub open spec fn home_page_text(content: Seq<char>) -> Seq<char> {
    "Hi I'm Kyle!\n"@ + markdown_block_text(content)
}

/// Renders the home page from its introduction markdown.
pub fn render_home_page(content: &str) -> (r: String)
    ensures
        r@ == home_page_text(content@),
{
    let mut r = String::from_str("Hi I'm Kyle!\n");
    let block = render_markdown_block(content);
    r.append(block.as_str());
    r
}

/// The blog section: its heading over whatever the section shows, the
/// listing or one post's page.
pub open spec fn blog_page_text(inner: Seq<char>) -> Seq<char> {
    "Blog\n"@ + inner
}

/// Wraps the blog section's heading around the shown page.
pub fn render_blog_page(inner: &str) -> (r: String)
    ensures
        r@ == blog_page_text(inner@),
{
    let mut r = String::from_str("Blog\n");
    r.append(inner);
    r
}

/// One listing entry: the post's title over its date.
pub open spec fn list_entry_text(p: PostView) -> Seq<char> {
    p.title + "\n"@ + p.date
}

/// The listing page: every post's entry, in registry order.
pub open spec fn blog_list_text(posts: Seq<PostView>) -> Seq<char> {
    joined_with(posts.map_values(|p: PostView| list_entry_text(p)), "\n\n"@)
}

/// Renders the listing of all posts, in the registry's declared order.
pub fn render_blog_list(registry: &Registry) -> (r: String)
    ensures
        r@ == blog_list_text(registry@),
{
    let n = registry.len();
    let mut entries: Vec<String> = Vec::new();
    let mut i: usize = 0;
    while i < n
        invariant
            n == registry@.len(),
            i <= n,
            entries@.len() == i,
            forall|a: int| 0 <= a < i ==> entries@[a]@ == list_entry_text(registry@[a]),
        decreases n - i,
    {
        let p = registry.get(i);
        let mut entry = String::new();
        entry.append(p.title().as_str());
        entry.append("\n");
        entry.append(p.date().as_str());
        proof {
            assert(entry@ =~= list_entry_text(registry@[i as int]));
        }
        entries.push(entry);
        i += 1;
    }
    let r = join_with(&entries, "\n\n");
    proof {
        assert(entries.deep_view() =~= registry@.map_values(|p: PostView| list_entry_text(p)));
    }
    r
}

} // verus!
