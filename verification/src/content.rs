//! The author's built-in posts: the fixed metadata of the registry, with the
//! raw markdown content handed in by the caller that loaded it at startup.
use vstd::prelude::*;

use crate::post::BlogPost;
use crate::post::PostView;
use crate::registry::Registry;
use crate::registry::distinct_slugs;
use crate::registry::views_of;

verus! {

/// The built-in posts in their declared display order, with the given raw
/// content; their slugs are distinct.
pub fn default_posts(bevy_content: String, femboy_content: String) -> (r: Vec<BlogPost>)
    ensures
        r@.len() == 2,
        r@[0]@ == (PostView {
            date: "March 11th, 2024"@,
            title: "My journey with bevy"@,
            description: "Building a simple game using bevy 0.12"@,
            slug: "building-tetris-in-bevy"@,
            content: bevy_content@,
            tags: seq!["fun"@, "programming"@, "sadness"@],
        }),
        r@[1]@ == (PostView {
            date: "March 10th, 2024"@,
            title: "Top Reasons of why Femboy is the Best"@,
            description: "The femboy thesis we've all wished for"@,
            slug: "going-femboy"@,
            content: femboy_content@,
            tags: seq!["humerous"@, "rant"@, "very funny"@],
        }),
        r@[0]@.slug != r@[1]@.slug,
{
    let mut bevy_tags: Vec<String> = Vec::new();
    bevy_tags.push(String::from_str("fun"));
    bevy_tags.push(String::from_str("programming"));
    bevy_tags.push(String::from_str("sadness"));
    proof {
        assert(bevy_tags.deep_view() =~= seq!["fun"@, "programming"@, "sadness"@]);
    }
    let bevy = BlogPost::new(
        String::from_str("March 11th, 2024"),
        String::from_str("My journey with bevy"),
        String::from_str("Building a simple game using bevy 0.12"),
        String::from_str("building-tetris-in-bevy"),
        bevy_content,
        bevy_tags,
    );
    let mut femboy_tags: Vec<String> = Vec::new();
    femboy_tags.push(String::from_str("humerous"));
    femboy_tags.push(String::from_str("rant"));
    femboy_tags.push(String::from_str("very funny"));
    proof {
        assert(femboy_tags.deep_view() =~= seq!["humerous"@, "rant"@, "very funny"@]);
    }
    let femboy = BlogPost::new(
        String::from_str("March 10th, 2024"),
        String::from_str("Top Reasons of why Femboy is the Best"),
        String::from_str("The femboy thesis we've all wished for"),
        String::from_str("going-femboy"),
        femboy_content,
        femboy_tags,
    );
    let mut r: Vec<BlogPost> = Vec::new();
    r.push(bevy);
    r.push(femboy);
    proof {
        reveal_strlit("building-tetris-in-bevy");
        reveal_strlit("going-femboy");
        assert("building-tetris-in-bevy"@.len() == 23);
        assert("going-femboy"@.len() == 12);
        assert(r@[0]@.slug != r@[1]@.slug);
    }
    r
}

/// The registry of the built-in posts; the distinct slugs make the
/// uniqueness check succeed.
pub fn default_registry(bevy_content: String, femboy_content: String) -> (r: Registry)
    ensures
        r@.len() == 2,
        r@[0].slug == "building-tetris-in-bevy"@,
        r@[1].slug == "going-femboy"@,
        r@[0].title == "My journey with bevy"@,
        r@[1].title == "Top Reasons of why Femboy is the Best"@,
        r@[0].content == bevy_content@,
        r@[1].content == femboy_content@,
{
    let posts = default_posts(bevy_content, femboy_content);
    proof {
        let vs = views_of(posts@);
        assert(vs.len() == 2);
        assert(vs[0] == posts@[0]@);
        assert(vs[1] == posts@[1]@);
        assert(distinct_slugs(vs));
    }
    match Registry::new(posts) {
        Ok(registry) => registry,
        Err(_) => unreached(),
    }
}

} // verus!
