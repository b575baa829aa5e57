//! The blog post value type: immutable metadata plus raw markdown content.
use vstd::prelude::*;

verus! {

/// Mathematical model of a post: every field as a sequence of characters.
#[verifier::ext_equal]
pub struct PostView {
    pub date: Seq<char>,
    pub title: Seq<char>,
    pub description: Seq<char>,
    pub slug: Seq<char>,
    pub content: Seq<char>,
    pub tags: Seq<Seq<char>>,
}

/// One blog entry. The slug is the unique identifier used in a URL path;
/// the content is raw markdown source text.
#[derive(Debug)]
pub struct BlogPost {
    date: String,
    title: String,
    description: String,
    slug: String,
    content: String,
    tags: Vec<String>,
}

impl View for BlogPost {
    type V = PostView;

    closed spec fn view(&self) -> PostView {
        PostView {
            date: self.date@,
            title: self.title@,
            description: self.description@,
            slug: self.slug@,
            content: self.content@,
            tags: self.tags.deep_view(),
        }
    }
}

impl BlogPost {
    /// Builds a post from its parts; the model records each part unchanged.
    pub fn new(
        date: String,
        title: String,
        description: String,
        slug: String,
        content: String,
        tags: Vec<String>,
    ) -> (p: BlogPost)
        ensures
            p@ == (PostView {
                date: date@,
                title: title@,
                description: description@,
                slug: slug@,
                content: content@,
                tags: tags.deep_view(),
            }),
    {
        BlogPost { date, title, description, slug, content, tags }
    }

    pub fn date(&self) -> (r: &String)
        ensures
            r@ == self@.date,
    {
        &self.date
    }

    pub fn title(&self) -> (r: &String)
        ensures
            r@ == self@.title,
    {
        &self.title
    }

    pub fn description(&self) -> (r: &String)
        ensures
            r@ == self@.description,
    {
        &self.description
    }

    pub fn slug(&self) -> (r: &String)
        ensures
            r@ == self@.slug,
    {
        &self.slug
    }

    pub fn content(&self) -> (r: &String)
        ensures
            r@ == self@.content,
    {
        &self.content
    }

    /// Whether this post's slug equals the given string.
    pub fn slug_equals(&self, other: &String) -> (r: bool)
        ensures
            r == (self@.slug == other@),
    {
        self.slug == *other
    }

    pub fn tags(&self) -> (r: &Vec<String>)
        ensures
            r.deep_view() == self@.tags,
    {
        &self.tags
    }
}

impl Clone for BlogPost {
    /// A clone carries the same model.
    fn clone(&self) -> (res: Self)
        ensures
            res@ == self@,
    {
        let res = BlogPost {
            date: self.date.clone(),
            title: self.title.clone(),
            description: self.description.clone(),
            slug: self.slug.clone(),
            content: self.content.clone(),
            tags: self.tags.clone(),
        };
        proof {
            assert forall|i: int| 0 <= i < self.tags@.len() implies res.tags@[i]@
                == self.tags@[i]@ by {
                assert(cloned::<String>(self.tags@[i], res.tags@[i]));
            }
            assert(res.tags.deep_view() =~= self.tags.deep_view());
            assert(res@ =~= self@);
        }
        res
    }
}

} // verus!
