//! The post registry: an immutable, ordered collection of posts with
//! pairwise-distinct slugs, and the resolver from a slug to its post.
use vstd::prelude::*;

use crate::post::BlogPost;
use crate::post::PostView;

verus! {

/// The models of the posts in a sequence, in order.
pub open spec fn views_of(posts: Seq<BlogPost>) -> Seq<PostView> {
    posts.map_values(|p: BlogPost| p@)
}

/// No two posts at different positions share a slug.
pub open spec fn distinct_slugs(posts: Seq<PostView>) -> bool {
    forall|i: int, j: int|
        0 <= i < j < posts.len() ==> posts[i].slug != posts[j].slug
}

/// Some post in the sequence carries this slug.
pub open spec fn has_slug(posts: Seq<PostView>, slug: Seq<char>) -> bool {
    exists|i: int| 0 <= i < posts.len() && posts[i].slug == slug
}

/// A registry cannot be built from posts whose slugs collide; the offending
/// slug is reported.
#[derive(Debug)]
pub enum RegistryError {
    DuplicateSlug(String),
}

/// The one failure a lookup can produce: no post carries the requested slug,
/// which is reported back unchanged.
#[derive(Debug)]
pub enum ResolveError {
    PostNotFound(String),
}

/// The fixed, ordered set of all posts, built once at startup and never
/// mutated. Lookup key is the slug.
#[derive(Debug)]
pub struct Registry {
    posts: Vec<BlogPost>,
}

impl View for Registry {
    type V = Seq<PostView>;

    closed spec fn view(&self) -> Seq<PostView> {
        views_of(self.posts@)
    }
}

/// In a sequence with pairwise-distinct slugs, a slug names at most one post.
pub proof fn lemma_slug_unique(posts: Seq<PostView>, i: int, j: int)
    requires
        distinct_slugs(posts),
        0 <= i < posts.len(),
        0 <= j < posts.len(),
        posts[i].slug == posts[j].slug,
    ensures
        i == j,
{
}

impl Registry {
    #[verifier::type_invariant]
    spec fn wf(&self) -> bool {
        distinct_slugs(self@)
    }

    /// Builds the registry, checking that slugs are pairwise distinct; a
    /// colliding slug is rejected, so every registry value satisfies the
    /// uniqueness invariant.
    pub fn new(posts: Vec<BlogPost>) -> (r: Result<Registry, RegistryError>)
        ensures
            r is Ok <==> distinct_slugs(views_of(posts@)),
            r matches Ok(reg) ==> reg@ == views_of(posts@),
            r matches Err(e) ==> (e matches RegistryError::DuplicateSlug(s)
                && exists|i: int, j: int|
                    0 <= i < j < posts@.len() && posts@[i]@.slug == s@ && posts@[j]@.slug == s@),
    {
        let n = posts.len();
        let mut i: usize = 0;
        while i < n
            invariant
                n == posts.len(),
                forall|a: int, b: int|
                    0 <= a < b < n && a < i ==> posts@[a]@.slug != posts@[b]@.slug,
            decreases n - i,
        {
            let mut j: usize = i + 1;
            while j < n
                invariant
                    i < n,
                    i < j <= n,
                    n == posts.len(),
                    forall|a: int, b: int|
                        0 <= a < b < n && a < i ==> posts@[a]@.slug != posts@[b]@.slug,
                    forall|b: int| i < b < j ==> posts@[i as int]@.slug != posts@[b]@.slug,
                decreases n - j,
            {
                if posts[i].slug_equals(posts[j].slug()) {
                    let dup = posts[j].slug().clone();
                    proof {
                        let vs = views_of(posts@);
                        assert(vs[i as int] == posts@[i as int]@);
                        assert(vs[j as int] == posts@[j as int]@);
                        assert(vs[i as int].slug == vs[j as int].slug);
                        assert(!distinct_slugs(vs));
                    }
                    return Err(RegistryError::DuplicateSlug(dup));
                }
                j += 1;
            }
            i += 1;
        }
        let reg = Registry { posts };
        proof {
            assert forall|a: int, b: int|
                0 <= a < b < reg@.len() implies reg@[a].slug != reg@[b].slug by {
                assert(reg@[a] == reg.posts@[a]@);
                assert(reg@[b] == reg.posts@[b]@);
            }
        }
        Ok(reg)
    }

    /// How many posts the registry holds.
    pub fn len(&self) -> (n: usize)
        ensures
            n == self@.len(),
    {
        self.posts.len()
    }

    /// The post at a position, in the fixed author-defined display order.
    pub fn get(&self, i: usize) -> (p: &BlogPost)
        requires
            i < self@.len(),
        ensures
            p@ == self@[i as int],
    {
        &self.posts[i]
    }

    /// The slugs of all posts, in display order.
    pub fn slugs(&self) -> (r: Vec<String>)
        ensures
            r.deep_view() == self@.map_values(|p: PostView| p.slug),
    {
        let n = self.posts.len();
        let mut r: Vec<String> = Vec::new();
        let mut i: usize = 0;
        while i < n
            invariant
                n == self.posts.len(),
                i <= n,
                r@.len() == i,
                forall|a: int| 0 <= a < i ==> r@[a]@ == self@[a].slug,
            decreases n - i,
        {
            r.push(self.posts[i].slug().clone());
            i += 1;
        }
        proof {
            assert(r.deep_view() =~= self@.map_values(|p: PostView| p.slug));
        }
        r
    }

    /// Maps a slug (a URL path segment) to the unique post that carries it;
    /// a slug no post carries yields a recoverable not-found result, never a
    /// panic.
    pub fn resolve(&self, slug: &str) -> (r: Result<BlogPost, ResolveError>)
        ensures
            r is Ok <==> has_slug(self@, slug@),
            r matches Ok(p) ==> p@.slug == slug@ && exists|i: int|
                0 <= i < self@.len() && self@[i] == p@,
            r matches Ok(p) ==> forall|i: int|
                0 <= i < self@.len() && self@[i].slug == slug@ ==> self@[i] == p@,
            r matches Err(e) ==> (e matches ResolveError::PostNotFound(s) && s@ == slug@),
    {
        proof {
            use_type_invariant(&*self);
        }
        let key: String = slug.to_owned();
        let n = self.posts.len();
        let mut i: usize = 0;
        while i < n
            invariant
                n == self.posts.len(),
                i <= n,
                key@ == slug@,
                distinct_slugs(self@),
                forall|a: int| 0 <= a < i ==> self@[a].slug != slug@,
            decreases n - i,
        {
            if self.posts[i].slug_equals(&key) {
                let p = self.posts[i].clone();
                proof {
                    assert(self@[i as int] == self.posts@[i as int]@);
                    assert forall|a: int|
                        0 <= a < self@.len() && self@[a].slug == slug@ implies self@[a] == p@ by {
                        lemma_slug_unique(self@, a, i as int);
                    }
                }
                return Ok(p);
            }
            i += 1;
        }
        Err(ResolveError::PostNotFound(key))
    }
}

} // verus!
