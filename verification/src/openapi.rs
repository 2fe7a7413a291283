//! Route metadata for the generated api document, and the builder that
//! selects what the document covers. The document generation itself is
//! presentation-layer work and lives outside this crate.

use vstd::prelude::*;

verus! {

/// Whether some tag in the list reads the same as this one.
pub open spec fn has_tag(tags: Seq<String>, tag: Seq<char>) -> bool {
    exists|i: int| 0 <= i < tags.len() && tags[i]@ == tag
}

/// Merging tag lists, one tag at a time from the front of `more`: a tag
/// already present is dropped, a new one is appended.
pub open spec fn merged_tags(tags: Seq<String>, more: Seq<String>) -> Seq<String>
    decreases more.len(),
{
    if more.len() == 0 {
        tags
    } else {
        let next = if has_tag(tags, more[0]@) {
            tags
        } else {
            tags.push(more[0])
        };
        merged_tags(next, more.skip(1))
    }
}

/// Api-document metadata attached to a route.
pub struct OpenapiMetadata {
    /// The tags the route is grouped under.
    pub tags: Vec<String>,
    /// The document pages the route appears on, by page key.
    pub pages: Vec<u64>,
}

impl OpenapiMetadata {
    /// Metadata with no tag and no page.
    pub fn new() -> (metadata: OpenapiMetadata)
        ensures
            metadata.tags@.len() == 0,
            metadata.pages@.len() == 0,
    {
        OpenapiMetadata { tags: Vec::new(), pages: Vec::new() }
    }

    /// Takes over the other metadata's tags, keeping order and dropping
    /// tags already present.
    pub fn merge(&mut self, other: &OpenapiMetadata)
        ensures
            final(self).tags@ == merged_tags(old(self).tags@, other.tags@),
            final(self).pages == old(self).pages,
    {
        let n = other.tags.len();
        proof {
            assert(other.tags@.skip(0) =~= other.tags@);
        }
        let mut i: usize = 0;
        while i < n
            invariant
                n == other.tags@.len(),
                0 <= i <= n,
                self.pages == old(self).pages,
                merged_tags(self.tags@, other.tags@.skip(i as int)) == merged_tags(
                    old(self).tags@,
                    other.tags@,
                ),
            decreases n - i,
        {
            let ghost tags0 = self.tags@;
            let ghost rest = other.tags@.skip(i as int);
            proof {
                assert(rest.len() > 0);
                assert(rest[0] == other.tags@[i as int]);
                assert(rest.skip(1) =~= other.tags@.skip(i + 1 as int));
                assert(merged_tags(tags0, rest) == if has_tag(tags0, rest[0]@) {
                    merged_tags(tags0, rest.skip(1))
                } else {
                    merged_tags(tags0.push(rest[0]), rest.skip(1))
                });
            }
            if !self.contains_tag(&other.tags[i]) {
                self.tags.push(other.tags[i].clone());
                proof {
                    assert(self.tags@ =~= tags0.push(other.tags@[i as int]));
                }
            }
            i = i + 1;
        }
        proof {
            assert(other.tags@.skip(n as int) =~= Seq::<String>::empty());
            assert(merged_tags(self.tags@, Seq::<String>::empty()) == self.tags@);
        }
    }

    /// Whether some tag of this metadata reads the same as the given one.
    pub fn contains_tag(&self, tag: &String) -> (r: bool)
        ensures
            r == has_tag(self.tags@, tag@),
    {
        let n = self.tags.len();
        let mut i: usize = 0;
        while i < n
            invariant
                n == self.tags@.len(),
                0 <= i <= n,
                forall|j: int| 0 <= j < i ==> self.tags@[j]@ != tag@,
            decreases n - i,
        {
            if self.tags[i] == *tag {
                return true;
            }
            i = i + 1;
        }
        false
    }
}

/// Selects what the generated api document covers.
pub struct OpenapiBuilder {
    /// Should tags be omitted from the document?
    pub omit_tags: bool,
    /// `None` selects every route; a list selects the routes on the
    /// listed pages only.
    pub pages: Option<Vec<u64>>,
}

impl OpenapiBuilder {
    /// A builder that covers every route and keeps tags.
    pub fn new() -> (builder: OpenapiBuilder)
        ensures
            !builder.omit_tags,
            builder.pages is None,
    {
        OpenapiBuilder { omit_tags: false, pages: None }
    }

    /// Adds a page to cover. Once any page was added, only listed pages
    /// are covered.
    pub fn page(&mut self, page: u64) -> (builder: &mut OpenapiBuilder)
        ensures
            old(self).pages is None ==> (builder.pages matches Some(pages) && pages@ == seq![
                page,
            ]),
            old(self).pages matches Some(before) ==> (builder.pages matches Some(pages) && pages@
                == before@.push(page)),
            builder.omit_tags == old(self).omit_tags,
            *final(self) == *final(builder),
    {
        match &mut self.pages {
            None => {
                let mut pages: Vec<u64> = Vec::new();
                pages.push(page);
                proof {
                    assert(pages@ =~= seq![page]);
                }
                self.pages = Some(pages);
            },
            Some(pages) => {
                pages.push(page);
            },
        }
        self
    }
}

/// Extends a router with api-document conveniences.
pub trait OpenapiRouterExt: Sized {
    /// Groups every route added after this call under the tag.
    fn openapi_tag(self, tag: String) -> Self;

    /// Puts every route added after this call on the page.
    fn openapi_page(self, page: u64) -> Self;
}

} // verus!
