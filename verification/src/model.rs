//! The values that pass through the gateway.

use vstd::prelude::*;

verus! {

/// One document that the search engine matched. The gateway reads none of
/// its fields: it hands them on as they came.
#[derive(Debug, PartialEq, Eq)]
pub struct Hit {
    pub id: String,
    pub title: String,
    pub date: String,
    pub description: String,
    pub reading_time: String,
    pub slug: String,
}

/// What a `Hit` holds, as text.
pub struct HitView {
    pub id: Seq<char>,
    pub title: Seq<char>,
    pub date: Seq<char>,
    pub description: Seq<char>,
    pub reading_time: Seq<char>,
    pub slug: Seq<char>,
}

impl View for Hit {
    type V = HitView;

    open spec fn view(&self) -> HitView {
        HitView {
            id: self.id@,
            title: self.title@,
            date: self.date@,
            description: self.description@,
            reading_time: self.reading_time@,
            slug: self.slug@,
        }
    }
}

/// The hits that the search engine returned, in its order.
#[derive(Debug, PartialEq, Eq)]
pub struct SearchResult {
    pub hits: Vec<Hit>,
}

impl View for SearchResult {
    type V = Seq<HitView>;

    open spec fn view(&self) -> Seq<HitView> {
        Seq::new(self.hits@.len(), |i: int| self.hits@[i]@)
    }
}

/// The query parameter of an inbound search.
#[derive(Debug, PartialEq, Eq)]
pub struct SearchQuery {
    pub q: String,
}

impl View for SearchQuery {
    type V = Seq<char>;

    open spec fn view(&self) -> Seq<char> {
        self.q@
    }
}

impl SearchQuery {
    /// The query of a request whose parameter `q` was `q`; a request without
    /// the parameter asks for the empty text.
    pub fn from_param(q: Option<String>) -> (r: SearchQuery)
        ensures
            r@ == match q {
                Some(text) => text@,
                None => Seq::<char>::empty(),
            },
    {
        match q {
            Some(text) => SearchQuery { q: text },
            None => SearchQuery { q: String::new() },
        }
    }
}

/// The body of the request that goes to the search engine.
#[derive(Debug, PartialEq, Eq)]
pub struct SearchRequest {
    pub q: String,
}

impl View for SearchRequest {
    type V = Seq<char>;

    open spec fn view(&self) -> Seq<char> {
        self.q@
    }
}

} // verus!
