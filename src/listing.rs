use crate::error::MetricsError;
use vstd::prelude::*;

verus! {

/// One page of an organisation's repository collection, as the service returns it.
/// `names` holds one entry per edge; `None` stands for an edge or node that is absent.
#[derive(Debug, Clone)]
pub struct RepoPage {
    pub names: Vec<Option<String>>,
    pub has_next_page: bool,
    pub end_cursor: Option<String>,
}

/// The data payload of a page query: the organisation, if it exists.
#[derive(Debug, Clone)]
pub struct ReposResponse {
    pub organization: Option<RepoPage>,
}

/// The names present on a list of edges, in edge order, skipping absent ones.
pub open spec fn present_names(edges: Seq<Option<String>>) -> Seq<Seq<char>>
    decreases edges.len(),
{
    if edges.len() == 0 {
        Seq::empty()
    } else {
        let rest = present_names(edges.drop_last());
        match edges.last() {
            Some(n) => rest.push(n@),
            None => rest,
        }
    }
}

pub open spec fn opt_view(o: Option<String>) -> Option<Seq<char>> {
    match o {
        Some(s) => Some(s@),
        None => None,
    }
}

/// The names of every page in order, each page's in edge order.
pub open spec fn all_names(pages: Seq<ReposResponse>) -> Seq<Seq<char>>
    decreases pages.len(),
{
    if pages.len() == 0 {
        Seq::empty()
    } else {
        all_names(pages.drop_last()) + match pages.last().organization {
            Some(p) => present_names(p.names@),
            None => Seq::empty(),
        }
    }
}

/// `pages` is a whole collection: the organisation is on every page, and every page
/// but the last reports a next page.
pub open spec fn is_full_walk(pages: Seq<ReposResponse>) -> bool {
    &&& pages.len() > 0
    &&& forall|i: int|
        0 <= i < pages.len() ==> (#[trigger] pages[i].organization matches Some(p)
            && p.has_next_page == (i < pages.len() - 1))
}

pub open spec fn end_cursor_of(data: ReposResponse) -> Option<Seq<char>> {
    match data.organization {
        Some(p) => opt_view(p.end_cursor),
        None => None,
    }
}

proof fn lemma_walk_prefix(pages: Seq<ReposResponse>, k: int)
    requires
        is_full_walk(pages),
        0 <= k <= pages.len(),
    ensures
        walk(initial_listing(), pages.subrange(0, k)).names == all_names(pages.subrange(0, k)),
        walk(initial_listing(), pages.subrange(0, k)).done == (k == pages.len()),
        0 < k < pages.len() ==> walk(initial_listing(), pages.subrange(0, k)).after_cursor
            == end_cursor_of(pages[k - 1]),
    decreases k,
{
    if k > 0 {
        lemma_walk_prefix(pages, k - 1);
        let pre = pages.subrange(0, k);
        assert(pre.drop_last() =~= pages.subrange(0, k - 1));
        assert(pre.last() == pages[k - 1]);
        assert(pages[k - 1].organization is Some);
    }
}

/// Pagination completeness: answering the enumeration's requests with the pages of a
/// whole collection collects the names of all pages in page-then-edge order, each
/// request after the first resumes from the previous page's end cursor, and the
/// enumeration is done after the last page and not before, so it makes exactly
/// `pages.len()` requests.
pub proof fn lemma_pagination_complete(pages: Seq<ReposResponse>)
    requires
        is_full_walk(pages),
    ensures
        walk(initial_listing(), pages).names == all_names(pages),
        walk(initial_listing(), pages).done,
        forall|k: int|
            0 <= k < pages.len() ==> !(#[trigger] walk(initial_listing(), pages.subrange(0, k))).done,
        forall|k: int|
            0 < k < pages.len() ==> (#[trigger] walk(initial_listing(), pages.subrange(0, k))).after_cursor
                == end_cursor_of(pages[k - 1]),
{
    lemma_walk_prefix(pages, pages.len() as int);
    assert(pages.subrange(0, pages.len() as int) =~= pages);
    assert forall|k: int| 0 <= k < pages.len() implies !(#[trigger] walk(
        initial_listing(),
        pages.subrange(0, k),
    )).done by {
        lemma_walk_prefix(pages, k);
    }
    assert forall|k: int| 0 < k < pages.len() implies (#[trigger] walk(
        initial_listing(),
        pages.subrange(0, k),
    )).after_cursor == end_cursor_of(pages[k - 1]) by {
        lemma_walk_prefix(pages, k);
    }
}

/// Termination on an absent organisation: when the first page reports no organisation,
/// the enumeration is done at once with no names, so it makes exactly one request.
pub proof fn lemma_absent_organization(data: ReposResponse)
    requires
        data.organization is None,
    ensures
        absorb_spec(initial_listing(), data) == (ListingView {
            names: Seq::empty(),
            after_cursor: None,
            done: true,
        }),
{
}

/// Abstract state of a repository enumeration.
pub struct ListingView {
    pub names: Seq<Seq<char>>,
    pub after_cursor: Option<Seq<char>>,
    pub done: bool,
}

/// The enumeration state after one successful page query with payload `data`.
pub open spec fn absorb_spec(st: ListingView, data: ReposResponse) -> ListingView {
    match data.organization {
        None => ListingView { done: true, ..st },
        Some(p) => ListingView {
            names: st.names + present_names(p.names@),
            after_cursor: if p.has_next_page { opt_view(p.end_cursor) } else { st.after_cursor },
            done: !p.has_next_page,
        },
    }
}

/// The enumeration state after answering its first `pages.len()` requests with `pages`.
pub open spec fn walk(st: ListingView, pages: Seq<ReposResponse>) -> ListingView
    decreases pages.len(),
{
    if pages.len() == 0 {
        st
    } else {
        absorb_spec(walk(st, pages.drop_last()), pages.last())
    }
}

pub open spec fn initial_listing() -> ListingView {
    ListingView { names: Seq::empty(), after_cursor: None, done: false }
}

/// Cursor-driven enumeration of the repositories of an organisation. The caller asks
/// for the page after `after_cursor()` while `is_done()` is false, and hands each
/// response to `absorb`.
pub struct RepoListing {
    names: Vec<String>,
    after_cursor: Option<String>,
    done: bool,
}

impl View for RepoListing {
    type V = ListingView;

    closed spec fn view(&self) -> ListingView {
        ListingView {
            names: self.names@.map_values(|s: String| s@),
            after_cursor: opt_view(self.after_cursor),
            done: self.done,
        }
    }
}

impl RepoListing {
    pub fn new() -> (r: RepoListing)
        ensures
            r@ == initial_listing(),
    {
        let r = RepoListing { names: Vec::new(), after_cursor: None, done: false };
        assert(r@.names =~= Seq::<Seq<char>>::empty());
        r
    }

    /// Whether the collection has been walked to its end.
    pub fn is_done(&self) -> (r: bool)
        ensures
            r == self@.done,
    {
        self.done
    }

    /// The cursor to resume from: `None` for the first page.
    pub fn after_cursor(&self) -> (r: Option<String>)
        ensures
            opt_view(r) == self@.after_cursor,
    {
        match &self.after_cursor {
            Some(c) => Some(c.clone()),
            None => None,
        }
    }

    /// The names collected so far, in enumeration order.
    pub fn names(&self) -> (r: Vec<String>)
        ensures
            r@.map_values(|s: String| s@) == self@.names,
    {
        let r = self.names.clone();
        assert(r@.map_values(|s: String| s@) =~= self@.names);
        r
    }

    /// Takes in the payload of one page query. An absent payload is fatal; an absent
    /// organisation ends the walk with what was collected.
    pub fn absorb(&mut self, data: Option<ReposResponse>) -> (r: Result<(), MetricsError>)
        ensures
            match data {
                None => r == Err::<(), MetricsError>(MetricsError::MissingPayload)
                    && final(self)@ == old(self)@,
                Some(d) => r is Ok && final(self)@ == absorb_spec(old(self)@, d),
            },
    {
        let d = match data {
            None => return Err(MetricsError::MissingPayload),
            Some(d) => d,
        };
        match d.organization {
            None => {
                self.done = true;
                Ok(())
            },
            Some(p) => {
                self.append_present(&p.names);
                if p.has_next_page {
                    self.after_cursor = p.end_cursor;
                    self.done = false;
                } else {
                    self.done = true;
                }
                Ok(())
            },
        }
    }

    fn append_present(&mut self, edges: &Vec<Option<String>>)
        ensures
            final(self)@ == (ListingView {
                names: old(self)@.names + present_names(edges@),
                ..old(self)@
            }),
    {
        let ghost start = self@.names;
        let mut i: usize = 0;
        while i < edges.len()
            invariant
                i <= edges.len(),
                self@ == (ListingView { names: start + present_names(edges@.subrange(0, i as int)), ..old(self)@ }),
            decreases edges.len() - i,
        {
            let ghost before = self.names@;
            proof {
                let s = edges@.subrange(0, i + 1);
                assert(s.drop_last() =~= edges@.subrange(0, i as int));
                assert(s.last() == edges@[i as int]);
            }
            match &edges[i] {
                Some(n) => {
                    let c = n.clone();
                    self.names.push(c);
                    assert(self.names@.map_values(|s: String| s@) =~= before.map_values(
                        |s: String| s@,
                    ).push(c@));
                },
                None => {},
            }
            assert(self.names@.map_values(|s: String| s@) =~= start + present_names(
                edges@.subrange(0, i + 1),
            ));
            i = i + 1;
        }
        assert(edges@.subrange(0, edges.len() as int) =~= edges@);
    }
}

} // verus!
