//! Walking a collection that the server hands out page by page.
//!
//! A fetcher holds the URL of the page to fetch next. The first is given
//! when the fetcher is made; every later one is the link that came with the
//! page before it, requested exactly as it came. The page without such a
//! link is the last, and after it the fetcher refuses to go on.
//!
//! When changes are tracked, the last page brings a delta link in place of
//! the missing next link. The fetcher keeps it apart from the items: a later
//! fetcher made from it sees only what changed since.

use crate::error::{Error, MissingPart, MisuseError, ProtocolError};
use crate::resource::DriveItem;
use vstd::prelude::*;

verus! {

/// One page of a folder's children.
#[derive(Debug, PartialEq)]
pub struct Page {
    /// The items of the page, in the order in which the server listed them.
    pub items: Vec<DriveItem>,
    /// The URL of the next page, if there is one.
    pub next_link: Option<String>,
}

/// What fetching a page returns: its items, in the order of the page, and
/// whether another page exists.
#[derive(Debug, PartialEq)]
pub struct Fetched {
    /// The items of the page.
    pub items: Vec<DriveItem>,
    /// Whether another page exists.
    pub has_more: bool,
}

/// The URL that a fetcher with the cursor `cursor` is to request: the cursor
/// itself, or a misuse where there is none.
pub open spec fn page_target(cursor: Option<Seq<char>>) -> Result<Seq<char>, Error> {
    match cursor {
        None => Err(Error::Misuse(MisuseError::FetcherExhausted)),
        Some(url) => Ok(url),
    }
}

/// The link of an optional string, as a sequence of characters.
pub open spec fn link_view(link: Option<String>) -> Option<Seq<char>> {
    match link {
        None => None,
        Some(url) => Some(url@),
    }
}

/// What a fetcher with the cursor `cursor` returns for the `outcome` of its
/// request.
pub open spec fn list_result(cursor: Option<Seq<char>>, outcome: Result<Page, Error>) -> Result<
    Fetched,
    Error,
> {
    if cursor is None {
        Err(Error::Misuse(MisuseError::FetcherExhausted))
    } else {
        match outcome {
            Err(e) => Err(e),
            Ok(page) => Ok(Fetched { items: page.items, has_more: page.next_link is Some }),
        }
    }
}

/// The cursor after the `outcome` of a request: the next link of the page,
/// or the cursor as it was where there is no page.
pub open spec fn list_cursor_after(cursor: Option<Seq<char>>, outcome: Result<Page, Error>) -> Option<
    Seq<char>,
> {
    if cursor is None {
        cursor
    } else {
        match outcome {
            Err(_) => cursor,
            Ok(page) => link_view(page.next_link),
        }
    }
}

/// A walk through the children of a folder, page by page, forward only.
#[derive(Debug)]
pub struct ListChildrenFetcher {
    next_url: Option<String>,
}

impl View for ListChildrenFetcher {
    type V = Option<Seq<char>>;

    /// The URL of the page to fetch next; none once the last page is fetched.
    closed spec fn view(&self) -> Option<Seq<char>> {
        link_view(self.next_url)
    }
}

impl ListChildrenFetcher {
    /// A fetcher whose first page is at `first_url`.
    pub fn new(first_url: String) -> (fetcher: Self)
        ensures
            fetcher@ == Some(first_url@),
    {
        ListChildrenFetcher { next_url: Some(first_url) }
    }

    /// Whether the last page is fetched.
    pub fn is_exhausted(&self) -> (r: bool)
        ensures
            r == (self@ is None),
    {
        self.next_url.is_none()
    }

    /// Says what to request for the next page: the URL that the fetcher
    /// holds, exactly as it was given. After the last page this is a misuse.
    pub fn next_page_request(&self) -> (r: Result<&str, Error>)
        ensures
            match page_target(self@) {
                Err(e) => r == Err::<&str, Error>(e),
                Ok(url) => r matches Ok(target) && target@ == url,
            },
    {
        match &self.next_url {
            None => Err(Error::Misuse(MisuseError::FetcherExhausted)),
            Some(url) => Ok(url.as_str()),
        }
    }

    /// Takes the outcome of the request for the next page: hands out the
    /// page's items and moves on to its next link. A failed request changes
    /// nothing.
    pub fn next_page_response(&mut self, outcome: Result<Page, Error>) -> (r: Result<Fetched, Error>)
        ensures
            r == list_result(old(self)@, outcome),
            final(self)@ == list_cursor_after(old(self)@, outcome),
    {
        if self.next_url.is_none() {
            return Err(Error::Misuse(MisuseError::FetcherExhausted));
        }
        match outcome {
            Err(e) => Err(e),
            Ok(page) => {
                let Page { items, next_link } = page;
                let has_more = next_link.is_some();
                self.next_url = next_link;
                Ok(Fetched { items, has_more })
            },
        }
    }
}

/// One page of tracked changes.
#[derive(Debug, PartialEq)]
pub struct DeltaPage {
    /// The changed items of the page, in the order in which the server
    /// listed them. A deleted item comes with its `deleted` member set.
    pub items: Vec<DriveItem>,
    /// The URL of the next page, if there is one.
    pub next_link: Option<String>,
    /// The link from which to track later changes; it comes with the last
    /// page.
    pub delta_link: Option<String>,
}

/// A fetcher of tracked changes, as the protocol sees it.
pub struct TrackChangeFetcherView {
    /// The URL of the page to fetch next; none once the last page is fetched.
    pub cursor: Option<Seq<char>>,
    /// The delta link that came with the last page.
    pub delta_link: Option<Seq<char>>,
}

impl TrackChangeFetcherView {
    /// A fetcher that is to begin at `url`: the URL of a first page, or a
    /// delta link captured earlier.
    pub open spec fn starting_at(url: Seq<char>) -> Self {
        TrackChangeFetcherView { cursor: Some(url), delta_link: None }
    }

    /// What the fetcher returns for the `outcome` of its request. A page
    /// with neither a next link nor a delta link is against the protocol.
    pub open spec fn page_result(self, outcome: Result<DeltaPage, Error>) -> Result<Fetched, Error> {
        if self.cursor is None {
            Err(Error::Misuse(MisuseError::FetcherExhausted))
        } else {
            match outcome {
                Err(e) => Err(e),
                Ok(page) => if page.next_link is None && page.delta_link is None {
                    Err(Error::Protocol(ProtocolError::Missing { what: MissingPart::Link }))
                } else {
                    Ok(Fetched { items: page.items, has_more: page.next_link is Some })
                },
            }
        }
    }

    /// The fetcher after the `outcome` of its request. A next link moves the
    /// cursor on; without one, the delta link is kept and the cursor is
    /// gone. Where the result is an error the fetcher is unchanged.
    pub open spec fn after_page(self, outcome: Result<DeltaPage, Error>) -> Self {
        if self.page_result(outcome) is Err {
            self
        } else {
            let page = outcome->Ok_0;
            match page.next_link {
                Some(url) => TrackChangeFetcherView { cursor: Some(url@), ..self },
                None => TrackChangeFetcherView {
                    cursor: None,
                    delta_link: link_view(page.delta_link),
                },
            }
        }
    }
}

/// A walk through the items that changed, page by page, forward only.
#[derive(Debug)]
pub struct TrackChangeFetcher {
    next_url: Option<String>,
    delta_link: Option<String>,
}

impl View for TrackChangeFetcher {
    type V = TrackChangeFetcherView;

    closed spec fn view(&self) -> TrackChangeFetcherView {
        TrackChangeFetcherView {
            cursor: link_view(self.next_url),
            delta_link: link_view(self.delta_link),
        }
    }
}

impl TrackChangeFetcher {
    /// A fetcher whose first page is at `first_url`.
    pub fn new(first_url: String) -> (fetcher: Self)
        ensures
            fetcher@ == TrackChangeFetcherView::starting_at(first_url@),
    {
        TrackChangeFetcher { next_url: Some(first_url), delta_link: None }
    }

    /// A fetcher that goes on from a delta link captured earlier: its first
    /// request is for that link itself.
    pub fn resume_from(delta_token: String) -> (fetcher: Self)
        ensures
            fetcher@ == TrackChangeFetcherView::starting_at(delta_token@),
    {
        TrackChangeFetcher { next_url: Some(delta_token), delta_link: None }
    }

    /// Whether the last page is fetched.
    pub fn is_exhausted(&self) -> (r: bool)
        ensures
            r == (self@.cursor is None),
    {
        self.next_url.is_none()
    }

    /// The delta link that came with the last page, to be kept for a later
    /// `resume_from`. None before the last page is fetched.
    pub fn delta_link(&self) -> (link: Option<&str>)
        ensures
            match self@.delta_link {
                None => link is None,
                Some(url) => link matches Some(l) && l@ == url,
            },
    {
        match &self.delta_link {
            None => None,
            Some(url) => Some(url.as_str()),
        }
    }

    /// Says what to request for the next page: the URL that the fetcher
    /// holds, exactly as it was given. After the last page this is a misuse.
    pub fn next_page_request(&self) -> (r: Result<&str, Error>)
        ensures
            match page_target(self@.cursor) {
                Err(e) => r == Err::<&str, Error>(e),
                Ok(url) => r matches Ok(target) && target@ == url,
            },
    {
        match &self.next_url {
            None => Err(Error::Misuse(MisuseError::FetcherExhausted)),
            Some(url) => Ok(url.as_str()),
        }
    }

    /// Takes the outcome of the request for the next page: hands out the
    /// page's items, unchanged, and moves on to its next link; at the last
    /// page, keeps the delta link. Where the result is an error the fetcher
    /// is unchanged.
    pub fn next_page_response(&mut self, outcome: Result<DeltaPage, Error>) -> (r: Result<
        Fetched,
        Error,
    >)
        ensures
            r == old(self)@.page_result(outcome),
            final(self)@ == old(self)@.after_page(outcome),
    {
        if self.next_url.is_none() {
            return Err(Error::Misuse(MisuseError::FetcherExhausted));
        }
        match outcome {
            Err(e) => Err(e),
            Ok(page) => {
                let DeltaPage { items, next_link, delta_link } = page;
                if next_link.is_none() && delta_link.is_none() {
                    return Err(Error::Protocol(ProtocolError::Missing { what: MissingPart::Link }));
                }
                let has_more = next_link.is_some();
                if !has_more {
                    self.delta_link = delta_link;
                }
                self.next_url = next_link;
                Ok(Fetched { items, has_more })
            },
        }
    }
}

/// The cursor after the first `k` of `pages` were fetched in order.
pub open spec fn cursor_after(first: Option<Seq<char>>, pages: Seq<Page>, k: int) -> Option<Seq<char>>
    decreases k,
{
    if k <= 0 {
        first
    } else {
        list_cursor_after(cursor_after(first, pages, k - 1), Ok(pages[k - 1]))
    }
}

/// Whether `pages` are the pages of one finite collection: each but the last
/// has a next link, and the last has none.
pub open spec fn is_collection(pages: Seq<Page>) -> bool {
    &&& pages.len() > 0
    &&& forall|k: int| 0 <= k < pages.len() - 1 ==> (#[trigger] pages[k]).next_link is Some
    &&& pages.last().next_link is None
}

/// A finite collection is fetched in as many steps as it has pages: each
/// fetch returns the items of its page, each request after the first is for
/// the link of the page before, and after the last page the fetcher refuses
/// to go on.
pub proof fn lemma_walk_ends(first_url: Seq<char>, pages: Seq<Page>)
    requires
        is_collection(pages),
    ensures
        forall|k: int|
            0 <= k < pages.len() ==> #[trigger] list_result(
                cursor_after(Some(first_url), pages, k),
                Ok(pages[k]),
            ) == Ok::<Fetched, Error>(
                Fetched { items: pages[k].items, has_more: k < pages.len() - 1 },
            ),
        forall|k: int|
            0 < k < pages.len() ==> #[trigger] page_target(cursor_after(Some(first_url), pages, k))
                == Ok::<Seq<char>, Error>(pages[k - 1].next_link->0@),
        page_target(cursor_after(Some(first_url), pages, pages.len() as int)) == Err::<
            Seq<char>,
            Error,
        >(Error::Misuse(MisuseError::FetcherExhausted)),
{
    assert forall|k: int| 0 <= k < pages.len() implies (#[trigger] cursor_after(
        Some(first_url),
        pages,
        k,
    )) is Some && (k > 0 ==> cursor_after(Some(first_url), pages, k) == link_view(
        pages[k - 1].next_link,
    )) by {
        lemma_cursor(first_url, pages, k);
    }
    lemma_cursor(first_url, pages, pages.len() - 1);
}

/// While pages with a next link are fetched, the cursor is that link.
proof fn lemma_cursor(first_url: Seq<char>, pages: Seq<Page>, k: int)
    requires
        is_collection(pages),
        0 <= k < pages.len(),
    ensures
        cursor_after(Some(first_url), pages, k) is Some,
        k > 0 ==> cursor_after(Some(first_url), pages, k) == link_view(pages[k - 1].next_link),
    decreases k,
{
    if k > 0 {
        lemma_cursor(first_url, pages, k - 1);
        assert(pages[k - 1].next_link is Some);
    }
}

/// An exhausted fetcher stays exhausted: whatever a request might bring, it
/// answers with a misuse error and does not move.
pub proof fn lemma_exhausted_is_final(outcome: Result<Page, Error>)
    ensures
        list_result(None, outcome) == Err::<Fetched, Error>(
            Error::Misuse(MisuseError::FetcherExhausted),
        ),
        list_cursor_after(None, outcome) is None,
{
}

/// The fetcher after the first `k` of `pages` were fetched in order.
pub open spec fn fetcher_after(
    first: TrackChangeFetcherView,
    pages: Seq<DeltaPage>,
    k: int,
) -> TrackChangeFetcherView
    decreases k,
{
    if k <= 0 {
        first
    } else {
        fetcher_after(first, pages, k - 1).after_page(Ok(pages[k - 1]))
    }
}

/// Whether `pages` are the pages of one finite list of changes: each but the
/// last has a next link, and the last has a delta link in its place.
pub open spec fn is_change_list(pages: Seq<DeltaPage>) -> bool {
    &&& pages.len() > 0
    &&& forall|k: int| 0 <= k < pages.len() - 1 ==> (#[trigger] pages[k]).next_link is Some
    &&& pages.last().next_link is None
    &&& pages.last().delta_link is Some
}

/// A finite list of changes is fetched in as many steps as it has pages,
/// from a first URL or from a delta link alike: each fetch returns the items
/// of its page, each request after the first is for the link of the page
/// before, and after the last page the fetcher holds that page's delta link
/// and refuses to go on.
pub proof fn lemma_change_walk_ends(first_url: Seq<char>, pages: Seq<DeltaPage>)
    requires
        is_change_list(pages),
    ensures
        forall|k: int|
            0 <= k < pages.len() ==> #[trigger] fetcher_after(
                TrackChangeFetcherView::starting_at(first_url),
                pages,
                k,
            ).page_result(Ok(pages[k])) == Ok::<Fetched, Error>(
                Fetched { items: pages[k].items, has_more: k < pages.len() - 1 },
            ),
        forall|k: int|
            0 < k < pages.len() ==> page_target(
                (#[trigger] fetcher_after(TrackChangeFetcherView::starting_at(first_url), pages, k)).cursor,
            ) == Ok::<Seq<char>, Error>(pages[k - 1].next_link->0@),
        fetcher_after(TrackChangeFetcherView::starting_at(first_url), pages, pages.len() as int)
            == (TrackChangeFetcherView {
            cursor: None,
            delta_link: Some(pages.last().delta_link->0@),
        }),
{
    let first = TrackChangeFetcherView::starting_at(first_url);
    assert forall|k: int| 0 <= k < pages.len() implies (#[trigger] fetcher_after(first, pages, k)).cursor
        is Some && (k > 0 ==> fetcher_after(first, pages, k).cursor == link_view(
        pages[k - 1].next_link,
    )) by {
        lemma_change_cursor(first_url, pages, k);
    }
    lemma_change_cursor(first_url, pages, pages.len() - 1);
}

/// While pages of changes with a next link are fetched, the cursor is that
/// link and no delta link is held.
proof fn lemma_change_cursor(first_url: Seq<char>, pages: Seq<DeltaPage>, k: int)
    requires
        is_change_list(pages),
        0 <= k < pages.len(),
    ensures
        fetcher_after(TrackChangeFetcherView::starting_at(first_url), pages, k).cursor is Some,
        fetcher_after(TrackChangeFetcherView::starting_at(first_url), pages, k).delta_link is None,
        k > 0 ==> fetcher_after(TrackChangeFetcherView::starting_at(first_url), pages, k).cursor
            == link_view(pages[k - 1].next_link),
    decreases k,
{
    if k > 0 {
        lemma_change_cursor(first_url, pages, k - 1);
        assert(pages[k - 1].next_link is Some);
    }
}

/// The last page of tracked changes ends the walk and leaves its delta link
/// behind, apart from the items.
pub proof fn lemma_last_page_leaves_delta_link(fetcher: TrackChangeFetcherView, page: DeltaPage)
    requires
        fetcher.cursor is Some,
        page.next_link is None,
        page.delta_link is Some,
    ensures
        fetcher.page_result(Ok(page)) == Ok::<Fetched, Error>(
            Fetched { items: page.items, has_more: false },
        ),
        fetcher.after_page(Ok(page)).delta_link == Some(page.delta_link->0@),
        page_target(fetcher.after_page(Ok(page)).cursor) == Err::<Seq<char>, Error>(
            Error::Misuse(MisuseError::FetcherExhausted),
        ),
{
}

/// A fetcher resumed from a delta link first requests that link itself, and
/// hands out what the server answers to it, item for item.
pub proof fn lemma_resumed_fetcher_starts_at_link(delta_token: Seq<char>, page: DeltaPage)
    requires
        page.next_link is Some || page.delta_link is Some,
    ensures
        page_target(TrackChangeFetcherView::starting_at(delta_token).cursor) == Ok::<Seq<char>, Error>(
            delta_token,
        ),
        TrackChangeFetcherView::starting_at(delta_token).page_result(Ok(page)) matches Ok(fetched)
            && fetched.items == page.items,
{
}

/// Whatever error the outcome of a request gives, the fetcher is as it was
/// before, and the same page can be requested again. The same outcome then
/// gives the same error.
pub proof fn lemma_failed_fetch_changes_nothing(cursor: Option<Seq<char>>, outcome: Result<Page, Error>)
    requires
        list_result(cursor, outcome) is Err,
    ensures
        list_cursor_after(cursor, outcome) == cursor,
        list_result(list_cursor_after(cursor, outcome), outcome) == list_result(cursor, outcome),
{
}

/// Whatever error the outcome of a request for changes gives, the fetcher is
/// as it was before, delta link and all. The same outcome then gives the
/// same error.
pub proof fn lemma_failed_change_fetch_changes_nothing(
    fetcher: TrackChangeFetcherView,
    outcome: Result<DeltaPage, Error>,
)
    requires
        fetcher.page_result(outcome) is Err,
    ensures
        fetcher.after_page(outcome) == fetcher,
        fetcher.after_page(outcome).page_result(outcome) == fetcher.page_result(outcome),
{
}

} // verus!
