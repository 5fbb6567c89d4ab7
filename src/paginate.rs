//! A search whose results come a page at a time, each page naming the next
//! one in a `Link` header.
use vstd::prelude::*;

use crate::error::Error;

verus! {

/// `url::Url`, carried through as it is.
#[verifier::external_type_specification]
#[verifier::external_body]
pub struct ExUrl(url::Url);

/// `url::ParseError`, carried through as it is.
#[verifier::external_type_specification]
#[verifier::external_body]
pub struct ExParseError(url::ParseError);

/// Whether `url::Url::parse` accepts a text as an absolute URL.
pub uninterp spec fn url_accepted(s: Seq<char>) -> bool;

/// The URL that `url::Url::parse` makes of a text it accepts.
pub uninterp spec fn parsed_url(s: Seq<char>) -> url::Url;

/// Relies on url::Url::parse: it succeeds exactly on the texts it accepts,
/// and what it makes of a text depends on the text alone.
pub assume_specification[ url::Url::parse ](input: &str) -> (r: Result<url::Url, url::ParseError>)
    ensures
        r is Ok <==> url_accepted(input@),
        r is Ok ==> r->Ok_0 == parsed_url(input@),
;

/// What the named group `group` of the first match of the regular expression
/// `pattern` in `haystack` holds; `None` where the pattern is not valid, does
/// not match, or the group took no part in the match.
pub uninterp spec fn regex_capture(
    pattern: Seq<char>,
    group: Seq<char>,
    haystack: Seq<char>,
) -> Option<Seq<char>>;

/// Relies on regex::Regex::new, Regex::captures and Captures::name: the text
/// of a named group of the first match.
#[verifier::external_body]
fn capture_group(pattern: &str, group: &str, haystack: &str) -> (r: Option<String>)
    ensures
        match r {
            Some(s) => regex_capture(pattern@, group@, haystack@) == Some(s@),
            None => regex_capture(pattern@, group@, haystack@) is None,
        },
{
    let rx = match regex::Regex::new(pattern) {
        Ok(rx) => rx,
        Err(_) => return None,
    };
    match rx.captures(haystack) {
        Some(c) => match c.name(group) {
            Some(m) => Some(m.as_str().to_owned()),
            None => None,
        },
        None => None,
    }
}

/// The pattern of a `Link` header's entry for the next page.
pub const LINK_NEXT_PATTERN: &'static str = "<(?P<url>[^>]+)>;[^,]* rel=\"next\"";

/// The group of `LINK_NEXT_PATTERN` that holds the URL.
pub const LINK_NEXT_GROUP: &'static str = "url";

/// The outcome of reading a `Link` header: `None` for no next page.
pub open spec fn next_link(link: Option<&str>) -> Option<Seq<char>> {
    match link {
        None => None,
        Some(h) => regex_capture(LINK_NEXT_PATTERN@, LINK_NEXT_GROUP@, h@),
    }
}

/// The next page's URL from the text captured out of a `Link` header: none
/// if nothing was captured, an error if the text is no absolute URL.
pub fn url_from_capture(capture: Option<&str>) -> (r: Result<Option<url::Url>, Error>)
    ensures
        match capture {
            None => r is Ok && r->Ok_0 is None,
            Some(u) => if url_accepted(u@) {
                r is Ok && r->Ok_0 == Some(parsed_url(u@))
            } else {
                r is Err && r->Err_0 is Url
            },
        },
{
    match capture {
        None => Ok(None),
        Some(u) => match url::Url::parse(u) {
            Ok(url) => Ok(Some(url)),
            Err(source) => Err(Error::Url { source }),
        },
    }
}

/// The URL of the next page that a response's `Link` header names, if any.
pub fn next_page_url(link: Option<&str>) -> (r: Result<Option<url::Url>, Error>)
    ensures
        match next_link(link) {
            None => r is Ok && r->Ok_0 is None,
            Some(u) => if url_accepted(u) {
                r is Ok && r->Ok_0 == Some(parsed_url(u))
            } else {
                r is Err && r->Err_0 is Url
            },
        },
{
    match link {
        None => Ok(None),
        Some(h) => match capture_group(LINK_NEXT_PATTERN, LINK_NEXT_GROUP, h) {
            None => url_from_capture(None),
            Some(u) => url_from_capture(Some(u.as_str())),
        },
    }
}

/// A single page from the search API.
pub struct GithubSearchResults<T> {
    pub incomplete_results: bool,
    pub items: Vec<T>,
}

/// What the search does when asked for its next item.
pub enum Advance<T> {
    /// The next item.
    Item(T),
    /// The current page is used up: fetch this page, reusing the first
    /// request's headers, and hand it to `apply_response`.
    FetchPage(url::Url),
    /// There are no more items.
    Exhausted,
}

/// A search's position: the items left on the current page, in order, and the
/// link to the next page.
pub struct Position<T> {
    pub remaining: Seq<T>,
    pub next: Option<url::Url>,
}

/// One step of a search: the next item of the page; else a request for the
/// next page, whose link is then used up; else the end, for good.
pub open spec fn step<T>(p: Position<T>) -> (Position<T>, Advance<T>) {
    if p.remaining.len() > 0 {
        (Position { remaining: p.remaining.drop_first(), next: p.next }, Advance::Item(p.remaining[0]))
    } else {
        match p.next {
            Some(u) => (Position { remaining: p.remaining, next: None }, Advance::FetchPage(u)),
            None => (p, Advance::Exhausted),
        }
    }
}

/// `k` steps of a search: the position after them and what each returned.
pub open spec fn steps<T>(p: Position<T>, k: nat) -> (Position<T>, Seq<Advance<T>>)
    decreases k,
{
    if k == 0 {
        (p, Seq::empty())
    } else {
        let (q, a) = step(p);
        let (r, rest) = steps(q, (k - 1) as nat);
        (r, seq![a] + rest)
    }
}

/// Each item of `s`, as a search returns it.
pub open spec fn as_items<T>(s: Seq<T>) -> Seq<Advance<T>> {
    s.map_values(|x: T| Advance::Item(x))
}

/// Search results that are fetched a page at a time.
pub struct PaginatedSearch<T> {
    /// The current page's items left, last first.
    page: Vec<T>,
    next_page_url: Option<url::Url>,
}

impl<T> PaginatedSearch<T> {
    /// The search's position.
    pub closed spec fn position(&self) -> Position<T> {
        Position { remaining: self.page@.reverse(), next: self.next_page_url }
    }

    /// Starts a search from its first page and that page's `Link` header.
    pub fn new(first: GithubSearchResults<T>, link: Option<&str>) -> (r: Result<
        PaginatedSearch<T>,
        Error,
    >)
        ensures
            match next_link(link) {
                None => r is Ok && r->Ok_0.position().remaining == first.items@
                    && r->Ok_0.position().next is None,
                Some(u) => if url_accepted(u) {
                    r is Ok && r->Ok_0.position().remaining == first.items@
                        && r->Ok_0.position().next == Some(parsed_url(u))
                } else {
                    r is Err && r->Err_0 is Url
                },
            },
    {
        let mut search = PaginatedSearch { page: Vec::new(), next_page_url: None };
        match search.apply_response(first, link) {
            Ok(()) => Ok(search),
            Err(e) => Err(e),
        }
    }

    /// Takes in a fetched page: its items become the current page, and its
    /// `Link` header gives the next page. A header naming a URL that does not
    /// parse is an error, and leaves the search as it was.
    pub fn apply_response(&mut self, response: GithubSearchResults<T>, link: Option<&str>) -> (r:
        Result<(), Error>)
        ensures
            match next_link(link) {
                None => r is Ok && final(self).position().remaining == response.items@
                    && final(self).position().next is None,
                Some(u) => if url_accepted(u) {
                    r is Ok && final(self).position().remaining == response.items@
                        && final(self).position().next == Some(parsed_url(u))
                } else {
                    r is Err && r->Err_0 is Url && final(self).position() == old(self).position()
                },
            },
    {
        let next = match next_page_url(link) {
            Ok(next) => next,
            Err(e) => return Err(e),
        };
        let mut items = response.items;
        let ghost original = items@;
        let mut page: Vec<T> = Vec::new();
        while items.len() > 0
            invariant
                original == items@ + page@.reverse(),
            decreases items@.len(),
        {
            let ghost before = items@;
            let item = items.pop().unwrap();
            proof {
                assert(before == items@.push(item));
            }
            page.push(item);
            proof {
                assert(page@.reverse() =~= seq![item] + page@.drop_last().reverse());
                assert(original =~= items@ + page@.reverse());
            }
        }
        assert(original =~= page@.reverse());
        self.page = page;
        self.next_page_url = next;
        Ok(())
    }

    /// Advances the search by one step.
    pub fn next(&mut self) -> (r: Advance<T>)
        ensures
            (final(self).position(), r) == step(old(self).position()),
    {
        match self.page.pop() {
            Some(item) => {
                assert(old(self).page@.reverse() =~= seq![item] + self.page@.reverse());
                assert(self.page@.reverse() =~= old(self).page@.reverse().drop_first());
                assert(old(self).position().remaining[0] == item);
                Advance::Item(item)
            },
            None => match self.next_page_url.take() {
                Some(u) => Advance::FetchPage(u),
                None => Advance::Exhausted,
            },
        }
    }
}

/// A search returns the items of its current page one by one, in order, and
/// keeps its link to the next page until they are all out.
pub proof fn lemma_page_in_order<T>(p: Position<T>, k: nat)
    requires
        k <= p.remaining.len(),
    ensures
        steps(p, k).0 == (Position { remaining: p.remaining.skip(k as int), next: p.next }),
        steps(p, k).1 == as_items(p.remaining.take(k as int)),
    decreases k,
{
    if k > 0 {
        let q = step(p).0;
        lemma_page_in_order(q, (k - 1) as nat);
        assert(q.remaining.skip((k - 1) as int) =~= p.remaining.skip(k as int));
        assert(seq![Advance::Item(p.remaining[0])] + as_items(q.remaining.take((k - 1) as int))
            =~= as_items(p.remaining.take(k as int)));
    } else {
        assert(p.remaining.skip(0) =~= p.remaining);
        assert(as_items(p.remaining.take(0)) =~= Seq::empty());
    }
}

/// Once its page is used up, a search with a link asks for that page once;
/// one without a link is exhausted and stays so.
pub proof fn lemma_page_boundary<T>(p: Position<T>)
    requires
        p.remaining.len() == 0,
    ensures
        p.next is Some ==> step(p) == (Position { remaining: p.remaining, next: None::<url::Url> },
            Advance::<T>::FetchPage(p.next->0)),
        p.next is None ==> step(p) == (p, Advance::<T>::Exhausted),
        p.next is None ==> steps(p, 2) == (p, seq![Advance::<T>::Exhausted, Advance::<T>::Exhausted]),
{
    if p.next is None {
        assert(steps(p, 0) == (p, Seq::<Advance<T>>::empty()));
        assert(steps(p, 1).1 =~= seq![Advance::<T>::Exhausted]);
        assert(steps(p, 2).1 =~= seq![Advance::<T>::Exhausted, Advance::<T>::Exhausted]);
    }
}

/// A last page, one with no link after it, yields its items in order and
/// then the end of the search.
pub proof fn lemma_last_page<T>(p: Seq<T>)
    ensures
        steps(Position { remaining: p, next: None }, p.len() + 1).1 == as_items(p).push(
            Advance::<T>::Exhausted,
        ),
    decreases p.len(),
{
    let s = Position::<T> { remaining: p, next: None };
    if p.len() == 0 {
        assert(steps(s, 0) == (s, Seq::<Advance<T>>::empty()));
        assert(as_items(p) =~= Seq::<Advance<T>>::empty());
        assert(steps(s, 1).1 =~= seq![Advance::<T>::Exhausted]);
    } else {
        lemma_last_page(p.drop_first());
        assert(as_items(p) =~= seq![Advance::Item(p[0])] + as_items(p.drop_first()));
        assert(steps(s, p.len() + 1).1 =~= as_items(p).push(Advance::<T>::Exhausted));
    }
}

/// A page with a link yields its items in order, then asks once for the
/// linked page, and holds nothing more until that page is applied.
pub proof fn lemma_page_then_fetch<T>(p: Seq<T>, u: url::Url)
    ensures
        steps(Position { remaining: p, next: Some(u) }, p.len() + 1) == (
            Position::<T> { remaining: Seq::empty(), next: None },
            as_items(p).push(Advance::<T>::FetchPage(u)),
        ),
    decreases p.len(),
{
    let s = Position::<T> { remaining: p, next: Some(u) };
    if p.len() == 0 {
        assert(p =~= Seq::<T>::empty());
        assert(steps(step(s).0, 0) == (step(s).0, Seq::<Advance<T>>::empty()));
        assert(as_items(p) =~= Seq::<Advance<T>>::empty());
        assert(steps(s, 1).1 =~= seq![Advance::<T>::FetchPage(u)]);
    } else {
        lemma_page_then_fetch(p.drop_first(), u);
        assert(as_items(p) =~= seq![Advance::Item(p[0])] + as_items(p.drop_first()));
        assert(steps(s, p.len() + 1).1 =~= as_items(p).push(Advance::<T>::FetchPage(u)));
    }
}

} // verus!
