//! Searching systems one page at a time.
//!
//! A search runs two queries of one shape against the store: one for the
//! requested page and a look-ahead for the page after it, whose rows tell
//! whether a next page exists. The store filters, groups and orders; this
//! module says which queries to run and what the answers make of a page.

use vstd::prelude::*;
use crate::record::{
    complete_systems, system_of_row, system_rows_view, systems_of_rows, System, SystemRow,
    SystemRowView, SystemView,
};

verus! {

/// How many systems one page holds.
pub const PAGE_SIZE: u32 = 50;

/// A case-insensitive substring pattern for `term`, matching everything when
/// the term is empty.
pub open spec fn like_pattern(term: Seq<char>) -> Seq<char> {
    seq!['%'] + term + seq!['%']
}

/// One query of a search: the pattern the six descriptive fields are matched
/// against, how many systems to return, and how many to skip first.
pub struct SearchQuery {
    pub pattern: String,
    pub limit: u32,
    pub offset: u64,
}

/// Builds the pattern that a search for `search_by` filters with.
pub fn search_pattern(search_by: &str) -> (r: String)
    ensures
        r@ == like_pattern(search_by@),
{
    let mut pattern = String::new();
    pattern.append("%");
    pattern.append(search_by);
    pattern.append("%");
    proof {
        reveal_strlit("%");
    }
    assert(pattern@ =~= like_pattern(search_by@));
    pattern
}

impl SearchQuery {
    /// The query for page `page` of a search for `search_by`.
    pub fn for_page(search_by: &str, page: u32) -> (q: SearchQuery)
        ensures
            q.pattern@ == like_pattern(search_by@),
            q.limit == PAGE_SIZE,
            q.offset == page * PAGE_SIZE,
    {
        assert(page as u64 * 50 <= 50 * u32::MAX);
        SearchQuery {
            pattern: search_pattern(search_by),
            limit: PAGE_SIZE,
            offset: page as u64 * PAGE_SIZE as u64,
        }
    }

    /// The look-ahead query of page `page`: the same search, one page further.
    pub fn look_ahead(search_by: &str, page: u32) -> (q: SearchQuery)
        ensures
            q.pattern@ == like_pattern(search_by@),
            q.limit == PAGE_SIZE,
            q.offset == (page + 1) * PAGE_SIZE,
    {
        assert((page as u64 + 1) * 50 <= 50 * (u32::MAX + 1));
        SearchQuery {
            pattern: search_pattern(search_by),
            limit: PAGE_SIZE,
            offset: (page as u64 + 1) * PAGE_SIZE as u64,
        }
    }
}

/// The page after `page`, offered when its look-ahead query returned rows
/// and the number of that page can be written.
pub open spec fn next_page_after(page: int, look_ahead_rows: int) -> Option<u32> {
    if look_ahead_rows > 0 && page < u32::MAX {
        Some((page + 1) as u32)
    } else {
        None
    }
}

/// Decides from the size of the look-ahead result whether a next page exists.
pub fn next_page(page: u32, look_ahead_rows: usize) -> (r: Option<u32>)
    ensures
        r == next_page_after(page as int, look_ahead_rows as int),
{
    if look_ahead_rows > 0 && page < u32::MAX {
        Some(page + 1)
    } else {
        None
    }
}

/// One page of search results.
pub struct SearchSystems {
    pub systems: Vec<System>,
    pub page: u32,
    pub next_page: Option<u32>,
}

impl SearchSystems {
    /// Assembles page `page` from the rows of its query and of its look-ahead
    /// query: the complete rows become the page's systems, in the store's
    /// order, and the look-ahead decides the next page.
    pub fn from_rows(page: u32, rows: Vec<SystemRow>, look_ahead: Vec<SystemRow>) -> (r:
        SearchSystems)
        ensures
            r.systems.deep_view() == systems_of_rows(system_rows_view(rows@)),
            r.page == page,
            r.next_page == next_page_after(page as int, look_ahead.len() as int),
    {
        let next_page = next_page(page, look_ahead.len());
        SearchSystems { systems: complete_systems(rows), page, next_page }
    }
}

} // verus!

verus! {

/// The part of the ordered result `all` that a query skipping `offset` rows
/// and returning at most `limit` rows receives.
pub open spec fn window<T>(all: Seq<T>, offset: int, limit: int) -> Seq<T> {
    if offset >= all.len() {
        Seq::empty()
    } else if offset + limit >= all.len() {
        all.subrange(offset, all.len() as int)
    } else {
        all.subrange(offset, offset + limit)
    }
}

/// The rows of page `page` out of the whole ordered result `all`.
pub open spec fn page_rows(all: Seq<SystemRowView>, page: int) -> Seq<SystemRowView> {
    window(all, page * PAGE_SIZE, PAGE_SIZE as int)
}

/// The next page that page `page` offers, given the whole ordered result.
pub open spec fn next_page_of(all: Seq<SystemRowView>, page: int) -> Option<u32> {
    next_page_after(page, page_rows(all, page + 1).len() as int)
}

/// The page at which following the next pages from page 0 stops.
pub open spec fn last_page(len: nat) -> nat {
    if len == 0 {
        0
    } else {
        ((len - 1) / (PAGE_SIZE as int)) as nat
    }
}

/// The systems of pages 0 through `last`, one page after the other.
pub open spec fn systems_through_page(all: Seq<SystemRowView>, last: nat) -> Seq<SystemView>
    decreases last,
{
    let this_page = systems_of_rows(page_rows(all, last as int));
    if last == 0 {
        this_page
    } else {
        systems_through_page(all, (last - 1) as nat) + this_page
    }
}

proof fn lemma_systems_of_rows_concat(a: Seq<SystemRowView>, b: Seq<SystemRowView>)
    ensures
        systems_of_rows(a + b) == systems_of_rows(a) + systems_of_rows(b),
    decreases b.len(),
{
    if b.len() == 0 {
        assert(a + b =~= a);
        assert(systems_of_rows(a) + systems_of_rows(b) =~= systems_of_rows(a));
    } else {
        assert((a + b).drop_last() =~= a + b.drop_last());
        assert((a + b).last() == b.last());
        lemma_systems_of_rows_concat(a, b.drop_last());
        match system_of_row(b.last()) {
            Some(s) => {
                assert(systems_of_rows(a) + systems_of_rows(b.drop_last()).push(s) =~= (
                systems_of_rows(a) + systems_of_rows(b.drop_last())).push(s));
            },
            None => {},
        }
    }
}

proof fn lemma_systems_through_page(all: Seq<SystemRowView>, last: nat)
    ensures
        (last + 1) * PAGE_SIZE >= all.len() ==> systems_through_page(all, last)
            == systems_of_rows(all),
        (last + 1) * PAGE_SIZE < all.len() ==> systems_through_page(all, last) == systems_of_rows(
            all.take((last + 1) * PAGE_SIZE),
        ),
    decreases last,
{
    let start = last * PAGE_SIZE;
    let end = (last + 1) * PAGE_SIZE;
    if last == 0 {
        if end >= all.len() {
            assert(page_rows(all, 0) =~= all);
        } else {
            assert(page_rows(all, 0) =~= all.take(end));
        }
    } else {
        lemma_systems_through_page(all, (last - 1) as nat);
        assert(((last - 1) as nat + 1) * PAGE_SIZE == start);
        if start >= all.len() {
            assert(page_rows(all, last as int) =~= Seq::<SystemRowView>::empty());
            assert(systems_of_rows(all) + systems_of_rows(Seq::<SystemRowView>::empty())
                =~= systems_of_rows(all));
        } else {
            lemma_systems_of_rows_concat(all.take(start), page_rows(all, last as int));
            if end >= all.len() {
                assert(all.take(start) + page_rows(all, last as int) =~= all);
            } else {
                assert(all.take(start) + page_rows(all, last as int) =~= all.take(end));
            }
        }
    }
}

/// Following the next pages from page 0 until none is offered visits every
/// system of the store's ordered result exactly once, in order: each page
/// before the last offers the page after it, the last offers none, and the
/// pages together hold exactly the systems of the whole result.
pub proof fn lemma_paging_enumerates_each_system_once(all: Seq<SystemRowView>)
    requires
        all.len() <= PAGE_SIZE * u32::MAX,
    ensures
        forall|p: nat| p < last_page(all.len()) ==> next_page_of(all, p as int) == Some((p + 1) as u32),
        next_page_of(all, last_page(all.len()) as int) is None,
        systems_through_page(all, last_page(all.len())) == systems_of_rows(all),
{
    let len = all.len();
    let last = last_page(len);
    if len > 0 {
        assert(last * 50 <= len - 1 && len - 1 < (last + 1) * 50) by (nonlinear_arith)
            requires
                last == (len - 1) / 50,
                len >= 1,
        ;
    }
    assert(last < u32::MAX) by (nonlinear_arith)
        requires
            len <= 50 * u32::MAX,
            len == 0 ==> last == 0,
            len > 0 ==> last * 50 <= len - 1,
    ;
    assert forall|p: nat| p < last implies next_page_of(all, p as int) == Some((p + 1) as u32) by {
        assert((p + 1) * 50 <= last * 50) by (nonlinear_arith)
            requires
                p < last,
        ;
        assert(page_rows(all, p + 1 as int).len() > 0);
    }
    assert(page_rows(all, last + 1 as int).len() == 0);
    lemma_systems_through_page(all, last);
}

} // verus!

verus! {

/// `a` comes no later than `b` in lexical order of characters.
pub open spec fn text_no_later(a: Seq<char>, b: Seq<char>) -> bool
    decreases a.len(),
{
    if a.len() == 0 {
        true
    } else if b.len() == 0 {
        false
    } else if a[0] != b[0] {
        (a[0] as u32) < (b[0] as u32)
    } else {
        text_no_later(a.drop_first(), b.drop_first())
    }
}

/// Search order: the latest run first, equal latest runs by system id.
pub open spec fn ranks_no_later(a: SystemView, b: SystemView) -> bool {
    a.latest_run.micros > b.latest_run.micros || (a.latest_run.micros == b.latest_run.micros
        && text_no_later(a.system_id, b.system_id))
}

/// The systems stand in search order.
pub open spec fn in_search_order(s: Seq<SystemView>) -> bool {
    forall|i: int, j: int| 0 <= i < j < s.len() ==> ranks_no_later(#[trigger] s[i], #[trigger] s[j])
}

/// The complete rows stand in search order, as the store returns them.
pub open spec fn rows_in_search_order(rows: Seq<SystemRowView>) -> bool {
    forall|i: int, j: int|
        0 <= i < j < rows.len() && (#[trigger] system_of_row(rows[i])) is Some && (
        #[trigger] system_of_row(rows[j])) is Some ==> ranks_no_later(
            system_of_row(rows[i])->0,
            system_of_row(rows[j])->0,
        )
}

proof fn lemma_systems_of_rows_ordered(rows: Seq<SystemRowView>)
    requires
        rows_in_search_order(rows),
    ensures
        systems_of_rows(rows).len() <= rows.len(),
        in_search_order(systems_of_rows(rows)),
        forall|k: int|
            0 <= k < systems_of_rows(rows).len() ==> exists|i: int|
                0 <= i < rows.len() && #[trigger] system_of_row(rows[i]) == Some(
                    #[trigger] systems_of_rows(rows)[k],
                ),
    decreases rows.len(),
{
    if rows.len() > 0 {
        let rest = rows.drop_last();
        assert forall|i: int, j: int|
            0 <= i < j < rest.len() && (#[trigger] system_of_row(rest[i])) is Some && (
            #[trigger] system_of_row(rest[j])) is Some implies ranks_no_later(
            system_of_row(rest[i])->0,
            system_of_row(rest[j])->0,
        ) by {
            assert(rest[i] == rows[i] && rest[j] == rows[j]);
        }
        lemma_systems_of_rows_ordered(rest);
        let before = systems_of_rows(rest);
        let out = systems_of_rows(rows);
        assert forall|k: int| 0 <= k < before.len() implies exists|i: int|
            0 <= i < rows.len() && #[trigger] system_of_row(rows[i]) == Some(#[trigger] before[k]) by {
            let i = choose|i: int|
                0 <= i < rest.len() && #[trigger] system_of_row(rest[i]) == Some(before[k]);
            assert(rest[i] == rows[i]);
        }
        match system_of_row(rows.last()) {
            Some(s) => {
                assert(out == before.push(s));
                assert forall|k: int| 0 <= k < out.len() implies exists|i: int|
                    0 <= i < rows.len() && #[trigger] system_of_row(rows[i]) == Some(#[trigger] out[k]) by {
                    if k == before.len() {
                        assert(system_of_row(rows[rows.len() - 1]) == Some(out[k]));
                    } else {
                        assert(out[k] == before[k]);
                    }
                }
                assert forall|i: int, j: int| 0 <= i < j < out.len() implies ranks_no_later(
                    #[trigger] out[i],
                    #[trigger] out[j],
                ) by {
                    if j == before.len() {
                        assert(out[i] == before[i]);
                        let src = choose|x: int|
                            0 <= x < rest.len() && #[trigger] system_of_row(rest[x]) == Some(
                                before[i],
                            );
                        assert(rest[src] == rows[src]);
                        assert(system_of_row(rows[src]) == Some(before[i]));
                        assert(system_of_row(rows[rows.len() - 1]) == Some(s));
                    } else {
                        assert(out[i] == before[i] && out[j] == before[j]);
                    }
                }
            },
            None => {},
        }
    }
}

/// A page of a search holds at most a page's worth of systems, and when the
/// store returns the result in search order, so does the page: latest run
/// first, equal latest runs by system id.
pub proof fn lemma_page_is_bounded_and_ordered(all: Seq<SystemRowView>, page: nat)
    requires
        rows_in_search_order(all),
    ensures
        systems_of_rows(page_rows(all, page as int)).len() <= PAGE_SIZE,
        in_search_order(systems_of_rows(page_rows(all, page as int))),
{
    let rows = page_rows(all, page as int);
    let off = page * PAGE_SIZE;
    assert forall|i: int, j: int|
        0 <= i < j < rows.len() && (#[trigger] system_of_row(rows[i])) is Some && (
        #[trigger] system_of_row(rows[j])) is Some implies ranks_no_later(
        system_of_row(rows[i])->0,
        system_of_row(rows[j])->0,
    ) by {
        assert(rows[i] == all[off + i] && rows[j] == all[off + j]);
        assert(system_of_row(all[off + i]) is Some && system_of_row(all[off + j]) is Some);
    }
    lemma_systems_of_rows_ordered(rows);
}

} // verus!
