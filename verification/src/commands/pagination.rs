//! The paging loops of the list commands, as state machines: the program
//! fetches a page, hands its size to the machine, and asks whether to go
//! on and from which offset.

use vstd::prelude::*;

use crate::api::models::PaginationMeta;

verus! {

/// The page size of `list --all`.
pub const ALL_BATCH_SIZE: u64 = 100;

/// The most records `list --all` collects (the server's ceiling).
pub const ALL_MAX_RECORDS: u64 = 1000;

/// The state after `AllPages::record_page` took a page of `page_len`
/// records whose answer reported `total`, and whether to go on.
pub open spec fn all_pages_after(s: AllPages, page_len: u64, total: u64) -> (AllPages, bool) {
    let collected = (s.collected + page_len) as u64;
    let more = !(collected >= total || collected >= ALL_MAX_RECORDS || page_len == 0);
    let offset = if more { (s.offset + page_len) as u64 } else { s.offset };
    (AllPages { offset, collected, total }, more)
}

/// The size of the page a server answers for `offset` when it holds `n`
/// matching records and hands out at most `cap` per page (the request
/// asks for 100).
pub open spec fn served_page(offset: u64, n: u64, cap: u64) -> u64 {
    let room: int = if offset < n { n - offset } else { 0 };
    let asked: int = if cap < ALL_BATCH_SIZE { cap as int } else { ALL_BATCH_SIZE as int };
    (if room < asked { room } else { asked }) as u64
}

/// Where a `list --all` fetch from state `s` ends against such a server:
/// each page asks from the current offset and is recorded by
/// `AllPages::record_page`, until it says to stop.
pub open spec fn all_pages_run(s: AllPages, n: u64, cap: u64) -> AllPages
    decreases ALL_MAX_RECORDS - s.collected,
{
    if s.collected >= ALL_MAX_RECORDS {
        s
    } else {
        let (next, more) = all_pages_after(s, served_page(s.offset, n, cap), n);
        if more {
            all_pages_run(next, n, cap)
        } else {
            next
        }
    }
}

/// Progress of a `list --all` fetch.
pub struct AllPages {
    pub offset: u64,
    pub collected: u64,
    pub total: u64,
}

impl AllPages {
    /// Starts at offset 0 with nothing collected.
    pub fn new() -> (r: Self)
        ensures
            r.offset == 0,
            r.collected == 0,
            r.total == 0,
    {
        AllPages { offset: 0, collected: 0, total: 0 }
    }

    /// Records a page of `page_len` records whose answer reported `total`;
    /// returns whether to fetch the next page. The fetch stops once
    /// everything, or 1000 records, are collected, or when a page comes
    /// back empty; otherwise the next page starts right after the records
    /// received, so a server that caps its pages below 100 skips nothing.
    pub fn record_page(&mut self, page_len: u64, total: u64) -> (more: bool)
        requires
            old(self).collected + page_len <= u64::MAX,
            old(self).offset + page_len <= u64::MAX,
        ensures
            final(self).total == total,
            final(self).collected == old(self).collected + page_len,
            more == !(final(self).collected >= total || final(self).collected >= ALL_MAX_RECORDS
                || page_len == 0),
            more ==> final(self).offset == old(self).offset + page_len,
            !more ==> final(self).offset == old(self).offset,
            (*final(self), more) == all_pages_after(*old(self), page_len, total),
            more ==> old(self).collected < final(self).collected < ALL_MAX_RECORDS,
            old(self).offset == old(self).collected && more ==> final(self).offset
                == final(self).collected,
    {
        self.total = total;
        self.collected = self.collected + page_len;
        if self.collected >= total || self.collected >= ALL_MAX_RECORDS || page_len == 0 {
            return false;
        }
        self.offset = self.offset + page_len;
        true
    }

    /// Whether the server holds more records than the fetch may collect
    /// (the user is warned that the result may be incomplete).
    pub fn truncated(&self) -> (r: bool)
        ensures
            r == (self.total > ALL_MAX_RECORDS),
    {
        self.total > ALL_MAX_RECORDS
    }

    /// The pagination reported for the combined result: the server's
    /// total, offset 0, and the number of records collected as the limit.
    pub fn combined_meta(&self) -> (m: PaginationMeta)
        ensures
            m.total == self.total,
            m.offset == 0,
            m.limit == self.collected,
    {
        PaginationMeta { total: self.total, offset: 0, limit: self.collected }
    }
}

/// `list --all` gets every record: against a server that holds `n` of
/// them, no more than the 1000 the fetch may collect, and serves at least
/// one per page, the fetch stops with exactly `n` records collected, the
/// pages following one another without gap or overlap.
pub proof fn lemma_list_all_collects_every_record(n: u64, cap: u64)
    requires
        n <= ALL_MAX_RECORDS,
        cap >= 1,
    ensures
        all_pages_run(AllPages { offset: 0, collected: 0, total: 0 }, n, cap).collected == n,
{
    lemma_all_pages_run_from(AllPages { offset: 0, collected: 0, total: 0 }, n, cap);
}

proof fn lemma_all_pages_run_from(s: AllPages, n: u64, cap: u64)
    requires
        n <= ALL_MAX_RECORDS,
        cap >= 1,
        s.offset == s.collected,
        s.collected <= n,
    ensures
        all_pages_run(s, n, cap).collected == n,
    decreases ALL_MAX_RECORDS - s.collected,
{
    if s.collected < ALL_MAX_RECORDS {
        let (next, more) = all_pages_after(s, served_page(s.offset, n, cap), n);
        if more {
            lemma_all_pages_run_from(next, n, cap);
        }
    }
}

/// The page size of the cache refresh.
pub const REFRESH_PAGE_SIZE: u64 = 100;

/// Whether the cache refresh fetches another page after one of
/// `page_len` records: only a full page may have a successor.
pub fn refresh_continues(page_len: usize) -> (more: bool)
    ensures
        more == (page_len as int >= REFRESH_PAGE_SIZE),
{
    !((page_len as u64) < REFRESH_PAGE_SIZE)
}

/// The page size the dashboard asks for.
pub const DASHBOARD_PAGE_SIZE: u64 = 500;

/// Progress of a dashboard fetch, which advances by the records actually
/// received (servers may cap pages below the requested size).
pub struct DashboardPages {
    pub offset: u64,
    pub collected: u64,
}

impl DashboardPages {
    /// Starts at offset 0 with nothing collected.
    pub fn new() -> (r: Self)
        ensures
            r.offset == 0,
            r.collected == 0,
    {
        DashboardPages { offset: 0, collected: 0 }
    }

    /// Records a page of `got` records whose answer reported `total`;
    /// returns whether to fetch the next page: the fetch stops once
    /// everything is collected or a page comes back empty, and otherwise
    /// continues right after the records received.
    pub fn record_page(&mut self, got: u64, total: u64) -> (more: bool)
        requires
            old(self).collected + got <= u64::MAX,
            old(self).offset + got <= u64::MAX,
        ensures
            final(self).collected == old(self).collected + got,
            more == !(final(self).collected >= total || got == 0),
            more ==> final(self).offset == old(self).offset + got,
            !more ==> final(self).offset == old(self).offset,
    {
        self.collected = self.collected + got;
        if self.collected >= total || got == 0 {
            return false;
        }
        self.offset = self.offset + got;
        true
    }
}

} // verus!
