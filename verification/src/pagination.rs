//! Paging of the question lists: `page` and `limit` query parameters, with a
//! default page size and an upper bound of 100 items per page.
use vstd::prelude::*;

verus! {

/// Largest page size a client may ask for.
pub const MAX_PAGE_SIZE: i64 = 100;

/// Page size used by the list endpoints when the client gives none (or an invalid one).
pub const DEFAULT_PAGE_SIZE: i64 = 20;

/// The `page` and `limit` query parameters of a list request (both 0 when absent).
#[derive(Debug, Clone, PartialEq, Eq)]
pub struct Pagination {
    pub page: i64,
    pub limit: i64,
}

impl Pagination {
    /// The page size in effect: the requested limit when it lies in `1..=100`,
    /// the default otherwise.
    pub open spec fn limit_in_effect(&self, default: i64) -> i64 {
        if 0 < self.limit && self.limit <= MAX_PAGE_SIZE {
            self.limit
        } else {
            default
        }
    }

    /// The page number in effect: negative pages count as page 0.
    pub open spec fn page_in_effect(&self) -> int {
        if self.page > 0 {
            self.page as int
        } else {
            0
        }
    }

    /// Number of items skipped before the requested page.
    pub open spec fn offset_of(&self, default_limit: i64) -> int {
        self.page_in_effect() * self.limit_in_effect(default_limit)
    }

    /// The page size to query with.
    pub fn effective_limit(&self, default: i64) -> (r: i64)
        ensures
            r == self.limit_in_effect(default),
            0 < self.limit && self.limit <= MAX_PAGE_SIZE ==> r == self.limit,
            !(0 < self.limit && self.limit <= MAX_PAGE_SIZE) ==> r == default,
    {
        if self.limit > 0 && self.limit <= MAX_PAGE_SIZE {
            self.limit
        } else {
            default
        }
    }

    /// Number of rows to skip: the page number (negative counts as 0) times the
    /// page size in effect.
    pub fn offset(&self, default_limit: i64) -> (r: i64)
        requires
            self.offset_of(default_limit) <= i64::MAX,
            self.offset_of(default_limit) >= i64::MIN,
        ensures
            r == self.offset_of(default_limit),
    {
        let page: i64 = if self.page > 0 {
            self.page
        } else {
            0
        };
        let limit = self.effective_limit(default_limit);
        page * limit
    }

    /// Whether `offset` can be computed without overflow for this default.
    pub fn offset_fits(&self, default_limit: i64) -> (r: bool)
        ensures
            r == (i64::MIN <= self.offset_of(default_limit) <= i64::MAX),
    {
        let page: i64 = if self.page > 0 {
            self.page
        } else {
            0
        };
        let limit = self.effective_limit(default_limit) as i128;
        let p = page as i128;
        if p == 0 {
            return true;
        }
        let hi: i128 = 0x7fff_ffff_ffff_ffff;
        let lo: i128 = 0x8000_0000_0000_0000;
        if limit >= 0 {
            let q = hi / p;
            proof {
                lemma_div_bound(hi as int, p as int, limit as int);
                assert(p * limit >= 0) by (nonlinear_arith)
                    requires
                        p > 0,
                        limit >= 0,
                ;
            }
            limit <= q
        } else {
            let q = lo / p;
            proof {
                lemma_div_bound(lo as int, p as int, -limit as int);
                assert(p * limit == -(p * (-limit)) && p * limit < 0) by (nonlinear_arith)
                    requires
                        p > 0,
                        limit < 0,
                ;
            }
            (-limit) <= q
        }
    }
}

proof fn lemma_div_bound(m: int, p: int, l: int)
    requires
        m >= 0,
        p > 0,
        l >= 0,
    ensures
        (l <= m / p) <==> (p * l <= m),
{
    assert((l <= m / p) ==> p * l <= m) by (nonlinear_arith)
        requires
            m >= 0,
            p > 0,
            l >= 0,
    ;
    assert((p * l <= m) ==> l <= m / p) by (nonlinear_arith)
        requires
            m >= 0,
            p > 0,
            l >= 0,
    ;
}

/// The page size in effect never exceeds 100 when the default does not, and is
/// always positive when the default is.
pub proof fn law_limit_bounded(p: Pagination, default: i64)
    requires
        0 < default <= MAX_PAGE_SIZE,
    ensures
        0 < p.limit_in_effect(default) <= MAX_PAGE_SIZE,
{
}

/// Consecutive pages are adjacent: page `n + 1` starts where page `n` ends.
pub proof fn law_pages_adjacent(p: Pagination, q: Pagination, default: i64)
    requires
        p.page >= 0,
        q.page == p.page + 1,
        q.limit == p.limit,
    ensures
        q.offset_of(default) == p.offset_of(default) + p.limit_in_effect(default),
{
    assert(q.offset_of(default) == (p.page + 1) * p.limit_in_effect(default));
    assert((p.page + 1) * p.limit_in_effect(default) == p.page * p.limit_in_effect(default)
        + p.limit_in_effect(default)) by (nonlinear_arith);
}

/// The offset is never negative when the default page size is positive.
pub proof fn law_offset_nonnegative(p: Pagination, default: i64)
    requires
        0 < default,
    ensures
        p.offset_of(default) >= 0,
{
    let a = p.page_in_effect();
    let b = p.limit_in_effect(default) as int;
    assert(a >= 0 && b > 0);
    assert(a * b >= 0) by (nonlinear_arith)
        requires
            a >= 0,
            b > 0,
    ;
}

} // verus!
