use vstd::prelude::*;

verus! {

/// Query parameters of a paginated listing: pages are numbered from 1.
#[derive(Debug, Clone, PartialEq, Eq)]
pub struct Pagination {
    pub page: i64,
    pub page_size: i64,
}

/// The number of rows that precede page `page` when every page holds `page_size` rows.
pub open spec fn spec_offset(page: int, page_size: int) -> int {
    (page - 1) * page_size
}

/// Whether the offset of `(page, page_size)` can be computed in 64 bits.
pub open spec fn offset_fits(page: int, page_size: int) -> bool {
    &&& i64::MIN <= page - 1
    &&& i64::MIN <= spec_offset(page, page_size) <= i64::MAX
}

impl Pagination {
    /// The number of rows to skip before this page: `(page - 1) * page_size`.
    pub fn offset(&self) -> (res: i64)
        requires
            offset_fits(self.page as int, self.page_size as int),
        ensures
            res == spec_offset(self.page as int, self.page_size as int),
    {
        (self.page - 1) * self.page_size
    }
}

impl Default for Pagination {
    /// A listing without query parameters: page 0 with page size 0.
    fn default() -> (res: Self)
        ensures
            res.page == 0,
            res.page_size == 0,
    {
        Pagination { page: 0, page_size: 0 }
    }
}

/// One page of a listing together with the position of the page and the
/// number of rows that the whole listing holds.
#[derive(Debug, Clone, PartialEq, Eq)]
pub struct PaginationReponse<T> {
    pub current_page: i64,
    pub page_size: i64,
    pub total: i64,
    pub data: T,
}

impl<T> PaginationReponse<T> {
    /// The reply to a listing request: the page and page size that were asked
    /// for, the total row count, and the rows of the page.
    pub fn from_query(pagination: &Pagination, total: i64, data: T) -> (res: Self)
        ensures
            res.current_page == pagination.page,
            res.page_size == pagination.page_size,
            res.total == total,
            res.data == data,
    {
        PaginationReponse {
            current_page: pagination.page,
            page_size: pagination.page_size,
            total,
            data,
        }
    }
}

/// The first page starts at the first row.
pub proof fn lemma_first_page_starts_at_zero(page_size: int)
    ensures
        spec_offset(1, page_size) == 0,
{
}

/// Page `page + 1` starts exactly where page `page` ends, so consecutive
/// pages neither overlap nor leave rows out.
pub proof fn lemma_next_page_follows(page: int, page_size: int)
    ensures
        spec_offset(page + 1, page_size) == spec_offset(page, page_size) + page_size,
{
    assert(page * page_size == (page - 1) * page_size + page_size) by (nonlinear_arith);
}

/// With a positive page size, an earlier page ends no later than a later page
/// starts: two different pages never share a row.
pub proof fn lemma_pages_disjoint(page: int, later: int, page_size: int)
    requires
        page < later,
        page_size > 0,
    ensures
        spec_offset(page, page_size) + page_size <= spec_offset(later, page_size),
{
    assert((later - 1) * page_size >= page * page_size) by (nonlinear_arith)
        requires
            page < later,
            page_size > 0,
    ;
    lemma_next_page_follows(page, page_size);
}

/// The smaller of two integers.
pub open spec fn min_int(a: int, b: int) -> int {
    if a <= b { a } else { b }
}

/// The rows that page `page` of a listing holds when the listing's rows, in
/// their order, are `rows`: the rows from the page's offset on, at most
/// `page_size` of them (what `LIMIT page_size OFFSET offset` selects).
pub open spec fn page_rows<T>(rows: Seq<T>, page: int, page_size: int) -> Seq<T> {
    let start = min_int(spec_offset(page, page_size), rows.len() as int);
    let end = min_int(spec_offset(page, page_size) + page_size, rows.len() as int);
    rows.subrange(start, end)
}

/// The rows of pages 1 to `n`, one page after the other.
pub open spec fn first_pages<T>(rows: Seq<T>, n: nat, page_size: int) -> Seq<T>
    decreases n,
{
    if n == 0 {
        Seq::empty()
    } else {
        first_pages(rows, (n - 1) as nat, page_size) + page_rows(rows, n as int, page_size)
    }
}

/// Reading pages 1 to `n` one after the other gives the first `n * page_size`
/// rows of the listing in their order (all of them when there are fewer),
/// each exactly once.
pub proof fn lemma_first_pages_are_prefix<T>(rows: Seq<T>, n: nat, page_size: int)
    requires
        page_size > 0,
    ensures
        first_pages(rows, n, page_size) == rows.take(min_int(n * page_size, rows.len() as int)),
    decreases n,
{
    if n == 0 {
        assert(rows.take(0) =~= Seq::<T>::empty());
    } else {
        lemma_first_pages_are_prefix(rows, (n - 1) as nat, page_size);
        lemma_next_page_follows(n - 1, page_size);
        assert(spec_offset(n as int, page_size) == (n - 1) * page_size) by (nonlinear_arith);
        assert(((n - 1) as nat) * page_size == (n - 1) * page_size);
        assert(n * page_size == (n - 1) * page_size + page_size) by (nonlinear_arith);
        assert((n - 1) * page_size >= 0) by (nonlinear_arith)
            requires
                n >= 1,
                page_size > 0,
        ;
        let a = min_int((n - 1) * page_size, rows.len() as int);
        let b = min_int(n * page_size, rows.len() as int);
        assert(rows.take(a) + rows.subrange(a, b) =~= rows.take(b));
    }
}

/// With `n` pages of `page_size` rows, where `n` is the total row count
/// divided by the page size and rounded up, pages 1 to `n` hold every row of
/// the listing exactly once and in order, and page `n + 1` is empty.
pub proof fn lemma_pages_cover_listing<T>(rows: Seq<T>, page_size: int)
    requires
        page_size > 0,
    ensures
        ({
            let n = ((rows.len() + page_size - 1) / page_size) as nat;
            &&& first_pages(rows, n, page_size) == rows
            &&& page_rows(rows, n + 1int, page_size).len() == 0
        }),
{
    let total = rows.len() as int;
    let n = ((total + page_size - 1) / page_size) as nat;
    assert((total + page_size - 1) / page_size >= 0) by (nonlinear_arith)
        requires
            total >= 0,
            page_size > 0,
    ;
    assert(n * page_size >= total) by (nonlinear_arith)
        requires
            n == (total + page_size - 1) / page_size,
            total >= 0,
            page_size > 0,
    ;
    lemma_first_pages_are_prefix(rows, n, page_size);
    assert(rows.take(total) =~= rows);
    assert(spec_offset(n + 1int, page_size) == n * page_size) by (nonlinear_arith);
}

} // verus!
