use vstd::prelude::*;

use crate::error::Error;

verus! {

/// The direction in which a page is read: forwards from `from` to `to`, or backwards.
#[derive(Clone, Copy, PartialEq, Eq, Structural, Debug)]
pub enum PaginationDirection {
    F,
    B,
}

/// A key by which items are paged, with the least and the greatest key.
pub trait PaginationKey: Sized + Copy {
    spec fn spec_min() -> Self;

    spec fn spec_max() -> Self;

    fn min() -> (res: Self)
        ensures
            res == Self::spec_min(),
    ;

    fn max() -> (res: Self)
        ensures
            res == Self::spec_max(),
    ;
}

impl PaginationKey for u64 {
    open spec fn spec_min() -> u64 {
        0
    }

    open spec fn spec_max() -> u64 {
        u64::MAX
    }

    fn min() -> (res: u64) {
        0
    }

    fn max() -> (res: u64) {
        u64::MAX
    }
}

impl PaginationKey for u128 {
    open spec fn spec_min() -> u128 {
        0
    }

    open spec fn spec_max() -> u128 {
        u128::MAX
    }

    fn min() -> (res: u128) {
        0
    }

    fn max() -> (res: u128) {
        u128::MAX
    }
}

/// A page as a client asks for it.
#[derive(Clone, Copy, Debug)]
pub struct PaginationQuery<K> {
    pub from: Option<K>,
    pub to: Option<K>,
    pub dir: Option<PaginationDirection>,
    pub limit: Option<u16>,
}

/// A page as the store reads it: the keys strictly between `after` and
/// `before`, at most `limit` of them, in direction `dir`.
#[derive(Clone, Copy, Debug)]
pub struct Pagination<K> {
    pub before: K,
    pub after: K,
    pub dir: PaginationDirection,
    pub limit: u16,
}

/// The default number of items in a page.
pub const DEFAULT_LIMIT: u16 = 10;

/// The largest number of items that a page may hold.
pub const MAX_LIMIT: u16 = 100;

pub open spec fn spec_dir<K>(q: PaginationQuery<K>) -> PaginationDirection {
    match q.dir {
        Some(d) => d,
        None => PaginationDirection::F,
    }
}

pub open spec fn spec_limit<K>(q: PaginationQuery<K>) -> u16 {
    match q.limit {
        Some(l) => l,
        None => DEFAULT_LIMIT,
    }
}

pub open spec fn or_else<K>(o: Option<K>, d: K) -> K {
    match o {
        Some(k) => k,
        None => d,
    }
}

impl<K: PaginationKey> Pagination<K> {
    /// Reads a client's query as a page: the limit defaults to 10 and may
    /// not exceed 100; the direction defaults to forwards. Forwards, the
    /// page runs after `from` and before `to`; backwards, after `to` and
    /// before `from`. A missing bound is the least (after) or greatest
    /// (before) key.
    pub fn try_from_query(q: PaginationQuery<K>) -> (res: Result<Pagination<K>, Error>)
        ensures
            spec_limit(q) > MAX_LIMIT ==> res == Err::<Pagination<K>, Error>(Error::TooBig),
            spec_limit(q) <= MAX_LIMIT ==> (res matches Ok(p) && p.limit == spec_limit(q)
                && p.dir == spec_dir(q) && (spec_dir(q) == PaginationDirection::F ==> p.after
                == or_else(q.from, K::spec_min()) && p.before == or_else(q.to, K::spec_max()))
                && (spec_dir(q) == PaginationDirection::B ==> p.after == or_else(
                q.to,
                K::spec_min(),
            ) && p.before == or_else(q.from, K::spec_max()))),
    {
        let limit = match q.limit {
            Some(l) => l,
            None => DEFAULT_LIMIT,
        };
        if limit > MAX_LIMIT {
            return Err(Error::TooBig);
        }
        let dir = match q.dir {
            Some(d) => d,
            None => PaginationDirection::F,
        };
        let after = match dir {
            PaginationDirection::F => q.from,
            _ => q.to,
        };
        let after = match after {
            Some(k) => k,
            None => K::min(),
        };
        let before = match dir {
            PaginationDirection::F => q.to,
            _ => q.from,
        };
        let before = match before {
            Some(k) => k,
            None => K::max(),
        };
        Ok(Pagination { before, after, dir, limit })
    }
}

/// What to do after reading one page of a list that is read to its end in
/// pages of a fixed size.
#[derive(Clone, Copy, PartialEq, Eq, Structural, Debug)]
pub enum PageStep<K> {
    /// Read the next page, after this key.
    Continue(K),
    /// The list has been read to its end.
    Stop,
}

pub open spec fn spec_page_step<K>(page: Seq<K>, page_size: usize) -> PageStep<K> {
    if page.len() == 0 || page.len() < page_size {
        PageStep::Stop
    } else {
        PageStep::Continue(page.last())
    }
}

/// Decides, from the keys of the page just read, whether to read another
/// page: an empty page or one shorter than `page_size` is the last;
/// otherwise the next page starts after the last key read.
pub fn page_step<K: Copy>(page: &Vec<K>, page_size: usize) -> (res: PageStep<K>)
    ensures
        res == spec_page_step(page@, page_size),
{
    if page.len() == 0 || page.len() < page_size {
        PageStep::Stop
    } else {
        PageStep::Continue(page[page.len() - 1])
    }
}

/// The cursor of a page: the key of its last item, if it has any.
pub fn page_cursor<K: Copy>(keys: &Vec<K>) -> (res: Option<K>)
    ensures
        keys@.len() == 0 ==> res is None,
        keys@.len() > 0 ==> res == Some(keys@.last()),
{
    if keys.len() == 0 {
        None
    } else {
        Some(keys[keys.len() - 1])
    }
}

/// The number of items a search returns: the requested count (10 by
/// default), never more than 100.
pub fn search_limit(requested: Option<u16>) -> (res: u16)
    ensures
        res == (if or_else(requested, DEFAULT_LIMIT) < MAX_LIMIT {
            or_else(requested, DEFAULT_LIMIT)
        } else {
            MAX_LIMIT
        }),
{
    let l = match requested {
        Some(l) => l,
        None => DEFAULT_LIMIT,
    };
    if l < MAX_LIMIT {
        l
    } else {
        MAX_LIMIT
    }
}

/// Reading pages goes on only after a full page (at least `page_size` keys,
/// and not empty), from its last key; a short or empty page is the last.
pub proof fn law_paging_goes_on_after_full_pages<K>(page: Seq<K>, page_size: usize)
    ensures
        spec_page_step(page, page_size) is Continue <==> page.len() > 0 && page.len() >= page_size,
        spec_page_step(page, page_size) matches PageStep::Continue(k) ==> k == page[page.len() - 1],
{
}

} // verus!
