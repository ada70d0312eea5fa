use vstd::prelude::*;
use vstd::string::StringExecFns;

use crate::error::Error;

verus! {

/// A pagination cursor: which page to ask for and how many items per page,
/// validated against the platform's bounds.
#[derive(Clone, Copy, Debug, PartialEq, Eq, Structural)]
pub struct Page {
    pub page_number: u8,
    pub items_per_page: u8,
}

/// The platform accepts page numbers from this bound upward.
pub const MIN_PAGE_NUMBER: u8 = 1;
/// The hard ceiling on page numbers: the largest value the cursor can hold.
pub const MAX_PAGE_NUMBER: u8 = 255;
/// The platform accepts page sizes from this bound upward.
pub const MIN_ITEMS_PER_PAGE: u8 = 1;
/// The platform caps page sizes at this bound.
pub const MAX_ITEMS_PER_PAGE: u8 = 250;

/// The bounds a page must satisfy to be accepted by [`Page::new`].
pub open spec fn page_in_bounds(page_number: u8, items_per_page: u8) -> bool {
    &&& page_number >= MIN_PAGE_NUMBER
    &&& items_per_page >= MIN_ITEMS_PER_PAGE
    &&& items_per_page <= MAX_ITEMS_PER_PAGE
}

impl Page {
    /// A page is valid when its fields lie within the platform's bounds.
    pub open spec fn valid(self) -> bool {
        page_in_bounds(self.page_number, self.items_per_page)
    }

    /// The canonical starting cursor: page 1 at the maximum page size.
    pub open spec fn spec_first() -> Page {
        Page { page_number: MIN_PAGE_NUMBER, items_per_page: MAX_ITEMS_PER_PAGE }
    }

    /// The cursor one page further on, or `None` at the hard page-number
    /// ceiling.
    pub open spec fn spec_next(self) -> Option<Page> {
        if self.page_number == MAX_PAGE_NUMBER {
            None
        } else {
            Some(
                Page {
                    page_number: (self.page_number + 1) as u8,
                    items_per_page: self.items_per_page,
                },
            )
        }
    }

    /// Builds a cursor, rejecting out-of-bounds fields. Succeeds exactly on
    /// in-bounds fields and then returns them unchanged; each violated bound
    /// is reported with its own message.
    pub fn new(page_number: u8, items_per_page: u8) -> (r: Result<Page, Error>)
        ensures
            r is Ok <==> page_in_bounds(page_number, items_per_page),
            r matches Ok(p) ==> p.page_number == page_number && p.items_per_page
                == items_per_page,
            page_number < MIN_PAGE_NUMBER ==> (r matches Err(e) && e.msg@
                == "Invalid page, must be 1 or above"@),
            page_number >= MIN_PAGE_NUMBER && items_per_page < MIN_ITEMS_PER_PAGE ==> (
            r matches Err(e) && e.msg@ == "Invalid limit, must be 1 or above"@),
            page_number >= MIN_PAGE_NUMBER && items_per_page > MAX_ITEMS_PER_PAGE ==> (
            r matches Err(e) && e.msg@ == "Invalid limit, must be 250 or below"@),
    {
        if page_number < MIN_PAGE_NUMBER {
            Err(Error::new(String::from_str("Invalid page, must be 1 or above")))
        } else if items_per_page < MIN_ITEMS_PER_PAGE {
            Err(Error::new(String::from_str("Invalid limit, must be 1 or above")))
        } else if items_per_page > MAX_ITEMS_PER_PAGE {
            Err(Error::new(String::from_str("Invalid limit, must be 250 or below")))
        } else {
            Ok(Page { page_number, items_per_page })
        }
    }

    /// The canonical starting cursor: page 1 at the maximum page size, chosen
    /// to minimise round-trips.
    pub fn first() -> (r: Page)
        ensures
            r == Page::spec_first(),
            r.valid(),
    {
        Page { page_number: MIN_PAGE_NUMBER, items_per_page: MAX_ITEMS_PER_PAGE }
    }

    /// Advances the cursor by one page, preserving the page size; yields
    /// nothing exactly at the hard page-number ceiling.
    pub fn next(&self) -> (r: Option<Page>)
        ensures
            r == self.spec_next(),
            r is None <==> self.page_number == MAX_PAGE_NUMBER,
            r matches Some(p) ==> p.page_number == self.page_number + 1
                && p.items_per_page == self.items_per_page,
            r matches Some(p) ==> (self.valid() ==> p.valid()),
    {
        if self.page_number == MAX_PAGE_NUMBER {
            None
        } else {
            Some(Page { page_number: self.page_number + 1, items_per_page: self.items_per_page })
        }
    }
}

/// A page at the hard ceiling is still accepted by [`Page::new`], whatever its
/// valid page size, and has no successor.
pub proof fn lemma_last_page_has_no_next(items_per_page: u8)
    requires
        MIN_ITEMS_PER_PAGE <= items_per_page <= MAX_ITEMS_PER_PAGE,
    ensures
        page_in_bounds(MAX_PAGE_NUMBER, items_per_page),
        (Page { page_number: MAX_PAGE_NUMBER, items_per_page }).spec_next() is None,
{
}

} // verus!
