use vstd::prelude::*;
use vstd::string::StringExecFns;

use crate::decimal::{dec_rep, dec_string};
use crate::page::Page;
use crate::schema::{Product, ProductView};

verus! {

/// The absolute location of a page of products, held apart as plain text:
/// scheme, authority, path and query.
#[derive(Debug, PartialEq)]
pub struct Uri {
    pub scheme: String,
    pub authority: String,
    pub path: String,
    pub query: String,
}

impl Uri {
    /// The full text of the URI.
    pub open spec fn text(self) -> Seq<char> {
        self.scheme@ + "://"@ + self.authority@ + self.path@ + "?"@ + self.query@
    }

    /// Renders the URI as one string.
    pub fn as_string(&self) -> (r: String)
        ensures
            r@ == self.text(),
    {
        let r = self.scheme.clone().concat("://").concat(self.authority.as_str()).concat(
            self.path.as_str(),
        ).concat("?").concat(self.query.as_str());
        proof {
            assert(r@ =~= self.text());
        }
        r
    }
}

/// The request method of a wire request. Products requests only ever read.
#[derive(Clone, Copy, Debug, PartialEq, Eq, Structural)]
pub enum Method {
    Get,
}

/// A wire-level HTTP request, as plain values: everything a transport needs
/// to issue it. The body of a products request is always empty.
#[derive(Debug, PartialEq)]
pub struct WireRequest {
    pub method: Method,
    pub uri: Uri,
    pub user_agent: String,
}

/// The fixed path every products request uses.
pub open spec fn products_path() -> Seq<char> {
    "/products.json"@
}

/// The query text a page cursor turns into: the page number under `page`,
/// the page size under `limit`.
pub open spec fn products_query(page: Page) -> Seq<char> {
    "page="@ + dec_rep(page.page_number as int) + "&limit="@ + dec_rep(
        page.items_per_page as int,
    )
}

/// The full URI text of a products request against `authority`.
pub open spec fn products_uri(authority: Seq<char>, page: Page) -> Seq<char> {
    "https"@ + "://"@ + authority + products_path() + "?"@ + products_query(page)
}

/// A request for one page of a host's product listing.
#[derive(Debug, PartialEq)]
pub struct GetProductsRequest {
    pub authority: String,
    pub page: Page,
}

impl Clone for GetProductsRequest {
    fn clone(&self) -> (r: Self)
        ensures
            r == *self,
    {
        GetProductsRequest { authority: self.authority.clone(), page: self.page }
    }
}

impl GetProductsRequest {
    /// The request for the following page, if the cursor has one: same
    /// authority, advanced page.
    pub open spec fn spec_next(self) -> Option<GetProductsRequest> {
        match self.page.spec_next() {
            None => None,
            Some(p) => Some(GetProductsRequest { authority: self.authority, page: p }),
        }
    }

    pub fn new(authority: String, page: Page) -> (r: Self)
        ensures
            r.authority == authority,
            r.page == page,
    {
        GetProductsRequest { authority, page }
    }

    /// The canonical starting request: page 1 at the maximum page size.
    pub fn first_page(authority: String) -> (r: Self)
        ensures
            r.authority == authority,
            r.page == Page::spec_first(),
    {
        Self::new(authority, Page::first())
    }

    /// Advances to the following page; yields nothing exactly when the
    /// embedded page has no next page.
    pub fn next(&self) -> (r: Option<Self>)
        ensures
            r == self.spec_next(),
            r is Some <==> self.page.spec_next() is Some,
            r matches Some(n) ==> n.authority == self.authority && Some(n.page)
                == self.page.spec_next(),
    {
        match self.page.next() {
            None => None,
            Some(page) => Some(
                GetProductsRequest { authority: self.authority.clone(), page },
            ),
        }
    }

    /// The wire-level location of this request: an absolute HTTPS URI with
    /// the page cursor in the query.
    pub fn to_uri(&self) -> (r: Uri)
        ensures
            r.scheme@ == "https"@,
            r.authority == self.authority,
            r.path@ == products_path(),
            r.query@ == products_query(self.page),
            r.text() == products_uri(self.authority@, self.page),
    {
        let query = String::from_str("page=").concat(
            dec_string(self.page.page_number as u16).as_str(),
        ).concat("&limit=").concat(dec_string(self.page.items_per_page as u16).as_str());
        let r = Uri {
            scheme: String::from_str("https"),
            authority: self.authority.clone(),
            path: String::from_str("/products.json"),
            query,
        };
        proof {
            assert(r.query@ =~= products_query(self.page));
            assert(r.text() =~= products_uri(self.authority@, self.page));
        }
        r
    }

    /// Products requests always read: the method is GET.
    pub fn method(&self) -> (r: Method)
        ensures
            r == Method::Get,
    {
        Method::Get
    }

    /// The full wire request: GET, the absolute URI, the identifying
    /// user-agent header, an empty body.
    pub fn to_wire(&self) -> (r: WireRequest)
        ensures
            r.method == Method::Get,
            r.uri.scheme@ == "https"@,
            r.uri.authority == self.authority,
            r.uri.path@ == products_path(),
            r.uri.query@ == products_query(self.page),
            r.uri.text() == products_uri(self.authority@, self.page),
            r.user_agent@ == "Kakap.io/0.1"@,
    {
        WireRequest {
            method: self.method(),
            uri: self.to_uri(),
            user_agent: String::from_str("Kakap.io/0.1"),
        }
    }
}

/// One decoded page of products.
#[derive(Debug, PartialEq)]
pub struct GetProductsResponse {
    pub products: Vec<Product>,
}

impl DeepView for GetProductsResponse {
    type V = Seq<ProductView>;

    open spec fn deep_view(&self) -> Seq<ProductView> {
        self.products.deep_view()
    }
}

impl Clone for GetProductsResponse {
    fn clone(&self) -> (r: Self)
        ensures
            r.deep_view() == self.deep_view(),
            r.products@.len() == self.products@.len(),
    {
        let r = GetProductsResponse { products: self.products.clone() };
        proof {
            assert(r.deep_view() =~= self.deep_view());
        }
        r
    }
}

impl GetProductsResponse {
    /// True exactly when the page carries no products: the sole end-of-data
    /// signal the upstream gives.
    pub fn is_empty(&self) -> (r: bool)
        ensures
            r == (self.products@.len() == 0),
    {
        self.products.len() == 0
    }

    /// True exactly when the page carries at least one product.
    pub fn non_empty(&self) -> (r: bool)
        ensures
            r == (self.products@.len() > 0),
    {
        !self.is_empty()
    }
}

} // verus!
