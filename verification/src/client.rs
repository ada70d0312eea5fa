use vstd::prelude::*;
use vstd::string::StringExecFns;

use crate::decimal::{dec_rep, dec_string};
use crate::error::Error;
use crate::get_products::{products_uri, GetProductsRequest, GetProductsResponse};

verus! {

/// The transport capability the stream engine depends on: execute one
/// products request against the remote host, decode the reply, or fail.
///
/// `page_result` is each implementation's own statement of which results it
/// may hand back for a request; everything the engine guarantees about
/// fetched elements is relative to it. A transport holds no per-request
/// mutable state, so one value may back any number of independent streams.
pub trait Client {
    /// Which results this transport may return for `req`.
    spec fn page_result(
        &self,
        req: GetProductsRequest,
        r: Result<GetProductsResponse, Error>,
    ) -> bool;

    /// Executes one page request and decodes the reply.
    fn get_products_page(&self, req: &GetProductsRequest) -> (r: Result<
        GetProductsResponse,
        Error,
    >)
        ensures
            self.page_result(*req, r),
    ;
}

/// The production rule for an HTTP reply's status: exactly 200 counts as
/// success, and any other status is reported as an error naming it.
pub fn check_status(status: u16) -> (r: Result<(), Error>)
    ensures
        r is Ok <==> status == 200,
        r matches Err(e) ==> e.msg@ == "wrong status "@ + dec_rep(status as int),
{
    if status == 200 {
        Ok(())
    } else {
        let msg = String::from_str("wrong status ").concat(dec_string(status).as_str());
        Err(Error::new(msg))
    }
}

/// What one stream step decided: the element to hand the consumer, if any,
/// and the cursor for the following step, if the stream goes on.
pub struct Step {
    pub emit: Option<Result<GetProductsResponse, Error>>,
    pub next: Option<GetProductsRequest>,
}

/// Decides one step of the pagination stream from the request just fetched
/// and its outcome: a non-empty page is handed on and the cursor advances; an
/// empty page ends the stream without being handed on; a failure is handed on
/// and ends the stream.
pub fn step(req: &GetProductsRequest, fetched: Result<GetProductsResponse, Error>) -> (r: Step)
    ensures
        fetched matches Ok(resp) ==> {
            &&& resp.products@.len() > 0 ==> r.emit == Some(
                Result::<GetProductsResponse, Error>::Ok(resp),
            ) && r.next == req.spec_next()
            &&& resp.products@.len() == 0 ==> r.emit is None && r.next is None
        },
        fetched matches Err(e) ==> r.emit == Some(
            Result::<GetProductsResponse, Error>::Err(e),
        ) && r.next is None,
{
    match fetched {
        Ok(resp) => {
            if resp.non_empty() {
                let next = req.next();
                Step { emit: Some(Ok(resp)), next }
            } else {
                Step { emit: None, next: None }
            }
        },
        Err(e) => Step { emit: Some(Err(e)), next: None },
    }
}

/// The lazily-produced sequence of fetched pages: a pull-based cursor over a
/// transport. Each pull fetches one page, so the sequence is single-use and
/// carries the network side effects of its transport. It ends at the first
/// empty or failed page, or when the page number reaches its hard ceiling.
pub struct ProductStream<C: Client> {
    pub client: C,
    pub cursor: Option<GetProductsRequest>,
}

impl<C: Client> ProductStream<C> {
    /// A stream positioned at `start`, before any fetch.
    pub fn new(client: C, start: GetProductsRequest) -> (r: Self)
        ensures
            r.client == client,
            r.cursor == Some(start),
    {
        ProductStream { client, cursor: Some(start) }
    }

    /// Pulls the next element of the sequence. A fetched non-empty page comes
    /// back as `Some(Ok(..))` and the cursor advances; a fetch failure comes
    /// back as `Some(Err(..))` and the stream ends; a fetched empty page ends
    /// the stream at once, yielding `None`. Once the stream has ended, every
    /// further pull yields `None` without fetching.
    pub fn next_item(&mut self) -> (r: Option<Result<GetProductsResponse, Error>>)
        ensures
            final(self).client == old(self).client,
            old(self).cursor is None ==> r is None,
            r is None ==> final(self).cursor is None,
            r matches Some(Ok(resp)) ==> (old(self).cursor matches Some(req)
                && resp.products@.len() > 0 && old(self).client.page_result(req, Ok(resp))
                && final(self).cursor == req.spec_next()),
            r matches Some(Err(e)) ==> (old(self).cursor matches Some(req) && old(
                self,
            ).client.page_result(req, Err(e)) && final(self).cursor is None),
            old(self).cursor is Some && r is None ==> (exists|resp: GetProductsResponse|
                #[trigger] old(self).client.page_result(old(self).cursor.unwrap(), Ok(resp))
                    && resp.products@.len() == 0),
    {
        let cur = self.cursor.take();
        match cur {
            None => None,
            Some(req) => {
                let fetched = self.client.get_products_page(&req);
                let s = step(&req, fetched);
                self.cursor = s.next;
                s.emit
            },
        }
    }
}

/// Starts the lazily-produced stream of pages at `req`; elements are then
/// pulled one at a time with [`ProductStream::next_item`].
pub fn get_products_stream<C: Client>(client: C, req: &GetProductsRequest) -> (r: ProductStream<
    C,
>)
    ensures
        r.client == client,
        r.cursor == Some(*req),
{
    ProductStream::new(client, req.clone())
}

/// One fixed mapping of a fake transport: the full URI text a request renders
/// to, and the page to hand back for it.
pub struct FakeEntry {
    pub uri: String,
    pub response: GetProductsResponse,
}

/// The first mapped response at or after position `from` whose URI text is
/// `uri`.
pub open spec fn fake_lookup(
    entries: Seq<FakeEntry>,
    from: int,
    uri: Seq<char>,
) -> Option<GetProductsResponse>
    decreases entries.len() - from,
{
    if from < 0 || from >= entries.len() {
        None
    } else if entries[from].uri@ == uri {
        Some(entries[from].response)
    } else {
        fake_lookup(entries, from + 1, uri)
    }
}

/// A deterministic test transport: it resolves requests against a fixed list
/// of URI-to-response mappings and fails with a not-found error for any
/// unmapped request. It performs no I/O, so a stream over it is fully
/// predictable.
pub struct FakeClient {
    pub entries: Vec<FakeEntry>,
}

impl Client for FakeClient {
    /// A mapped request comes back `Ok` with the mapped page's value; an
    /// unmapped one fails with a not-found error.
    open spec fn page_result(
        &self,
        req: GetProductsRequest,
        r: Result<GetProductsResponse, Error>,
    ) -> bool {
        match fake_lookup(self.entries@, 0, products_uri(req.authority@, req.page)) {
            Some(resp) => r matches Ok(got) && got.deep_view() == resp.deep_view()
                && got.products@.len() == resp.products@.len(),
            None => r matches Err(e) && e.msg@ == "404"@,
        }
    }

    fn get_products_page(&self, req: &GetProductsRequest) -> (r: Result<
        GetProductsResponse,
        Error,
    >)
        ensures
            self.page_result(*req, r),
    {
        let uri = req.to_uri().as_string();
        let mut i: usize = 0;
        while i < self.entries.len()
            invariant
                i <= self.entries@.len(),
                uri@ == products_uri(req.authority@, req.page),
                fake_lookup(self.entries@, 0, uri@) == fake_lookup(self.entries@, i as int, uri@),
            decreases self.entries@.len() - i,
        {
            if self.entries[i].uri == uri {
                return Ok(self.entries[i].response.clone());
            }
            i += 1;
        }
        Err(Error::new(String::from_str("404")))
    }
}

} // verus!
