use kakap::client::{check_status, Client, FakeClient, FakeEntry};
use kakap::decimal::dec_string;
use kakap::get_products::{GetProductsRequest, GetProductsResponse};
use kakap::schema::Product;

fn blank_product() -> Product {
    Product {
        id: 0,
        title: "".to_string(),
        handle: "".to_string(),
        body_html: None,
        published_at: "".to_string(),
        created_at: "".to_string(),
        updated_at: "".to_string(),
        vendor: "".to_string(),
        product_type: "".to_string(),
        tags: vec![],
        variants: vec![],
        images: vec![],
        options: vec![],
    }
}

fn empty_page() -> GetProductsResponse {
    GetProductsResponse { products: vec![] }
}

fn one_product_page() -> GetProductsResponse {
    GetProductsResponse { products: vec![blank_product()] }
}

#[test]
fn get_products_page_empty() {
    let req = GetProductsRequest::first_page("example.com".to_string());
    let uri = req.to_uri().as_string();

    let client = FakeClient { entries: vec![FakeEntry { uri, response: empty_page() }] };

    let res = client.get_products_page(&req);

    assert!(res.is_ok());
    assert_eq!(res.unwrap(), GetProductsResponse { products: vec![] });
}

#[test]
fn get_products_page_unmapped_is_not_found() {
    let req = GetProductsRequest::first_page("example.com".to_string());
    let client = FakeClient { entries: vec![] };

    let res = client.get_products_page(&req);

    assert_eq!(res.err().unwrap().msg, "404");
}

#[test]
fn get_products_stream() {
    let req = GetProductsRequest::first_page("example.com".to_string());

    let entries = vec![
        FakeEntry {
            uri: "https://example.com/products.json?page=1&limit=250".to_string(),
            response: one_product_page(),
        },
        FakeEntry {
            uri: "https://example.com/products.json?page=2&limit=250".to_string(),
            response: one_product_page(),
        },
        FakeEntry {
            uri: "https://example.com/products.json?page=3&limit=250".to_string(),
            response: empty_page(),
        },
    ];
    let client = FakeClient { entries };

    let mut stream = kakap::client::get_products_stream(client, &req);

    let first = stream.next_item();
    assert!(first.is_some());
    assert!(first.unwrap().unwrap().non_empty());
    let second = stream.next_item();
    assert!(second.is_some());
    assert!(second.unwrap().unwrap().non_empty());
    assert!(stream.next_item().is_none());
    assert!(stream.next_item().is_none());
}

#[test]
fn fetched_page_equals_mapped_page() {
    let req = GetProductsRequest::first_page("example.com".to_string());
    let client = FakeClient {
        entries: vec![FakeEntry {
            uri: "https://example.com/products.json?page=1&limit=250".to_string(),
            response: one_product_page(),
        }],
    };

    let res = client.get_products_page(&req);
    assert_eq!(res.unwrap(), one_product_page());
}

#[test]
fn stream_failure_after_a_page_yields_it_then_stops() {
    let req = GetProductsRequest::first_page("example.com".to_string());
    let client = FakeClient {
        entries: vec![FakeEntry {
            uri: "https://example.com/products.json?page=1&limit=250".to_string(),
            response: one_product_page(),
        }],
    };

    let mut stream = kakap::client::get_products_stream(client, &req);

    let first = stream.next_item();
    assert!(first.unwrap().is_ok());
    let second = stream.next_item();
    assert!(second.unwrap().is_err());
    assert!(stream.next_item().is_none());
}

#[test]
fn stream_unmapped_yields_one_failed_element() {
    let req = GetProductsRequest::first_page("example.com".to_string());
    let client = FakeClient { entries: vec![] };

    let mut stream = kakap::client::get_products_stream(client, &req);

    let first = stream.next_item();
    assert!(first.is_some());
    assert!(first.unwrap().is_err());
    assert!(stream.next_item().is_none());
}

#[test]
fn stream_empty_first_page_yields_nothing() {
    let req = GetProductsRequest::first_page("example.com".to_string());
    let client = FakeClient {
        entries: vec![FakeEntry {
            uri: "https://example.com/products.json?page=1&limit=250".to_string(),
            response: empty_page(),
        }],
    };

    let mut stream = kakap::client::get_products_stream(client, &req);

    assert!(stream.next_item().is_none());
    assert!(stream.next_item().is_none());
}

#[test]
fn check_status_accepts_exactly_200() {
    assert!(check_status(200).is_ok());
    assert_eq!(check_status(404).err().unwrap().msg, "wrong status 404");
    assert_eq!(check_status(500).err().unwrap().msg, "wrong status 500");
    assert!(check_status(201).is_err());
}

#[test]
fn dec_string_renders_exact_decimal_text() {
    assert_eq!(dec_string(0), "0");
    assert_eq!(dec_string(7), "7");
    assert_eq!(dec_string(42), "42");
    assert_eq!(dec_string(250), "250");
    assert_eq!(dec_string(65535), "65535");
}
