use typesense::endpoint::{
    api_key_header_value, collection_path_of, take_snapshot_request, vote_request, Client,
    Method, API_KEY_HEADER,
};

fn client() -> Client {
    Client::new("http://localhost:8108".to_string(), "xyz".to_string())
}

#[test]
fn collections_requests() {
    let c = client().collections();
    let r = c.create_request();
    assert_eq!(r.method, Method::Post);
    assert_eq!(r.path, "/collections");
    let r = c.retrieve_request();
    assert_eq!(r.method, Method::Get);
    assert_eq!(r.path, "/collections");
}

#[test]
fn collection_requests() {
    let client = client();
    let c = client.collection("companies");
    let r = c.retrieve_request();
    assert_eq!((r.method, r.path.as_str()), (Method::Get, "/collections/companies"));
    let r = c.delete_request();
    assert_eq!((r.method, r.path.as_str()), (Method::Delete, "/collections/companies"));
}

#[test]
fn documents_requests() {
    let client = client();
    let d = client.collection("companies").documents();
    assert_eq!(d.collection_name, "companies");
    assert_eq!(d.client.host, "http://localhost:8108");
    assert_eq!(d.client.api_key, "xyz");
    let r = d.create_request();
    assert_eq!((r.method, r.path.as_str()), (Method::Post, "/collections/companies/documents"));
    let r = d.upsert_request();
    assert_eq!(
        (r.method, r.path.as_str()),
        (Method::Post, "/collections/companies/documents?action=upsert")
    );
}

#[test]
fn delete_by_filter_request_encodes_filter() {
    let client = client();
    let r = client.collection("companies").documents().delete_request("num_employees:<100");
    assert_eq!(r.method, Method::Delete);
    assert_eq!(r.path, "/collections/companies/documents?filter_by=num_employees%3A%3C100");
    let r = client.collection("c").documents().delete_request("a b~é");
    assert_eq!(r.path, "/collections/c/documents?filter_by=a%20b~%C3%A9");
}

#[test]
fn document_requests() {
    let client = client();
    let d = client.collection("companies").document("0");
    assert_eq!(d.document_id, "0");
    assert_eq!(d.collection_name, "companies");
    let r = d.retrieve_request();
    assert_eq!((r.method, r.path.as_str()), (Method::Get, "/collections/companies/documents/0"));
    let r = d.update_request();
    assert_eq!((r.method, r.path.as_str()), (Method::Patch, "/collections/companies/documents/0"));
    let r = d.delete_request();
    assert_eq!((r.method, r.path.as_str()), (Method::Delete, "/collections/companies/documents/0"));
}

#[test]
fn names_and_ids_are_escaped() {
    assert_eq!(collection_path_of("my docs/2"), "/collections/my%20docs%2F2");
    let client = client();
    let r = client.collection("c").document("a/b").retrieve_request();
    assert_eq!(r.path, "/collections/c/documents/a%2Fb");
}

#[test]
fn urls_and_headers() {
    let c = client();
    assert_eq!(c.url("/collections"), "http://localhost:8108/collections");
    assert_eq!(API_KEY_HEADER, "X-TYPESENSE-API-KEY");
    assert_eq!(api_key_header_value("xyz", None), "xyz");
    assert_eq!(api_key_header_value("xyz", Some("Bearer")), "Bearer xyz");
    let d = c.duplicate();
    assert_eq!((d.host, d.api_key), (c.host, c.api_key));
}

#[test]
fn operations_requests() {
    let r = take_snapshot_request("/tmp/typesense-data-snapshot");
    assert_eq!(r.method, Method::Post);
    assert_eq!(r.path, "/operations/snapshot?snapshot_path=%2Ftmp%2Ftypesense-data-snapshot");
    let r = vote_request();
    assert_eq!((r.method, r.path.as_str()), (Method::Post, "/operations/vote"));
}
