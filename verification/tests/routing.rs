use hello_service::http::{hello_response, not_found, Method, Request};
use hello_service::router::{route, Route};

fn request(method: Method, path: &str) -> Request {
    Request { method, path: path.to_owned(), body: Vec::new() }
}

#[test]
fn get_root_routes_to_index() {
    assert_eq!(route(&request(Method::Get, "/")), Route::Index);
}

#[test]
fn get_other_path_routes_to_not_found() {
    assert_eq!(route(&request(Method::Get, "/x")), Route::NotFound);
    assert_eq!(route(&request(Method::Get, "")), Route::NotFound);
    assert_eq!(route(&request(Method::Get, "//")), Route::NotFound);
}

#[test]
fn non_get_methods_route_to_not_found() {
    assert_eq!(route(&request(Method::Post, "/")), Route::NotFound);
    assert_eq!(route(&request(Method::Delete, "/")), Route::NotFound);
    assert_eq!(route(&request(Method::Put, "/")), Route::NotFound);
    assert_eq!(route(&request(Method::Head, "/")), Route::NotFound);
    assert_eq!(route(&request(Method::Other, "/")), Route::NotFound);
}

#[test]
fn request_body_does_not_affect_routing() {
    let mut req = request(Method::Get, "/");
    req.body = vec![1, 2, 3];
    assert_eq!(route(&req), Route::Index);
}

#[test]
fn not_found_response_is_404_with_empty_body() {
    let resp = not_found(&request(Method::Post, "/missing"));
    assert_eq!(resp.status, 404);
    assert_eq!(resp.body, "");
}

#[test]
fn hello_response_is_200_hello_world() {
    let resp = hello_response();
    assert_eq!(resp.status, 200);
    assert_eq!(resp.body, "Hello, World");
}
