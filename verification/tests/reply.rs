use aws_image_upload::reply::{Body, Reply, Status};
use aws_image_upload::urls::UrlMap;

#[test]
fn status_numbers() {
    assert_eq!(Status::Success.code(), 200);
    assert_eq!(Status::BadRequest.code(), 400);
    assert_eq!(Status::Unauthorized.code(), 401);
    assert_eq!(Status::InternalServerError.code(), 500);
}

#[test]
fn storage_failure_reply() {
    let reply = Reply::storage_failure();
    assert_eq!(reply.status, Status::InternalServerError);
    match reply.body {
        Body::Fault { field, message } => {
            assert_eq!(field, "err");
            assert_eq!(message, "an error occured during image upload");
        }
        Body::Urls(_) => panic!("a failure reports no address"),
    }
}

#[test]
fn success_reply_carries_the_map() {
    let mut urls = UrlMap::new();
    urls.insert("a.jpg_cat".to_string(), "u".to_string());
    let reply = Reply::success(urls);
    assert_eq!(reply.status, Status::Success);
    match reply.body {
        Body::Urls(urls) => {
            assert_eq!(urls.len(), 1);
            assert_eq!(urls.get(&"a.jpg_cat".to_string()), Some(&"u".to_string()));
        }
        Body::Fault { .. } => panic!("a success reports addresses"),
    }
}

#[test]
fn fault_reply_as_given() {
    let reply = Reply::fault(Status::BadRequest, "error", "no");
    assert_eq!(reply.status.code(), 400);
    match reply.body {
        Body::Fault { field, message } => {
            assert_eq!(field, "error");
            assert_eq!(message, "no");
        }
        Body::Urls(_) => panic!("a fault reports no address"),
    }
}
