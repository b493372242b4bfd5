use aws_image_upload::key::{directory, entry_name, object_key, object_url, strip_trailing_slashes};

#[test]
fn key_of_a_file_with_category() {
    assert_eq!(
        object_key("uploaded_images", "cat", "14-12-2022_01:01:01", "a.jpg"),
        "uploaded_images/images/cat/14-12-2022_01:01:01_cat_a.jpg"
    );
}

#[test]
fn key_of_a_file_without_category() {
    assert_eq!(
        object_key("uploaded_images", "", "14-12-2022_01:01:01", "a.jpg"),
        "uploaded_images/images/14-12-2022_01:01:01__a.jpg"
    );
}

#[test]
fn key_keeps_the_category_as_given_after_the_stamp() {
    assert_eq!(
        object_key("sub", "customer/", "01-02-2003_04:05:06", "x.png"),
        "sub/images/customer/01-02-2003_04:05:06_customer/_x.png"
    );
    assert_eq!(
        object_key("sub", "a/b//", "01-02-2003_04:05:06", "x.png"),
        "sub/images/a/b/01-02-2003_04:05:06_a/b//_x.png"
    );
}

#[test]
fn key_with_empty_sub_path_and_file_name() {
    assert_eq!(object_key("", "c", "s", ""), "/images/c/s_c_");
}

#[test]
fn key_of_a_category_of_spaces() {
    assert_eq!(object_key("sub", " ", "s", "f"), "sub/images/ /s_ _f");
}

#[test]
fn directory_of_a_category() {
    assert_eq!(directory(""), "");
    assert_eq!(directory("cat"), "cat/");
    assert_eq!(directory("cat/"), "cat/");
    assert_eq!(directory("cat///"), "cat/");
    assert_eq!(directory("/"), "/");
    assert_eq!(directory("a/b"), "a/b/");
    assert_eq!(directory("/a"), "/a/");
}

#[test]
fn stripping_cuts_all_slashes_at_the_end_and_nothing_else() {
    for s in ["", "/", "//", "a", "a/", "a//", "/a", "/a/", "a/b", "a/b///", "é/", "日本/語//", " / "] {
        assert_eq!(strip_trailing_slashes(s), s.trim_end_matches('/'), "{:?}", s);
    }
}

#[test]
fn url_is_bucket_address_slash_key() {
    assert_eq!(object_url("https://cdn.example.com", "sub/images/k"), "https://cdn.example.com/sub/images/k");
    assert_eq!(object_url("my-bucket-name", "k"), "my-bucket-name/k");
    assert_eq!(object_url("", ""), "/");
}

#[test]
fn url_starts_with_the_bucket_address() {
    for (base, key) in [("https://b", "k"), ("b/", "/k"), ("", "k")] {
        let url = object_url(base, key);
        assert!(url.starts_with(base));
        assert!(url.starts_with(&format!("{}/", base)));
        assert!(url.ends_with(key));
    }
}

#[test]
fn entry_name_is_file_name_underscore_category() {
    assert_eq!(entry_name("a.jpg", "cat"), "a.jpg_cat");
    assert_eq!(entry_name("a.jpg", ""), "a.jpg_");
    assert_eq!(entry_name("", "cat"), "_cat");
    assert_eq!(entry_name("a_b", "c_d"), "a_b_c_d");
}
