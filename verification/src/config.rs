//! Where uploads go, as the environment sets it or, where it sets nothing,
//! by default.

use vstd::prelude::*;
use vstd::string::StringExecFns;

verus! {

/// The bucket that receives the objects, the address under which it is
/// public, and the sub-path that every object key begins with.
#[derive(Debug)]
pub struct Destination {
    pub bucket: String,
    pub bucket_url: String,
    pub sub_path: String,
}

/// A destination as plain text.
pub struct DestinationView {
    pub bucket: Seq<char>,
    pub bucket_url: Seq<char>,
    pub sub_path: Seq<char>,
}

impl View for Destination {
    type V = DestinationView;

    open spec fn view(&self) -> DestinationView {
        DestinationView {
            bucket: self.bucket@,
            bucket_url: self.bucket_url@,
            sub_path: self.sub_path@,
        }
    }
}

/// The text of a setting, if it is set.
pub open spec fn text_of(value: Option<String>) -> Option<Seq<char>> {
    match value {
        Some(s) => Some(s@),
        None => None,
    }
}

/// `value`, or `default` where nothing is set.
pub open spec fn or_default(value: Option<Seq<char>>, default: Seq<char>) -> Seq<char> {
    match value {
        Some(s) => s,
        None => default,
    }
}

/// The destination that the three settings give: a bucket that is not set is
/// `my-bucket-name`, a public address that is not set is the bucket's name,
/// and a sub-path that is not set is `uploaded_images`.
pub open spec fn destination(
    bucket: Option<Seq<char>>,
    bucket_url: Option<Seq<char>>,
    sub_path: Option<Seq<char>>,
) -> DestinationView {
    let bucket = or_default(bucket, "my-bucket-name"@);
    DestinationView {
        bucket,
        bucket_url: or_default(bucket_url, bucket),
        sub_path: or_default(sub_path, "uploaded_images"@),
    }
}

/// `value`, or `default` where nothing is set.
pub fn setting(value: Option<String>, default: &str) -> (s: String)
    ensures
        s@ == or_default(text_of(value), default@),
{
    match value {
        Some(s) => s,
        None => String::from_str(default),
    }
}

/// What is logged: the filter that is set or, where none is set, the
/// relay's own messages from debug upwards.
pub open spec fn log_filter_text(configured: Option<Seq<char>>) -> Seq<char> {
    or_default(configured, "aws_image_upload=debug"@)
}

/// The filter for what is logged.
pub fn log_filter(configured: Option<String>) -> (filter: String)
    ensures
        filter@ == log_filter_text(text_of(configured)),
{
    setting(configured, "aws_image_upload=debug")
}

impl Destination {
    /// The destination that the three settings give.
    pub fn new(
        bucket: Option<String>,
        bucket_url: Option<String>,
        sub_path: Option<String>,
    ) -> (d: Destination)
        ensures
            d@ == destination(text_of(bucket), text_of(bucket_url), text_of(sub_path)),
    {
        let bucket = setting(bucket, "my-bucket-name");
        let bucket_url = setting(bucket_url, bucket.as_str());
        let sub_path = setting(sub_path, "uploaded_images");
        Destination { bucket, bucket_url, sub_path }
    }
}

} // verus!
