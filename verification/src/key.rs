//! Where an uploaded file is stored and under which name its address is
//! reported.

use vstd::prelude::*;
use vstd::string::StrSliceExecFns;
use vstd::string::StringExecFns;

verus! {

/// `s` without the slashes at its end, however many there are.
pub open spec fn without_trailing_slashes(s: Seq<char>) -> Seq<char>
    decreases s.len(),
{
    if s.len() > 0 && s.last() == '/' {
        without_trailing_slashes(s.drop_last())
    } else {
        s
    }
}

/// The directory that a category contributes to an object key: nothing for
/// the empty category, else the category without the slashes at its end, and
/// one slash.
pub open spec fn directory_text(category: Seq<char>) -> Seq<char> {
    if category.len() == 0 {
        Seq::empty()
    } else {
        without_trailing_slashes(category) + "/"@
    }
}

/// The object key of a file: the sub-path, `/images/`, the category's
/// directory, then stamp, category and file name with underscores between
/// them.
pub open spec fn key_text(
    sub_path: Seq<char>,
    category: Seq<char>,
    stamp: Seq<char>,
    file_name: Seq<char>,
) -> Seq<char> {
    sub_path + "/images/"@ + directory_text(category) + stamp + "_"@ + category + "_"@ + file_name
}

/// The public address of an object: the bucket's address, a slash, the key.
pub open spec fn url_text(bucket_url: Seq<char>, key: Seq<char>) -> Seq<char> {
    bucket_url + "/"@ + key
}

/// The name under which a file's address is reported: file name, underscore,
/// category.
pub open spec fn entry_text(file_name: Seq<char>, category: Seq<char>) -> Seq<char> {
    file_name + "_"@ + category
}

/// Cuts the slashes off the end of `s`.
pub fn strip_trailing_slashes(s: &str) -> (r: &str)
    ensures
        r@ == without_trailing_slashes(s@),
{
    let mut keep: usize = s.unicode_len();
    proof {
        assert(s@.take(keep as int) =~= s@);
    }
    while keep > 0 && s.get_char(keep - 1) == '/'
        invariant
            keep <= s@.len(),
            without_trailing_slashes(s@) == without_trailing_slashes(s@.take(keep as int)),
        decreases keep,
    {
        proof {
            assert(s@.take(keep as int).drop_last() =~= s@.take(keep - 1));
        }
        keep = keep - 1;
    }
    s.substring_char(0, keep)
}

/// The directory that `category` contributes to an object key.
pub fn directory(category: &str) -> (dir: String)
    ensures
        dir@ == directory_text(category@),
{
    if category.is_empty() {
        String::new()
    } else {
        let mut dir = String::from_str(strip_trailing_slashes(category));
        dir.append("/");
        dir
    }
}

/// The key under which a file is stored.
pub fn object_key(sub_path: &str, category: &str, stamp: &str, file_name: &str) -> (key: String)
    ensures
        key@ == key_text(sub_path@, category@, stamp@, file_name@),
{
    let dir = directory(category);
    let mut key = String::from_str(sub_path);
    key.append("/images/");
    key.append(dir.as_str());
    key.append(stamp);
    key.append("_");
    key.append(category);
    key.append("_");
    key.append(file_name);
    key
}

/// The public address of the object stored under `key`.
pub fn object_url(bucket_url: &str, key: &str) -> (url: String)
    ensures
        url@ == url_text(bucket_url@, key@),
{
    let mut url = String::from_str(bucket_url);
    url.append("/");
    url.append(key);
    url
}

/// The name under which a file's address is reported.
pub fn entry_name(file_name: &str, category: &str) -> (name: String)
    ensures
        name@ == entry_text(file_name@, category@),
{
    let mut name = String::from_str(file_name);
    name.append("_");
    name.append(category);
    name
}

/// What is cut off are slashes, all of them: the result is the beginning of
/// `s`, it does not end in a slash, and the rest of `s` holds nothing but
/// slashes.
pub proof fn law_stripped(s: Seq<char>)
    ensures
        ({
            let r = without_trailing_slashes(s);
            &&& r.len() <= s.len()
            &&& r == s.take(r.len() as int)
            &&& r.len() > 0 ==> r.last() != '/'
            &&& forall|i: int| r.len() <= i < s.len() ==> s[i] == '/'
        }),
    decreases s.len(),
{
    if s.len() > 0 && s.last() == '/' {
        let shorter = s.drop_last();
        law_stripped(shorter);
        let r = without_trailing_slashes(shorter);
        assert(shorter.take(r.len() as int) =~= s.take(r.len() as int));
        assert forall|i: int| r.len() <= i < s.len() implies s[i] == '/' by {
            if i < shorter.len() {
                assert(shorter[i] == s[i]);
            }
        }
    } else {
        assert(s.take(s.len() as int) =~= s);
    }
}

/// For a category that is not empty and does not end in a slash, the key is
/// the sub-path, `/images/`, the category, a slash, and then stamp, category
/// and file name with underscores between them. (A category that ends in
/// slashes gives its directory without them, and one slash.)
pub proof fn law_key_pattern(
    sub_path: Seq<char>,
    category: Seq<char>,
    stamp: Seq<char>,
    file_name: Seq<char>,
)
    requires
        category.len() > 0,
        category.last() != '/',
    ensures
        key_text(sub_path, category, stamp, file_name) == sub_path + "/images/"@ + category + "/"@
            + stamp + "_"@ + category + "_"@ + file_name,
{
}

/// For the empty category the key has no directory of its own.
pub proof fn law_key_without_category(sub_path: Seq<char>, stamp: Seq<char>, file_name: Seq<char>)
    ensures
        key_text(sub_path, Seq::empty(), stamp, file_name) == sub_path + "/images/"@ + stamp
            + "__"@ + file_name,
{
    reveal_strlit("_");
    reveal_strlit("__");
    let category = Seq::<char>::empty();
    assert(sub_path + "/images/"@ + directory_text(category) + stamp + "_"@ + category + "_"@
        + file_name =~= sub_path + "/images/"@ + stamp + "__"@ + file_name);
}

/// An address begins with the bucket's address and a slash.
pub proof fn law_url_prefix(bucket_url: Seq<char>, key: Seq<char>)
    ensures
        (bucket_url + "/"@).is_prefix_of(url_text(bucket_url, key)),
        bucket_url.is_prefix_of(url_text(bucket_url, key)),
{
    let url = url_text(bucket_url, key);
    let head = bucket_url + "/"@;
    assert(url.subrange(0, head.len() as int) =~= head);
    assert(url.subrange(0, bucket_url.len() as int) =~= bucket_url);
}

} // verus!
