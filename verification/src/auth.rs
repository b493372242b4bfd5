//! The guard at the door: a request may upload if it carries the key.

use crate::config::{or_default, setting, text_of};
use crate::reply::{fault, Reply, ReplyView, Status};
use vstd::prelude::*;
use vstd::string::StringExecFns;
use vstd::string::StringSliceAdditionalSpecFns;

verus! {

/// A byte that may stand in a header value that is read as text: a visible
/// ASCII character, a space or a tab.
pub open spec fn visible(b: u8) -> bool {
    32 <= b < 127 || b == 9
}

/// A header value can be read as text when each of its bytes is visible.
pub open spec fn readable(value: Seq<u8>) -> bool {
    forall|i: int| 0 <= i < value.len() ==> visible(#[trigger] value[i])
}

/// Why a request is turned away.
#[derive(Clone, Copy, Debug, PartialEq, Eq, Structural)]
pub enum Denial {
    /// The request has no key header.
    Missing,
    /// The key header cannot be read as text.
    Unreadable,
    /// The key header holds another text than the key.
    Mismatch,
}

impl Denial {
    /// What the caller is told.
    pub open spec fn message_text(self) -> Seq<char> {
        match self {
            Denial::Missing => "API key is missing"@,
            Denial::Unreadable => "Invalid API key format"@,
            Denial::Mismatch => "Unauthorized"@,
        }
    }

    /// Every denial is answered with the status Unauthorized and its message
    /// in the field `error`.
    pub open spec fn reply_view(self) -> ReplyView {
        fault(Status::Unauthorized, "error"@, self.message_text())
    }

    /// What the caller is told.
    pub fn message(&self) -> (text: &'static str)
        ensures
            text@ == self.message_text(),
    {
        match self {
            Denial::Missing => "API key is missing",
            Denial::Unreadable => "Invalid API key format",
            Denial::Mismatch => "Unauthorized",
        }
    }

    /// The answer to the request that was turned away.
    pub fn reply(&self) -> (reply: Reply)
        ensures
            reply@ == self.reply_view(),
    {
        Reply::fault(Status::Unauthorized, "error", self.message())
    }
}

/// The key that a request was let in with.
#[derive(Debug)]
pub struct ApiKey(pub String);

/// The header that carries the key.
pub open spec fn key_header() -> Seq<char> {
    "x-api-key"@
}

/// The header that carries the key.
pub fn header_name() -> (name: &'static str)
    ensures
        name@ == key_header(),
{
    "x-api-key"
}

/// The key to ask for: the one that is set or, where none is set,
/// `api-key-vg-11`.
pub open spec fn expected_key_text(configured: Option<Seq<char>>) -> Seq<char> {
    or_default(configured, "api-key-vg-11"@)
}

/// The key to ask for.
pub fn expected_key(configured: Option<String>) -> (key: String)
    ensures
        key@ == expected_key_text(text_of(configured)),
{
    setting(configured, "api-key-vg-11")
}

/// The guard's decision on the value of the key header, if the request has
/// one: the request is let in exactly when the header is there, can be read as
/// text and is the expected key, byte for byte.
pub open spec fn verdict(header: Option<Seq<u8>>, expected: Seq<char>) -> Result<
    Seq<char>,
    Denial,
> {
    match header {
        None => Err(Denial::Missing),
        Some(value) => if !readable(value) {
            Err(Denial::Unreadable)
        } else if value == vstd::utf8::encode_utf8(expected) {
            Ok(expected)
        } else {
            Err(Denial::Mismatch)
        },
    }
}

/// The bytes of a header value, if there is one.
pub open spec fn bytes_of(header: Option<&[u8]>) -> Option<Seq<u8>> {
    match header {
        Some(value) => Some(value@),
        None => None,
    }
}

/// Decides whether a header value can be read as text.
pub fn is_readable(value: &[u8]) -> (yes: bool)
    ensures
        yes == readable(value@),
{
    let mut i: usize = 0;
    while i < value.len()
        invariant
            i <= value@.len(),
            forall|j: int| 0 <= j < i ==> visible(#[trigger] value@[j]),
        decreases value@.len() - i,
    {
        let b = value[i];
        if !((32 <= b && b < 127) || b == 9) {
            return false;
        }
        i = i + 1;
    }
    true
}

/// Decides whether `a` and `b` hold the same bytes.
fn same_bytes(a: &[u8], b: &[u8]) -> (same: bool)
    ensures
        same == (a@ == b@),
{
    if a.len() != b.len() {
        return false;
    }
    let mut i: usize = 0;
    while i < a.len()
        invariant
            a@.len() == b@.len(),
            i <= a@.len(),
            forall|j: int| 0 <= j < i ==> a@[j] == b@[j],
        decreases a@.len() - i,
    {
        if a[i] != b[i] {
            return false;
        }
        i = i + 1;
    }
    proof {
        assert(a@ =~= b@);
    }
    true
}

/// Decides on a request by the value of its key header.
pub fn authenticate(header: Option<&[u8]>, expected: &str) -> (r: Result<ApiKey, Denial>)
    ensures
        match verdict(bytes_of(header), expected@) {
            Ok(key) => r matches Ok(admitted) && admitted.0@ == key,
            Err(denial) => r matches Err(given) && given == denial,
        },
{
    match header {
        None => Err(Denial::Missing),
        Some(value) => {
            if !is_readable(value) {
                Err(Denial::Unreadable)
            } else if same_bytes(value, expected.as_bytes()) {
                Ok(ApiKey(String::from_str(expected)))
            } else {
                Err(Denial::Mismatch)
            }
        },
    }
}

/// A request without the key header is turned away as unauthorized, whatever
/// the key.
pub proof fn law_missing_header_unauthorized(expected: Seq<char>)
    ensures
        verdict(None, expected) == Err::<Seq<char>, Denial>(Denial::Missing),
        Denial::Missing.reply_view().status.number() == 401,
{
}

/// A request whose key header holds anything but the expected key is turned
/// away as unauthorized.
pub proof fn law_wrong_header_unauthorized(value: Seq<u8>, expected: Seq<char>)
    requires
        value != vstd::utf8::encode_utf8(expected),
    ensures
        verdict(Some(value), expected) matches Err(denial) && denial.reply_view().status.number()
            == 401,
{
}

/// The bytes that spell an ASCII text, one for each character.
pub open spec fn spelled(text: Seq<char>) -> Seq<u8> {
    Seq::new(text.len(), |i: int| text[i] as u8)
}

/// A request whose key header spells the expected key is let in, provided the
/// key is one that a header can carry as text.
pub proof fn law_right_header_let_in(expected: Seq<char>)
    requires
        vstd::utf8::is_ascii_chars(expected),
        readable(spelled(expected)),
    ensures
        verdict(Some(spelled(expected)), expected) == Ok::<Seq<char>, Denial>(expected),
{
    vstd::utf8::is_ascii_chars_encode_utf8(expected);
    assert(spelled(expected) =~= vstd::utf8::encode_utf8(expected));
}

/// Whatever the reason, a denial is answered with 401.
pub proof fn law_denial_is_unauthorized(denial: Denial)
    ensures
        denial.reply_view().status == Status::Unauthorized,
        denial.reply_view().status.number() == 401,
{
}

} // verus!
