//! The one object a request writes.

use vstd::prelude::*;
use vstd::slice::slice_to_vec;
use vstd::string::*;
use vstd::utf8::*;

verus! {

/// Key of the object; every upload overwrites it.
pub const OBJECT_KEY: &'static str = "test.txt";

/// Access control of the object.
pub const OBJECT_ACL: &'static str = "public-read";

/// One write of an object to a bucket.
#[derive(Clone, Debug, PartialEq, Eq)]
pub struct UploadRequest {
    /// Name of the bucket written to.
    pub bucket: String,
    /// Key of the object within the bucket.
    pub key: String,
    /// Content of the object.
    pub body: Vec<u8>,
    /// Access control the object is stored under.
    pub acl: String,
}

/// An upload request as mathematical data.
pub struct UploadRequestView {
    pub bucket: Seq<char>,
    pub key: Seq<char>,
    pub body: Seq<u8>,
    pub acl: Seq<char>,
}

impl View for UploadRequest {
    type V = UploadRequestView;

    open spec fn view(&self) -> UploadRequestView {
        UploadRequestView { bucket: self.bucket@, key: self.key@, body: self.body@, acl: self.acl@ }
    }
}

/// The request that stores `text` in `bucket`: the fixed key, the UTF-8
/// bytes of the text as content, readable by everyone.
pub open spec fn upload_spec(bucket: Seq<char>, text: Seq<char>) -> UploadRequestView {
    UploadRequestView { bucket: bucket, key: OBJECT_KEY@, body: encode_utf8(text), acl: OBJECT_ACL@ }
}

/// Builds the request that stores `text` in `bucket`.
pub fn upload_request(bucket: String, text: String) -> (req: UploadRequest)
    ensures
        req@ == upload_spec(bucket@, text@),
        req.bucket == bucket,
{
    let body = slice_to_vec(text.as_str().as_bytes());
    UploadRequest {
        bucket: bucket,
        key: String::from_str(OBJECT_KEY),
        body: body,
        acl: String::from_str(OBJECT_ACL),
    }
}

} // verus!
