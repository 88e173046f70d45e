//! Presigned S3 upload URLs, made with `rusoto_s3`: the client uploads a
//! file straight to the bucket with a URL the service signed.

use vstd::prelude::*;
use vstd::utf8::encode_utf8;
use crate::config::Config;
use rusoto_s3::util::PreSignedRequest;

verus! {

/// Whether a byte of a URL path is written as is: an ASCII letter or digit,
/// `-`, `.`, `_`, `~` or `/` (the set `rusoto_signature` leaves unescaped in
/// paths).
pub open spec fn path_byte_kept(b: u8) -> bool {
    (0x61 <= b && b <= 0x7a) || (0x41 <= b && b <= 0x5a) || (0x30 <= b && b <= 0x39) || b == 0x2d || b
        == 0x2e || b == 0x5f || b == 0x7e || b == 0x2f
}

/// An uppercase hexadecimal digit.
pub open spec fn upper_hex_digit(d: int) -> char {
    if d < 10 {
        (('0' as int) + d) as char
    } else {
        (('A' as int) + d - 10) as char
    }
}

/// The percent-encoding of a path's UTF-8 bytes: kept bytes as themselves,
/// every other byte as `%` and two uppercase hexadecimal digits.
pub open spec fn percent_encode_path(bytes: Seq<u8>) -> Seq<char>
    decreases bytes.len(),
{
    if bytes.len() == 0 {
        Seq::empty()
    } else {
        let b = bytes.last();
        percent_encode_path(bytes.drop_last()) + if path_byte_kept(b) {
            seq![b as char]
        } else {
            seq!['%', upper_hex_digit((b / 16) as int), upper_hex_digit((b % 16) as int)]
        }
    }
}

/// The start of every presigned URL of an object in the `eu-west-2` region:
/// the regional S3 endpoint, the encoded path `/<bucket>/<key>` and the
/// start of the query that carries the signature.
pub open spec fn eu_west_2_object_url_prefix(bucket: Seq<char>, key: Seq<char>) -> Seq<char> {
    "https://s3.eu-west-2.amazonaws.com"@ + percent_encode_path(encode_utf8("/"@ + bucket + "/"@ + key)) + "?"@
}

/// Whether `s` begins with `prefix`.
pub open spec fn has_prefix(s: Seq<char>, prefix: Seq<char>) -> bool {
    prefix.len() <= s.len() && s.subrange(0, prefix.len() as int) == prefix
}

/// Whether `s` ends with `suffix`.
pub open spec fn has_suffix(s: Seq<char>, suffix: Seq<char>) -> bool {
    suffix.len() <= s.len() && s.subrange(s.len() - suffix.len(), s.len() as int) == suffix
}

/// The PUT request of an upload: where the object goes, its ACL and its
/// metadata (each name with its value).
pub struct PutObjectParams {
    pub bucket: String,
    pub key: String,
    pub acl: String,
    pub metadata: Vec<(String, String)>,
}

/// A character that a metadata name may hold here: a lowercase ASCII
/// letter, a digit or `-` (such a name is a header name as it stands, and is
/// written in a URL as it stands).
pub open spec fn header_name_char(c: char) -> bool {
    ('a' <= c && c <= 'z') || ('0' <= c && c <= '9') || c == '-'
}

/// The metadata that uploads here carry: at most one entry, its name made of
/// header-name characters.
pub open spec fn signable_metadata(m: Seq<(String, String)>) -> bool {
    &&& m.len() <= 1
    &&& forall|i: int, j: int| 0 <= i < m.len() && 0 <= j < m[i].0@.len() ==> header_name_char(#[trigger] m[i].0@[j])
}

/// The name of the single metadata entry, if there is one.
pub open spec fn metadata_name(m: Seq<(String, String)>) -> Option<Seq<char>> {
    if m.len() == 1 {
        Some(m[0].0@)
    } else {
        None
    }
}

/// The end of a presigned upload URL: its last parameter lists the signed
/// headers, `host`, `x-amz-acl` and `x-amz-meta-<name>` for the metadata entry,
/// separated by an escaped `;`.
pub open spec fn signed_headers_suffix(name: Option<Seq<char>>) -> Seq<char> {
    "&X-Amz-SignedHeaders=host%3Bx-amz-acl"@ + match name {
        Some(n) => "%3Bx-amz-meta-"@ + n,
        None => Seq::<char>::empty(),
    }
}

/// The PUT request of an upload readable by anyone once uploaded.
pub fn public_upload_request(bucket: &str, key: &str, metadata: Vec<(String, String)>) -> (r: PutObjectParams)
    ensures
        r.bucket@ == bucket@,
        r.key@ == key@,
        r.acl@ == "public-read"@,
        r.metadata@ == metadata@,
{
    PutObjectParams {
        bucket: String::from_str(bucket),
        key: String::from_str(key),
        acl: String::from_str("public-read"),
        metadata,
    }
}

/// `PreSignedRequest::get_presigned_url` of `rusoto_s3` on a
/// `PutObjectRequest` with the request's bucket, key, ACL and metadata, with
/// credentials made of the key pair (no session token) and the default
/// options (an hour). `None` when `rusoto_core::Region` does not read the
/// region's name. The signature depends on the current time, so the URL is
/// not named. What the source fixes is stated for `eu-west-2`: the scheme
/// `https`, the host `s3.eu-west-2.amazonaws.com` (its `build_hostname`) and
/// the path `/<bucket>/<key>` percent-encoded (its `encode_uri_path`); and the
/// query's last parameter, `X-Amz-SignedHeaders` (the parameters are kept
/// sorted), which lists the headers left after presigning: `host`,
/// `x-amz-acl` and `x-amz-meta-<name>` (`content-length` is never signed; the
/// date, content type and payload hash are removed). The other parameters
/// (algorithm, credential scope, date, expiry, signature) and the ACL's value
/// are left unsaid.
#[verifier::external_body]
pub(crate) fn presigned_put_url(
    region_name: &str,
    request: &PutObjectParams,
    access_key_id: &str,
    secret_key: &str,
) -> (r: Option<String>)
    requires
        signable_metadata(request.metadata@),
    ensures
        r is Some || region_name@ != "eu-west-2"@,
        r matches Some(url) ==> (region_name@ == "eu-west-2"@ ==> has_prefix(
            url@,
            eu_west_2_object_url_prefix(request.bucket@, request.key@),
        ) && has_suffix(url@, signed_headers_suffix(metadata_name(request.metadata@)))),
{
    let region: rusoto_core::Region = region_name.parse().ok()?;
    let put = rusoto_s3::PutObjectRequest {
        bucket: request.bucket.clone(),
        key: request.key.clone(),
        acl: Some(request.acl.clone()),
        metadata: Some(request.metadata.iter().cloned().collect()),
        ..Default::default()
    };
    let credentials = rusoto_credential::AwsCredentials::new(access_key_id, secret_key, None, None);
    Some(put.get_presigned_url(&region, &credentials, &Default::default()))
}

/// The URL through which a client sends the request's object, signed with
/// the service's key pair in `eu-west-2`.
pub fn upload_url(config: &Config, request: &PutObjectParams) -> (r: String)
    requires
        signable_metadata(request.metadata@),
    ensures
        has_prefix(r@, eu_west_2_object_url_prefix(request.bucket@, request.key@)),
        has_suffix(r@, signed_headers_suffix(metadata_name(request.metadata@))),
{
    match presigned_put_url(
        "eu-west-2",
        request,
        config.aws_access_key_id.as_str(),
        config.aws_secret_key.as_str(),
    ) {
        Some(url) => url,
        None => {
            assert(false);
            String::new()
        },
    }
}

} // verus!
