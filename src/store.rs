//! The object-store client and the byte buffer, as this library relies on
//! them: every item here is a declaration of an outside type or a thin call
//! into an outside crate, with the contract that the crate's source gives.
use vstd::prelude::*;
use std::time::Duration;
use rusty_s3::S3Action;
use crate::config::S3Config;
use rusty_s3::actions::{
    CompleteMultipartUpload, CreateMultipartUpload, DeleteObject, PutObject, UploadPart,
};

verus! {

/// A bucket of the object-store client: base URL, name and region.
#[verifier::external_type_specification]
#[verifier::external_body]
pub struct ExBucket(rusty_s3::Bucket);

/// The access key and secret that sign requests.
#[verifier::external_type_specification]
#[verifier::external_body]
pub struct ExCredentials(rusty_s3::Credentials);

/// Why the object-store client refused an endpoint.
#[verifier::external_type_specification]
#[verifier::external_body]
pub struct ExBucketError(rusty_s3::BucketError);

/// A parsed URL.
#[verifier::external_type_specification]
#[verifier::external_body]
pub struct ExUrl(url::Url);

/// Why a text is not a URL.
#[verifier::external_type_specification]
#[verifier::external_body]
pub struct ExParseError(url::ParseError);

/// A growable byte buffer.
#[verifier::external_type_specification]
#[verifier::external_body]
pub struct ExBytesMut(bytes::BytesMut);

/// How object URLs address the bucket.
#[derive(Debug, Clone, Copy, PartialEq, Eq)]
pub enum AddressingStyle {
    /// `https://<bucket>.<endpoint host>/<key>`
    VirtualHost,
    /// `https://<endpoint host>/<bucket>/<key>`
    Path,
}

/// Whether `url::Url::parse` accepts the text.
pub uninterp spec fn url_parses(s: Seq<char>) -> bool;

/// The text of the URL that `rusty_s3::Bucket::object_url` gives for an
/// object key, on a bucket whose base URL has the text `base`; `None` where
/// the key does not make a URL.
pub uninterp spec fn object_url_of(base: Seq<char>, key: Seq<char>) -> Option<Seq<char>>;

/// The path component (`url::Url::path`) of the URL that a text parses to.
pub uninterp spec fn url_path_of(url: Seq<char>) -> Seq<char>;

/// The text of the base URL that `rusty_s3::Bucket::new` derives from an
/// endpoint text, an addressing style and a bucket name; `None` where it
/// refuses them.
pub uninterp spec fn bucket_base_of(endpoint: Seq<char>, style: AddressingStyle, name: Seq<char>) -> Option<
    Seq<char>,
>;

/// The upload id that `CreateMultipartUpload::parse_response` reads from a
/// response body, if the body parses.
pub uninterp spec fn upload_id_in(body: Seq<char>) -> Option<Seq<char>>;

/// The XML body that `CompleteMultipartUpload::body` writes for a list of
/// ETags, numbering them from 1 in list order.
pub uninterp spec fn completion_xml(etags: Seq<Seq<char>>) -> Seq<char>;

/// The PNG file that the `image` crate writes for an RGBA raster of the
/// given size; `None` where the encoder refuses it.
pub uninterp spec fn png_of(width: u32, height: u32, rgba: Seq<u8>) -> Option<Seq<u8>>;

/// The bytes held by a buffer.
pub uninterp spec fn buffer_bytes(b: bytes::BytesMut) -> Seq<u8>;

pub open spec fn views_of(v: Seq<String>) -> Seq<Seq<char>> {
    v.map_values(|s: String| s@)
}

/// Relies on `url::Url::parse`: it succeeds exactly on the texts it accepts.
#[verifier::external_body]
pub(crate) fn parse_url(s: &str) -> (r: Result<url::Url, url::ParseError>)
    ensures
        r is Ok <==> url_parses(s@),
{
    url::Url::parse(s)
}

/// Relies on `validator::validate_url`, the URL rule for configuration
/// fields, which is `url::Url::parse(..).is_ok()`.
#[verifier::external_body]
pub(crate) fn validate_url(s: &str) -> (r: bool)
    ensures
        r == url_parses(s@),
{
    validator::validate_url(s)
}

/// Relies on `rusty_s3::Credentials::new`: an access key and its secret.
#[verifier::external_body]
pub(crate) fn new_credentials(key: String, secret: String) -> (r: rusty_s3::Credentials) {
    rusty_s3::Credentials::new(key, secret)
}

/// Relies on `url::Url::parse` and `url::Url::path`: the path of the URL a
/// text parses to.
#[verifier::external_body]
pub(crate) fn parsed_path(s: &str) -> (r: Option<String>)
    ensures
        r is Some <==> url_parses(s@),
        r matches Some(p) ==> p@ == url_path_of(s@),
{
    url::Url::parse(s).ok().map(|u| u.path().to_string())
}

/// Relies on `rusty_s3::Bucket::new` on the parsed endpoint, which checks the
/// endpoint's scheme and host and derives the bucket's base URL, returned
/// beside the bucket as text.
#[verifier::external_body]
pub(crate) fn new_bucket(
    endpoint: &str,
    style: AddressingStyle,
    name: String,
    region: String,
) -> (r: Result<(rusty_s3::Bucket, String), rusty_s3::BucketError>)
    ensures
        !url_parses(endpoint@) ==> r is Err,
        url_parses(endpoint@) ==> (r is Ok <==> bucket_base_of(endpoint@, style, name@) is Some),
        r matches Ok((_, base)) ==> bucket_base_of(endpoint@, style, name@) == Some(base@),
{
    let url = url::Url::parse(endpoint)?;
    let url_style = match style {
        AddressingStyle::VirtualHost => rusty_s3::UrlStyle::VirtualHost,
        AddressingStyle::Path => rusty_s3::UrlStyle::Path,
    };
    let bucket = rusty_s3::Bucket::new(url, url_style, name, region)?;
    let base = bucket.base_url().as_str().to_string();
    Ok((bucket, base))
}

/// Relies on `rusty_s3::Bucket::base_url`, `name` and `region`: what a
/// bucket holds, as text.
#[verifier::external_body]
pub(crate) fn bucket_parts(bucket: &rusty_s3::Bucket) -> (r: (String, String, String)) {
    (bucket.base_url().as_str().to_string(), bucket.name().to_string(), bucket.region().to_string())
}

/// Relies on `rusty_s3::Credentials::key` and `secret`.
#[verifier::external_body]
pub(crate) fn credential_parts(credentials: &rusty_s3::Credentials) -> (r: (String, String)) {
    (credentials.key().to_string(), credentials.secret().to_string())
}

/// Relies on `rusty_s3::Bucket::object_url`: the URL of an object as text,
/// with its path.
#[verifier::external_body]
pub(crate) fn object_url(config: &S3Config, key: &str) -> (r: Option<(String, String)>)
    ensures
        r is Some <==> object_url_of(config.spec_base_url(), key@) is Some,
        r matches Some((text, path)) ==> object_url_of(config.spec_base_url(), key@) == Some(text@)
            && path@ == url_path_of(text@),
{
    config.bucket.object_url(key).ok().map(|u| (u.as_str().to_string(), u.path().to_string()))
}

/// The RFC 3986 percent-encoding that rusty_s3 applies to the keys and
/// values of a signed query.
pub uninterp spec fn query_encoded(s: Seq<char>) -> Seq<char>;

/// The decimal digits of a number.
pub open spec fn decimal(n: nat) -> Seq<char>
    decreases n,
{
    let digits = seq!['0', '1', '2', '3', '4', '5', '6', '7', '8', '9'];
    if n < 10 {
        seq![digits[n as int]]
    } else {
        decimal(n / 10).push(digits[(n % 10) as int])
    }
}

/// `needle` occurs in `hay`.
pub open spec fn occurs_in(hay: Seq<char>, needle: Seq<char>) -> bool {
    exists|i: int|
        0 <= i && i + needle.len() <= hay.len() && #[trigger] hay.subrange(i, i + needle.len()) == needle
}

/// The query holds the parameter `name=value` as one of its `&`-separated
/// parameters.
pub open spec fn has_param(query: Seq<char>, name: Seq<char>, value: Seq<char>) -> bool {
    occurs_in("&"@ + query + "&"@, "&"@ + name + "="@ + value + "&"@)
}

/// The signed URL of an action on an object: the object's URL followed by
/// a query holding the given parameters. `sign_with_time` in rusty_s3 sets
/// only the query of the object URL, and a non-empty key leaves that URL
/// without a query of its own.
pub open spec fn signed_with(
    url: Seq<char>,
    base: Seq<char>,
    key: Seq<char>,
    params: Seq<(Seq<char>, Seq<char>)>,
) -> bool {
    exists|q: Seq<char>|
        url == object_url_of(base, key)->0 + "?"@ + q && forall|i: int|
            0 <= i < params.len() ==> has_param(q, #[trigger] params[i].0, params[i].1)
}

/// A key that a request can be signed for: not empty, and making an object
/// URL in the bucket.
pub open spec fn signable(base: Seq<char>, key: Seq<char>) -> bool {
    key.len() > 0 && object_url_of(base, key) is Some
}

pub open spec fn expiry_params(expires_secs: u64) -> Seq<(Seq<char>, Seq<char>)> {
    seq![("X-Amz-Expires"@, decimal(expires_secs as nat))]
}

pub open spec fn create_params(expires_secs: u64) -> Seq<(Seq<char>, Seq<char>)> {
    seq![("uploads"@, "1"@)] + expiry_params(expires_secs)
}

/// The parameters of a part upload; `encoded_id` is the upload id as it
/// stands in the query.
pub open spec fn part_params(part_number: u16, encoded_id: Seq<char>, expires_secs: u64) -> Seq<
    (Seq<char>, Seq<char>),
> {
    seq![("partNumber"@, decimal(part_number as nat)), ("uploadId"@, encoded_id)]
        + expiry_params(expires_secs)
}

/// The parameters of a completion; `encoded_id` is the upload id as it
/// stands in the query.
pub open spec fn complete_params(encoded_id: Seq<char>, expires_secs: u64) -> Seq<
    (Seq<char>, Seq<char>),
> {
    seq![("uploadId"@, encoded_id)] + expiry_params(expires_secs)
}

/// Relies on `CreateMultipartUpload` signed with `S3Action::sign`, which
/// unwraps `Bucket::object_url`: that URL is checked first.
#[verifier::external_body]
pub(crate) fn sign_create_multipart(
    config: &S3Config,
    key: &str,
    headers: &Vec<(String, String)>,
    expires_secs: u64,
) -> (r: Result<String, url::ParseError>)
    ensures
        r is Ok <==> object_url_of(config.spec_base_url(), key@) is Some,
        match r {
            Ok(u) => key@.len() > 0 ==> signed_with(
                u@,
                config.spec_base_url(),
                key@,
                create_params(expires_secs),
            ),
            Err(_) => true,
        },
{
    config.bucket.object_url(key)?;
    let mut action = CreateMultipartUpload::new(&config.bucket, Some(&config.credentials), key);
    for (name, value) in headers.iter() {
        action.headers_mut().insert(name.as_str(), value.as_str());
    }
    Ok(action.sign(Duration::from_secs(expires_secs)).to_string())
}

/// Relies on `UploadPart` signed with `S3Action::sign`, which unwraps
/// `Bucket::object_url`: that URL is checked first.
#[verifier::external_body]
pub(crate) fn sign_upload_part(
    config: &S3Config,
    key: &str,
    part_number: u16,
    upload_id: &str,
    expires_secs: u64,
) -> (r: Result<String, url::ParseError>)
    ensures
        r is Ok <==> object_url_of(config.spec_base_url(), key@) is Some,
        match r {
            Ok(u) => key@.len() > 0 ==> signed_with(
                u@,
                config.spec_base_url(),
                key@,
                part_params(part_number, query_encoded(upload_id@), expires_secs),
            ),
            Err(_) => true,
        },
{
    config.bucket.object_url(key)?;
    let action = UploadPart::new(&config.bucket, Some(&config.credentials), key, part_number, upload_id);
    Ok(action.sign(Duration::from_secs(expires_secs)).to_string())
}

/// Relies on `CompleteMultipartUpload` signed with `S3Action::sign`, which
/// unwraps `Bucket::object_url`: that URL is checked first.
#[verifier::external_body]
pub(crate) fn sign_complete_multipart(
    config: &S3Config,
    key: &str,
    upload_id: &str,
    etags: &Vec<String>,
    expires_secs: u64,
) -> (r: Result<String, url::ParseError>)
    ensures
        r is Ok <==> object_url_of(config.spec_base_url(), key@) is Some,
        match r {
            Ok(u) => key@.len() > 0 ==> signed_with(
                u@,
                config.spec_base_url(),
                key@,
                complete_params(query_encoded(upload_id@), expires_secs),
            ),
            Err(_) => true,
        },
{
    config.bucket.object_url(key)?;
    let tags = etags.iter().map(|t| t.as_str());
    let action = CompleteMultipartUpload::new(&config.bucket, Some(&config.credentials), key, upload_id, tags);
    Ok(action.sign(Duration::from_secs(expires_secs)).to_string())
}

/// Relies on `DeleteObject` signed with `S3Action::sign`, which unwraps
/// `Bucket::object_url`: that URL is checked first.
#[verifier::external_body]
pub(crate) fn sign_delete(config: &S3Config, key: &str, expires_secs: u64) -> (r: Result<
    String,
    url::ParseError,
>)
    ensures
        r is Ok <==> object_url_of(config.spec_base_url(), key@) is Some,
        match r {
            Ok(u) => key@.len() > 0 ==> signed_with(
                u@,
                config.spec_base_url(),
                key@,
                expiry_params(expires_secs),
            ),
            Err(_) => true,
        },
{
    config.bucket.object_url(key)?;
    let action = DeleteObject::new(&config.bucket, Some(&config.credentials), key);
    Ok(action.sign(Duration::from_secs(expires_secs)).to_string())
}

/// Relies on `PutObject` signed with `S3Action::sign`, which unwraps
/// `Bucket::object_url`: that URL is checked first.
#[verifier::external_body]
pub(crate) fn sign_put(
    config: &S3Config,
    key: &str,
    headers: &Vec<(String, String)>,
    expires_secs: u64,
) -> (r: Result<String, url::ParseError>)
    ensures
        r is Ok <==> object_url_of(config.spec_base_url(), key@) is Some,
        match r {
            Ok(u) => key@.len() > 0 ==> signed_with(
                u@,
                config.spec_base_url(),
                key@,
                expiry_params(expires_secs),
            ),
            Err(_) => true,
        },
{
    config.bucket.object_url(key)?;
    let mut action = PutObject::new(&config.bucket, Some(&config.credentials), key);
    for (name, value) in headers.iter() {
        action.headers_mut().insert(name.as_str(), value.as_str());
    }
    Ok(action.sign(Duration::from_secs(expires_secs)).to_string())
}

/// Relies on `bytes::BytesMut::truncate`: the first `len` bytes are kept.
#[verifier::external_body]
pub(crate) fn buffer_truncate(b: &mut bytes::BytesMut, len: usize)
    requires
        len <= buffer_bytes(*old(b)).len(),
    ensures
        buffer_bytes(*final(b)) == buffer_bytes(*old(b)).subrange(0, len as int),
{
    b.truncate(len)
}

/// Relies on `CreateMultipartUpload::parse_response` and its `upload_id`.
#[verifier::external_body]
pub(crate) fn parse_upload_id(body: &str) -> (r: Option<String>)
    ensures
        match r {
            Some(id) => upload_id_in(body@) == Some(id@),
            None => upload_id_in(body@) is None,
        },
{
    match CreateMultipartUpload::parse_response(body) {
        Ok(response) => Some(response.upload_id().to_string()),
        Err(_) => None,
    }
}

/// Relies on `CompleteMultipartUpload::body`, which depends on the ETags
/// alone and panics once a list index no longer fits a `u16`.
#[verifier::external_body]
pub(crate) fn completion_body(
    config: &S3Config,
    key: &str,
    upload_id: &str,
    etags: &Vec<String>,
) -> (r: String)
    requires
        etags.len() <= u16::MAX,
    ensures
        r@ == completion_xml(views_of(etags@)),
{
    let tags = etags.iter().map(|t| t.as_str());
    CompleteMultipartUpload::new(&config.bucket, Some(&config.credentials), key, upload_id, tags).body()
}

/// Relies on `bytes::BytesMut::new`: an empty buffer.
#[verifier::external_body]
pub(crate) fn empty_buffer() -> (r: bytes::BytesMut)
    ensures
        buffer_bytes(r) == Seq::<u8>::empty(),
{
    bytes::BytesMut::new()
}

/// Relies on `bytes::BytesMut::extend_from_slice`, which appends and panics
/// only when the new length overflows.
#[verifier::external_body]
pub(crate) fn buffer_append(b: &mut bytes::BytesMut, s: &[u8])
    requires
        buffer_bytes(*old(b)).len() + s@.len() <= isize::MAX,
    ensures
        buffer_bytes(*final(b)) == buffer_bytes(*old(b)) + s@,
{
    b.extend_from_slice(s)
}

/// Relies on `bytes::BytesMut::len`.
#[verifier::external_body]
pub(crate) fn buffer_len(b: &bytes::BytesMut) -> (r: usize)
    ensures
        r == buffer_bytes(*b).len(),
{
    b.len()
}

/// Relies on `<bytes::BytesMut as Clone>::clone`, a copy of the bytes.
#[verifier::external_body]
pub(crate) fn buffer_copy(b: &bytes::BytesMut) -> (r: bytes::BytesMut)
    ensures
        buffer_bytes(r) == buffer_bytes(*b),
{
    b.clone()
}

/// Relies on `bytes::BytesMut::clear`: the buffer is left empty.
#[verifier::external_body]
pub(crate) fn buffer_clear(b: &mut bytes::BytesMut)
    ensures
        buffer_bytes(*final(b)) == Seq::<u8>::empty(),
{
    b.clear()
}

/// Relies on `std::path::Path::join`; the separator depends on the
/// platform, so nothing is stated of the result.
#[verifier::external_body]
pub(crate) fn join_path(base: &str, part: &str) -> (r: String) {
    std::path::Path::new(base).join(part).to_string_lossy().into_owned()
}

/// Relies on `image::RgbaImage::from_raw` and `ImageBuffer::write_to` with
/// `ImageFormat::Png`: the PNG encoding of a raster.
#[verifier::external_body]
pub(crate) fn encode_png(width: u32, height: u32, rgba: Vec<u8>) -> (r: Option<Vec<u8>>)
    ensures
        match r {
            Some(b) => png_of(width, height, rgba@) == Some(b@),
            None => png_of(width, height, rgba@) is None,
        },
{
    let raster = image::RgbaImage::from_raw(width, height, rgba)?;
    let mut out = std::io::Cursor::new(Vec::new());
    raster.write_to(&mut out, image::ImageFormat::Png).ok()?;
    Some(out.into_inner())
}

} // verus!
