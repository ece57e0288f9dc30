//! Content-addressed cache locations for album art.
//!
//! An image is stored under a name derived from its own bytes: the first
//! twelve bytes of the BLAKE3 extended output over the image followed by a
//! version tag, written in lowercase hexadecimal, with the extension `.jpg`.
//! Nothing in this module touches the disk; the caller decides when to look
//! for a file or to write one.

use vstd::prelude::*;
use vstd::string::*;
use crate::buffer::contents;

verus! {

/// Name of the per-application directory below the platform's cache root.
pub const PACKAGE_NAME: &'static str = "mpd_notify";

/// Number of digest bytes that make up a file name.
pub const DIGEST_LEN: usize = 12;

/// Why no cache location could be given.
#[derive(Debug, Clone, Copy, PartialEq, Eq, Structural)]
pub enum CacheError {
    /// The platform has no per-user cache directory to offer, or one whose
    /// name is not valid UTF-8.
    NoCacheDir,
}

/// The tag hashed after the image bytes. Changing the naming scheme means
/// changing the tag, which leaves the files of the old scheme unused.
pub open spec fn version_tag() -> Seq<u8> {
    seq![0x76u8, 0x31u8]
}

/// The lowercase hexadecimal digit for a value below sixteen.
pub open spec fn hex_digit(nibble: int) -> char {
    if nibble < 10 {
        ((48 + nibble) as u8) as char
    } else {
        ((87 + nibble) as u8) as char
    }
}

/// Two hexadecimal digits per byte, the high half first.
pub open spec fn hex_string(bytes: Seq<u8>) -> Seq<char> {
    Seq::new(
        2 * bytes.len(),
        |i: int|
            if i % 2 == 0 {
                hex_digit(bytes[i / 2] as int / 16)
            } else {
                hex_digit(bytes[i / 2] as int % 16)
            },
    )
}

/// `dir` and `name` with one separator between them.
pub open spec fn join_path(dir: Seq<char>, name: Seq<char>) -> Seq<char> {
    dir + seq!['/'] + name
}

/// The file name that a digest stands for.
pub open spec fn image_file_name(digest: Seq<u8>) -> Seq<char> {
    hex_string(digest) + seq!['.', 'j', 'p', 'g']
}

/// The application's cache directory below a platform cache root.
pub open spec fn cache_dir_under(root: Seq<char>) -> Seq<char> {
    join_path(root, PACKAGE_NAME@)
}

/// The first `len` bytes of the BLAKE3 extended output over `input`.
pub uninterp spec fn blake3_xof(input: Seq<u8>, len: nat) -> Seq<u8>;

/// The digest that names an image.
pub open spec fn art_digest(art: Seq<u8>) -> Seq<u8> {
    blake3_xof(art + version_tag(), DIGEST_LEN as nat)
}

/// Where the image `art` is cached below `dir`.
pub open spec fn image_path(dir: Seq<char>, art: Seq<u8>) -> Seq<char> {
    join_path(dir, image_file_name(art_digest(art)))
}

/// `blake3::Hasher`: a fresh hasher is fed `data` and then `tag`, which
/// hashes their concatenation, and `len` bytes are read from the start of
/// its extended output. The reader always fills the whole buffer.
#[verifier::external_body]
fn xof_digest(data: &bytes::BytesMut, tag: &[u8], len: usize) -> (out: Vec<u8>)
    ensures
        out@ == blake3_xof(contents(*data) + tag@, len as nat),
        out@.len() == len,
{
    let mut out = vec![0u8; len];
    blake3::Hasher::new().update(data).update(tag).finalize_xof().fill(&mut out);
    out
}

/// `hex::encode`: each byte becomes two lowercase hexadecimal digits, the
/// high half first.
#[verifier::external_body]
fn hex_encode(bytes: &[u8]) -> (s: String)
    ensures
        s@ == hex_string(bytes@),
{
    hex::encode(bytes)
}

/// `dirs::cache_dir`: the platform's per-user cache root, as text. There
/// is none where the environment names none, and none either where its
/// name is not valid UTF-8. Nothing is known of the answer beforehand.
#[verifier::external_body]
fn platform_cache_root() -> (root: Option<String>) {
    let root = dirs::cache_dir()?;
    Some(root.to_str()?.to_owned())
}

/// Joins a directory and a name with one separator.
pub fn join(dir: &str, name: &str) -> (path: String)
    ensures
        path@ == join_path(dir@, name@),
{
    proof {
        reveal_strlit("/");
    }
    let mut path = String::from_str(dir);
    path.append("/");
    path.append(name);
    path
}

/// The application's cache directory, given what the platform offered as
/// its cache root.
pub fn cache_dir_in(root: Option<String>) -> (r: Result<String, CacheError>)
    ensures
        match root {
            Some(root) => r is Ok && r->Ok_0@ == cache_dir_under(root@),
            None => r == Err::<String, CacheError>(CacheError::NoCacheDir),
        },
{
    match root {
        Some(root) => Ok(join(root.as_str(), PACKAGE_NAME)),
        None => Err(CacheError::NoCacheDir),
    }
}

/// The application's cache directory below the platform's cache root. It
/// fails where the platform has no cache root to offer, or one whose name
/// is not valid UTF-8.
pub fn get_cache_dir() -> (r: Result<String, CacheError>)
    ensures
        match r {
            Ok(dir) => exists|root: Seq<char>| dir@ == #[trigger] cache_dir_under(root),
            Err(e) => e == CacheError::NoCacheDir,
        },
{
    cache_dir_in(platform_cache_root())
}

/// The file name for a digest: its hexadecimal form and the extension.
pub fn file_name_for_digest(digest: &[u8]) -> (name: String)
    ensures
        name@ == image_file_name(digest@),
{
    proof {
        reveal_strlit(".jpg");
    }
    let mut name = hex_encode(digest);
    name.append(".jpg");
    name
}

/// The hexadecimal digest that names the image `bytes`.
pub fn hash_image(bytes: &bytes::BytesMut) -> (hash: String)
    ensures
        hash@ == hex_string(art_digest(contents(*bytes))),
        hash@.len() == 2 * DIGEST_LEN,
{
    let tag: Vec<u8> = vec![0x76u8, 0x31u8];
    let digest = xof_digest(bytes, tag.as_slice(), DIGEST_LEN);
    hex_encode(digest.as_slice())
}

/// Where the image `bytes` is cached below the directory `dir`. The same
/// bytes always give the same path.
pub fn image_path_in(dir: &str, bytes: &bytes::BytesMut) -> (path: String)
    ensures
        path@ == image_path(dir@, contents(*bytes)),
{
    proof {
        reveal_strlit(".jpg");
    }
    let mut name = hash_image(bytes);
    name.append(".jpg");
    join(dir, name.as_str())
}

/// Where the image `bytes` is cached below the platform's cache root. It
/// fails where the platform has no cache root to offer, or one whose name
/// is not valid UTF-8.
pub fn get_cached_image_path(bytes: &bytes::BytesMut) -> (r: Result<String, CacheError>)
    ensures
        match r {
            Ok(path) => exists|root: Seq<char>|
                path@ == image_path(#[trigger] cache_dir_under(root), contents(*bytes)),
            Err(e) => e == CacheError::NoCacheDir,
        },
{
    match get_cache_dir() {
        Ok(dir) => Ok(image_path_in(dir.as_str(), bytes)),
        Err(e) => Err(e),
    }
}

/// Different values below sixteen have different digits.
proof fn lemma_hex_digit_injective(a: int, b: int)
    requires
        0 <= a < 16,
        0 <= b < 16,
        hex_digit(a) == hex_digit(b),
    ensures
        a == b,
{
    assert(hex_digit(a) as int == if a < 10 {
        48 + a
    } else {
        87 + a
    });
    assert(hex_digit(b) as int == if b < 10 {
        48 + b
    } else {
        87 + b
    });
}

/// The hexadecimal form tells the bytes: different byte strings have
/// different forms.
pub proof fn lemma_hex_string_injective(a: Seq<u8>, b: Seq<u8>)
    requires
        hex_string(a) == hex_string(b),
    ensures
        a == b,
{
    assert(hex_string(a).len() == 2 * a.len());
    assert(hex_string(b).len() == 2 * b.len());
    assert forall|i: int| 0 <= i < a.len() implies a[i] == b[i] by {
        let x = a[i] as int;
        let y = b[i] as int;
        assert(hex_string(a)[2 * i] == hex_digit(x / 16));
        assert(hex_string(b)[2 * i] == hex_digit(y / 16));
        assert(hex_string(a)[2 * i + 1] == hex_digit(x % 16));
        assert(hex_string(b)[2 * i + 1] == hex_digit(y % 16));
        lemma_hex_digit_injective(x / 16, y / 16);
        lemma_hex_digit_injective(x % 16, y % 16);
    }
    assert(a =~= b);
}

/// A path below a directory tells the digest it was made from.
pub proof fn lemma_path_tells_digest(dir: Seq<char>, d1: Seq<u8>, d2: Seq<u8>)
    requires
        join_path(dir, image_file_name(d1)) == join_path(dir, image_file_name(d2)),
    ensures
        d1 == d2,
{
    let left = join_path(dir, image_file_name(d1));
    let right = join_path(dir, image_file_name(d2));
    let h1 = hex_string(d1);
    let h2 = hex_string(d2);
    assert(left.len() == dir.len() + 1 + h1.len() + 4);
    assert(right.len() == dir.len() + 1 + h2.len() + 4);
    assert forall|i: int| 0 <= i < h1.len() implies h1[i] == h2[i] by {
        assert(left[dir.len() + 1 + i] == h1[i]);
        assert(right[dir.len() + 1 + i] == h2[i]);
    }
    assert(h1 =~= h2);
    lemma_hex_string_injective(d1, d2);
}

/// The cache location is a function of the image's bytes: the same bytes
/// resolve to the same path, however often they are resolved. Below one
/// directory, two images share a path exactly when their digests are the
/// same.
pub proof fn lemma_path_by_content(dir: Seq<char>, art1: Seq<u8>, art2: Seq<u8>)
    ensures
        art1 == art2 ==> image_path(dir, art1) == image_path(dir, art2),
        image_path(dir, art1) == image_path(dir, art2) <==> art_digest(art1) == art_digest(art2),
{
    if image_path(dir, art1) == image_path(dir, art2) {
        lemma_path_tells_digest(dir, art_digest(art1), art_digest(art2));
    }
}

} // verus!
