//! Checksums: which digest a checksum text stands for, which checksum of a
//! release is trusted, and whether content matches a checksum.

use crate::text::str_eq;
use crate::wire::texts_of;
use vstd::prelude::*;
use vstd::string::*;
use vstd::utf8::*;

verus! {

// The keys under which the daemon sends the attributes of its records.
pub const KEY_APPSTREAM_ID: &'static str = "AppstreamId";

pub const KEY_CATEGORIES: &'static str = "Categories";

pub const KEY_CHECKSUM: &'static str = "Checksum";

pub const KEY_CREATED: &'static str = "Created";

pub const KEY_DESCRIPTION: &'static str = "Description";

pub const KEY_DETAILS_URL: &'static str = "DetailsUrl";

pub const KEY_DEVICE_ID: &'static str = "DeviceId";

pub const KEY_FILENAME: &'static str = "Filename";

pub const KEY_FLAGS: &'static str = "Flags";

pub const KEY_FLASHES_LEFT: &'static str = "FlashesLeft";

pub const KEY_GUID: &'static str = "Guid";

pub const KEY_HOMEPAGE: &'static str = "Homepage";

pub const KEY_ICON: &'static str = "Icon";

pub const KEY_INSTALL_DURATION: &'static str = "InstallDuration";

pub const KEY_INSTANCE_IDS: &'static str = "InstanceIds";

pub const KEY_LICENSE: &'static str = "License";

pub const KEY_METADATA: &'static str = "Metadata";

pub const KEY_MODIFIED: &'static str = "Modified";

pub const KEY_NAME: &'static str = "Name";

pub const KEY_PARENT_DEVICE_ID: &'static str = "ParentDeviceId";

pub const KEY_PLUGIN: &'static str = "Plugin";

pub const KEY_PROTOCOL: &'static str = "Protocol";

pub const KEY_RELEASE: &'static str = "Release";

pub const KEY_REMOTE_ID: &'static str = "RemoteId";

pub const KEY_SERIAL: &'static str = "Serial";

pub const KEY_SIZE: &'static str = "Size";

pub const KEY_SOURCE_URL: &'static str = "SourceUrl";

pub const KEY_SUMMARY: &'static str = "Summary";

pub const KEY_TRUST_FLAGS: &'static str = "TrustFlags";

pub const KEY_UPDATE_ERROR: &'static str = "UpdateError";

pub const KEY_UPDATE_MESSAGE: &'static str = "UpdateMessage";

pub const KEY_UPDATE_STATE: &'static str = "UpdateState";

pub const KEY_URI: &'static str = "Uri";

pub const KEY_VENDOR_ID: &'static str = "VendorId";

pub const KEY_VENDOR: &'static str = "Vendor";

pub const KEY_VERSION_BOOTLOADER: &'static str = "VersionBootloader";

pub const KEY_VERSION_LOWEST: &'static str = "VersionLowest";

pub const KEY_VERSION: &'static str = "Version";

/// A digest algorithm that a checksum may have been made with.
#[derive(Clone, Copy, Debug, PartialEq, Eq, Structural)]
pub enum DigestKind {
    MD5,
    SHA1,
    SHA256,
    SHA512,
}

/// The digest that a checksum text of `len` bytes stands for. Only the
/// length counts; a length that belongs to no digest is read as SHA-1.
pub open spec fn kind_of_len(len: nat) -> DigestKind {
    if len == 32 {
        DigestKind::MD5
    } else if len == 64 {
        DigestKind::SHA256
    } else if len == 128 {
        DigestKind::SHA512
    } else {
        DigestKind::SHA1
    }
}

/// The digest that a checksum text stands for, by its length in bytes.
pub open spec fn guess_kind_of(checksum: Seq<char>) -> DigestKind {
    kind_of_len(encode_utf8(checksum).len())
}

/// The length in bytes of a hexadecimal digest of `kind`.
pub open spec fn digest_len(kind: DigestKind) -> nat {
    match kind {
        DigestKind::MD5 => 32,
        DigestKind::SHA1 => 40,
        DigestKind::SHA256 => 64,
        DigestKind::SHA512 => 128,
    }
}

/// True where a checksum text has the length of a digest of `kind`. This is
/// stricter than the guess: a text of a length that belongs to no digest is
/// guessed to be SHA-1 and qualifies for nothing.
pub open spec fn qualifies(checksum: Seq<char>, kind: DigestKind) -> bool {
    encode_utf8(checksum).len() == digest_len(kind)
}

/// Position of the first checksum that qualifies for `kind`.
pub open spec fn first_of_kind(checksums: Seq<Seq<char>>, kind: DigestKind) -> Option<int>
    decreases checksums.len(),
{
    if checksums.len() == 0 {
        None
    } else {
        match first_of_kind(checksums.drop_last(), kind) {
            Some(i) => Some(i),
            None => if qualifies(checksums.last(), kind) {
                Some(checksums.len() - 1)
            } else {
                None
            },
        }
    }
}

/// True where some checksum of the list qualifies for `kind`.
pub open spec fn has_kind(checksums: Seq<Seq<char>>, kind: DigestKind) -> bool {
    exists|i: int| 0 <= i < checksums.len() && qualifies(#[trigger] checksums[i], kind)
}

/// The checksum to trust among several, as its position and digest: the
/// first one of 128 bytes, as SHA-512; else the first one of 64 bytes, as
/// SHA-256; else the first one of 40 bytes, as SHA-1. A text of 32 bytes, the
/// length of MD5, is never chosen, and neither is a text of any other length.
pub open spec fn best_checksum_of(checksums: Seq<Seq<char>>) -> Option<(int, DigestKind)> {
    if let Some(i) = first_of_kind(checksums, DigestKind::SHA512) {
        Some((i, DigestKind::SHA512))
    } else if let Some(i) = first_of_kind(checksums, DigestKind::SHA256) {
        Some((i, DigestKind::SHA256))
    } else if let Some(i) = first_of_kind(checksums, DigestKind::SHA1) {
        Some((i, DigestKind::SHA1))
    } else {
        None
    }
}

/// The sixteen digits of lower-case hexadecimal.
pub open spec fn hex_digits() -> Seq<char> {
    seq!['0', '1', '2', '3', '4', '5', '6', '7', '8', '9', 'a', 'b', 'c', 'd', 'e', 'f']
}

/// Bytes written as lower-case hexadecimal, two digits a byte.
pub open spec fn hex_text(bytes: Seq<u8>) -> Seq<char>
    decreases bytes.len(),
{
    if bytes.len() == 0 {
        Seq::<char>::empty()
    } else {
        hex_text(bytes.drop_last()) + seq![
            hex_digits()[bytes.last() as int / 16],
            hex_digits()[bytes.last() as int % 16],
        ]
    }
}

/// The digest of `data` under `kind`, as the system's cryptographic library
/// computes it.
pub uninterp spec fn digest_of(kind: DigestKind, data: Seq<u8>) -> Seq<u8>;

/// True where `checksum` is the lower-case hexadecimal digest of `data`
/// under `kind`. Letter case counts: an upper-case checksum matches nothing.
pub open spec fn checksum_matches(data: Seq<u8>, checksum: Seq<char>, kind: DigestKind) -> bool {
    checksum == hex_text(digest_of(kind, data))
}

/// A text that qualifies for a digest is guessed to stand for it. The
/// converse fails for SHA-1 alone, which is also the guess for every length
/// that belongs to no digest.
pub proof fn lemma_qualified_is_guessed(checksum: Seq<char>, kind: DigestKind)
    ensures
        qualifies(checksum, kind) ==> guess_kind_of(checksum) == kind,
        kind != DigestKind::SHA1 && guess_kind_of(checksum) == kind ==> qualifies(checksum, kind),
{
}

/// `first_of_kind` finds the least position whose checksum qualifies for
/// `kind`, and finds one wherever there is one.
pub proof fn lemma_first_of_kind(checksums: Seq<Seq<char>>, kind: DigestKind)
    ensures
        match first_of_kind(checksums, kind) {
            Some(i) => {
                &&& 0 <= i < checksums.len()
                &&& qualifies(checksums[i], kind)
                &&& forall|j: int| 0 <= j < i ==> !qualifies(#[trigger] checksums[j], kind)
            },
            None => forall|j: int|
                0 <= j < checksums.len() ==> !qualifies(#[trigger] checksums[j], kind),
        },
        first_of_kind(checksums, kind).is_some() == has_kind(checksums, kind),
    decreases checksums.len(),
{
    if checksums.len() > 0 {
        let front = checksums.drop_last();
        lemma_first_of_kind(front, kind);
        assert forall|j: int| 0 <= j < front.len() implies front[j] == checksums[j] by {}
        match first_of_kind(front, kind) {
            Some(i) => {
                assert(front[i] == checksums[i]);
                assert forall|j: int| 0 <= j < i implies !qualifies(
                    #[trigger] checksums[j],
                    kind,
                ) by {
                    assert(front[j] == checksums[j]);
                }
            },
            None => {
                assert forall|j: int| 0 <= j < front.len() implies !qualifies(
                    #[trigger] checksums[j],
                    kind,
                ) by {
                    assert(front[j] == checksums[j]);
                }
            },
        }
    }
}

/// The strongest digest present decides. Where a checksum of 128 bytes is
/// present, the first such is chosen, as SHA-512; else the first of 64
/// bytes, as SHA-256; else the first of 40 bytes, as SHA-1, whatever stands
/// before it. Nothing is chosen exactly where no checksum has 128, 64 or 40
/// bytes: where the list is empty, or holds only texts of the length of MD5
/// and texts of lengths that belong to no digest. The digest chosen
/// therefore depends on which lengths are present, not on their order.
pub proof fn lemma_best_prefers_stronger(checksums: Seq<Seq<char>>)
    ensures
        has_kind(checksums, DigestKind::SHA512) ==> best_checksum_of(checksums) == Some(
            (first_of_kind(checksums, DigestKind::SHA512).unwrap(), DigestKind::SHA512),
        ),
        !has_kind(checksums, DigestKind::SHA512) && has_kind(checksums, DigestKind::SHA256)
            ==> best_checksum_of(checksums) == Some(
            (first_of_kind(checksums, DigestKind::SHA256).unwrap(), DigestKind::SHA256),
        ),
        !has_kind(checksums, DigestKind::SHA512) && !has_kind(checksums, DigestKind::SHA256)
            && has_kind(checksums, DigestKind::SHA1) ==> best_checksum_of(checksums) == Some(
            (first_of_kind(checksums, DigestKind::SHA1).unwrap(), DigestKind::SHA1),
        ),
        best_checksum_of(checksums).is_none() <==> forall|i: int|
            0 <= i < checksums.len() ==> {
                let len = encode_utf8(#[trigger] checksums[i]).len();
                len != 128 && len != 64 && len != 40
            },
        best_checksum_of(checksums).is_some() ==> {
            let (at, kind) = best_checksum_of(checksums).unwrap();
            &&& 0 <= at < checksums.len()
            &&& kind != DigestKind::MD5
            &&& qualifies(checksums[at], kind)
            &&& guess_kind_of(checksums[at]) == kind
            &&& forall|j: int| 0 <= j < at ==> !qualifies(#[trigger] checksums[j], kind)
        },
{
    lemma_first_of_kind(checksums, DigestKind::SHA512);
    lemma_first_of_kind(checksums, DigestKind::SHA256);
    lemma_first_of_kind(checksums, DigestKind::SHA1);
    if best_checksum_of(checksums).is_none() {
        assert forall|i: int| 0 <= i < checksums.len() implies {
            let len = encode_utf8(#[trigger] checksums[i]).len();
            len != 128 && len != 64 && len != 40
        } by {
            assert(!qualifies(checksums[i], DigestKind::SHA512));
            assert(!qualifies(checksums[i], DigestKind::SHA256));
            assert(!qualifies(checksums[i], DigestKind::SHA1));
        }
    } else {
        let (at, kind) = best_checksum_of(checksums).unwrap();
        assert(qualifies(checksums[at], kind));
    }
}

/// Two lists in which the same digests have a checksum that qualifies, such
/// as one list in two orders, lead to the same digest.
pub proof fn lemma_best_kind_ignores_order(a: Seq<Seq<char>>, b: Seq<Seq<char>>)
    requires
        forall|kind: DigestKind| has_kind(a, kind) == has_kind(b, kind),
    ensures
        best_checksum_of(a).is_some() == best_checksum_of(b).is_some(),
        best_checksum_of(a).is_some() ==> best_checksum_of(a).unwrap().1 == best_checksum_of(
            b,
        ).unwrap().1,
{
    lemma_first_of_kind(a, DigestKind::SHA512);
    lemma_first_of_kind(a, DigestKind::SHA256);
    lemma_first_of_kind(a, DigestKind::SHA1);
    lemma_first_of_kind(b, DigestKind::SHA512);
    lemma_first_of_kind(b, DigestKind::SHA256);
    lemma_first_of_kind(b, DigestKind::SHA1);
    assert(has_kind(a, DigestKind::SHA512) == has_kind(b, DigestKind::SHA512));
    assert(has_kind(a, DigestKind::SHA256) == has_kind(b, DigestKind::SHA256));
    assert(has_kind(a, DigestKind::SHA1) == has_kind(b, DigestKind::SHA1));
}

/// Content matches its own digest and no other text: a checksum that
/// differs from the true one anywhere, by one bit or more, is refused.
pub proof fn lemma_checksum_round_trip(data: Seq<u8>, kind: DigestKind, other: Seq<char>)
    ensures
        checksum_matches(data, hex_text(digest_of(kind, data)), kind),
        other != hex_text(digest_of(kind, data)) ==> !checksum_matches(data, other, kind),
{
}

/// Guesses the digest that a checksum text stands for from its length in
/// bytes. The text is not checked to be hexadecimal.
pub fn checksum_guess_kind(checksum: &str) -> (kind: DigestKind)
    ensures
        kind == guess_kind_of(checksum@),
{
    let len = checksum.as_bytes().len();
    if len == 32 {
        DigestKind::MD5
    } else if len == 64 {
        DigestKind::SHA256
    } else if len == 128 {
        DigestKind::SHA512
    } else {
        DigestKind::SHA1
    }
}

/// The length in bytes of a hexadecimal digest of `kind`.
fn digest_text_len(kind: DigestKind) -> (len: usize)
    ensures
        len == digest_len(kind),
{
    match kind {
        DigestKind::MD5 => 32,
        DigestKind::SHA1 => 40,
        DigestKind::SHA256 => 64,
        DigestKind::SHA512 => 128,
    }
}

/// Position of the first checksum that qualifies for `kind`.
fn find_kind(checksums: &[String], kind: DigestKind) -> (at: Option<usize>)
    ensures
        match at {
            Some(i) => first_of_kind(texts_of(checksums@), kind) == Some(i as int) && i
                < checksums@.len(),
            None => first_of_kind(texts_of(checksums@), kind).is_none(),
        },
{
    let ghost texts = texts_of(checksums@);
    let wanted = digest_text_len(kind);
    let mut i: usize = 0;
    while i < checksums.len()
        invariant
            i <= checksums.len(),
            texts == texts_of(checksums@),
            wanted == digest_len(kind),
            forall|j: int| 0 <= j < i ==> !qualifies(#[trigger] texts[j], kind),
        decreases checksums.len() - i,
    {
        assert(texts[i as int] == checksums@[i as int]@);
        if checksums[i].as_str().as_bytes().len() == wanted {
            proof {
                lemma_first_of_kind(texts, kind);
            }
            return Some(i);
        }
        i += 1;
    }
    proof {
        lemma_first_of_kind(texts, kind);
    }
    None
}

/// Picks the checksum to verify content against, by length alone: the first
/// one of 128 bytes, as SHA-512; else the first one of 64 bytes, as SHA-256;
/// else the first one of 40 bytes, as SHA-1. Returns nothing where no
/// checksum has one of these lengths: MD5 is not trusted, and a text of a
/// length that belongs to no digest is no checksum at all.
pub fn find_best_checksum(checksums: &[String]) -> (best: Option<(&str, DigestKind)>)
    ensures
        match best {
            Some((text, kind)) => {
                &&& best_checksum_of(texts_of(checksums@)).is_some()
                &&& best_checksum_of(texts_of(checksums@)).unwrap().1 == kind
                &&& text@ == texts_of(checksums@)[best_checksum_of(texts_of(checksums@)).unwrap().0]
            },
            None => best_checksum_of(texts_of(checksums@)).is_none(),
        },
{
    if let Some(i) = find_kind(checksums, DigestKind::SHA512) {
        return Some((checksums[i].as_str(), DigestKind::SHA512));
    }
    if let Some(i) = find_kind(checksums, DigestKind::SHA256) {
        return Some((checksums[i].as_str(), DigestKind::SHA256));
    }
    if let Some(i) = find_kind(checksums, DigestKind::SHA1) {
        return Some((checksums[i].as_str(), DigestKind::SHA1));
    }
    None
}

/// Calls `crypto_hash::digest`. The contract gives the bytes it returns a
/// name, [`digest_of`], and claims only that they depend on the algorithm and
/// the data alone. The call aborts where the system's cryptographic library
/// refuses the algorithm.
#[verifier::external_body]
fn digest(kind: DigestKind, data: &[u8]) -> (out: Vec<u8>)
    ensures
        out@ == digest_of(kind, data@),
{
    let algorithm = match kind {
        DigestKind::MD5 => crypto_hash::Algorithm::MD5,
        DigestKind::SHA1 => crypto_hash::Algorithm::SHA1,
        DigestKind::SHA256 => crypto_hash::Algorithm::SHA256,
        DigestKind::SHA512 => crypto_hash::Algorithm::SHA512,
    };
    crypto_hash::digest(algorithm, data)
}

/// Formats bytes through `hex_view::HexView` with `{:x}`, which writes each
/// byte as two lower-case hexadecimal digits and nothing between them.
#[verifier::external_body]
fn hex_lower(bytes: &[u8]) -> (text: String)
    ensures
        text@ == hex_text(bytes@),
{
    format!("{:x}", hex_view::HexView::from(bytes))
}

/// Compares a checksum text with a digest that was already computed.
pub fn digest_matches(digest: &[u8], checksum: &str) -> (matched: bool)
    ensures
        matched == (checksum@ == hex_text(digest@)),
{
    let text = hex_lower(digest);
    str_eq(checksum, text.as_str())
}

/// Hashes the whole of `data` under `kind` and compares the lower-case
/// hexadecimal digest with `checksum`, letter for letter.
pub fn validate_checksum(data: &[u8], checksum: &str, kind: DigestKind) -> (matched: bool)
    ensures
        matched == checksum_matches(data@, checksum@, kind),
{
    let bytes = digest(kind, data);
    digest_matches(bytes.as_slice(), checksum)
}

} // verus!
