use crate::text::string_of;
use sha2::{Digest, Sha256};
use vstd::prelude::*;
use vstd::std_specs::cmp::PartialEqSpecImpl;
use vstd::utf8::encode_utf8;

verus! {

/// The SHA-256 digest of a byte string, as the `sha2` crate computes it.
pub uninterp spec fn sha256_digest(data: Seq<u8>) -> Seq<u8>;

/// Number of digest bytes that make up a version.
pub const VERSION_LEN: usize = 16;

/// The version that a diff text hashes to: the leading bytes of its SHA-256 digest.
pub open spec fn version_of(diff: Seq<char>) -> Seq<u8> {
    sha256_digest(encode_utf8(diff)).take(VERSION_LEN as int)
}

/// The version at which every edit chain starts: the hash of the empty diff.
pub open spec fn sentinel_version() -> Seq<u8> {
    version_of(Seq::<char>::empty())
}

/// The lowercase hexadecimal digit for a value below sixteen.
pub open spec fn hex_digit(n: int) -> char {
    if n == 0 {
        '0'
    } else if n == 1 {
        '1'
    } else if n == 2 {
        '2'
    } else if n == 3 {
        '3'
    } else if n == 4 {
        '4'
    } else if n == 5 {
        '5'
    } else if n == 6 {
        '6'
    } else if n == 7 {
        '7'
    } else if n == 8 {
        '8'
    } else if n == 9 {
        '9'
    } else if n == 10 {
        'a'
    } else if n == 11 {
        'b'
    } else if n == 12 {
        'c'
    } else if n == 13 {
        'd'
    } else if n == 14 {
        'e'
    } else {
        'f'
    }
}

/// Lowercase hexadecimal text of a byte string: two digits per byte, high nibble first.
pub open spec fn hex_lower(bytes: Seq<u8>) -> Seq<char> {
    Seq::new(
        2 * bytes.len(),
        |i: int|
            if i % 2 == 0 {
                hex_digit(bytes[i / 2] as int / 16)
            } else {
                hex_digit(bytes[i / 2] as int % 16)
            },
    )
}

/// Calls `Sha256::new`, `update` and `finalize` of the `sha2` crate on `data`.
/// Trusted: the result is the SHA-256 digest of `data`, which is 32 bytes long.
#[verifier::external_body]
fn sha256(data: &[u8]) -> (digest: Vec<u8>)
    ensures
        digest@ == sha256_digest(data@),
        digest@.len() == 32,
{
    let mut hasher = Sha256::new();
    hasher.update(data);
    hasher.finalize().as_slice().to_vec()
}

/// The lowercase hexadecimal digit for a value below sixteen.
fn hex_digit_char(n: u8) -> (c: char)
    requires
        n < 16,
    ensures
        c == hex_digit(n as int),
{
    if n == 0 {
        '0'
    } else if n == 1 {
        '1'
    } else if n == 2 {
        '2'
    } else if n == 3 {
        '3'
    } else if n == 4 {
        '4'
    } else if n == 5 {
        '5'
    } else if n == 6 {
        '6'
    } else if n == 7 {
        '7'
    } else if n == 8 {
        '8'
    } else if n == 9 {
        '9'
    } else if n == 10 {
        'a'
    } else if n == 11 {
        'b'
    } else if n == 12 {
        'c'
    } else if n == 13 {
        'd'
    } else if n == 14 {
        'e'
    } else {
        'f'
    }
}

/// The first bytes of a digest, as many as make up a version.
fn head_of(digest: &Vec<u8>) -> (bytes: [u8; 16])
    requires
        digest@.len() >= VERSION_LEN,
    ensures
        bytes@ == digest@.take(VERSION_LEN as int),
{
    let mut bytes = [0u8; 16];
    let mut i: usize = 0;
    while i < 16
        invariant
            i <= 16,
            digest@.len() >= 16,
            forall|k: int| 0 <= k < i ==> bytes@[k] == digest@[k],
        decreases 16 - i,
    {
        bytes[i] = digest[i];
        i += 1;
    }
    assert(bytes@ =~= digest@.take(VERSION_LEN as int));
    bytes
}

/// Lowercase hexadecimal text of the bytes of a version.
fn hex_encode(bytes: &[u8; 16]) -> (text: String)
    ensures
        text@ == hex_lower(bytes@),
{
    let mut chars: Vec<char> = Vec::new();
    let mut i: usize = 0;
    while i < 16
        invariant
            i <= 16,
            chars@ == hex_lower(bytes@).take(2 * i as int),
        decreases 16 - i,
    {
        let byte = bytes[i];
        chars.push(hex_digit_char(byte / 16));
        chars.push(hex_digit_char(byte % 16));
        assert(chars@ =~= hex_lower(bytes@).take(2 * (i + 1) as int));
        i += 1;
    }
    assert(hex_lower(bytes@).take(32) =~= hex_lower(bytes@));
    string_of(&chars)
}

/// The version hash of a specific edit: the first sixteen bytes of the SHA-256
/// digest of the edit's diff text.
#[derive(Clone, Copy, Debug, Eq, Hash)]
pub struct EditVersion {
    bytes: [u8; 16],
}

impl View for EditVersion {
    type V = Seq<u8>;

    closed spec fn view(&self) -> Seq<u8> {
        self.bytes@
    }
}

impl EditVersion {
    /// Hashes a diff text into its version.
    pub fn new(diff: &str) -> (version: Self)
        ensures
            version@ == version_of(diff@),
    {
        let digest = sha256(diff.as_bytes());
        EditVersion { bytes: head_of(&digest) }
    }

    /// The external form of the version: 32 lowercase hexadecimal characters.
    pub fn hash(&self) -> (text: String)
        ensures
            text@ == hex_lower(self@),
            text@.len() == 2 * VERSION_LEN,
    {
        hex_encode(&self.bytes)
    }

    /// The version that holds the given bytes.
    pub fn from_bytes(bytes: [u8; 16]) -> (version: Self)
        ensures
            version@ == bytes@,
    {
        EditVersion { bytes }
    }

    /// The bytes of the version.
    pub fn into_bytes(self) -> (bytes: [u8; 16])
        ensures
            bytes@ == self@,
    {
        self.bytes
    }

    /// A version always holds sixteen bytes.
    pub proof fn lemma_len(self)
        ensures
            self@.len() == VERSION_LEN,
    {
    }
}

impl PartialEq for EditVersion {
    fn eq(&self, other: &Self) -> (equal: bool) {
        let mut i: usize = 0;
        while i < 16
            invariant
                i <= 16,
                forall|k: int| 0 <= k < i ==> self.bytes@[k] == other.bytes@[k],
            decreases 16 - i,
        {
            if self.bytes[i] != other.bytes[i] {
                return false;
            }
            i += 1;
        }
        assert(self.bytes@ =~= other.bytes@);
        true
    }
}

impl PartialEqSpecImpl for EditVersion {
    open spec fn obeys_eq_spec() -> bool {
        true
    }

    open spec fn eq_spec(&self, other: &Self) -> bool {
        self@ == other@
    }
}

impl Default for EditVersion {
    /// The sentinel: the version of the empty diff.
    fn default() -> (version: Self)
        ensures
            version@ == sentinel_version(),
    {
        proof {
            reveal_strlit("");
        }
        let version = EditVersion::new("");
        assert(""@ =~= Seq::<char>::empty());
        version
    }
}

} // verus!
