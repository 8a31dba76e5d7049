//! Where entries live: the hashed file name of a key and its path inside
//! the cache's directory, and the kinds of failure that storage reports.
use sha1::{Digest, Sha1};
use vstd::prelude::*;

verus! {

/// What went wrong in the storage layer.
#[derive(Clone, Copy, Debug, PartialEq, Eq, Structural)]
pub enum StoreErr {
    /// The bytes could not be encoded, or did not decode as the requested type.
    Ser,
    /// The file system refused: a missing file, a denied permission, a failed disk.
    IO,
    /// The modification time lies in the future, so no age can be computed.
    Time,
}

/// The SHA-1 digest of the UTF-8 bytes of a text.
pub uninterp spec fn sha1_of(text: Seq<char>) -> Seq<u8>;

/// Relies on `sha1::Sha1::digest` (through `digest::Digest`): the SHA-1
/// digest of the key's UTF-8 bytes, whose output size is 20 bytes.
#[verifier::external_body]
fn sha1_digest(text: &str) -> (r: Vec<u8>)
    ensures
        r@ == sha1_of(text@),
        r@.len() == 20,
{
    Sha1::digest(text.as_bytes()).to_vec()
}

/// Relies on `String::push`: appends one character at the end.
#[verifier::external_body]
fn push_char(s: &mut String, c: char)
    ensures
        final(s)@ == old(s)@.push(c),
{
    s.push(c)
}

/// The lowercase hexadecimal digit of a value below sixteen.
pub open spec fn hex_char(n: u8) -> char {
    seq!['0', '1', '2', '3', '4', '5', '6', '7', '8', '9', 'a', 'b', 'c', 'd', 'e', 'f'][n as int]
}

/// Two lowercase hexadecimal digits per byte, high half first.
pub open spec fn hex_of(bytes: Seq<u8>) -> Seq<char> {
    Seq::new(
        2 * bytes.len(),
        |i: int|
            if i % 2 == 0 {
                hex_char(bytes[i / 2] / 16)
            } else {
                hex_char(bytes[i / 2] % 16)
            },
    )
}

/// The file name of the entry stored under `key`.
pub open spec fn key_file_name(key: Seq<char>) -> Seq<char> {
    hex_of(sha1_of(key))
}

/// The path of `name` inside the directory `dir`: a separator is put
/// between them unless `dir` is empty or already ends in one.
pub open spec fn joined(dir: Seq<char>, name: Seq<char>) -> Seq<char> {
    if dir.len() == 0 {
        name
    } else if dir.last() == '/' {
        dir + name
    } else {
        dir + seq!['/'] + name
    }
}

/// The path of the entry stored under `key` in the cache named `cache_name`.
pub open spec fn entry_path_of(cache_name: Seq<char>, key: Seq<char>) -> Seq<char> {
    joined(cache_name, key_file_name(key))
}

fn hex_digit(n: u8) -> (c: char)
    requires
        n < 16,
    ensures
        c == hex_char(n),
{
    let digits: [char; 16] = ['0', '1', '2', '3', '4', '5', '6', '7', '8', '9', 'a', 'b', 'c', 'd', 'e', 'f'];
    assert(digits@ =~= seq!['0', '1', '2', '3', '4', '5', '6', '7', '8', '9', 'a', 'b', 'c', 'd', 'e', 'f']);
    digits[n as usize]
}

/// Renders bytes as lowercase hexadecimal, two digits per byte.
pub fn to_hex(bytes: &Vec<u8>) -> (r: String)
    requires
        bytes@.len() <= usize::MAX / 2,
    ensures
        r@ == hex_of(bytes@),
{
    let mut out = String::new();
    let mut i: usize = 0;
    while i < bytes.len()
        invariant
            i <= bytes@.len(),
            bytes@.len() <= usize::MAX / 2,
            out@.len() == 2 * i,
            forall|j: int| 0 <= j < 2 * i ==> #[trigger] out@[j] == hex_of(bytes@)[j],
        decreases bytes@.len() - i,
    {
        let b = bytes[i];
        let ghost prev = out@;
        push_char(&mut out, hex_digit(b / 16));
        push_char(&mut out, hex_digit(b % 16));
        assert forall|j: int| 0 <= j < 2 * (i + 1) implies #[trigger] out@[j] == hex_of(bytes@)[j] by {
            if j == 2 * i {
                assert(j / 2 == i && j % 2 == 0);
            } else if j == 2 * i + 1 {
                assert(j / 2 == i && j % 2 == 1);
            } else {
                assert(out@[j] == prev[j]);
            }
        }
        i = i + 1;
    }
    assert(out@ =~= hex_of(bytes@));
    out
}

/// The file name of the entry stored under `key`: the SHA-1 digest of the
/// key, in lowercase hexadecimal.
pub fn fmt_key(key: &str) -> (r: String)
    ensures
        r@ == key_file_name(key@),
        r@.len() == 40,
{
    let digest = sha1_digest(key);
    to_hex(&digest)
}

/// Joins a directory and a file name into a path, as `Path::join` does for
/// a relative name.
pub fn path_join(cache_name: &str, key: &str) -> (r: String)
    ensures
        r@ == joined(cache_name@, key@),
{
    let n = cache_name.unicode_len();
    let mut out = String::from_str(cache_name);
    if n > 0 && cache_name.get_char(n - 1) != '/' {
        out.append("/");
    }
    out.append(key);
    proof {
        reveal_strlit("/");
    }
    out
}

/// The path of the entry stored under `key` in the cache named `cache_name`.
pub fn entry_path(cache_name: &str, key: &str) -> (r: String)
    ensures
        r@ == entry_path_of(cache_name@, key@),
{
    let name = fmt_key(key);
    path_join(cache_name, name.as_str())
}

proof fn lemma_hex_char_injective(a: u8, b: u8)
    requires
        a < 16,
        b < 16,
        hex_char(a) == hex_char(b),
    ensures
        a == b,
{
    let digits = seq!['0', '1', '2', '3', '4', '5', '6', '7', '8', '9', 'a', 'b', 'c', 'd', 'e', 'f'];
    assert(forall|i: int, j: int| 0 <= i < 16 && 0 <= j < 16 && i != j ==> digits[i] != digits[j]);
}

/// Distinct bytes render as distinct hexadecimal text.
pub proof fn lemma_hex_injective(x: Seq<u8>, y: Seq<u8>)
    requires
        hex_of(x) == hex_of(y),
    ensures
        x == y,
{
    assert(x.len() == y.len()) by {
        assert(hex_of(x).len() == 2 * x.len());
        assert(hex_of(y).len() == 2 * y.len());
    }
    assert forall|i: int| 0 <= i < x.len() implies x[i] == y[i] by {
        let k = 2 * i;
        assert(k / 2 == i && k % 2 == 0 && (k + 1) / 2 == i && (k + 1) % 2 == 1);
        assert(hex_of(x)[k] == hex_of(y)[k]);
        assert(hex_of(x)[k + 1] == hex_of(y)[k + 1]);
        assert(hex_of(x)[k] == hex_char(x[i] / 16));
        assert(hex_of(y)[k] == hex_char(y[i] / 16));
        assert(hex_of(x)[k + 1] == hex_char(x[i] % 16));
        assert(hex_of(y)[k + 1] == hex_char(y[i] % 16));
        lemma_hex_char_injective(x[i] / 16, y[i] / 16);
        lemma_hex_char_injective(x[i] % 16, y[i] % 16);
        assert(x[i] == (x[i] / 16) * 16 + x[i] % 16);
        assert(y[i] == (y[i] / 16) * 16 + y[i] % 16);
    }
    assert(x =~= y);
}

/// Two keys of one cache whose digests differ are stored at different
/// paths, so a write under one is never read under the other.
pub proof fn lemma_distinct_keys_distinct_paths(cache_name: Seq<char>, a: Seq<char>, b: Seq<char>)
    requires
        sha1_of(a) != sha1_of(b),
    ensures
        entry_path_of(cache_name, a) != entry_path_of(cache_name, b),
{
    let na = key_file_name(a);
    let nb = key_file_name(b);
    if na == nb {
        lemma_hex_injective(sha1_of(a), sha1_of(b));
    }
    let pa = entry_path_of(cache_name, a);
    let pb = entry_path_of(cache_name, b);
    if pa == pb {
        let pre = if cache_name.len() == 0 {
            cache_name
        } else if cache_name.last() == '/' {
            cache_name
        } else {
            cache_name + seq!['/']
        };
        assert(pa =~= pre + na);
        assert(pb =~= pre + nb);
        assert(na =~= pa.subrange(pre.len() as int, pa.len() as int));
        assert(nb =~= pb.subrange(pre.len() as int, pb.len() as int));
        assert(false);
    }
}

} // verus!
