//! Loading the wallet keypair from a private-key string or from the contents of a keystore
//! file.
use vstd::prelude::*;
use vstd::utf8::encode_utf8;
use vstd::string::StrSliceExecFns;
use crate::loaded_key::{
    keypair_from_base58_text, keypair_from_bytes, spec_base58_keypair_bytes, spec_keypair_bytes_valid,
    LoadedKeypair,
};
use crate::text::{
    all_white, chars_of, contains_seq, decimal_text, lemma_trim_padded, str_contains_lit, trim, trim_seq,
};
use crate::vars::{env_string, opt_str, opt_string, spec_env_string};

verus! {

/// What `serde_json::from_str::<Vec<u8>>` gives for `text`: the bytes of a JSON array of
/// integers in 0..=255, or nothing.
pub uninterp spec fn spec_json_byte_array(text: Seq<char>) -> Option<Seq<u8>>;

/// The bytes of `b` in decimal, separated by commas.
pub open spec fn json_byte_list(b: Seq<u8>) -> Seq<char>
    decreases b.len(),
{
    if b.len() == 0 {
        Seq::empty()
    } else if b.len() == 1 {
        decimal_text(b[0] as nat)
    } else {
        decimal_text(b[0] as nat) + seq![','] + json_byte_list(b.drop_first())
    }
}

/// The compact JSON array of the bytes `b`, as `serde_json::to_string` prints a `Vec<u8>`:
/// `[`, the decimal bytes separated by commas, `]`.
pub open spec fn json_array_text(b: Seq<u8>) -> Seq<char> {
    seq!['['] + json_byte_list(b) + seq![']']
}

/// Law (with the `ensures` of `load_keypair_from_string`): the compact JSON array of a
/// keypair's 64 bytes loads back to exactly those bytes, also with whitespace around it,
/// since trimming gives the array text back.
pub proof fn law_padded_json_key_text_trims_to_array(pre: Seq<char>, b: Seq<u8>, post: Seq<char>)
    requires
        all_white(pre),
        all_white(post),
    ensures
        trim_seq(pre + json_array_text(b) + post) == json_array_text(b),
{
    let x = json_array_text(b);
    assert(x[0] == '[');
    assert(x.last() == ']');
    lemma_trim_padded(pre, x, post);
}

/// Calls `serde_json::from_str::<Vec<u8>>`. Claimed: the result is the named function of the
/// text (parsing depends on the text alone), and a compact JSON array of decimal bytes parses
/// to those bytes (JSON arrays of integers in 0..=255 deserialize into `Vec<u8>`). Not stated:
/// which other texts parse (other spacing, escapes, numbers out of range).
#[verifier::external_body]
fn json_byte_array(text: &str) -> (r: Option<Vec<u8>>)
    ensures
        match r {
            Some(v) => spec_json_byte_array(text@) == Some(v@),
            None => spec_json_byte_array(text@) is None,
        },
        forall|b: Seq<u8>| #[trigger] json_array_text(b) == text@ ==> r is Some && r->0@ == b,
{
    serde_json::from_str::<Vec<u8>>(text).ok()
}

/// Why a private key could not be loaded.
#[derive(Debug, Clone, Copy, PartialEq, Eq, Structural)]
pub enum KeyLoadError {
    /// The key text is blank.
    Empty,
    /// A 64-byte JSON array that is not a valid keypair.
    InvalidKeyBytes,
    /// Text in base58 form that does not decode to a valid keypair.
    InvalidBase58,
    /// Neither a 64-byte JSON array nor a base58 key.
    Unrecognized,
}

/// How a (trimmed) private-key text is read.
pub enum KeyRoute {
    /// Blank.
    Empty,
    /// A JSON array of 64 bytes.
    JsonBytes(Seq<u8>),
    /// A base58 string: longer than 50 bytes and not starting like JSON.
    Base58,
    /// Anything else.
    Unrecognized,
}

/// Whether a non-blank text looks like a base58 key rather than JSON.
pub open spec fn looks_base58(t: Seq<char>) -> bool {
    encode_utf8(t).len() > 50 && t.len() > 0 && t[0] != '[' && t[0] != '{'
}

/// The route a trimmed key text `t` takes.
pub open spec fn key_route(t: Seq<char>) -> KeyRoute {
    if t.len() == 0 {
        KeyRoute::Empty
    } else if spec_json_byte_array(t) is Some && spec_json_byte_array(t)->0.len() == 64 {
        KeyRoute::JsonBytes(spec_json_byte_array(t)->0)
    } else if looks_base58(t) {
        KeyRoute::Base58
    } else {
        KeyRoute::Unrecognized
    }
}

/// What loading a key text gives: the bytes of the key, or the error.
pub open spec fn key_load(t: Seq<char>) -> Result<Seq<u8>, KeyLoadError> {
    match key_route(t) {
        KeyRoute::Empty => Err(KeyLoadError::Empty),
        KeyRoute::JsonBytes(b) => if spec_keypair_bytes_valid(b) {
            Ok(b)
        } else {
            Err(KeyLoadError::InvalidKeyBytes)
        },
        KeyRoute::Base58 => match spec_base58_keypair_bytes(t) {
            Some(b) => Ok(b),
            None => Err(KeyLoadError::InvalidBase58),
        },
        KeyRoute::Unrecognized => Err(KeyLoadError::Unrecognized),
    }
}

/// A loading result with the key taken by its bytes.
pub open spec fn loaded_bytes<E>(r: Result<LoadedKeypair, E>) -> Result<Seq<u8>, E> {
    match r {
        Ok(k) => Ok(k@),
        Err(e) => Err(e),
    }
}

/// Whether the first character of a non-empty text looks like JSON.
fn starts_like_json(t: &str) -> (r: bool)
    requires
        t@.len() > 0,
    ensures
        r == (t@[0] == '[' || t@[0] == '{'),
{
    let c = t.get_char(0);
    c == '[' || c == '{'
}

/// Loads a keypair from a private key given as a 64-byte JSON array or as a base58 string
/// (surrounding whitespace ignored); the key has the bytes of the array, or those the base58
/// text decodes to.
pub fn load_keypair_from_string(value: &str) -> (r: Result<LoadedKeypair, KeyLoadError>)
    ensures
        loaded_bytes(r) == key_load(trim_seq(value@)),
        forall|b: Seq<u8>|
            #![trigger json_array_text(b)]
            trim_seq(value@) == json_array_text(b) && b.len() == 64 && spec_keypair_bytes_valid(b)
                ==> loaded_bytes(r) == Ok::<Seq<u8>, KeyLoadError>(b),
{
    let t = trim(value);
    let ts = t.as_str();
    if ts.is_empty() {
        return Err(KeyLoadError::Empty);
    }
    if let Some(bytes) = json_byte_array(ts) {
        if bytes.len() == 64 {
            return match keypair_from_bytes(bytes.as_slice()) {
                Some(k) => Ok(k),
                None => Err(KeyLoadError::InvalidKeyBytes),
            };
        }
    }
    if ts.as_bytes().len() > 50 && !starts_like_json(ts) {
        return match keypair_from_base58_text(ts) {
            Some(k) => Ok(k),
            None => Err(KeyLoadError::InvalidBase58),
        };
    }
    Err(KeyLoadError::Unrecognized)
}

/// Loads a keypair from a base58 private key, as given (not trimmed); the key has the bytes
/// the text decodes to.
pub fn load_keypair_from_base58(text: &str) -> (r: Result<LoadedKeypair, KeyLoadError>)
    ensures
        loaded_bytes(r) == match spec_base58_keypair_bytes(text@) {
            Some(b) => Ok::<Seq<u8>, KeyLoadError>(b),
            None => Err(KeyLoadError::InvalidBase58),
        },
{
    match keypair_from_base58_text(text) {
        Some(k) => Ok(k),
        None => Err(KeyLoadError::InvalidBase58),
    }
}

/// Number of characters before the first line break.
pub open spec fn line_end(s: Seq<char>) -> nat
    decreases s.len(),
{
    if s.len() == 0 || s[0] == '\n' {
        0
    } else {
        1 + line_end(s.drop_first())
    }
}

/// The first line of `s` (without its line break).
pub open spec fn first_line(s: Seq<char>) -> Seq<char> {
    s.take(line_end(s) as int)
}

proof fn lemma_line_end_bound(s: Seq<char>)
    ensures
        line_end(s) <= s.len(),
        line_end(s) < s.len() ==> s[line_end(s) as int] == '\n',
        forall|j: int| 0 <= j < line_end(s) ==> s[j] != '\n',
    decreases s.len(),
{
    if s.len() > 0 && s[0] != '\n' {
        lemma_line_end_bound(s.drop_first());
        assert forall|j: int| 0 <= j < line_end(s) implies s[j] != '\n' by {
            if j > 0 {
                assert(s[j] == s.drop_first()[j - 1]);
            }
        }
    }
}

proof fn lemma_line_end_unique(s: Seq<char>, i: int)
    requires
        0 <= i <= s.len(),
        i < s.len() ==> s[i] == '\n',
        forall|j: int| 0 <= j < i ==> s[j] != '\n',
    ensures
        line_end(s) == i,
    decreases s.len(),
{
    if i > 0 {
        assert forall|j: int| 0 <= j < i - 1 implies s.drop_first()[j] != '\n' by {
            assert(s.drop_first()[j] == s[j + 1]);
        }
        if i - 1 < s.drop_first().len() {
            assert(s.drop_first()[i - 1] == s[i]);
        }
        lemma_line_end_unique(s.drop_first(), i - 1);
    }
}

/// The first line of `s`, with surrounding whitespace removed.
fn first_line_trimmed(s: &str) -> (r: String)
    ensures
        r@ == trim_seq(first_line(s@)),
{
    let cs = chars_of(s);
    let n = cs.len();
    let mut i: usize = 0;
    while i < n && cs[i] != '\n'
        invariant
            i <= n == cs@.len(),
            cs@ == s@,
            forall|j: int| 0 <= j < i ==> cs@[j] != '\n',
        decreases n - i,
    {
        i = i + 1;
    }
    proof {
        lemma_line_end_unique(s@, i as int);
    }
    let line = s.substring_char(0, i);
    trim(line)
}

/// What the contents of a keystore file hold.
pub enum KeystoreKey {
    /// A plain keypair (a 64-byte JSON array, or a base58 key on the first line).
    Loaded(LoadedKeypair),
    /// A sol-safekey encrypted keystore: decrypt it with `password`, or unlock it
    /// interactively when no password is set.
    Encrypted { password: Option<String> },
}

/// Why the contents of a keystore file could not be used.
#[derive(Debug, Clone, Copy, PartialEq, Eq, Structural)]
pub enum KeystoreError {
    /// The first line is a base58 key that does not decode to a valid keypair.
    InvalidBase58,
    /// None of the supported formats.
    Unrecognized,
}

/// How the contents of a keystore file are read.
pub enum KeystoreRoute {
    /// An encrypted keystore (it names an `encrypted_private_key`).
    Encrypted,
    /// A valid 64-byte JSON array, with its bytes.
    JsonBytes(Seq<u8>),
    /// A base58 key on the first line.
    Base58(Seq<char>),
    /// Anything else.
    Unrecognized,
}

/// The route keystore contents `c` take. A 64-byte JSON array that is not a valid keypair
/// falls through to the first-line check.
pub open spec fn keystore_route(c: Seq<char>) -> KeystoreRoute {
    let line = trim_seq(first_line(c));
    if contains_seq(c, "encrypted_private_key"@) {
        KeystoreRoute::Encrypted
    } else if spec_json_byte_array(c) is Some && spec_json_byte_array(c)->0.len() == 64
        && spec_keypair_bytes_valid(spec_json_byte_array(c)->0) {
        KeystoreRoute::JsonBytes(spec_json_byte_array(c)->0)
    } else if line.len() > 0 && looks_base58(line) {
        KeystoreRoute::Base58(line)
    } else {
        KeystoreRoute::Unrecognized
    }
}

/// Reads the contents of a keystore file; a plain key has the bytes of the file's JSON array
/// or of its first line's base58 text. `password` is the raw password setting (blank
/// counts as unset, surrounding whitespace is dropped).
pub fn read_keystore_content(content: &str, password: Option<&str>) -> (r: Result<
    KeystoreKey,
    KeystoreError,
>)
    ensures
        match keystore_route(content@) {
            KeystoreRoute::Encrypted => r matches Ok(KeystoreKey::Encrypted { password: p })
                && opt_string(p) == spec_env_string(opt_str(password)),
            KeystoreRoute::JsonBytes(b) => r matches Ok(KeystoreKey::Loaded(k)) && k@ == b,
            KeystoreRoute::Base58(line) => match spec_base58_keypair_bytes(line) {
                Some(b) => r matches Ok(KeystoreKey::Loaded(k)) && k@ == b,
                None => r matches Err(KeystoreError::InvalidBase58),
            },
            KeystoreRoute::Unrecognized => r matches Err(KeystoreError::Unrecognized),
        },
{
    if str_contains_lit(content, "encrypted_private_key") {
        return Ok(KeystoreKey::Encrypted { password: env_string(password) });
    }
    if let Some(bytes) = json_byte_array(content) {
        if bytes.len() == 64 {
            if let Some(k) = keypair_from_bytes(bytes.as_slice()) {
                return Ok(KeystoreKey::Loaded(k));
            }
        }
    }
    let line = first_line_trimmed(content);
    let ls = line.as_str();
    if !ls.is_empty() && ls.as_bytes().len() > 50 && !starts_like_json(ls) {
        return match keypair_from_base58_text(ls) {
            Some(k) => Ok(KeystoreKey::Loaded(k)),
            None => Err(KeystoreError::InvalidBase58),
        };
    }
    Err(KeystoreError::Unrecognized)
}

/// Law: how a trimmed private-key text loads. Blank text is refused as empty; a JSON array
/// of exactly 64 bytes loads the key with those bytes when they form a keypair and is refused
/// as invalid bytes otherwise; text that starts like JSON, or is 50 bytes or shorter, is never
/// read as base58; base58 text loads the key with the bytes it decodes to.
pub proof fn law_private_key_text_routes(t: Seq<char>, b: Seq<u8>)
    ensures
        t.len() == 0 ==> key_load(t) == Err::<Seq<u8>, KeyLoadError>(KeyLoadError::Empty),
        t.len() > 0 && spec_json_byte_array(t) == Some(b) && b.len() == 64 ==> key_load(t) == (if spec_keypair_bytes_valid(b) {
            Ok::<Seq<u8>, KeyLoadError>(b)
        } else {
            Err(KeyLoadError::InvalidKeyBytes)
        }),
        t.len() > 0 && !(spec_json_byte_array(t) is Some && spec_json_byte_array(t)->0.len() == 64) && (t[0]
            == '[' || t[0] == '{' || encode_utf8(t).len() <= 50) ==> key_load(t) == Err::<Seq<u8>, KeyLoadError>(
            KeyLoadError::Unrecognized,
        ),
        t.len() > 0 && !(spec_json_byte_array(t) is Some && spec_json_byte_array(t)->0.len() == 64)
            && looks_base58(t) ==> key_load(t) == match spec_base58_keypair_bytes(t) {
            Some(b) => Ok::<Seq<u8>, KeyLoadError>(b),
            None => Err(KeyLoadError::InvalidBase58),
        },
{
}

/// Law: keystore contents that mention `encrypted_private_key` are always treated as an
/// encrypted keystore, whatever else they hold; a valid 64-byte JSON array otherwise loads
/// the key with exactly those bytes.
pub proof fn law_keystore_contents_routes(c: Seq<char>, b: Seq<u8>)
    ensures
        contains_seq(c, "encrypted_private_key"@) ==> keystore_route(c) is Encrypted,
        !contains_seq(c, "encrypted_private_key"@) && spec_json_byte_array(c) == Some(b) && b.len() == 64
            && spec_keypair_bytes_valid(b) ==> keystore_route(c) == KeystoreRoute::JsonBytes(b),
{
}

} // verus!
