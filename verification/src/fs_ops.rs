//! Exact identities of files, and the decisions of the file transactions that
//! rest on them.
//!
//! A transaction never trusts the result of a namespace call alone: it looks at
//! both names before and after, and classifies what it sees. Each transaction
//! is a function from where it stands and what the last operation gave to what
//! it does next; the caller performs the operations.
use vstd::prelude::*;
use vstd::slice::slice_subrange;

use crate::fault::{join5, Fault};
use crate::number::{decimal, decimal_text, digit_value, lemma_decimal_value, parse_u64, u64_value};
use crate::outside::{
    hex_bytes, hex_decode, hex_digit, hex_encode, hex_refusal, hex_text, sha256, sha256_digest,
    u64_refusal, u64_words,
};
use crate::text::{chars_of, lemma_until, position, text_of, until, CharClass};

verus! {

/// The identity and content digest of a file.
#[derive(Clone, Copy, Debug, PartialEq, Eq)]
pub struct FileToken {
    pub identity_high: u64,
    pub identity_low: u64,
    pub digest: [u8; 32],
}

/// What a file token says.
pub struct TokenView {
    pub identity_high: u64,
    pub identity_low: u64,
    pub digest: Seq<u8>,
}

impl View for FileToken {
    type V = TokenView;

    open spec fn view(&self) -> TokenView {
        TokenView {
            identity_high: self.identity_high,
            identity_low: self.identity_low,
            digest: self.digest@,
        }
    }
}

/// What was seen at a name: the token of the file there, if any.
pub open spec fn seen(token: Option<FileToken>) -> Option<TokenView> {
    match token {
        Some(t) => Some(t@),
        None => None,
    }
}

/// The text form of a token: both identity numbers and the digest in
/// hexadecimal.
pub open spec fn token_text(token: TokenView) -> Seq<char> {
    decimal(token.identity_high as nat) + ":"@ + decimal(token.identity_low as nat) + "|"@
        + hex_text(token.digest)
}

/// The part before the first `c`, and the part after it.
pub open spec fn halves(s: Seq<char>, c: char) -> Option<(Seq<char>, Seq<char>)> {
    let n = until(s, CharClass::Just(c));
    if n < s.len() {
        Some((s.take(n as int), s.skip(n as int + 1)))
    } else {
        None
    }
}

/// The parts before and after the first `c`.
fn split_once<'a>(s: &'a [char], c: char) -> (r: Option<(&'a [char], &'a [char])>)
    ensures
        match r {
            Some((a, b)) => halves(s@, c) == Some((a@, b@)),
            None => halves(s@, c) is None,
        },
{
    let n: usize = position(s, CharClass::Just(c));
    if n == s.len() {
        return None;
    }
    let a = slice_subrange(s, 0, n);
    let b = slice_subrange(s, n + 1, s.len());
    assert(a@ =~= s@.take(n as int));
    assert(b@ =~= s@.skip(n as int + 1));
    Some((a, b))
}

/// What reading a token gives: the token, or the reason why the text is none.
pub open spec fn token_reading(value: Seq<char>) -> Result<TokenView, Seq<Seq<char>>> {
    match halves(value, '|') {
        None => Err(seq!["file token does not contain a digest separator"@]),
        Some((identity, digest)) => match halves(identity, ':') {
            None => Err(seq!["file token does not contain an identity separator"@]),
            Some((high, low)) => match hex_bytes(digest) {
                None => Err(seq!["file token digest is not hexadecimal"@, hex_refusal(digest)]),
                Some(bytes) => if bytes.len() != 32 {
                    Err(seq!["file token digest is not 32 bytes"@])
                } else if u64_value(high) is None {
                    Err(seq!["file token identity prefix is not an integer"@, u64_refusal(high)])
                } else if u64_value(low) is None {
                    Err(seq!["file token identity suffix is not an integer"@, u64_refusal(low)])
                } else {
                    Ok(
                        TokenView {
                            identity_high: u64_value(high)->0 as u64,
                            identity_low: u64_value(low)->0 as u64,
                            digest: bytes,
                        },
                    )
                },
            },
        },
    }
}

impl FileToken {
    /// Whether two tokens are the same.
    pub fn same(&self, other: &Self) -> (r: bool)
        ensures
            r == (self@ == other@),
    {
        self.identity_high == other.identity_high && self.identity_low == other.identity_low
            && self.same_contents(other)
    }

    /// Whether two tokens stand for the same content.
    pub fn same_contents(&self, other: &Self) -> (r: bool)
        ensures
            r == (self@.digest == other@.digest),
    {
        same_bytes(self.digest.as_slice(), other.digest.as_slice())
    }

    /// Whether the token stands for these bytes.
    pub fn matches_bytes(&self, bytes: &[u8]) -> (r: bool)
        ensures
            r == (self@.digest == sha256(bytes@)),
    {
        let digest = sha256_digest(bytes);
        same_bytes(self.digest.as_slice(), digest.as_slice())
    }

    /// The text form of the token.
    pub fn to_text(&self) -> (r: String)
        ensures
            r@ == token_text(self@),
    {
        join5(
            decimal_text(self.identity_high).as_str(),
            ":",
            decimal_text(self.identity_low).as_str(),
            "|",
            hex_encode(self.digest.as_slice()).as_str(),
        )
    }

    /// The token that a text spells.
    pub fn from_str(value: &str) -> (r: Result<FileToken, Fault>)
        ensures
            match (r, token_reading(value@)) {
                (Ok(token), Ok(view)) => token@ == view,
                (Err(fault), Err(messages)) => fault@ == messages,
                _ => false,
            },
    {
        let chars = chars_of(value);
        let (identity, digest) = match split_once(chars.as_slice(), '|') {
            Some(parts) => parts,
            None => {
                return Err(Fault::of("file token does not contain a digest separator"));
            },
        };
        let (high, low) = match split_once(identity, ':') {
            Some(parts) => parts,
            None => {
                return Err(Fault::of("file token does not contain an identity separator"));
            },
        };
        let bytes = match hex_decode(text_of(digest).as_str()) {
            Ok(bytes) => bytes,
            Err(words) => {
                return Err(Fault::because("file token digest is not hexadecimal", words));
            },
        };
        if bytes.len() != 32 {
            return Err(Fault::of("file token digest is not 32 bytes"));
        }
        let identity_high = match parse_u64(high) {
            Some(n) => n,
            None => {
                return Err(
                    Fault::because(
                        "file token identity prefix is not an integer",
                        u64_words(text_of(high).as_str()),
                    ),
                );
            },
        };
        let identity_low = match parse_u64(low) {
            Some(n) => n,
            None => {
                return Err(
                    Fault::because(
                        "file token identity suffix is not an integer",
                        u64_words(text_of(low).as_str()),
                    ),
                );
            },
        };
        let digest = thirty_two(bytes.as_slice());
        let token = FileToken { identity_high, identity_low, digest };
        assert(token@.digest =~= bytes@);
        Ok(token)
    }
}

/// The 32 bytes of a slice as an array.
fn thirty_two(bytes: &[u8]) -> (r: [u8; 32])
    requires
        bytes@.len() == 32,
    ensures
        r@ == bytes@,
{
    let mut out: [u8; 32] = [0u8;32];
    let mut i: usize = 0;
    while i < 32
        invariant
            i <= 32,
            bytes@.len() == 32,
            forall|k: int| 0 <= k < i ==> out@[k] == bytes@[k],
        decreases 32 - i,
    {
        out[i] = bytes[i];
        i = i + 1;
    }
    assert(out@ =~= bytes@);
    out
}

/// Whether two runs of bytes are the same.
pub fn same_bytes(a: &[u8], b: &[u8]) -> (r: bool)
    ensures
        r == (a@ == b@),
{
    if a.len() != b.len() {
        return false;
    }
    let mut i: usize = 0;
    while i < a.len()
        invariant
            i <= a@.len() == b@.len(),
            forall|k: int| 0 <= k < i ==> a@[k] == b@[k],
        decreases a@.len() - i,
    {
        if a[i] != b[i] {
            return false;
        }
        i = i + 1;
    }
    assert(a@ =~= b@);
    true
}

/// Whether two names show the same.
pub fn same_sight(a: &Option<FileToken>, b: &Option<FileToken>) -> (r: bool)
    ensures
        r == (seen(*a) == seen(*b)),
{
    match (a, b) {
        (Some(x), Some(y)) => x.same(y),
        (None, None) => true,
        _ => false,
    }
}

/// Whether a name shows exactly this file.
pub fn shows(at: &Option<FileToken>, token: &FileToken) -> (r: bool)
    ensures
        r == (seen(*at) == Some(token@)),
{
    match at {
        Some(t) => t.same(token),
        None => false,
    }
}

/// Decoding the hexadecimal form of some bytes gives the bytes.
pub proof fn lemma_hex_round_trip(bytes: Seq<u8>)
    ensures
        hex_bytes(hex_text(bytes)) == Some(bytes),
{
    let text = hex_text(bytes);
    assert('0' as u32 == 48 && '9' as u32 == 57 && 'a' as u32 == 97 && 'z' as u32 == 122);
    assert forall|n: nat| n < 16 implies digit_value(#[trigger] hex_digit(n), 16) == Some(n) by {}
    assert forall|i: int| 0 <= i < text.len() implies #[trigger] digit_value(
        text[i],
        16,
    ) is Some by {
        let high = (bytes[i / 2] / 16) as nat;
        let low = (bytes[i / 2] % 16) as nat;
        assert(digit_value(hex_digit(high), 16) == Some(high));
        assert(digit_value(hex_digit(low), 16) == Some(low));
    }
    let back = hex_bytes(text)->0;
    assert forall|i: int| 0 <= i < bytes.len() implies back[i] == bytes[i] by {
        let high = (bytes[i] / 16) as nat;
        let low = (bytes[i] % 16) as nat;
        assert((2 * i) / 2 == i && (2 * i) % 2 == 0);
        assert((2 * i + 1) / 2 == i && (2 * i + 1) % 2 == 1);
        assert(text[2 * i] == hex_digit(high));
        assert(text[2 * i + 1] == hex_digit(low));
        assert(digit_value(hex_digit(high), 16) == Some(high));
        assert(digit_value(hex_digit(low), 16) == Some(low));
    }
    assert(back =~= bytes);
}

/// A run that holds no `c`, then `c`, then anything: the first `c` is there.
proof fn lemma_halves(a: Seq<char>, b: Seq<char>, c: char)
    requires
        forall|k: int| 0 <= k < a.len() ==> a[k] != c,
    ensures
        halves(a + seq![c] + b, c) == Some((a, b)),
{
    let s = a + seq![c] + b;
    lemma_until(s, CharClass::Just(c));
    let n = until(s, CharClass::Just(c));
    if n < a.len() {
        assert(s[n as int] == a[n as int]);
        assert(false);
    }
    assert(s[a.len() as int] == c);
    assert(n == a.len());
    assert(s.take(n as int) =~= a);
    assert(s.skip(n as int + 1) =~= b);
}

/// Reading back the text form of a token gives the token.
pub proof fn law_token_round_trip(token: FileToken)
    ensures
        token_reading(token_text(token@)) == Ok::<TokenView, Seq<Seq<char>>>(token@),
{
    let view = token@;
    let high = decimal(view.identity_high as nat);
    let low = decimal(view.identity_low as nat);
    let digest = hex_text(view.digest);
    reveal_strlit(":");
    reveal_strlit("|");
    assert(":"@ =~= seq![':']);
    assert("|"@ =~= seq!['|']);
    lemma_decimal_value(view.identity_high as nat);
    lemma_decimal_value(view.identity_low as nat);
    lemma_hex_round_trip(view.digest);
    assert(digit_value(':', 10) is None);
    assert(digit_value('|', 10) is None);
    assert forall|k: int| 0 <= k < high.len() implies high[k] != ':' && high[k] != '|' by {
        assert(digit_value(high[k], 10) is Some);
    }
    assert forall|k: int| 0 <= k < low.len() implies low[k] != '|' by {
        assert(digit_value(low[k], 10) is Some);
    }
    let identity = high + seq![':'] + low;
    lemma_halves(high, low, ':');
    assert forall|k: int| 0 <= k < identity.len() implies identity[k] != '|' by {
        if k < high.len() {
            assert(identity[k] == high[k]);
        } else if k > high.len() {
            assert(identity[k] == low[k - high.len() - 1]);
        }
    }
    lemma_halves(identity, digest, '|');
    assert(token_text(view) =~= identity + seq!['|'] + digest);
}

/// What identifies a file and shows whether it was changed.
#[derive(Clone, Copy, Debug, PartialEq, Eq, Structural)]
pub struct FileSnapshot {
    pub identity_high: u64,
    pub identity_low: u64,
    pub length: u64,
    pub changed_high: i64,
    pub changed_low: i64,
}

/// The token of a file whose content was read between two snapshots: an error
/// unless both snapshots are the same.
pub fn token_for_file(before: FileSnapshot, content: &[u8], after: FileSnapshot) -> (r: Result<
    FileToken,
    Fault,
>)
    ensures
        match r {
            Ok(token) => before == after && token@ == (TokenView {
                identity_high: after.identity_high,
                identity_low: after.identity_low,
                digest: sha256(content@),
            }),
            Err(fault) => before != after && fault@ == seq![
                "transaction file changed while it was hashed"@,
            ],
        },
{
    if before != after {
        return Err(Fault::of("transaction file changed while it was hashed"));
    }
    let digest = sha256_digest(content);
    let token = FileToken {
        identity_high: after.identity_high,
        identity_low: after.identity_low,
        digest,
    };
    assert(token@.digest =~= sha256(content@));
    Ok(token)
}

/// What a file removed exactly by its token left behind.
#[derive(Clone, Copy, Debug, PartialEq, Eq, Structural)]
pub enum RemoveExactOutcome {
    Removed,
    RemovedNamespaceDurabilityUnconfirmed,
}

/// What an exclusive creation left.
#[derive(Clone, Copy, Debug, PartialEq, Eq)]
pub enum CreateExactOutcome {
    Created(FileToken),
    CreatedNamespaceDurabilityUnconfirmed(FileToken),
}

impl CreateExactOutcome {
    /// The token of the created file, however certain it is to last.
    pub open spec fn token_of(self) -> FileToken {
        match self {
            CreateExactOutcome::Created(token) => token,
            CreateExactOutcome::CreatedNamespaceDurabilityUnconfirmed(token) => token,
        }
    }

    /// The token of the created file.
    pub fn token(&self) -> (r: &FileToken)
        ensures
            *r == self.token_of(),
    {
        match self {
            CreateExactOutcome::Created(token) => token,
            CreateExactOutcome::CreatedNamespaceDurabilityUnconfirmed(token) => token,
        }
    }
}

} // verus!
