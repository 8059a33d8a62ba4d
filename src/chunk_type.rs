use vstd::prelude::*;
use vstd::std_specs::cmp::{PartialEqSpec, PartialEqSpecImpl};
use vstd::std_specs::convert::{TryFromSpec, TryFromSpecImpl};

verus! {

/// An ASCII uppercase letter, `A` to `Z`, tested on the raw byte value.
pub open spec fn is_upper(b: u8) -> bool {
    65 <= b <= 90
}

/// An ASCII letter, `A` to `Z` or `a` to `z`.
pub open spec fn is_letter(b: u8) -> bool {
    is_upper(b) || (97 <= b <= 122)
}

/// Every byte of `b` is an ASCII letter.
pub open spec fn all_letters(b: Seq<u8>) -> bool {
    forall|i: int| 0 <= i < b.len() ==> is_letter(#[trigger] b[i])
}

fn byte_is_upper(b: u8) -> (r: bool)
    ensures
        r == is_upper(b),
{
    65 <= b && b <= 90
}

fn byte_is_letter(b: u8) -> (r: bool)
    ensures
        r == is_letter(b),
{
    byte_is_upper(b) || (97 <= b && b <= 122)
}

/// A text that names a chunk type: exactly four ASCII letters.
pub open spec fn is_chunk_text(s: Seq<char>) -> bool {
    &&& s.len() == 4
    &&& forall|i: int|
        0 <= i < s.len() ==> ('A' <= #[trigger] s[i] <= 'Z' || 'a' <= s[i] <= 'z')
}

/// Four ASCII letters are ASCII characters.
proof fn lemma_chunk_text_is_ascii(s: Seq<char>)
    ensures
        is_chunk_text(s) ==> vstd::utf8::is_ascii_chars(s),
{
}

/// The byte value of each character of an ASCII text.
pub open spec fn text_bytes(s: Seq<char>) -> Seq<u8> {
    s.map_values(|c: char| c as u8)
}

/// Every byte of `b` is below 128, so `b` is ASCII.
pub open spec fn is_ascii_bytes(b: Seq<u8>) -> bool {
    forall|i: int| 0 <= i < b.len() ==> #[trigger] b[i] < 128
}

/// The characters whose values are the ASCII bytes `b`.
pub open spec fn ascii_text(b: Seq<u8>) -> Seq<char> {
    b.map_values(|x: u8| x as char)
}

/// The text that lossy UTF-8 decoding makes of `b`.
pub uninterp spec fn utf8_lossy_of(b: Seq<u8>) -> Seq<char>;

/// Relies on `String::from_utf8_lossy`: it decodes `b` as UTF-8, putting the
/// replacement character in place of each invalid sequence. ASCII bytes are
/// valid UTF-8 and decode to the characters of the same values.
#[verifier::external_body]
fn utf8_lossy(b: &[u8; 4]) -> (r: String)
    ensures
        r@ == utf8_lossy_of(b@),
        is_ascii_bytes(b@) ==> r@ == ascii_text(b@),
{
    String::from_utf8_lossy(b).into_owned()
}

/// A four-byte chunk type identifier. Any four bytes form a value of the type;
/// whether they make a well-formed identifier is a property that can be queried.
#[derive(Debug, Clone, Copy)]
pub struct ChunkType {
    value: [u8; 4],
}

/// Why a chunk type could not be built.
#[derive(Debug, Clone, Copy, PartialEq, Eq, Structural)]
pub enum ChunkTypeError {
    /// The text is not exactly four ASCII letters.
    InvalidInput,
}

impl View for ChunkType {
    type V = Seq<u8>;

    closed spec fn view(&self) -> Seq<u8> {
        self.value@
    }
}

/// Two identifiers are equal exactly when their four bytes are.
impl PartialEq for ChunkType {
    fn eq(&self, other: &ChunkType) -> (r: bool) {
        let mut i: usize = 0;
        while i < 4
            invariant
                i <= 4,
                self@.len() == 4,
                other@.len() == 4,
                forall|j: int| 0 <= j < i ==> self@[j] == other@[j],
            decreases 4 - i,
        {
            if self.value[i] != other.value[i] {
                return false;
            }
            i = i + 1;
        }
        assert(self@ =~= other@);
        true
    }
}

impl PartialEqSpecImpl for ChunkType {
    open spec fn obeys_eq_spec() -> bool {
        true
    }

    open spec fn eq_spec(&self, other: &ChunkType) -> bool {
        self@ == other@
    }
}

impl Eq for ChunkType {}

impl TryFrom<[u8; 4]> for ChunkType {
    type Error = ChunkTypeError;

    /// Wraps any four bytes; this never fails.
    fn try_from(value: [u8; 4]) -> (r: Result<ChunkType, ChunkTypeError>)
        ensures
            r matches Ok(c) && c@ == value@,
    {
        Ok(ChunkType { value })
    }
}

impl TryFromSpecImpl<[u8; 4]> for ChunkType {
    open spec fn obeys_try_from_spec() -> bool {
        true
    }

    closed spec fn try_from_spec(value: [u8; 4]) -> Result<ChunkType, ChunkTypeError> {
        Ok(ChunkType { value })
    }
}

impl core::str::FromStr for ChunkType {
    type Err = ChunkTypeError;

    /// Same as `ChunkType::from_text`.
    fn from_str(s: &str) -> (r: Result<ChunkType, ChunkTypeError>)
        ensures
            r is Ok <==> is_chunk_text(s@),
            r matches Ok(c) ==> c@ == text_bytes(s@) && all_letters(c@),
            r matches Err(e) ==> e == ChunkTypeError::InvalidInput,
    {
        ChunkType::from_text(s)
    }
}

impl ChunkType {
    /// Builds an identifier from text, which must be exactly four ASCII letters;
    /// its bytes are the letters' byte values, in order.
    pub fn from_text(s: &str) -> (r: Result<ChunkType, ChunkTypeError>)
        ensures
            r is Ok <==> is_chunk_text(s@),
            r matches Ok(c) ==> c@ == text_bytes(s@) && all_letters(c@),
            r matches Err(e) ==> e == ChunkTypeError::InvalidInput,
    {
        if !s.is_ascii() {
            proof {
                lemma_chunk_text_is_ascii(s@);
            }
            return Err(ChunkTypeError::InvalidInput);
        }
        proof {
            vstd::string::is_ascii_spec_bytes(s);
        }
        let b: &[u8] = s.as_bytes();
        if b.len() != 4 {
            return Err(ChunkTypeError::InvalidInput);
        }
        let mut i: usize = 0;
        while i < 4
            invariant
                i <= 4,
                b@.len() == 4,
                s@.len() == 4,
                forall|j: int| 0 <= j < 4 ==> #[trigger] b@[j] == s@[j] as u8,
                forall|j: int| 0 <= j < 4 ==> (s@[j] as int) < 128,
                forall|j: int| 0 <= j < i ==> is_letter(#[trigger] b@[j]),
            decreases 4 - i,
        {
            if !byte_is_letter(b[i]) {
                return Err(ChunkTypeError::InvalidInput);
            }
            i = i + 1;
        }
        let c = ChunkType { value: [b[0], b[1], b[2], b[3]] };
        assert(c@ =~= text_bytes(s@));
        Ok(c)
    }

    /// The identifier as text, decoding its bytes as UTF-8 with replacement
    /// characters for invalid sequences.
    pub fn to_string(&self) -> (r: String)
        ensures
            r@ == utf8_lossy_of(self@),
            is_ascii_bytes(self@) ==> r@ == ascii_text(self@),
    {
        utf8_lossy(&self.value)
    }

    /// The four bytes, verbatim.
    pub fn bytes(&self) -> (r: [u8; 4])
        ensures
            r@ == self@,
    {
        self.value
    }

    /// Whether byte 0 is uppercase: the chunk is critical.
    pub fn is_critical(&self) -> (r: bool)
        ensures
            r == is_upper(self@[0]),
    {
        byte_is_upper(self.value[0])
    }

    /// Whether byte 1 is uppercase: the chunk type is public.
    pub fn is_public(&self) -> (r: bool)
        ensures
            r == is_upper(self@[1]),
    {
        byte_is_upper(self.value[1])
    }

    /// Whether byte 2 is uppercase: the reserved bit has its current required state.
    pub fn is_reserved_bit_valid(&self) -> (r: bool)
        ensures
            r == is_upper(self@[2]),
    {
        byte_is_upper(self.value[2])
    }

    /// Whether byte 3 is not uppercase: the chunk is safe to copy.
    pub fn is_safe_to_copy(&self) -> (r: bool)
        ensures
            r == !is_upper(self@[3]),
    {
        !byte_is_upper(self.value[3])
    }

    /// Whether the reserved bit is valid and all four bytes are ASCII letters.
    pub fn is_valid(&self) -> (r: bool)
        ensures
            r == (is_upper(self@[2]) && all_letters(self@)),
    {
        let mut i: usize = 0;
        while i < 4
            invariant
                i <= 4,
                self@.len() == 4,
                forall|j: int| 0 <= j < i ==> is_letter(#[trigger] self@[j]),
            decreases 4 - i,
        {
            if !byte_is_letter(self.value[i]) {
                return false;
            }
            i = i + 1;
        }
        byte_is_upper(self.value[2])
    }
}

/// Any four bytes make an identifier, and the identifier holds exactly them.
pub proof fn lemma_from_bytes_keeps_bytes(value: [u8; 4])
    ensures
        <ChunkType as TryFromSpec<[u8; 4]>>::try_from_spec(value) matches Ok(c) && c@
            == value@ && c@.len() == 4,
{
}

/// A text with a character that is not an ASCII letter is no chunk type text,
/// so building an identifier from it fails.
pub proof fn lemma_non_letter_rejected(s: Seq<char>, i: int)
    requires
        0 <= i < s.len(),
        !('A' <= s[i] <= 'Z' || 'a' <= s[i] <= 'z'),
    ensures
        !is_chunk_text(s),
{
}

/// The bytes of four ASCII letters are ASCII, and reading them back as text
/// gives the letters: rendering an identifier built from text gives that text.
pub proof fn lemma_text_round_trip(s: Seq<char>)
    requires
        is_chunk_text(s),
    ensures
        is_ascii_bytes(text_bytes(s)),
        ascii_text(text_bytes(s)) == s,
{
    assert(ascii_text(text_bytes(s)) =~= s);
}

/// Four letter bytes render as ASCII text of four letters, and parsing that
/// text gives the same bytes back.
pub proof fn lemma_render_parse_round_trip(b: Seq<u8>)
    requires
        b.len() == 4,
        all_letters(b),
    ensures
        is_ascii_bytes(b),
        is_chunk_text(ascii_text(b)),
        text_bytes(ascii_text(b)) == b,
{
    assert(text_bytes(ascii_text(b)) =~= b);
}

/// Equality of identifiers is reflexive, symmetric and transitive, and holds
/// exactly when all four bytes match.
pub proof fn lemma_eq_is_bytewise(a: ChunkType, b: ChunkType, c: ChunkType)
    ensures
        PartialEqSpec::eq_spec(&a, &a),
        PartialEqSpec::eq_spec(&a, &b) == PartialEqSpec::eq_spec(&b, &a),
        PartialEqSpec::eq_spec(&a, &b) && PartialEqSpec::eq_spec(&b, &c) ==> PartialEqSpec::eq_spec(&a, &c),
        PartialEqSpec::eq_spec(&a, &b) <==> (forall|i: int| 0 <= i < 4 ==> a@[i] == b@[i]),
        a@.len() == 4,
{
    if forall|i: int| 0 <= i < 4 ==> a@[i] == b@[i] {
        assert(a@ =~= b@);
    }
}

} // verus!
