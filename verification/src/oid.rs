//! Object ids, and the check-in hashes and stash numbers that they stand for.

use crate::digits::{parse_up_to, push_hex_fixed};
use crate::error::{FossilError, FossilErrorView};
use crate::text::{to_chars, to_text, trimmed, without_prefix};
use vstd::prelude::*;
use vstd::slice::slice_subrange;
use vstd::string::*;

verus! {

/// The length of a short hash.
pub const SHORT_SHA_LENGTH: usize = 7;

/// What the id of a stash begins with.
pub const FOSSIL_STASH_OID_PREFIX: &'static str = "f0551100";

/// Whether a text writes an object id: one to forty hexadecimal digits.
pub open spec fn is_oid_text(s: Seq<char>) -> bool {
    0 < s.len() <= 40 && forall|i: int| 0 <= i < s.len() ==> crate::digits::is_hex(#[trigger] s[i])
}

/// The digit at a place, zero behind the end.
pub open spec fn nibble(s: Seq<char>, p: int) -> nat {
    if p < s.len() {
        crate::digits::hex_value(s[p]).unwrap_or(0)
    } else {
        0
    }
}

/// The twenty bytes that a text of hexadecimal digits writes, filled with zeros
/// at the end.
pub open spec fn oid_bytes(s: Seq<char>) -> Seq<u8> {
    Seq::new(20, |i: int| (nibble(s, 2 * i) * 16 + nibble(s, 2 * i + 1)) as u8)
}

/// The forty hexadecimal digits of an id.
pub open spec fn oid_text(bytes: Seq<u8>) -> Seq<char> {
    Seq::new(
        40,
        |p: int|
            crate::digits::hex_digit(
                (if p % 2 == 0 {
                    bytes[p / 2] / 16
                } else {
                    bytes[p / 2] % 16
                }) as nat,
            ),
    )
}

/// An error of libgit2.
#[verifier::external_type_specification]
#[verifier::external_body]
pub struct ExGitError(git2::Error);

/// `git2::Oid::from_str` reads one to forty hexadecimal digits of either case,
/// the first digit into the high half of the first byte and so on, and leaves
/// the remaining bytes zero; on any other text it fails.
#[verifier::external_body]
fn git_oid_from_str(text: &str) -> (r: Result<[u8; 20], git2::Error>)
    ensures
        r is Ok <==> is_oid_text(text@),
        r matches Ok(bytes) ==> bytes@ == oid_bytes(text@),
{
    let oid = git2::Oid::from_str(text)?;
    let mut bytes = [0u8; 20];
    bytes.copy_from_slice(oid.as_bytes());
    Ok(bytes)
}

/// `git2::Oid::from_bytes` takes exactly twenty bytes and keeps them.
#[verifier::external_body]
fn git_oid_from_bytes(bytes: &[u8]) -> (r: Result<[u8; 20], git2::Error>)
    ensures
        r is Ok <==> bytes@.len() == 20,
        r matches Ok(copy) ==> copy@ == bytes@,
{
    let oid = git2::Oid::from_bytes(bytes)?;
    let mut copy = [0u8; 20];
    copy.copy_from_slice(oid.as_bytes());
    Ok(copy)
}

/// `git2::Oid` displays as its forty hexadecimal digits, in lower case.
#[verifier::external_body]
fn git_oid_to_string(bytes: &[u8; 20]) -> (r: String)
    ensures
        r@ == oid_text(bytes@),
{
    let oid = git2::Oid::from_bytes(bytes).expect("an object id has twenty bytes");
    oid.to_string()
}

/// `std::fmt::Formatter`: where a value is shown, and how. Nothing of it is known
/// here.
#[verifier::external_type_specification]
#[verifier::external_body]
pub struct ExFormatter<'a>(std::fmt::Formatter<'a>);

/// `std::fmt::Error`: the writer behind a formatter failed.
#[verifier::external_type_specification]
#[verifier::external_body]
pub struct ExFormatError(std::fmt::Error);

/// `std::fmt::Formatter::pad` shows a text in the width and with the padding that
/// the formatter asks for. Nothing is claimed of it: what is written, and whether
/// writing succeeds, is up to the formatter and the writer behind it.
pub assume_specification<'a>[ std::fmt::Formatter::<'a>::pad ](
    f: &mut std::fmt::Formatter<'a>,
    s: &str,
) -> Result<(), std::fmt::Error>;

/// An object id.
#[derive(Clone, Copy, Hash)]
pub struct Oid {
    bytes: [u8; 20],
}

impl View for Oid {
    type V = Seq<u8>;

    closed spec fn view(&self) -> Seq<u8> {
        self.bytes@
    }
}

impl DeepView for Oid {
    type V = Seq<u8>;

    open spec fn deep_view(&self) -> Seq<u8> {
        self@
    }
}

impl PartialEq for Oid {
    fn eq(&self, other: &Oid) -> (r: bool) {
        self.same_bytes(other)
    }
}

impl vstd::std_specs::cmp::PartialEqSpecImpl for Oid {
    open spec fn obeys_eq_spec() -> bool {
        true
    }

    open spec fn eq_spec(&self, other: &Oid) -> bool {
        self@ == other@
    }
}

impl Eq for Oid {

}

impl Default for Oid {
    /// The id of zeros.
    fn default() -> (r: Oid)
        ensures
            r@ == Seq::new(20, |i: int| 0u8),
    {
        let bytes: [u8; 20] = [0;20];
        assert(bytes@ == Seq::new(20, |i: int| 0u8));
        Oid { bytes }
    }
}

impl Oid {
    /// The id with the given twenty bytes.
    pub fn from_bytes(bytes: &[u8]) -> (r: Result<Oid, FossilError>)
        ensures
            crate::error::result_view(r) == (if bytes@.len() == 20 {
                Ok::<Seq<u8>, FossilErrorView>(bytes@)
            } else {
                Err(FossilErrorView::InvalidOidBytes)
            }),
    {
        match git_oid_from_bytes(bytes) {
            Ok(bytes) => Ok(Oid { bytes }),
            Err(_) => Err(FossilError::InvalidOidBytes),
        }
    }

    /// The id that the given hexadecimal digits write.
    pub fn from_str(text: &str) -> (r: Result<Oid, FossilError>)
        ensures
            crate::error::result_view(r) == (if is_oid_text(text@) {
                Ok::<Seq<u8>, FossilErrorView>(oid_bytes(text@))
            } else {
                Err(FossilErrorView::InvalidOidText)
            }),
    {
        match git_oid_from_str(text) {
            Ok(bytes) => Ok(Oid { bytes }),
            Err(_) => Err(FossilError::InvalidOidText),
        }
    }

    /// The id made of random bytes.
    pub fn random(bytes: [u8; 20]) -> (r: Oid)
        ensures
            r@ == bytes@,
    {
        Oid { bytes }
    }

    /// The bytes of the id.
    pub fn as_bytes(&self) -> (r: &[u8])
        ensures
            r@ == self@,
            r@.len() == 20,
    {
        self.bytes.as_slice()
    }

    /// Whether two ids have the same bytes.
    pub fn same_bytes(&self, other: &Oid) -> (r: bool)
        ensures
            r == (self@ == other@),
    {
        for i in 0..20usize
            invariant
                forall|j: int| 0 <= j < i ==> self.bytes@[j] == other.bytes@[j],
        {
            if self.bytes[i] != other.bytes[i] {
                assert(self@[i as int] != other@[i as int]);
                return false;
            }
        }
        assert(self@ =~= other@);
        true
    }

    /// Whether every byte is zero.
    pub fn is_zero(&self) -> (r: bool)
        ensures
            r == (forall|i: int| 0 <= i < 20 ==> self@[i] == 0),
    {
        for i in 0..20usize
            invariant
                forall|j: int| 0 <= j < i ==> self.bytes@[j] == 0,
        {
            if self.bytes[i] != 0 {
                assert(self@[i as int] != 0);
                return false;
            }
        }
        true
    }

    /// The forty digits of the id.
    pub fn to_string(&self) -> (r: String)
        ensures
            r@ == oid_text(self@),
    {
        git_oid_to_string(&self.bytes)
    }

    /// The first digits of the id.
    pub fn display_short(&self) -> (r: String)
        ensures
            r@ == oid_text(self@).take(SHORT_SHA_LENGTH as int),
    {
        let all = self.to_string();
        let chars = to_chars(all.as_str());
        let short = slice_subrange(chars.as_slice(), 0, SHORT_SHA_LENGTH);
        to_text(short)
    }
}

impl std::fmt::Debug for Oid {
    /// Shows the forty digits of the id. They are what [`Oid::to_string`] gives;
    /// the result is what the formatter replies.
    fn fmt(&self, f: &mut std::fmt::Formatter<'_>) -> (r: Result<(), std::fmt::Error>) {
        f.pad(self.to_string().as_str())
    }
}

impl std::str::FromStr for Oid {
    type Err = FossilError;

    fn from_str(text: &str) -> (r: Result<Oid, FossilError>)
        ensures
            crate::error::result_view(r) == (if is_oid_text(text@) {
                Ok::<Seq<u8>, FossilErrorView>(oid_bytes(text@))
            } else {
                Err(FossilErrorView::InvalidOidText)
            }),
    {
        Oid::from_str(text)
    }
}

impl<'a> TryFrom<&'a str> for Oid {
    type Error = FossilError;

    fn try_from(text: &'a str) -> (r: Result<Oid, FossilError>)
        ensures
            crate::error::result_view(r) == (if is_oid_text(text@) {
                Ok::<Seq<u8>, FossilErrorView>(oid_bytes(text@))
            } else {
                Err(FossilErrorView::InvalidOidText)
            }),
    {
        Oid::from_str(text)
    }
}

impl<'a> vstd::std_specs::convert::TryFromSpecImpl<&'a str> for Oid {
    open spec fn obeys_try_from_spec() -> bool {
        false
    }

    open spec fn try_from_spec(text: &'a str) -> Result<Oid, FossilError> {
        arbitrary()
    }
}

/// The number that bytes write, the least significant byte first.
pub open spec fn little_endian(bytes: Seq<u8>) -> nat
    decreases bytes.len(),
{
    if bytes.len() == 0 {
        0
    } else {
        bytes[0] as nat + 256 * little_endian(bytes.skip(1))
    }
}

/// The number that bytes write, the most significant byte first.
pub open spec fn big_endian(bytes: Seq<u8>) -> nat
    decreases bytes.len(),
{
    if bytes.len() == 0 {
        0
    } else {
        256 * big_endian(bytes.drop_last()) + bytes.last() as nat
    }
}

/// `u32::from_ne_bytes` reads four bytes in the byte order of the machine,
/// which is one of the two.
#[verifier::external_body]
fn u32_from_bytes(bytes: [u8; 4]) -> (r: u32)
    ensures
        r == little_endian(bytes@) || r == big_endian(bytes@),
{
    u32::from_ne_bytes(bytes)
}

/// `u64::from_ne_bytes` reads eight bytes in the byte order of the machine,
/// which is one of the two.
#[verifier::external_body]
fn u64_from_bytes(bytes: [u8; 8]) -> (r: u64)
    ensures
        r == little_endian(bytes@) || r == big_endian(bytes@),
{
    u64::from_ne_bytes(bytes)
}

impl From<Oid> for u32 {
    /// The first four bytes, in the byte order of the machine.
    fn from(oid: Oid) -> (r: u32)
        ensures
            r == little_endian(oid@.take(4)) || r == big_endian(oid@.take(4)),
    {
        let b = oid.bytes;
        let first = [b[0], b[1], b[2], b[3]];
        assert(first@ =~= oid@.take(4));
        u32_from_bytes(first)
    }
}

impl vstd::std_specs::convert::FromSpecImpl<Oid> for u32 {
    open spec fn obeys_from_spec() -> bool {
        false
    }

    open spec fn from_spec(oid: Oid) -> u32 {
        arbitrary()
    }
}

impl From<Oid> for usize {
    /// The first eight bytes, in the byte order of the machine, as far as they
    /// fit.
    fn from(oid: Oid) -> (r: usize)
        ensures
            r == little_endian(oid@.take(8)) as usize || r == big_endian(oid@.take(8)) as usize,
    {
        let b = oid.bytes;
        let first = [b[0], b[1], b[2], b[3], b[4], b[5], b[6], b[7]];
        assert(first@ =~= oid@.take(8));
        u64_from_bytes(first) as usize
    }
}

impl vstd::std_specs::convert::FromSpecImpl<Oid> for usize {
    open spec fn obeys_from_spec() -> bool {
        false
    }

    open spec fn from_spec(oid: Oid) -> usize {
        arbitrary()
    }
}

/// The part of a check-in hash that an id can hold.
pub open spec fn hash_head(hash: Seq<char>) -> Seq<char> {
    let h = crate::text::trim(hash);
    if h.len() >= 40 {
        h.take(40)
    } else {
        h
    }
}

/// The id of a check-in hash.
pub open spec fn oid_of_hash(hash: Seq<char>) -> Option<Seq<u8>> {
    if is_oid_text(hash_head(hash)) {
        Some(oid_bytes(hash_head(hash)))
    } else {
        None
    }
}

/// The id of a check-in hash: of its first forty digits if it is longer.
pub fn fossil_oid_from_hash(hash: &str) -> (r: Option<Oid>)
    ensures
        r.deep_view() == oid_of_hash(hash@),
{
    let chars = to_chars(hash);
    let h = trimmed(chars.as_slice());
    let head = if h.len() >= 40 {
        let head = slice_subrange(h, 0, 40);
        assert(head@ == h@.take(40));
        head
    } else {
        h
    };
    match Oid::from_str(to_text(head).as_str()) {
        Ok(oid) => Some(oid),
        Err(_) => None,
    }
}

/// The digits of the id of a stash.
pub open spec fn stash_oid_text(stash_id: nat) -> Seq<char> {
    FOSSIL_STASH_OID_PREFIX@ + crate::digits::hex_fixed(stash_id, 32)
}

/// The id of the stash with the given number.
pub fn fossil_stash_oid(stash_id: usize) -> (r: Result<Oid, FossilError>)
    ensures
        crate::error::result_view(r) == Ok::<Seq<u8>, FossilErrorView>(
            oid_bytes(stash_oid_text(stash_id as nat)),
        ),
{
    let mut text = FOSSIL_STASH_OID_PREFIX.to_owned();
    push_hex_fixed(&mut text, stash_id as u64, 32);
    proof {
        lemma_stash_oid_text(stash_id as nat);
    }
    Oid::from_str(text.as_str())
}

/// The number in an optional result.
pub open spec fn opt_nat(n: Option<usize>) -> Option<nat> {
    match n {
        Some(n) => Some(n as nat),
        None => None,
    }
}

/// The number of the stash with the given id.
pub open spec fn stash_id(oid: Seq<char>) -> Option<nat> {
    if oid.len() != 40 {
        None
    } else {
        match crate::text::strip_prefix(oid, FOSSIL_STASH_OID_PREFIX@) {
            Some(suffix) => crate::digits::parse_number(suffix, 16, usize::MAX as nat),
            None => None,
        }
    }
}

/// The number of the stash whose id has the given digits.
pub fn fossil_stash_id_from_oid(oid: &str) -> (r: Option<usize>)
    ensures
        opt_nat(r) == stash_id(oid@),
{
    let chars = to_chars(oid);
    if chars.len() != 40 {
        return None;
    }
    match without_prefix(chars.as_slice(), FOSSIL_STASH_OID_PREFIX) {
        Some(suffix) => match parse_up_to(suffix, 16, usize::MAX as u64) {
            Some(id) => Some(id as usize),
            None => None,
        },
        None => None,
    }
}

/// Whether `c` is a hexadecimal digit in lower case.
pub open spec fn is_lower_hex(c: char) -> bool {
    '0' <= c <= '9' || 'a' <= c <= 'f'
}

proof fn lemma_prefix()
    ensures
        FOSSIL_STASH_OID_PREFIX@ == seq!['f', '0', '5', '5', '1', '1', '0', '0'],
{
    reveal_strlit("f0551100");
    assert(FOSSIL_STASH_OID_PREFIX@ =~= seq!['f', '0', '5', '5', '1', '1', '0', '0']);
}

proof fn lemma_hex_fixed_lower(n: nat, width: nat)
    ensures
        forall|i: int|
            0 <= i < crate::digits::hex_fixed(n, width).len() ==> is_lower_hex(
                #[trigger] crate::digits::hex_fixed(n, width)[i],
            ),
    decreases width,
{
    if width > 0 {
        lemma_hex_fixed_lower(n / 16, (width - 1) as nat);
        let head = crate::digits::hex_fixed(n / 16, (width - 1) as nat);
        let s = crate::digits::hex_fixed(n, width);
        assert forall|i: int| 0 <= i < s.len() implies is_lower_hex(#[trigger] s[i]) by {
            if i < head.len() {
                assert(s[i] == head[i]);
            }
        }
    }
}

proof fn lemma_stash_oid_text(id: nat)
    ensures
        stash_oid_text(id).len() == 40,
        is_oid_text(stash_oid_text(id)),
        forall|i: int| 0 <= i < 40 ==> is_lower_hex(#[trigger] stash_oid_text(id)[i]),
{
    lemma_prefix();
    crate::digits::lemma_hex_fixed(id, 32);
    lemma_hex_fixed_lower(id, 32);
    let s = stash_oid_text(id);
    let tail = crate::digits::hex_fixed(id, 32);
    assert forall|i: int| 0 <= i < 40 implies is_lower_hex(#[trigger] s[i]) by {
        if i >= 8 {
            assert(s[i] == tail[i - 8]);
        }
    }
    assert forall|i: int| 0 <= i < s.len() implies crate::digits::is_hex(#[trigger] s[i]) by {
        assert(is_lower_hex(s[i]));
    }
}

/// Law: reading the digits of an id gives the id back.
pub proof fn law_oid_is_read_back(bytes: Seq<u8>)
    requires
        bytes.len() == 20,
    ensures
        is_oid_text(oid_text(bytes)),
        oid_bytes(oid_text(bytes)) == bytes,
{
    let s = oid_text(bytes);
    assert forall|i: int| 0 <= i < s.len() implies crate::digits::is_hex(#[trigger] s[i]) by {
        let d = (if i % 2 == 0 {
            bytes[i / 2] / 16
        } else {
            bytes[i / 2] % 16
        }) as nat;
        crate::digits::lemma_hex_digit(d);
    }
    assert forall|i: int| 0 <= i < 20 implies #[trigger] oid_bytes(s)[i] == bytes[i] by {
        let b = bytes[i];
        crate::digits::lemma_hex_digit((b / 16) as nat);
        crate::digits::lemma_hex_digit((b % 16) as nat);
        assert((2 * i) / 2 == i && (2 * i) % 2 == 0);
        assert((2 * i + 1) / 2 == i && (2 * i + 1) % 2 == 1);
        assert(nibble(s, 2 * i) == b / 16);
        assert(nibble(s, 2 * i + 1) == b % 16);
    }
    assert(oid_bytes(s) =~= bytes);
}

/// Law: forty digits in lower case are written again as they were read.
pub proof fn law_oid_text_is_written_back(s: Seq<char>)
    requires
        s.len() == 40,
        forall|i: int| 0 <= i < 40 ==> is_lower_hex(#[trigger] s[i]),
    ensures
        is_oid_text(s),
        oid_text(oid_bytes(s)) == s,
{
    assert forall|i: int| 0 <= i < s.len() implies crate::digits::is_hex(#[trigger] s[i]) by {
        assert(is_lower_hex(s[i]));
    }
    let t = oid_text(oid_bytes(s));
    assert forall|p: int| 0 <= p < 40 implies #[trigger] t[p] == s[p] by {
        let i = p / 2;
        assert(is_lower_hex(s[2 * i]) && is_lower_hex(s[2 * i + 1]));
        let h = nibble(s, 2 * i);
        let l = nibble(s, 2 * i + 1);
        assert(h < 16 && l < 16);
        let b = oid_bytes(s)[i];
        assert(b == h * 16 + l);
        assert(b / 16 == h && b % 16 == l);
        if p % 2 == 0 {
            assert(p == 2 * i);
        } else {
            assert(p == 2 * i + 1);
        }
    }
    assert(t =~= s);
}

/// Law: the number of a stash is found again in the digits of its id.
pub proof fn law_stash_id_is_read_back(id: usize)
    ensures
        stash_id(oid_text(oid_bytes(stash_oid_text(id as nat)))) == Some(id as nat),
{
    let s = stash_oid_text(id as nat);
    lemma_stash_oid_text(id as nat);
    law_oid_text_is_written_back(s);
    lemma_prefix();
    let tail = crate::digits::hex_fixed(id as nat, 32);
    crate::digits::lemma_hex_fixed(id as nat, 32);
    crate::digits::lemma_word_fits_hex(id as u64, 32);
    assert(s.take(8) == FOSSIL_STASH_OID_PREFIX@);
    assert(s.skip(8) == tail);
    lemma_hex_fixed_lower(id as nat, 32);
    assert(is_lower_hex(tail[0]));
    assert(crate::digits::unsigned_digits(tail) == tail);
}

/// Law: stashes with different numbers have different ids.
pub proof fn law_stash_oids_differ(a: usize, b: usize)
    requires
        oid_bytes(stash_oid_text(a as nat)) == oid_bytes(stash_oid_text(b as nat)),
    ensures
        a == b,
{
    law_stash_id_is_read_back(a);
    law_stash_id_is_read_back(b);
}

} // verus!
