//! Address value types: IPv4 addresses, 48-bit MAC addresses and their
//! EUI-64 extension, with parsing, formatting and mutual conversion.
use vstd::prelude::*;
use vstd::string::StrSliceExecFns;

use crate::hex::{
    hex_digit_value, hex_digit_value_exec, is_hex_digit, is_upper_hex_digit,
    lemma_upper_hex_digit_round_trip, lemma_upper_hex_digit_value, push_char, push_hex_pair,
    upper_hex_digit,
};

verus! {

/// Error for malformed address input: a byte slice of the wrong length, or
/// a string that does not match the canonical hex-pair pattern. Carries the
/// offending value.
#[derive(Debug)]
pub enum AddressParseError {
    WrongLength(usize),
    BadPattern(String),
}

/// An IPv4 address held as its four dotted-quad octets.
#[derive(Clone, Copy, Debug, PartialEq, Eq, Structural, Hash)]
pub struct Ipv4Address {
    o0: u8,
    o1: u8,
    o2: u8,
    o3: u8,
}

impl View for Ipv4Address {
    type V = Seq<u8>;

    closed spec fn view(&self) -> Seq<u8> {
        seq![self.o0, self.o1, self.o2, self.o3]
    }
}

impl Ipv4Address {
    /// Builds the address `a.b.c.d`.
    pub fn new(a: u8, b: u8, c: u8, d: u8) -> (r: Ipv4Address)
        ensures
            r@ == seq![a, b, c, d],
    {
        Ipv4Address { o0: a, o1: b, o2: c, o3: d }
    }

    /// The four octets, most significant first.
    pub fn octets(&self) -> (r: [u8; 4])
        ensures
            r@ == self@,
    {
        let r = [self.o0, self.o1, self.o2, self.o3];
        proof {
            assert(r@ =~= self@);
        }
        r
    }
}

/// An IPv4 address always views as its 4 octets.
pub broadcast proof fn lemma_ipv4_view_len(a: Ipv4Address)
    ensures
        (#[trigger] a@).len() == 4,
{
}

/// Two IPv4 addresses with the same octets are the same address.
pub proof fn lemma_ipv4_eq_by_view(a: Ipv4Address, b: Ipv4Address)
    requires
        a@ == b@,
    ensures
        a == b,
{
    assert(a.o0 == a@[0] && a.o1 == a@[1] && a.o2 == a@[2] && a.o3 == a@[3]);
    assert(b.o0 == b@[0] && b.o1 == b@[1] && b.o2 == b@[2] && b.o3 == b@[3]);
}

/// The textual shape of `n` two-digit hex pairs separated by `:` or `-`.
pub open spec fn hex_pairs_shape(s: Seq<char>, n: int) -> bool {
    &&& s.len() == 3 * n - 1
    &&& forall|i: int|
        0 <= i < s.len() ==> (if i % 3 == 2 {
            (#[trigger] s[i]) == ':' || s[i] == '-'
        } else {
            is_hex_digit(s[i])
        })
}

/// The canonical textual shape of a MAC address: six hex pairs.
pub open spec fn mac_str_shape(s: Seq<char>) -> bool {
    hex_pairs_shape(s, 6)
}

/// The canonical textual shape of an EUI-64: eight hex pairs.
pub open spec fn eui64_str_shape(s: Seq<char>) -> bool {
    hex_pairs_shape(s, 8)
}

/// The bytes denoted by a string of `n` hex pairs.
pub open spec fn hex_pairs_bytes(s: Seq<char>, n: int) -> Seq<u8> {
    Seq::new(n as nat, |k: int| (hex_digit_value(s[3 * k]) * 16 + hex_digit_value(s[3 * k + 1])) as u8)
}

/// The canonical display form of a byte sequence: uppercase hex pairs
/// separated by colons.
pub open spec fn hex_pairs_display(b: Seq<u8>) -> Seq<char>
    recommends
        b.len() >= 1,
{
    Seq::new((3 * b.len() - 1) as nat, |i: int| if i % 3 == 2 {
        ':'
    } else if i % 3 == 0 {
        upper_hex_digit(b[i / 3] / 16)
    } else {
        upper_hex_digit(b[i / 3] % 16)
    })
}

/// The display form of a MAC address.
pub open spec fn mac_display(b: Seq<u8>) -> Seq<char>
    recommends
        b.len() == 6,
{
    hex_pairs_display(b)
}

/// A hex-pair string in the canonical spelling that display produces:
/// uppercase digits, colon separators.
pub open spec fn canonical_hex_pairs(s: Seq<char>) -> bool {
    forall|i: int|
        0 <= i < s.len() ==> (if i % 3 == 2 {
            (#[trigger] s[i]) == ':'
        } else {
            is_upper_hex_digit(s[i])
        })
}

/// Displaying a byte sequence always yields a well-shaped, canonical
/// hex-pair string, and parsing that string yields the bytes back.
pub proof fn lemma_display_then_parse(b: Seq<u8>, n: int)
    requires
        b.len() == n,
        n >= 1,
    ensures
        hex_pairs_shape(hex_pairs_display(b), n),
        canonical_hex_pairs(hex_pairs_display(b)),
        hex_pairs_bytes(hex_pairs_display(b), n) == b,
{
    let s = hex_pairs_display(b);
    assert forall|i: int| 0 <= i < s.len() implies (if i % 3 == 2 {
        (#[trigger] s[i]) == ':'
    } else {
        is_upper_hex_digit(s[i]) && is_hex_digit(s[i])
    }) by {
        if i % 3 != 2 {
            if i % 3 == 0 {
                lemma_upper_hex_digit_value(b[i / 3] / 16);
            } else {
                lemma_upper_hex_digit_value(b[i / 3] % 16);
            }
        }
    }
    assert forall|k: int| 0 <= k < n implies hex_pairs_bytes(s, n)[k] == b[k] by {
        assert((3 * k) % 3 == 0 && (3 * k + 1) % 3 == 1) by (nonlinear_arith);
        assert((3 * k) / 3 == k && (3 * k + 1) / 3 == k) by (nonlinear_arith);
        lemma_upper_hex_digit_value(b[k] / 16);
        lemma_upper_hex_digit_value(b[k] % 16);
        assert(hex_digit_value(s[3 * k]) == b[k] / 16);
        assert(hex_digit_value(s[3 * k + 1]) == b[k] % 16);
    }
    assert(hex_pairs_bytes(s, n) =~= b);
}

/// Parsing a canonical hex-pair string and displaying the bytes yields the
/// very same string.
pub proof fn lemma_parse_then_display(s: Seq<char>, n: int)
    requires
        hex_pairs_shape(s, n),
        canonical_hex_pairs(s),
        n >= 1,
    ensures
        hex_pairs_display(hex_pairs_bytes(s, n)) == s,
{
    let b = hex_pairs_bytes(s, n);
    let t = hex_pairs_display(b);
    assert(b.len() == n && t.len() == s.len());
    assert forall|i: int| 0 <= i < s.len() implies t[i] == s[i] by {
        if i % 3 == 2 {
            assert(s[i] == ':');
        } else {
            let k = i / 3;
            assert(3 * k == i || 3 * k + 1 == i) by (nonlinear_arith)
                requires
                    i >= 0,
                    k == i / 3,
                    i % 3 == 0 || i % 3 == 1,
            ;
            assert((3 * k) % 3 == 0 && (3 * k + 1) % 3 == 1 && 0 <= 3 * k && 3 * k + 1 < 3 * n
                - 1) by (nonlinear_arith)
                requires
                    0 <= k < n,
            ;
            lemma_upper_hex_digit_round_trip(s[3 * k]);
            lemma_upper_hex_digit_round_trip(s[3 * k + 1]);
            let hi = hex_digit_value(s[3 * k]);
            let lo = hex_digit_value(s[3 * k + 1]);
            assert(b[k] == hi * 16 + lo);
            assert(b[k] / 16 == hi && b[k] % 16 == lo) by (nonlinear_arith)
                requires
                    hi < 16,
                    lo < 16,
                    b[k] == hi * 16 + lo,
            ;
        }
    }
    assert(t =~= s);
}

/// A 48-bit link-layer (MAC) address.
#[derive(Clone, Copy, Debug, Hash)]
pub struct MacAddress {
    addr: [u8; 6],
}

impl View for MacAddress {
    type V = Seq<u8>;

    closed spec fn view(&self) -> Seq<u8> {
        self.addr@
    }
}

impl PartialEq for MacAddress {
    /// Equality of the canonical string representations, which for 6-byte
    /// values coincides with equality of the raw bytes.
    fn eq(&self, other: &MacAddress) -> (r: bool)
        ensures
            r == (*self == *other),
    {
        let r = self.addr[0] == other.addr[0] && self.addr[1] == other.addr[1]
            && self.addr[2] == other.addr[2] && self.addr[3] == other.addr[3]
            && self.addr[4] == other.addr[4] && self.addr[5] == other.addr[5];
        proof {
            if r {
                assert(self.addr =~= other.addr);
            }
        }
        r
    }
}

impl Eq for MacAddress {

}

impl vstd::std_specs::cmp::PartialEqSpecImpl for MacAddress {
    open spec fn obeys_eq_spec() -> bool {
        true
    }

    open spec fn eq_spec(&self, other: &MacAddress) -> bool {
        *self == *other
    }
}

/// A 64-bit extended unique identifier derived from a MAC address.
#[derive(Clone, Copy, Debug, Hash)]
pub struct Eui64 {
    addr: [u8; 8],
}

impl View for Eui64 {
    type V = Seq<u8>;

    closed spec fn view(&self) -> Seq<u8> {
        self.addr@
    }
}

/// The EUI-64 byte sequence for a 6-byte MAC: the OUI, the fixed fill bytes
/// `FF FF`, then the extension identifier.
pub open spec fn eui64_of(b: Seq<u8>) -> Seq<u8>
    recommends
        b.len() == 6,
{
    seq![b[0], b[1], b[2], 0xFFu8, 0xFFu8, b[3], b[4], b[5]]
}

/// The 6-byte MAC reassembled from an EUI-64 byte sequence by dropping the
/// two fill bytes.
pub open spec fn mac_of_eui64(b: Seq<u8>) -> Seq<u8>
    recommends
        b.len() == 8,
{
    seq![b[0], b[1], b[2], b[5], b[6], b[7]]
}

/// Expanding a 6-byte MAC to an EUI-64 and contracting it again is the
/// identity.
pub proof fn lemma_eui64_round_trip(b: Seq<u8>)
    requires
        b.len() == 6,
    ensures
        mac_of_eui64(eui64_of(b)) == b,
{
    assert(mac_of_eui64(eui64_of(b)) =~= b);
}

/// A MAC address always views as its 6 bytes.
pub broadcast proof fn lemma_mac_view_len(m: MacAddress)
    ensures
        (#[trigger] m@).len() == 6,
{
}

/// An EUI-64 always views as its 8 bytes.
pub broadcast proof fn lemma_eui64_view_len(e: Eui64)
    ensures
        (#[trigger] e@).len() == 8,
{
}

/// Two MAC addresses with the same bytes are the same address.
pub proof fn lemma_mac_eq_by_view(a: MacAddress, b: MacAddress)
    requires
        a@ == b@,
    ensures
        a == b,
{
    assert(a.addr =~= b.addr);
}

impl MacAddress {
    /// Wraps a 6-byte array as a MAC address.
    pub fn from_bytes(bytes: [u8; 6]) -> (r: MacAddress)
        ensures
            r@ == bytes@,
    {
        MacAddress { addr: bytes }
    }

    /// Reads a MAC address from a slice, which must hold exactly 6 bytes.
    pub fn from_slice(slice: &[u8]) -> (r: Result<MacAddress, AddressParseError>)
        ensures
            slice@.len() == 6 ==> (r matches Ok(m) && m@ == slice@),
            slice@.len() != 6 ==> r == Err::<MacAddress, _>(
                AddressParseError::WrongLength(slice@.len() as usize),
            ),
    {
        if slice.len() != 6 {
            return Err(AddressParseError::WrongLength(slice.len()));
        }
        let r = MacAddress { addr: [slice[0], slice[1], slice[2], slice[3], slice[4], slice[5]] };
        proof {
            assert(r@ =~= slice@);
        }
        Ok(r)
    }

    /// Reads a MAC address from a vector, which must hold exactly 6 bytes.
    pub fn from_vec(vector: Vec<u8>) -> (r: Result<MacAddress, AddressParseError>)
        ensures
            vector@.len() == 6 ==> (r matches Ok(m) && m@ == vector@),
            vector@.len() != 6 ==> r == Err::<MacAddress, _>(
                AddressParseError::WrongLength(vector@.len() as usize),
            ),
    {
        MacAddress::from_slice(vector.as_slice())
    }

    /// The raw 6 bytes.
    pub fn to_bytes(&self) -> (r: [u8; 6])
        ensures
            r@ == self@,
    {
        self.addr
    }

    /// The organizationally unique identifier: the first 3 bytes.
    pub fn get_oui(&self) -> (r: [u8; 3])
        ensures
            r@ == self@.take(3),
    {
        let r = [self.addr[0], self.addr[1], self.addr[2]];
        proof {
            assert(r@ =~= self@.take(3));
        }
        r
    }

    /// Expands to an EUI-64 by inserting the fill bytes `FF FF` between the
    /// OUI and the extension identifier.
    pub fn to_eui64(&self) -> (r: Eui64)
        ensures
            r@ == eui64_of(self@),
    {
        let r = Eui64 {
            addr: [
                self.addr[0],
                self.addr[1],
                self.addr[2],
                0xFF,
                0xFF,
                self.addr[3],
                self.addr[4],
                self.addr[5],
            ],
        };
        proof {
            assert(r@ =~= eui64_of(self@));
        }
        r
    }
}

/// Relies on regex::Regex::is_match with the anchored pattern
/// `^([[:xdigit:]]{2}[:-]){5}([[:xdigit:]]{2})$`: it matches exactly the
/// strings made of six hex pairs separated by `:` or `-`.
#[verifier::external_body]
fn matches_mac_pattern(s: &str) -> (r: bool)
    ensures
        r == mac_str_shape(s@),
{
    let pattern = regex::Regex::new(r"^([[:xdigit:]]{2}[:-]){5}([[:xdigit:]]{2})$").unwrap();
    pattern.is_match(s)
}

/// Relies on regex::Regex::is_match with the anchored pattern
/// `^([[:xdigit:]]{2}[:-]){7}([[:xdigit:]]{2})$`: it matches exactly the
/// strings made of eight hex pairs separated by `:` or `-`.
#[verifier::external_body]
fn matches_eui64_pattern(s: &str) -> (r: bool)
    ensures
        r == eui64_str_shape(s@),
{
    let pattern = regex::Regex::new(r"^([[:xdigit:]]{2}[:-]){7}([[:xdigit:]]{2})$").unwrap();
    pattern.is_match(s)
}

/// Reads the two hex digits at `pos` and `pos + 1` as one byte.
fn parse_hex_pair(s: &str, pos: usize) -> (r: u8)
    requires
        pos + 1 < s@.len() <= usize::MAX,
        is_hex_digit(s@[pos as int]),
        is_hex_digit(s@[pos as int + 1]),
    ensures
        r == hex_digit_value(s@[pos as int]) * 16 + hex_digit_value(s@[pos as int + 1]),
{
    let hi = hex_digit_value_exec(s.get_char(pos));
    let lo = hex_digit_value_exec(s.get_char(pos + 1));
    hi * 16 + lo
}

impl MacAddress {
    /// Reads a MAC address written as six hex pairs separated by `:` or `-`.
    pub fn from_str(text: &str) -> (r: Result<MacAddress, AddressParseError>)
        ensures
            mac_str_shape(text@) ==> (r matches Ok(m) && m@ == hex_pairs_bytes(text@, 6)),
            !mac_str_shape(text@) ==> (r matches Err(e) && (e matches AddressParseError::BadPattern(t)
                && t@ == text@)),
    {
        if !matches_mac_pattern(text) {
            return Err(AddressParseError::BadPattern(text.to_owned()));
        }
        let b = [
            parse_hex_pair(text, 0),
            parse_hex_pair(text, 3),
            parse_hex_pair(text, 6),
            parse_hex_pair(text, 9),
            parse_hex_pair(text, 12),
            parse_hex_pair(text, 15),
        ];
        let r = MacAddress { addr: b };
        proof {
            assert(r@ =~= hex_pairs_bytes(text@, 6));
        }
        Ok(r)
    }

    /// The canonical display form: uppercase hex pairs separated by colons.
    pub fn to_string(&self) -> (r: String)
        ensures
            r@ == mac_display(self@),
    {
        let mut s = String::new();
        push_hex_pair(&mut s, self.addr[0]);
        push_char(&mut s, ':');
        push_hex_pair(&mut s, self.addr[1]);
        push_char(&mut s, ':');
        push_hex_pair(&mut s, self.addr[2]);
        push_char(&mut s, ':');
        push_hex_pair(&mut s, self.addr[3]);
        push_char(&mut s, ':');
        push_hex_pair(&mut s, self.addr[4]);
        push_char(&mut s, ':');
        push_hex_pair(&mut s, self.addr[5]);
        proof {
            assert(s@ =~= mac_display(self@));
        }
        s
    }
}

/// Displaying is injective: two different MAC addresses never print as the
/// same string, so equality of the canonical strings coincides with
/// equality of the bytes.
pub proof fn lemma_mac_display_injective(a: Seq<u8>, b: Seq<u8>)
    requires
        a.len() == 6,
        b.len() == 6,
        mac_display(a) == mac_display(b),
    ensures
        a == b,
{
    lemma_display_then_parse(a, 6);
    lemma_display_then_parse(b, 6);
}

/// Reading a canonically spelled MAC string and displaying the result gives
/// the same string back.
pub proof fn lemma_mac_string_round_trip(s: Seq<char>)
    requires
        mac_str_shape(s),
        canonical_hex_pairs(s),
    ensures
        mac_display(hex_pairs_bytes(s, 6)) == s,
{
    lemma_parse_then_display(s, 6);
}

/// Displaying any MAC address gives a well-shaped canonical string that
/// reads back as the same address.
pub proof fn lemma_mac_display_reads_back(b: Seq<u8>)
    requires
        b.len() == 6,
    ensures
        mac_str_shape(mac_display(b)),
        canonical_hex_pairs(mac_display(b)),
        hex_pairs_bytes(mac_display(b), 6) == b,
{
    lemma_display_then_parse(b, 6);
}

impl Eui64 {
    /// Reads an EUI-64 written as eight hex pairs separated by `:` or `-`.
    pub fn from_string(text: &str) -> (r: Result<Eui64, AddressParseError>)
        ensures
            eui64_str_shape(text@) ==> (r matches Ok(e) && e@ == hex_pairs_bytes(text@, 8)),
            !eui64_str_shape(text@) ==> (r matches Err(e) && (e matches AddressParseError::BadPattern(
                t,
            ) && t@ == text@)),
    {
        if !matches_eui64_pattern(text) {
            return Err(AddressParseError::BadPattern(text.to_owned()));
        }
        let b = [
            parse_hex_pair(text, 0),
            parse_hex_pair(text, 3),
            parse_hex_pair(text, 6),
            parse_hex_pair(text, 9),
            parse_hex_pair(text, 12),
            parse_hex_pair(text, 15),
            parse_hex_pair(text, 18),
            parse_hex_pair(text, 21),
        ];
        let r = Eui64 { addr: b };
        proof {
            assert(r@ =~= hex_pairs_bytes(text@, 8));
        }
        Ok(r)
    }
}

impl Eui64 {
    /// Wraps an 8-byte array as an EUI-64.
    pub fn from_bytes(bytes: [u8; 8]) -> (r: Eui64)
        ensures
            r@ == bytes@,
    {
        Eui64 { addr: bytes }
    }

    /// Reads an EUI-64 from a slice, which must hold exactly 8 bytes.
    pub fn from_slice(slice: &[u8]) -> (r: Result<Eui64, AddressParseError>)
        ensures
            slice@.len() == 8 ==> (r matches Ok(e) && e@ == slice@),
            slice@.len() != 8 ==> r == Err::<Eui64, _>(
                AddressParseError::WrongLength(slice@.len() as usize),
            ),
    {
        if slice.len() != 8 {
            return Err(AddressParseError::WrongLength(slice.len()));
        }
        let r = Eui64 {
            addr: [
                slice[0],
                slice[1],
                slice[2],
                slice[3],
                slice[4],
                slice[5],
                slice[6],
                slice[7],
            ],
        };
        proof {
            assert(r@ =~= slice@);
        }
        Ok(r)
    }

    /// Reads an EUI-64 from a vector, which must hold exactly 8 bytes.
    pub fn from_vec(vector: Vec<u8>) -> (r: Result<Eui64, AddressParseError>)
        ensures
            vector@.len() == 8 ==> (r matches Ok(e) && e@ == vector@),
            vector@.len() != 8 ==> r == Err::<Eui64, _>(
                AddressParseError::WrongLength(vector@.len() as usize),
            ),
    {
        Eui64::from_slice(vector.as_slice())
    }

    /// The EUI-64 derived from a MAC address.
    pub fn from_mac_address(mac: MacAddress) -> (r: Eui64)
        ensures
            r@ == eui64_of(mac@),
    {
        mac.to_eui64()
    }

    /// The organizationally unique identifier: the first 3 bytes.
    pub fn get_oui(&self) -> (r: [u8; 3])
        ensures
            r@ == self@.take(3),
    {
        let r = [self.addr[0], self.addr[1], self.addr[2]];
        proof {
            assert(r@ =~= self@.take(3));
        }
        r
    }

    /// Contracts back to a MAC address by dropping the two fill bytes. Only
    /// meaningful for an EUI-64 built by the standard insertion pattern.
    pub fn to_mac_address(&self) -> (r: MacAddress)
        ensures
            r@ == mac_of_eui64(self@),
    {
        let r = MacAddress {
            addr: [
                self.addr[0],
                self.addr[1],
                self.addr[2],
                self.addr[5],
                self.addr[6],
                self.addr[7],
            ],
        };
        proof {
            assert(r@ =~= mac_of_eui64(self@));
        }
        r
    }
}

} // verus!
