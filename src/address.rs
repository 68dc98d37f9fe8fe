//! Wallet addresses: twenty bytes written as forty hexadecimal digits.
use vstd::prelude::*;

verus! {

/// A parsed wallet address.
#[derive(Clone, Copy)]
pub struct WalletAddress {
    pub bytes: [u8; 20],
}

pub open spec fn is_hex_digit(c: char) -> bool {
    ('0' <= c && c <= '9') || ('a' <= c && c <= 'f') || ('A' <= c && c <= 'F')
}

/// Whitespace that the hex decoder skips between digits.
pub open spec fn is_skipped_space(c: char) -> bool {
    c == ' ' || c == '\r' || c == '\n' || c == '\t'
}

pub open spec fn hex_value(c: char) -> int {
    if '0' <= c && c <= '9' {
        c as int - '0' as int
    } else if 'a' <= c && c <= 'f' {
        c as int - 'a' as int + 10
    } else {
        c as int - 'A' as int + 10
    }
}

/// The digits of an address text: the text without a leading "0x".
pub open spec fn address_digits(s: Seq<char>) -> Seq<char> {
    if s.len() >= 2 && s[0] == '0' && s[1] == 'x' {
        s.subrange(2, s.len() as int)
    } else {
        s
    }
}

/// The digits of an address text hold a character that is neither a hex digit
/// nor skipped whitespace.
pub open spec fn has_stray_char(s: Seq<char>) -> bool {
    let d = address_digits(s);
    exists|i: int| 0 <= i < d.len() && !is_hex_digit(#[trigger] d[i]) && !is_skipped_space(d[i])
}

/// The hex digits of an address text, in order, with skipped whitespace dropped.
pub open spec fn addr_hex(s: Seq<char>) -> Seq<char> {
    address_digits(s).filter(|c: char| !is_skipped_space(c))
}

/// An address text that the parser accepts: no stray character, and forty
/// hex digits once whitespace is dropped.
pub open spec fn accepted_address(s: Seq<char>) -> bool {
    !has_stray_char(s) && addr_hex(s).len() == 40
}

/// The byte that hex digits `2 * i` and `2 * i + 1` of an accepted address text encode.
pub open spec fn address_byte(s: Seq<char>, i: int) -> int {
    let h = addr_hex(s);
    hex_value(h[2 * i]) * 16 + hex_value(h[2 * i + 1])
}

/// Relies on `<ethers::types::Address as FromStr>::from_str` (fixed-hash's
/// parser over rustc-hex): it strips one leading "0x", decodes hex digits
/// two by two (big endian), skips space, tab, CR and LF, and fails on any
/// other character or on a digit count other than forty.
#[verifier::external_body]
fn parse_h160(s: &str) -> (r: Option<[u8; 20]>)
    ensures
        r is Some <==> accepted_address(s@),
        r is Some ==> (forall|i: int| 0 <= i < 20
            ==> #[trigger] r->Some_0@[i] as int == address_byte(s@, i)),
{
    match s.parse::<ethers::types::Address>() {
        Ok(a) => Some(a.0),
        Err(_) => None,
    }
}

impl WalletAddress {
    /// Parses a wallet address as sent by a client.
    pub fn parse(s: &str) -> (r: Option<WalletAddress>)
        ensures
            r is Some <==> accepted_address(s@),
            r is Some ==> forall|i: int| 0 <= i < 20
                ==> #[trigger] r->Some_0.bytes@[i] as int == address_byte(s@, i),
    {
        match parse_h160(s) {
            Some(b) => Some(WalletAddress { bytes: b }),
            None => None,
        }
    }
}

} // verus!
