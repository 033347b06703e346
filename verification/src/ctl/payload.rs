//! The pairing URI encoded into the QR code:
//!
//! `muxr://pair?v=2&h=<host>&p=<port>&t=<base64url>&ro=<0|1>&n=<pct>&tm=<pin|ca>[&fp=<hex>]`
//!
//! The token is base64url without padding (`base64`'s `URL_SAFE_NO_PAD`);
//! the label is percent-encoded so that the client can split the query on
//! `&` and `=`; the fingerprint is present only in pin mode.

use vstd::prelude::*;

use base64::Engine;
use vstd::utf8::encode_utf8;

use crate::text::{decimal, hex_digit, hex_upper, push_char, push_decimal, push_str};

verus! {

/// The URL-safe base64 digit of a 6-bit value (RFC 4648 §5): `A-Z`, `a-z`,
/// `0-9`, `-`, `_`.
pub open spec fn b64_digit(v: nat) -> char {
    if v < 26 {
        ('A' as nat + v) as char
    } else if v < 52 {
        ('a' as nat + (v - 26)) as char
    } else if v < 62 {
        ('0' as nat + (v - 52)) as char
    } else if v == 62 {
        '-'
    } else {
        '_'
    }
}

/// The URL-safe base64 encoding of a byte string without padding: each
/// group of three bytes becomes four digits; a final group of one or two
/// bytes becomes two or three digits.
pub open spec fn base64_url_nopad(bytes: Seq<u8>) -> Seq<char>
    decreases bytes.len(),
{
    if bytes.len() == 0 {
        Seq::empty()
    } else if bytes.len() == 1 {
        seq![b64_digit((bytes[0] / 4) as nat), b64_digit(((bytes[0] % 4) * 16) as nat)]
    } else if bytes.len() == 2 {
        seq![
            b64_digit((bytes[0] / 4) as nat),
            b64_digit(((bytes[0] % 4) * 16 + bytes[1] / 16) as nat),
            b64_digit(((bytes[1] % 16) * 4) as nat),
        ]
    } else {
        seq![
            b64_digit((bytes[0] / 4) as nat),
            b64_digit(((bytes[0] % 4) * 16 + bytes[1] / 16) as nat),
            b64_digit(((bytes[1] % 16) * 4 + bytes[2] / 64) as nat),
            b64_digit((bytes[2] % 64) as nat),
        ] + base64_url_nopad(bytes.skip(3))
    }
}

/// A character of the URL-safe base64 alphabet.
pub open spec fn url_safe_char(c: char) -> bool {
    ('A' <= c && c <= 'Z') || ('a' <= c && c <= 'z') || ('0' <= c && c <= '9') || c == '-' || c
        == '_'
}

/// The length of the unpadded base64 encoding of `n` bytes.
pub open spec fn encoded_len(n: nat) -> nat {
    4 * (n / 3) + (if n % 3 == 0 {
        0nat
    } else if n % 3 == 1 {
        2nat
    } else {
        3nat
    })
}

proof fn lemma_b64_digit_url_safe(v: nat)
    requires
        v < 64,
    ensures
        url_safe_char(b64_digit(v)),
{
}

/// The unpadded encoding has `encoded_len` digits, all URL-safe.
pub proof fn lemma_base64_url_nopad_shape(bytes: Seq<u8>)
    ensures
        base64_url_nopad(bytes).len() == encoded_len(bytes.len()),
        forall|i: int|
            0 <= i < base64_url_nopad(bytes).len() ==> url_safe_char(#[trigger] base64_url_nopad(bytes)[i]),
    decreases bytes.len(),
{
    let r = base64_url_nopad(bytes);
    if bytes.len() == 0 {
    } else if bytes.len() < 3 {
        lemma_b64_digit_url_safe((bytes[0] / 4) as nat);
        if bytes.len() == 1 {
            lemma_b64_digit_url_safe(((bytes[0] % 4) * 16) as nat);
        } else {
            lemma_b64_digit_url_safe(((bytes[0] % 4) * 16 + bytes[1] / 16) as nat);
            lemma_b64_digit_url_safe(((bytes[1] % 16) * 4) as nat);
        }
    } else {
        let rest = bytes.skip(3);
        lemma_base64_url_nopad_shape(rest);
        let head = seq![
            b64_digit((bytes[0] / 4) as nat),
            b64_digit(((bytes[0] % 4) * 16 + bytes[1] / 16) as nat),
            b64_digit(((bytes[1] % 16) * 4 + bytes[2] / 64) as nat),
            b64_digit((bytes[2] % 64) as nat),
        ];
        lemma_b64_digit_url_safe((bytes[0] / 4) as nat);
        lemma_b64_digit_url_safe(((bytes[0] % 4) * 16 + bytes[1] / 16) as nat);
        lemma_b64_digit_url_safe(((bytes[1] % 16) * 4 + bytes[2] / 64) as nat);
        lemma_b64_digit_url_safe((bytes[2] % 64) as nat);
        assert(r == head + base64_url_nopad(rest));
        assert(rest.len() == bytes.len() - 3);
        assert(encoded_len(bytes.len()) == 4 + encoded_len(rest.len()));
        assert forall|i: int| 0 <= i < r.len() implies url_safe_char(#[trigger] r[i]) by {
            if i < 4 {
                assert(r[i] == head[i]);
            } else {
                assert(r[i] == base64_url_nopad(rest)[i - 4]);
            }
        }
    }
}

/// `URL_SAFE_NO_PAD.encode(bytes)` (base64 crate): the RFC 4648 URL-safe
/// encoding without padding, as [`base64_url_nopad`] states it.
#[verifier::external_body]
fn encode_url_safe_no_pad(bytes: &[u8]) -> (r: String)
    requires
        4 * (bytes@.len() / 3) + 3 <= usize::MAX,
    ensures
        r@ == base64_url_nopad(bytes@),
{
    base64::engine::general_purpose::URL_SAFE_NO_PAD.encode(bytes)
}

/// The trust model encoded in the pairing URI.
#[derive(Debug, Clone, PartialEq, Eq)]
pub enum PairingTrust {
    /// Fingerprint-pinned trust: 64 lowercase hex chars of the SHA-256 of
    /// the server certificate's DER.
    Pin { fingerprint: String },
    /// System-CA trust.
    Ca,
}

/// What a pairing QR encodes.
#[derive(Debug, Clone, PartialEq, Eq)]
pub struct PairingParams {
    pub host: String,
    pub port: u16,
    pub trust: PairingTrust,
    /// The plaintext auth token.
    pub token: String,
    pub read_only: bool,
    /// Human-readable server label.
    pub label: String,
}

/// An unreserved URI byte (RFC 3986 §2.3): `A-Z a-z 0-9 - _ . ~`.
pub open spec fn unreserved(b: u8) -> bool {
    (65 <= b && b <= 90) || (97 <= b && b <= 122) || (48 <= b && b <= 57) || b == 45 || b == 95
        || b == 46 || b == 126
}

/// The encoding of one byte: itself when unreserved, else `%XX` with
/// uppercase hex.
pub open spec fn pct_byte(b: u8) -> Seq<char> {
    if unreserved(b) {
        seq![b as char]
    } else {
        seq!['%', hex_upper((b / 16) as nat), hex_upper((b % 16) as nat)]
    }
}

/// The percent-encoding of a byte string.
pub open spec fn pct(bytes: Seq<u8>) -> Seq<char>
    decreases bytes.len(),
{
    if bytes.len() == 0 {
        Seq::empty()
    } else {
        pct(bytes.drop_last()) + pct_byte(bytes.last())
    }
}

/// Percent-encode a string for a URI query value: every UTF-8 byte that is
/// not unreserved becomes `%XX`.
pub fn percent_encode(s: &str) -> (r: String)
    ensures
        r@ == pct(encode_utf8(s@)),
{
    let bytes = s.as_bytes();
    let mut out = String::new();
    let mut i: usize = 0;
    while i < bytes.len()
        invariant
            0 <= i <= bytes@.len(),
            bytes@ == encode_utf8(s@),
            out@ == pct(bytes@.take(i as int)),
        decreases bytes@.len() - i,
    {
        let b = bytes[i];
        let ghost before = out@;
        if (65 <= b && b <= 90) || (97 <= b && b <= 122) || (48 <= b && b <= 57) || b == 45 || b
            == 95 || b == 46 || b == 126 {
            push_char(&mut out, b as char);
        } else {
            push_char(&mut out, '%');
            push_char(&mut out, hex_digit(b / 16));
            push_char(&mut out, hex_digit(b % 16));
        }
        proof {
            assert(bytes@.take(i + 1).drop_last() =~= bytes@.take(i as int));
            assert(bytes@.take(i + 1).last() == b);
            assert(out@ =~= before + pct_byte(b));
        }
        i = i + 1;
    }
    assert(bytes@.take(bytes@.len() as int) =~= bytes@);
    out
}

/// A percent-encoded value never contains the query separators `&` and
/// `=`: every character is unreserved, `%`, or an uppercase hex digit.
pub proof fn law_percent_encoding_is_query_safe(bytes: Seq<u8>)
    ensures
        forall|i: int|
            0 <= i < pct(bytes).len() ==> #[trigger] pct(bytes)[i] != '&' && pct(bytes)[i] != '=',
    decreases bytes.len(),
{
    if bytes.len() > 0 {
        law_percent_encoding_is_query_safe(bytes.drop_last());
        let rest = pct(bytes.drop_last());
        let last = pct_byte(bytes.last());
        let b = bytes.last();
        assert forall|i: int| 0 <= i < last.len() implies #[trigger] last[i] != '&' && last[i]
            != '=' by {
            if unreserved(b) {
                assert(last[i] == b as char);
            } else {
                let hi = (b / 16) as nat;
                let lo = (b % 16) as nat;
                assert(hi < 16 && lo < 16);
            }
        }
        assert forall|i: int| 0 <= i < pct(bytes).len() implies #[trigger] pct(bytes)[i] != '&'
            && pct(bytes)[i] != '=' by {
            if i < rest.len() {
                assert(pct(bytes)[i] == rest[i]);
            } else {
                assert(pct(bytes)[i] == last[i - rest.len()]);
            }
        }
    }
}

/// Percent-encoding works byte by byte: encoding a concatenation is the
/// concatenation of the encodings.
pub proof fn law_percent_encoding_concat(a: Seq<u8>, b: Seq<u8>)
    ensures
        pct(a + b) == pct(a) + pct(b),
    decreases b.len(),
{
    if b.len() == 0 {
        assert(a + b =~= a);
        assert(pct(a) + pct(b) =~= pct(a));
    } else {
        law_percent_encoding_concat(a, b.drop_last());
        assert((a + b).drop_last() =~= a + b.drop_last());
        assert((a + b).last() == b.last());
        assert(pct(a) + pct(b.drop_last()) + pct_byte(b.last()) =~= pct(a) + (pct(b.drop_last())
            + pct_byte(b.last())));
    }
}

/// A character a percent-encoded value may hold: `A-Z a-z 0-9 - _ . ~ %`.
pub open spec fn pct_char(c: char) -> bool {
    ('A' <= c && c <= 'Z') || ('a' <= c && c <= 'z') || ('0' <= c && c <= '9') || c == '-' || c
        == '_' || c == '.' || c == '~' || c == '%'
}

/// Every character of a percent-encoded value is unreserved or `%`.
pub proof fn law_percent_encoding_charset(bytes: Seq<u8>)
    ensures
        forall|i: int| 0 <= i < pct(bytes).len() ==> pct_char(#[trigger] pct(bytes)[i]),
    decreases bytes.len(),
{
    if bytes.len() > 0 {
        law_percent_encoding_charset(bytes.drop_last());
        let rest = pct(bytes.drop_last());
        let last = pct_byte(bytes.last());
        let b = bytes.last();
        assert forall|i: int| 0 <= i < last.len() implies pct_char(#[trigger] last[i]) by {
            if unreserved(b) {
                assert(last[i] == b as char);
            } else {
                let hi = (b / 16) as nat;
                let lo = (b % 16) as nat;
                assert(hi < 16 && lo < 16);
            }
        }
        assert forall|i: int| 0 <= i < pct(bytes).len() implies pct_char(#[trigger] pct(bytes)[i]) by {
            if i < rest.len() {
                assert(pct(bytes)[i] == rest[i]);
            } else {
                assert(pct(bytes)[i] == last[i - rest.len()]);
            }
        }
    }
}

/// Bytes read as characters, one for one.
pub open spec fn bytes_as_chars(bytes: Seq<u8>) -> Seq<char> {
    bytes.map_values(|b: u8| b as char)
}

proof fn lemma_pct_len(bytes: Seq<u8>)
    ensures
        pct(bytes).len() >= bytes.len(),
        pct(bytes).len() == bytes.len() <==> forall|i: int| 0 <= i < bytes.len() ==> unreserved(#[trigger] bytes[i]),
        (forall|i: int| 0 <= i < bytes.len() ==> unreserved(#[trigger] bytes[i])) ==> pct(bytes) == bytes_as_chars(bytes),
    decreases bytes.len(),
{
    if bytes.len() > 0 {
        let d = bytes.drop_last();
        lemma_pct_len(d);
        if forall|i: int| 0 <= i < bytes.len() ==> unreserved(#[trigger] bytes[i]) {
            assert forall|i: int| 0 <= i < d.len() implies unreserved(#[trigger] d[i]) by {
                assert(d[i] == bytes[i]);
            }
            assert(unreserved(bytes[bytes.len() - 1]));
            assert(bytes_as_chars(bytes) =~= bytes_as_chars(d).push(bytes.last() as char));
            assert(pct(bytes) =~= bytes_as_chars(bytes));
        } else {
            let k = choose|i: int| 0 <= i < bytes.len() && !unreserved(#[trigger] bytes[i]);
            if k < bytes.len() - 1 {
                assert(d[k] == bytes[k]);
            }
        }
    }
}

/// A value is left unchanged by percent-encoding exactly when every byte
/// of it is unreserved; otherwise the encoding is longer.
pub proof fn law_percent_encoding_identity(bytes: Seq<u8>)
    ensures
        pct(bytes) == bytes_as_chars(bytes) <==> forall|i: int|
            0 <= i < bytes.len() ==> unreserved(#[trigger] bytes[i]),
        pct(bytes).len() >= bytes.len(),
{
    lemma_pct_len(bytes);
}

/// The trust part of the URI.
pub open spec fn trust_suffix(t: PairingTrust) -> Seq<char> {
    match t {
        PairingTrust::Pin { fingerprint } => "tm=pin&fp="@ + fingerprint@,
        PairingTrust::Ca => "tm=ca"@,
    }
}

/// The pairing URI of `p`.
pub open spec fn pairing_uri(p: PairingParams) -> Seq<char> {
    "muxr://pair?v=2&h="@ + p.host@ + "&p="@ + decimal(p.port as nat) + "&t="@ + base64_url_nopad(
        encode_utf8(p.token@),
    ) + "&ro="@ + (if p.read_only {
        "1"@
    } else {
        "0"@
    }) + "&n="@ + pct(encode_utf8(p.label@)) + "&"@ + trust_suffix(p.trust)
}

impl PairingParams {
    /// Build the `muxr://pair?...` URI (v=2): the token base64url-encoded
    /// without padding, the label percent-encoded, `tm=pin&fp=<fingerprint>`
    /// in pin mode and `tm=ca` (no fingerprint) in CA mode.
    pub fn to_uri(&self) -> (r: String)
        requires
            4 * (encode_utf8(self.token@).len() / 3) + 3 <= usize::MAX,
        ensures
            r@ == pairing_uri(*self),
    {
        let token_b64 = encode_url_safe_no_pad(self.token.as_str().as_bytes());
        let label_pct = percent_encode(self.label.as_str());
        let mut u = String::new();
        push_str(&mut u, "muxr://pair?v=2&h=");
        push_str(&mut u, self.host.as_str());
        push_str(&mut u, "&p=");
        push_decimal(&mut u, self.port as u64);
        push_str(&mut u, "&t=");
        push_str(&mut u, token_b64.as_str());
        push_str(&mut u, "&ro=");
        if self.read_only {
            push_str(&mut u, "1");
        } else {
            push_str(&mut u, "0");
        }
        push_str(&mut u, "&n=");
        push_str(&mut u, label_pct.as_str());
        push_str(&mut u, "&");
        match &self.trust {
            PairingTrust::Pin { fingerprint } => {
                push_str(&mut u, "tm=pin&fp=");
                push_str(&mut u, fingerprint.as_str());
            },
            PairingTrust::Ca => {
                push_str(&mut u, "tm=ca");
            },
        }
        assert(u@ =~= pairing_uri(*self));
        u
    }
}

} // verus!
