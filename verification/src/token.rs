//! Boot tokens: a random 256-bit value, hex-encoded, generated fresh each
//! time this supervisor launches a backend. The child receives it through
//! its environment and reports it back on its info endpoint, which lets a
//! supervisor recognize an instance started by a cooperating supervisor.

use vstd::prelude::*;

verus! {

/// Raw length of a boot token, in random bytes.
pub const BOOT_TOKEN_BYTES: usize = 32;

/// The lowercase hex digit of a value below 16.
pub open spec fn spec_hex_digit(n: u8) -> char
    recommends
        n < 16,
{
    if n == 0 {
        '0'
    } else if n == 1 {
        '1'
    } else if n == 2 {
        '2'
    } else if n == 3 {
        '3'
    } else if n == 4 {
        '4'
    } else if n == 5 {
        '5'
    } else if n == 6 {
        '6'
    } else if n == 7 {
        '7'
    } else if n == 8 {
        '8'
    } else if n == 9 {
        '9'
    } else if n == 10 {
        'a'
    } else if n == 11 {
        'b'
    } else if n == 12 {
        'c'
    } else if n == 13 {
        'd'
    } else if n == 14 {
        'e'
    } else {
        'f'
    }
}

/// The hex encoding of a byte sequence: two lowercase digits per byte, high
/// nibble first.
pub open spec fn spec_hex(bytes: Seq<u8>) -> Seq<char> {
    Seq::new(
        bytes.len() * 2,
        |i: int|
            if i % 2 == 0 {
                spec_hex_digit(bytes[i / 2] / 16)
            } else {
                spec_hex_digit(bytes[i / 2] % 16)
            },
    )
}

/// Whether a character is a lowercase hex digit.
pub open spec fn is_hex_digit_char(c: char) -> bool {
    ('0' <= c && c <= '9') || ('a' <= c && c <= 'f')
}

/// Every hex digit is a lowercase hex character.
proof fn lemma_hex_digit_char(n: u8)
    requires
        n < 16,
    ensures
        is_hex_digit_char(spec_hex_digit(n)),
{
}

/// A one-character string holding the hex digit of a value below 16.
fn hex_digit_str(n: u8) -> (r: &'static str)
    requires
        n < 16,
    ensures
        r@ == seq![spec_hex_digit(n)],
{
    proof {
        reveal_strlit("0");
        reveal_strlit("1");
        reveal_strlit("2");
        reveal_strlit("3");
        reveal_strlit("4");
        reveal_strlit("5");
        reveal_strlit("6");
        reveal_strlit("7");
        reveal_strlit("8");
        reveal_strlit("9");
        reveal_strlit("a");
        reveal_strlit("b");
        reveal_strlit("c");
        reveal_strlit("d");
        reveal_strlit("e");
        reveal_strlit("f");
    }
    let r: &'static str = if n == 0 {
        "0"
    } else if n == 1 {
        "1"
    } else if n == 2 {
        "2"
    } else if n == 3 {
        "3"
    } else if n == 4 {
        "4"
    } else if n == 5 {
        "5"
    } else if n == 6 {
        "6"
    } else if n == 7 {
        "7"
    } else if n == 8 {
        "8"
    } else if n == 9 {
        "9"
    } else if n == 10 {
        "a"
    } else if n == 11 {
        "b"
    } else if n == 12 {
        "c"
    } else if n == 13 {
        "d"
    } else if n == 14 {
        "e"
    } else {
        "f"
    };
    proof {
        assert(r@ =~= seq![spec_hex_digit(n)]);
    }
    r
}

/// Hex-encode a byte sequence, two lowercase digits per byte.
pub fn hex_encode(bytes: &Vec<u8>) -> (s: String)
    requires
        bytes@.len() * 2 <= usize::MAX,
    ensures
        s@ == spec_hex(bytes@),
{
    let mut s = String::new();
    let mut i: usize = 0;
    while i < bytes.len()
        invariant
            i <= bytes@.len(),
            s@ == spec_hex(bytes@.take(i as int)),
        decreases bytes@.len() - i,
    {
        let b = bytes[i];
        s.append(hex_digit_str(b / 16));
        s.append(hex_digit_str(b % 16));
        proof {
            assert(s@ =~= spec_hex(bytes@.take(i as int + 1)));
        }
        i = i + 1;
    }
    proof {
        assert(bytes@.take(bytes@.len() as int) =~= bytes@);
    }
    s
}

/// Relies on rand's OsRng (rand_core::OsRng::try_fill_bytes): fills the
/// buffer with operating-system randomness. Nothing can be promised of the
/// values; only the length is fixed. `None` when the entropy source fails.
#[verifier::external_body]
fn os_random_bytes(n: usize) -> (r: Option<Vec<u8>>)
    ensures
        r matches Some(v) ==> v@.len() == n,
{
    let mut buf = vec![0u8; n];
    match rand::RngCore::try_fill_bytes(&mut rand::rngs::OsRng, &mut buf) {
        Ok(()) => Some(buf),
        Err(_) => None,
    }
}

/// A fresh boot token: 32 random bytes, hex-encoded to 64 lowercase hex
/// characters. `None` only when the OS entropy source fails.
pub fn generate_boot_token() -> (r: Option<String>)
    ensures
        r matches Some(t) ==> t@.len() == 64 && (forall|i: int|
            0 <= i < t@.len() ==> is_hex_digit_char(#[trigger] t@[i])),
{
    let bytes = match os_random_bytes(BOOT_TOKEN_BYTES) {
        Some(b) => b,
        None => { return None; },
    };
    let t = hex_encode(&bytes);
    proof {
        assert forall|i: int| 0 <= i < t@.len() implies is_hex_digit_char(#[trigger] t@[i]) by {
            if i % 2 == 0 {
                lemma_hex_digit_char(bytes@[i / 2] / 16);
            } else {
                lemma_hex_digit_char(bytes@[i / 2] % 16);
            }
        }
    }
    Some(t)
}

} // verus!
