use vstd::prelude::*;

use vstd::string::{StrSliceExecFns, StringExecFns};

verus! {

/// Why a hex string could not be decoded.
#[derive(Debug, Clone, Copy, PartialEq, Eq, Structural)]
pub enum HexError {
    /// A pair of characters is not a hex number.
    InvalidDigit,
    /// A character is left over after the last pair.
    OddLength,
}

/// The lower-case hex digit of a value below 16.
pub open spec fn hex_char(n: int) -> char {
    if n < 10 {
        (48 + n) as char
    } else {
        (87 + n) as char
    }
}

/// Two lower-case hex digits for each byte.
pub open spec fn hex_of(b: Seq<u8>) -> Seq<char>
    decreases b.len(),
{
    if b.len() == 0 {
        Seq::empty()
    } else {
        hex_of(b.drop_last()).add(seq![hex_char(b.last() as int / 16), hex_char(b.last() as int % 16)])
    }
}

fn digit(n: u8) -> (r: &'static str)
    requires
        n < 16,
    ensures
        r@ == seq![hex_char(n as int)],
{
    match n {
        0 => {
            proof {
                reveal_strlit("0");
            }
            "0"
        },
        1 => {
            proof {
                reveal_strlit("1");
            }
            "1"
        },
        2 => {
            proof {
                reveal_strlit("2");
            }
            "2"
        },
        3 => {
            proof {
                reveal_strlit("3");
            }
            "3"
        },
        4 => {
            proof {
                reveal_strlit("4");
            }
            "4"
        },
        5 => {
            proof {
                reveal_strlit("5");
            }
            "5"
        },
        6 => {
            proof {
                reveal_strlit("6");
            }
            "6"
        },
        7 => {
            proof {
                reveal_strlit("7");
            }
            "7"
        },
        8 => {
            proof {
                reveal_strlit("8");
            }
            "8"
        },
        9 => {
            proof {
                reveal_strlit("9");
            }
            "9"
        },
        10 => {
            proof {
                reveal_strlit("a");
            }
            "a"
        },
        11 => {
            proof {
                reveal_strlit("b");
            }
            "b"
        },
        12 => {
            proof {
                reveal_strlit("c");
            }
            "c"
        },
        13 => {
            proof {
                reveal_strlit("d");
            }
            "d"
        },
        14 => {
            proof {
                reveal_strlit("e");
            }
            "e"
        },
        _ => {
            proof {
                reveal_strlit("f");
            }
            "f"
        },
    }
}

/// Writes each byte as two lower-case hex digits.
pub fn encode_hex(bytes: &[u8]) -> (r: String)
    ensures
        r@ == hex_of(bytes@),
{
    let mut s = String::from_str("");
    proof {
        reveal_strlit("");
    }
    let mut i: usize = 0;
    while i < bytes.len()
        invariant
            0 <= i <= bytes@.len(),
            s@ == hex_of(bytes@.take(i as int)),
        decreases bytes@.len() - i,
    {
        let b = bytes[i];
        s.append(digit(b / 16));
        s.append(digit(b % 16));
        proof {
            let t = bytes@.take(i + 1);
            assert(t.drop_last() == bytes@.take(i as int));
            assert(t.last() == b);
        }
        i = i + 1;
    }
    assert(bytes@.take(bytes@.len() as int) == bytes@);
    s
}

/// The value of a hex digit, in either case.
pub open spec fn hex_val(c: char) -> Option<int> {
    if '0' <= c <= '9' {
        Some(c as int - 48)
    } else if 'a' <= c <= 'f' {
        Some(c as int - 87)
    } else if 'A' <= c <= 'F' {
        Some(c as int - 55)
    } else {
        None
    }
}

/// The byte a two-character hex number stands for; a plus sign may stand in
/// place of the first digit.
pub open spec fn pair_val(c1: char, c2: char) -> Option<u8> {
    if c1 == '+' {
        match hex_val(c2) {
            Some(v) => Some(v as u8),
            None => None,
        }
    } else {
        match (hex_val(c1), hex_val(c2)) {
            (Some(a), Some(b)) => Some((16 * a + b) as u8),
            _ => None,
        }
    }
}

/// Every complete pair of `s` is a hex number.
pub open spec fn pairs_valid(s: Seq<char>) -> bool {
    forall|i: int| 0 <= i < s.len() / 2 ==> #[trigger] pair_val(s[2 * i], s[2 * i + 1]) is Some
}

fn hex_val_of(c: char) -> (r: Option<u8>)
    ensures
        r matches Some(v) ==> hex_val(c) == Some(v as int) && v < 16,
        r is None ==> hex_val(c) is None,
{
    if '0' <= c && c <= '9' {
        Some((c as u32 - 48) as u8)
    } else if 'a' <= c && c <= 'f' {
        Some((c as u32 - 87) as u8)
    } else if 'A' <= c && c <= 'F' {
        Some((c as u32 - 55) as u8)
    } else {
        None
    }
}

/// Reads a string of two-character hex numbers into bytes.
pub fn decode_hex(s: &str) -> (r: Result<Vec<u8>, HexError>)
    ensures
        r is Ok <==> s@.len() % 2 == 0 && pairs_valid(s@),
        r matches Ok(v) ==> v@.len() == s@.len() / 2 && forall|i: int|
            0 <= i < v@.len() ==> pair_val(s@[2 * i], s@[2 * i + 1]) == Some(#[trigger] v@[i]),
        r == Err::<Vec<u8>, HexError>(HexError::InvalidDigit) <==> !pairs_valid(s@),
        r == Err::<Vec<u8>, HexError>(HexError::OddLength) <==> s@.len() % 2 == 1 && pairs_valid(
            s@,
        ),
{
    let n = s.unicode_len();
    let mut v: Vec<u8> = Vec::new();
    let mut i: usize = 0;
    while i < n / 2
        invariant
            n == s@.len(),
            0 <= i <= n / 2,
            v@.len() == i,
            forall|k: int|
                0 <= k < i ==> pair_val(s@[2 * k], s@[2 * k + 1]) == Some(#[trigger] v@[k]),
        decreases n / 2 - i,
    {
        let c1 = s.get_char(2 * i);
        let c2 = s.get_char(2 * i + 1);
        let lo = match hex_val_of(c2) {
            Some(x) => x,
            None => {
                assert(pair_val(s@[2 * i as int], s@[2 * i + 1]) is None);
                return Err(HexError::InvalidDigit);
            },
        };
        let b: u8 = if c1 == '+' {
            lo
        } else {
            match hex_val_of(c1) {
                Some(hi) => hi * 16 + lo,
                None => {
                    assert(pair_val(s@[2 * i as int], s@[2 * i + 1]) is None);
                    return Err(HexError::InvalidDigit);
                },
            }
        };
        assert(pair_val(s@[2 * i as int], s@[2 * i + 1]) == Some(b));
        v.push(b);
        i = i + 1;
    }
    assert(pairs_valid(s@)) by {
        assert forall|k: int| 0 <= k < s@.len() / 2 implies #[trigger] pair_val(
            s@[2 * k],
            s@[2 * k + 1],
        ) is Some by {
            assert(pair_val(s@[2 * k], s@[2 * k + 1]) == Some(v@[k]));
        }
    }
    if n % 2 == 1 {
        return Err(HexError::OddLength);
    }
    Ok(v)
}

} // verus!
