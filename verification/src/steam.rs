use vstd::prelude::*;
use vstd::string::StrSliceExecFns;
use crate::text::{all_digits, decimal_value, is_digit, parse_decimal};

verus! {

/// The 64-bit identity of account number zero: public universe, individual
/// account, desktop instance.
pub const STEAM64_BASE: u64 = 76561197960265728;

/// The textual shape of a game identity: `STEAM_u:y:z` with `u` one digit
/// from 0 to 5, `y` 0 or 1 and `z` one or more decimal digits.
pub open spec fn steam_id_shape(s: Seq<char>) -> bool {
    &&& s.len() >= 11
    &&& s[0] == 'S'
    &&& s[1] == 'T'
    &&& s[2] == 'E'
    &&& s[3] == 'A'
    &&& s[4] == 'M'
    &&& s[5] == '_'
    &&& '0' <= s[6] && s[6] <= '5'
    &&& s[7] == ':'
    &&& (s[8] == '0' || s[8] == '1')
    &&& s[9] == ':'
    &&& all_digits(s.subrange(10, s.len() as int))
}

/// The account number that a well-shaped identity names: twice `z` plus `y`.
pub open spec fn account_number(s: Seq<char>) -> nat {
    2 * decimal_value(s.subrange(10, s.len() as int)) + (s[8] as nat - '0' as nat) as nat
}

/// The 64-bit identity of a well-shaped textual identity.
pub open spec fn steam64(s: Seq<char>) -> nat {
    STEAM64_BASE as nat + account_number(s)
}

/// A textual identity that has the shape and whose 64-bit form fits.
pub open spec fn convertible(s: Seq<char>) -> bool {
    steam_id_shape(s) && steam64(s) <= u64::MAX
}

/// The same identity written for the statistics service, which wants the
/// universe digit to be 1.
pub open spec fn stats_form(s: Seq<char>) -> Seq<char> {
    if s.len() > 6 {
        s.update(6, '1')
    } else {
        s
    }
}

/// Whether `s` has the shape of a game identity.
pub fn is_steam_id(s: &str) -> (b: bool)
    ensures
        b == steam_id_shape(s@),
{
    let n = s.unicode_len();
    if n < 11 {
        return false;
    }
    if !(s.get_char(0) == 'S' && s.get_char(1) == 'T' && s.get_char(2) == 'E' && s.get_char(3)
        == 'A' && s.get_char(4) == 'M' && s.get_char(5) == '_') {
        return false;
    }
    let u = s.get_char(6);
    let y = s.get_char(8);
    if !('0' <= u && u <= '5' && s.get_char(7) == ':' && (y == '0' || y == '1') && s.get_char(9)
        == ':') {
        return false;
    }
    let mut i: usize = 10;
    while i < n
        invariant
            10 <= i <= n,
            n == s@.len(),
            forall|j: int| 10 <= j < i ==> is_digit(#[trigger] s@[j]),
        decreases n - i,
    {
        let c = s.get_char(i);
        if !('0' <= c && c <= '9') {
            proof {
                let tail = s@.subrange(10, s@.len() as int);
                assert(tail[i - 10] == s@[i as int]);
            }
            return false;
        }
        i += 1;
    }
    true
}

/// The 64-bit identity of `steamid`, or `None` where the text has not the
/// shape of an identity or the number does not fit in 64 bits.
pub fn steam_id_to_64(steamid: &String) -> (r: Option<u64>)
    ensures
        r is Some <==> convertible(steamid@),
        r matches Some(v) ==> v as nat == steam64(steamid@),
{
    let s = steamid.as_str();
    if !is_steam_id(s) {
        return None;
    }
    let n = s.unicode_len();
    let z = match parse_decimal(s.substring_char(10, n)) {
        Some(z) => z,
        None => {
            return None;
        },
    };
    let y: u64 = if s.get_char(8) == '1' {
        1
    } else {
        0
    };
    let room: u64 = u64::MAX - STEAM64_BASE;
    if z > (room - y) / 2 {
        return None;
    }
    Some(STEAM64_BASE + 2 * z + y)
}

/// The 64-bit identity of a textual identity.
pub fn convert_steamid_to_64(steamid: &String) -> (id: u64)
    requires
        convertible(steamid@),
    ensures
        id as nat == steam64(steamid@),
{
    match steam_id_to_64(steamid) {
        Some(id) => id,
        None => 0,
    }
}

} // verus!
