//! The values of a configuration: an identifier in text form, port pairs
//! written as `client_port:server_port`, and the users and clients made
//! of them.

use crate::client::Client;
use crate::endian::be_value;
use crate::id::Id;
use crate::server::User;
use vstd::prelude::*;
use vstd::slice::slice_subrange;
use vstd::utf8::encode_utf8;

verus! {

/// The byte `:` that parts the two ports of a pair.
pub const COLON: u8 = 0x3a;

/// The byte `+`.
pub const PLUS: u8 = 0x2b;

/// The byte `-`.
pub const MINUS: u8 = 0x2d;

/// Why a configuration value was refused.
#[derive(Clone, Copy, Debug, PartialEq, Eq, Structural)]
pub enum ConfigError {
    /// The identifier is no UUID in text form.
    InvalidUuid,
    /// The port pair at this place of the user's list is malformed.
    InvalidPortPair(usize),
}

/// Whether `b` is one of the bytes `0` to `9`.
pub open spec fn is_digit(b: u8) -> bool {
    0x30 <= b <= 0x39
}

/// Whether `s` holds decimal digits only.
pub open spec fn all_digits(s: Seq<u8>) -> bool {
    forall|i: int| 0 <= i < s.len() ==> is_digit(#[trigger] s[i])
}

/// The number that a digit stands for.
pub open spec fn digit_value(b: u8) -> nat {
    if is_digit(b) {
        (b - 0x30) as nat
    } else {
        0
    }
}

/// The number that the decimal digits of `s` spell.
pub open spec fn decimal_value(s: Seq<u8>) -> nat
    decreases s.len(),
{
    if s.len() == 0 {
        0
    } else {
        10 * decimal_value(s.drop_last()) + digit_value(s.last())
    }
}

/// The `i32` that `s` spells: an optional sign, `+` or `-`, then one decimal
/// digit or more, nothing else, and a value that an `i32` can hold.
pub open spec fn decimal_i32(s: Seq<u8>) -> Option<i32> {
    let signed = s.len() > 0 && (s[0] == PLUS || s[0] == MINUS);
    let digits = if signed {
        s.subrange(1, s.len() as int)
    } else {
        s
    };
    let value = if signed && s[0] == MINUS {
        -(decimal_value(digits) as int)
    } else {
        decimal_value(digits) as int
    };
    if digits.len() > 0 && all_digits(digits) && i32::MIN <= value <= i32::MAX {
        Some(value as i32)
    } else {
        None
    }
}

/// Where the field that begins at `from` ends: at the next colon, or at the
/// end of `s`.
pub open spec fn field_end(s: Seq<u8>, from: int) -> int
    decreases s.len() - from,
{
    if from >= s.len() {
        s.len() as int
    } else if s[from] == COLON {
        from
    } else {
        field_end(s, from + 1)
    }
}

/// The port pair that `s` spells: two fields parted by a colon, each an
/// `i32` in decimal. What follows a second colon is not read.
pub open spec fn port_pair_of(s: Seq<u8>) -> Option<(i32, i32)> {
    let first_end = field_end(s, 0);
    if first_end >= s.len() {
        None
    } else {
        let second_end = field_end(s, first_end + 1);
        match (
            decimal_i32(s.subrange(0, first_end)),
            decimal_i32(s.subrange(first_end + 1, second_end)),
        ) {
            (Some(client_port), Some(server_port)) => Some((client_port, server_port)),
            _ => None,
        }
    }
}

/// The digits read so far never spell more than all of the digits.
proof fn lemma_decimal_prefix(s: Seq<u8>, k: int)
    requires
        0 <= k <= s.len(),
    ensures
        decimal_value(s.subrange(0, k)) <= decimal_value(s),
    decreases s.len(),
{
    if k == s.len() {
        assert(s.subrange(0, k) =~= s);
    } else {
        lemma_decimal_prefix(s.drop_last(), k);
        assert(s.drop_last().subrange(0, k) =~= s.subrange(0, k));
    }
}

/// Reads an `i32` in decimal.
pub fn parse_i32(bytes: &[u8]) -> (number: Option<i32>)
    ensures
        number == decimal_i32(bytes@),
{
    let n = bytes.len();
    if n == 0 {
        return None;
    }
    let negative = bytes[0] == MINUS;
    let start: usize = if negative || bytes[0] == PLUS {
        1
    } else {
        0
    };
    let ghost digits = bytes@.subrange(start as int, n as int);
    if start == n {
        return None;
    }
    let mut magnitude: i64 = 0;
    let mut i: usize = start;
    while i < n
        invariant
            start <= i <= n,
            0 < n == bytes@.len(),
            negative == (bytes@[0] == MINUS),
            start == if bytes@[0] == PLUS || bytes@[0] == MINUS {
                1usize
            } else {
                0usize
            },
            digits == bytes@.subrange(start as int, n as int),
            all_digits(digits.subrange(0, i - start)),
            magnitude == decimal_value(digits.subrange(0, i - start)),
            0 <= magnitude <= 0x8000_0000,
        decreases n - i,
    {
        let b = bytes[i];
        if b < 0x30 || b > 0x39 {
            assert(start == 0 ==> digits =~= bytes@);
            return None;
        }
        proof {
            let before = digits.subrange(0, i - start);
            let after = digits.subrange(0, i - start + 1);
            assert(after.drop_last() =~= before);
            lemma_decimal_prefix(digits, i - start + 1);
        }
        magnitude = magnitude * 10 + (b - 0x30) as i64;
        if magnitude > 0x8000_0000 {
            assert(start == 0 ==> digits =~= bytes@);
            return None;
        }
        i += 1;
    }
    assert(digits.subrange(0, n - start) =~= digits);
    assert(start == 0 ==> digits =~= bytes@);
    if negative {
        Some((-magnitude) as i32)
    } else if magnitude > 0x7fff_ffff {
        None
    } else {
        Some(magnitude as i32)
    }
}

/// Finds where the field that begins at `from` ends.
fn find_field_end(bytes: &[u8], from: usize) -> (end: usize)
    requires
        from <= bytes@.len(),
    ensures
        end == field_end(bytes@, from as int),
        from <= end <= bytes@.len(),
{
    let mut i: usize = from;
    while i < bytes.len() && bytes[i] != COLON
        invariant
            from <= i <= bytes@.len(),
            field_end(bytes@, from as int) == field_end(bytes@, i as int),
        decreases bytes@.len() - i,
    {
        i += 1;
    }
    i
}

/// Reads a port pair written as `client_port:server_port`.
pub fn parse_port_pair(text: &str) -> (pair: Option<(i32, i32)>)
    ensures
        pair == port_pair_of(encode_utf8(text@)),
{
    let bytes = text.as_bytes();
    let first_end = find_field_end(bytes, 0);
    if first_end >= bytes.len() {
        return None;
    }
    let second_end = find_field_end(bytes, first_end + 1);
    let client_port = parse_i32(slice_subrange(bytes, 0, first_end));
    let server_port = parse_i32(slice_subrange(bytes, first_end + 1, second_end));
    match (client_port, server_port) {
        (Some(client_port), Some(server_port)) => Some((client_port, server_port)),
        _ => None,
    }
}

/// The sixteen bytes that `uuid::Uuid::parse_str` reads from a text, or
/// `None` where it refuses the text.
pub uninterp spec fn uuid_text_bytes(text: Seq<char>) -> Option<Seq<u8>>;

/// `uuid::Uuid::parse_str`, with the UUID it gives taken as its sixteen
/// bytes, and `None` where it gives an error.
///
/// Trusted: the outcome depends on the text alone, which is what the name
/// `uuid_text_bytes` says. Nothing more is claimed of it.
#[verifier::external_body]
fn parse_uuid(text: &str) -> (bytes: Option<[u8; 16]>)
    ensures
        match bytes {
            Some(bytes) => uuid_text_bytes(text@) == Some(bytes@),
            None => uuid_text_bytes(text@) is None,
        },
{
    match uuid::Uuid::parse_str(text) {
        Ok(uuid) => Some(uuid.into_bytes()),
        Err(_) => None,
    }
}

/// The identifier that a text spells, where it is a UUID in text form.
pub open spec fn id_of_text(text: Seq<char>) -> Option<u128> {
    match uuid_text_bytes(text) {
        Some(bytes) => Some(be_value(bytes) as u128),
        None => None,
    }
}

/// Gives the identifier that `bytes` spell, where a UUID was read.
pub fn id_from_parsed(bytes: Option<[u8; 16]>) -> (id: Result<Id, ConfigError>)
    ensures
        match bytes {
            Some(bytes) => id matches Ok(id) && id@ == be_value(bytes@),
            None => id == Err::<Id, ConfigError>(ConfigError::InvalidUuid),
        },
{
    match bytes {
        Some(bytes) => Ok(Id::from_bytes(bytes)),
        None => Err(ConfigError::InvalidUuid),
    }
}

/// Reads an identifier in the text form of a UUID.
pub fn parse_id(text: &str) -> (id: Result<Id, ConfigError>)
    ensures
        match id {
            Ok(id) => id_of_text(text@) == Some(id@),
            Err(e) => e == ConfigError::InvalidUuid && id_of_text(text@) is None,
        },
{
    id_from_parsed(parse_uuid(text))
}

/// Whether every port pair before place `k` of `ports` is well formed.
pub open spec fn pairs_valid_before(ports: Seq<String>, k: int) -> bool {
    forall|i: int| 0 <= i < k ==> port_pair_of(encode_utf8(#[trigger] ports[i]@)) is Some
}

/// Reads the port pairs of a user, in their order. Fails at the first that is
/// malformed, with its place in the list.
pub fn parse_port_pairs(ports: &Vec<String>) -> (pairs: Result<Vec<(i32, i32)>, ConfigError>)
    ensures
        match pairs {
            Ok(pairs) => {
                &&& pairs@.len() == ports@.len()
                &&& forall|i: int|
                    0 <= i < ports@.len() ==> port_pair_of(encode_utf8(#[trigger] ports@[i]@))
                        == Some(pairs@[i])
            },
            Err(e) => exists|k: usize|
                {
                    &&& e == ConfigError::InvalidPortPair(k)
                    &&& k < ports@.len()
                    &&& pairs_valid_before(ports@, k as int)
                    &&& port_pair_of(encode_utf8(ports@[k as int]@)) is None
                },
        },
{
    let mut pairs: Vec<(i32, i32)> = Vec::new();
    let mut i: usize = 0;
    while i < ports.len()
        invariant
            i <= ports@.len(),
            pairs@.len() == i,
            forall|j: int|
                0 <= j < i ==> port_pair_of(encode_utf8(#[trigger] ports@[j]@)) == Some(pairs@[j]),
        decreases ports@.len() - i,
    {
        match parse_port_pair(ports[i].as_str()) {
            Some(pair) => {
                pairs.push(pair);
            },
            None => {
                assert(pairs_valid_before(ports@, i as int));
                return Err(ConfigError::InvalidPortPair(i));
            },
        }
        i += 1;
    }
    Ok(pairs)
}

/// Makes the user that a configuration entry describes: the identifier in
/// text form, and the port pairs as `client_port:server_port`, kept in their
/// order. The identifier is read first.
pub fn user_from_config(uuid: &str, ports: &Vec<String>) -> (user: Result<User, ConfigError>)
    ensures
        match user {
            Ok(user) => {
                &&& id_of_text(uuid@) == Some(user@.uuid)
                &&& user@.ports.len() == ports@.len()
                &&& forall|i: int|
                    0 <= i < ports@.len() ==> port_pair_of(encode_utf8(#[trigger] ports@[i]@))
                        == Some(user@.ports[i])
            },
            Err(e) => if id_of_text(uuid@) is None {
                e == ConfigError::InvalidUuid
            } else {
                exists|k: usize|
                    {
                        &&& e == ConfigError::InvalidPortPair(k)
                        &&& k < ports@.len()
                        &&& pairs_valid_before(ports@, k as int)
                        &&& port_pair_of(encode_utf8(ports@[k as int]@)) is None
                    }
            },
        },
{
    let id = match parse_id(uuid) {
        Ok(id) => id,
        Err(e) => {
            return Err(e);
        },
    };
    let pairs = match parse_port_pairs(ports) {
        Ok(pairs) => pairs,
        Err(e) => {
            return Err(e);
        },
    };
    let mut user = User::new(id);
    let mut i: usize = 0;
    while i < pairs.len()
        invariant
            i <= pairs@.len(),
            user@.uuid == id@,
            user@.ports == pairs@.subrange(0, i as int),
        decreases pairs@.len() - i,
    {
        let (client_port, server_port) = pairs[i];
        user.add_port(client_port, server_port);
        i += 1;
    }
    Ok(user)
}

/// Makes the client that a configuration describes: the address of the
/// server, and the identifier in text form.
pub fn client_from_config(server_addr: String, uuid: &str) -> (client: Result<Client, ConfigError>)
    ensures
        match client {
            Ok(client) => id_of_text(uuid@) == Some(client@.uuid) && client@.server_addr
                == server_addr@,
            Err(e) => e == ConfigError::InvalidUuid && id_of_text(uuid@) is None,
        },
{
    match parse_id(uuid) {
        Ok(id) => Ok(Client::new(server_addr, id)),
        Err(e) => Err(e),
    }
}

} // verus!
