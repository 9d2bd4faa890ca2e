//! The ledger as a record of bytes, for a save file.
//!
//! The record is the one that `bincode` writes for the pair of the name and
//! the wealth, which is also what it writes for a struct of those two
//! fields in that order.

use vstd::prelude::*;
use crate::error::GameError;
use crate::ledger::Player;

verus! {

/// `bincode::ErrorKind`, the error of the encoder and the decoder. It is
/// carried through unread.
#[verifier::external_type_specification]
#[verifier::external_body]
pub struct ExErrorKind(bincode::ErrorKind);

/// The bytes that `bincode::serialize` gives for a name and a wealth, or
/// nothing where it reports an error.
pub uninterp spec fn record_bytes(name: Seq<char>, wealth: u16) -> Option<Seq<u8>>;

/// The name and the wealth that `bincode::deserialize` reads from bytes, or
/// nothing where it reports an error.
pub uninterp spec fn record_fields(bytes: Seq<u8>) -> Option<(Seq<char>, u16)>;

/// `bincode::serialize` on the pair of the name and the wealth. The result
/// depends on the two values alone, and the contract gives it its name. It
/// claims one thing more, which is what the encoder is for: the bytes that
/// it writes are bytes from which `bincode::deserialize` reads the same name
/// and the same wealth. Of the bytes themselves it says nothing.
#[verifier::external_body]
fn serialize_record(name: &str, wealth: u16) -> (r: Result<Vec<u8>, Box<bincode::ErrorKind>>)
    ensures
        match r {
            Ok(bytes) => record_bytes(name@, wealth) == Some(bytes@) && record_fields(bytes@)
                == Some((name@, wealth)),
            Err(_) => record_bytes(name@, wealth) is None,
        },
{
    bincode::serialize(&(name, wealth))
}

/// `bincode::deserialize` of a pair of a name and a wealth. The result
/// depends on the bytes alone; the contract gives it its name and says no
/// more of it.
#[verifier::external_body]
fn deserialize_record(bytes: &[u8]) -> (r: Result<(String, u16), Box<bincode::ErrorKind>>)
    ensures
        match r {
            Ok(fields) => record_fields(bytes@) == Some((fields.0@, fields.1)),
            Err(_) => record_fields(bytes@) is None,
        },
{
    bincode::deserialize::<(String, u16)>(bytes)
}

/// The player as a record of bytes, from which `decode_player` reads the
/// same name and the same wealth. An error of the encoder comes back as a
/// failure to persist.
pub fn encode_player(player: &Player) -> (r: Result<Vec<u8>, GameError>)
    ensures
        match record_bytes(player.name@, player.wealth) {
            Some(bytes) => r is Ok && r.unwrap()@ == bytes,
            None => r == Err::<Vec<u8>, GameError>(GameError::PersistenceError),
        },
        r is Ok ==> record_fields(r.unwrap()@) == Some((player.name@, player.wealth)),
{
    match serialize_record(player.name.as_str(), player.wealth) {
        Ok(bytes) => Ok(bytes),
        Err(_) => Err(GameError::PersistenceError),
    }
}

/// The player that a record of bytes holds. Bytes that are no record come
/// back as a failure to persist.
pub fn decode_player(bytes: &[u8]) -> (r: Result<Player, GameError>)
    ensures
        match record_fields(bytes@) {
            Some(fields) => r is Ok && r.unwrap().name@ == fields.0 && r.unwrap().wealth
                == fields.1,
            None => r is Err && r.unwrap_err() == GameError::PersistenceError,
        },
{
    match deserialize_record(bytes) {
        Ok(fields) => Ok(Player { name: fields.0, wealth: fields.1 }),
        Err(_) => Err(GameError::PersistenceError),
    }
}

} // verus!
