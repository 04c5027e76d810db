//! Identifiers in Oracle RAW(16) columns.
use vstd::prelude::*;
use crate::db::error::{DbError, DbErrorView, DbResult};
use crate::text;
use crate::uuid;
use crate::uuid::Uuid;

verus! {

/// What raw bytes hold: the identifier that sixteen of them spell; any other number is an error.
pub open spec fn raw16_uuid(raw: Seq<u8>) -> Result<Uuid, DbErrorView> {
    if raw.len() == 16 {
        Ok(Uuid { value: uuid::big_endian(raw) as u128 })
    } else {
        Err(
            DbErrorView::Query(
                "expected Oracle RAW(16) UUID value, got "@ + text::decimal_text(raw.len())
                    + " bytes"@,
            ),
        )
    }
}

/// The sixteen bytes of an identifier.
pub fn uuid_to_raw16(uuid: Uuid) -> (r: [u8; 16])
    ensures
        r@ == uuid::raw_bytes(uuid),
        uuid::big_endian(r@) == uuid.value,
        raw16_uuid(r@) == Ok::<Uuid, DbErrorView>(uuid),
{
    let bytes = uuid.into_bytes();
    proof {
        uuid::raw_bytes_are_those_that_spell(uuid, bytes@);
    }
    bytes
}

/// The identifier that sixteen raw bytes hold.
pub fn raw16_to_uuid(raw: &[u8]) -> (r: DbResult<Uuid>)
    ensures
        match r {
            Ok(id) => raw16_uuid(raw@) == Ok::<Uuid, DbErrorView>(id),
            Err(e) => raw16_uuid(raw@) == Err::<Uuid, DbErrorView>(e@),
        },
{
    if raw.len() == 16 {
        let bytes: [u8; 16] = [
            raw[0],
            raw[1],
            raw[2],
            raw[3],
            raw[4],
            raw[5],
            raw[6],
            raw[7],
            raw[8],
            raw[9],
            raw[10],
            raw[11],
            raw[12],
            raw[13],
            raw[14],
            raw[15],
        ];
        assert(bytes@ =~= raw@);
        Ok(Uuid::from_bytes(bytes))
    } else {
        Err(
            DbError::Query(
                text::joined3(
                    "expected Oracle RAW(16) UUID value, got ",
                    text::decimal(raw.len() as u64).as_str(),
                    " bytes",
                ),
            ),
        )
    }
}

/// The bytes of an identifier, read back, give the same identifier; and the bytes that give an
/// identifier are its bytes.
pub proof fn raw16_round_trip(id: Uuid, raw: Seq<u8>)
    ensures
        raw16_uuid(uuid::raw_bytes(id)) == Ok::<Uuid, DbErrorView>(id),
        raw16_uuid(raw) == Ok::<Uuid, DbErrorView>(id) ==> raw == uuid::raw_bytes(id),
{
    reveal_with_fuel(uuid::byte_power, 17);
    uuid::bytes_spell_their_number(id.value as nat, 16);
    if raw16_uuid(raw) == Ok::<Uuid, DbErrorView>(id) {
        uuid::sixteen_bytes_fit(raw);
        uuid::raw_bytes_are_those_that_spell(id, raw);
    }
}

} // verus!
