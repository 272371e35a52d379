//! What holds of the operations, whatever the inputs.

use vstd::prelude::*;
use vstd::utf8::{decode_utf8, valid_utf8};
use crate::account::{Field, RecordView, ACCOUNT_SPACE};
use crate::error::BlogError;
use crate::identity::Identity;
use crate::program::{initialize_result, initialize_state, update_result, update_state};
use crate::text::{is_valid_up_to, lemma_valid_up_to_exists, lemma_valid_up_to_unique, valid_up_to};

verus! {

/// Well-formed text that fits, offered by the authority, is accepted, and a
/// read of the field then returns exactly the bytes offered. The other field
/// and the authority are as before.
pub proof fn law_write_then_read(rec: RecordView, caller: Identity, field: Field, bytes: Seq<u8>)
    requires
        caller == rec.authority,
        valid_utf8(bytes),
        bytes.len() <= field.spec_capacity(),
    ensures
        update_result(Some(rec), caller, field, bytes) == Ok::<Seq<char>, BlogError>(
            decode_utf8(bytes),
        ),
        update_state(Some(rec), caller, field, bytes) == Some(rec.with_field(field, bytes)),
        rec.with_field(field, bytes).field(field) == bytes,
        rec.with_field(field, bytes).authority == rec.authority,
        forall|other: Field| other != field ==> rec.with_field(field, bytes).field(other) == rec.field(other),
{
}

/// Bytes whose first ill-formed sequence begins at `offset`, offered by the
/// authority, are refused with that offset, and the record is as before.
pub proof fn law_ill_formed_refused(
    rec: RecordView,
    caller: Identity,
    field: Field,
    bytes: Seq<u8>,
    offset: usize,
)
    requires
        caller == rec.authority,
        is_valid_up_to(bytes, offset as int),
        offset < bytes.len(),
    ensures
        update_result(Some(rec), caller, field, bytes) == Err::<Seq<char>, BlogError>(
            BlogError::InvalidEncoding { offset },
        ),
        update_state(Some(rec), caller, field, bytes) == Some(rec),
{
    lemma_valid_up_to_unique(bytes, offset as int);
}

/// Ill-formed bytes offered by the authority are always refused with an
/// offset inside them: the one at which their first ill-formed sequence
/// begins.
pub proof fn law_ill_formed_has_offset(
    rec: RecordView,
    caller: Identity,
    field: Field,
    bytes: Seq<u8>,
)
    requires
        caller == rec.authority,
        !valid_utf8(bytes),
        bytes.len() <= usize::MAX,
    ensures
        exists|offset: usize|
            {
                &&& offset < bytes.len()
                &&& is_valid_up_to(bytes, offset as int)
                &&& #[trigger] update_result(Some(rec), caller, field, bytes) == Err::<
                    Seq<char>,
                    BlogError,
                >(BlogError::InvalidEncoding { offset })
            },
{
    lemma_valid_up_to_exists(bytes);
    lemma_valid_up_to_unique(bytes, valid_up_to(bytes));
    let offset = valid_up_to(bytes) as usize;
    assert(update_result(Some(rec), caller, field, bytes) == Err::<Seq<char>, BlogError>(
        BlogError::InvalidEncoding { offset },
    ));
}

/// Once a record has been created at an address, a second request to create
/// one there is refused, whoever asks and whatever bio comes with it, and
/// the record keeps the authority it was created with.
pub proof fn law_initialize_once(
    first: Identity,
    first_bio: Option<Seq<u8>>,
    second: Identity,
    second_bio: Option<Seq<u8>>,
)
    requires
        initialize_result(None, first_bio) is Ok,
    ensures
        ({
            let held = initialize_state(None, first, first_bio);
            &&& held is Some
            &&& held->0.authority == first
            &&& initialize_result(held, second_bio) == Err::<Option<Seq<char>>, BlogError>(
                BlogError::AlreadyInitialized,
            )
            &&& initialize_state(held, second, second_bio) == held
        }),
{
}

/// A caller who is not the authority is refused, whatever the bytes, and
/// the record is as before.
pub proof fn law_stranger_refused(rec: RecordView, caller: Identity, field: Field, bytes: Seq<u8>)
    requires
        caller != rec.authority,
    ensures
        update_result(Some(rec), caller, field, bytes) == Err::<Seq<char>, BlogError>(
            BlogError::Unauthorized,
        ),
        update_state(Some(rec), caller, field, bytes) == Some(rec),
{
}

/// At an address that holds no record, every write is refused and the
/// address still holds none.
pub proof fn law_write_needs_record(caller: Identity, field: Field, bytes: Seq<u8>)
    ensures
        update_result(None, caller, field, bytes) == Err::<Seq<char>, BlogError>(
            BlogError::NotInitialized,
        ),
        update_state(None, caller, field, bytes) is None,
{
}

/// A write made a second time is answered as it was the first time and
/// changes nothing more.
pub proof fn law_write_idempotent(
    slot: Option<RecordView>,
    caller: Identity,
    field: Field,
    bytes: Seq<u8>,
)
    ensures
        ({
            let once = update_state(slot, caller, field, bytes);
            &&& update_result(once, caller, field, bytes) == update_result(
                slot,
                caller,
                field,
                bytes,
            )
            &&& update_state(once, caller, field, bytes) == once
        }),
{
}

/// No write changes the authority of a record, makes a record ill-formed or
/// empties an address; whenever a write is refused, nothing has changed.
pub proof fn law_write_keeps_record(rec: RecordView, caller: Identity, field: Field, bytes: Seq<u8>)
    requires
        rec.wf(),
    ensures
        ({
            let after = update_state(Some(rec), caller, field, bytes);
            &&& after is Some
            &&& after->0.authority == rec.authority
            &&& after->0.wf()
            &&& update_result(Some(rec), caller, field, bytes) is Err ==> after == Some(rec)
        }),
{
}

/// A request to create a record leaves a well-formed record of the caller
/// with no post, or leaves the address as it was; a record is never
/// replaced or removed.
pub proof fn law_initialize_sound(slot: Option<RecordView>, caller: Identity, bio: Option<Seq<u8>>)
    ensures
        ({
            let after = initialize_state(slot, caller, bio);
            if initialize_result(slot, bio) is Ok {
                &&& slot is None
                &&& after is Some
                &&& after->0.wf()
                &&& after->0.authority == caller
                &&& after->0.latest_post.len() == 0
                &&& bio is None ==> after->0.bio.len() == 0
                &&& bio is Some ==> after->0.bio == bio->0
            } else {
                after == slot
            }
        }),
{
}

/// A record is well-formed exactly when nothing is at fault in it.
pub proof fn law_fault_free_is_wf(rec: RecordView)
    ensures
        rec.fault() is None <==> rec.wf(),
{
}

/// A well-formed record fits the space reserved for it.
pub proof fn law_record_fits(rec: RecordView)
    requires
        rec.wf(),
    ensures
        rec.size() <= ACCOUNT_SPACE,
{
}

} // verus!
