//! The operations that the host invokes, each on the accounts it was handed.

use vstd::prelude::*;
use crate::account::{BlogAccount, Field, RecordView, MAX_BIO_LEN};
use crate::error::BlogError;
use crate::identity::Identity;
use crate::text::{entry_view, text_of};

verus! {

/// What an address holds: nothing yet, or a record.
pub open spec fn slot_view(slot: Option<BlogAccount>) -> Option<RecordView> {
    match slot {
        Some(rec) => Some(rec@),
        None => None,
    }
}

/// Bytes that may or may not have been given.
pub open spec fn bytes_view(bytes: Option<Vec<u8>>) -> Option<Seq<u8>> {
    match bytes {
        Some(b) => Some(b@),
        None => None,
    }
}

/// The outcome of creating a record, seen through the characters of the
/// text it hands back.
pub open spec fn creation_view(r: Result<Option<String>, BlogError>) -> Result<
    Option<Seq<char>>,
    BlogError,
> {
    match r {
        Ok(Some(text)) => Ok(Some(text@)),
        Ok(None) => Ok(None),
        Err(e) => Err(e),
    }
}

/// What creating a record at an address yields: the bio text to log if a
/// bio was given, nothing to log if none was, or the refusal. An address in
/// use is refused before the bio is looked at.
pub open spec fn initialize_result(slot: Option<RecordView>, bio: Option<Seq<u8>>) -> Result<
    Option<Seq<char>>,
    BlogError,
> {
    if slot is Some {
        Err(BlogError::AlreadyInitialized)
    } else {
        match bio {
            None => Ok(None),
            Some(bytes) => match text_of(bytes, MAX_BIO_LEN as nat) {
                Ok(text) => Ok(Some(text)),
                Err(e) => Err(e),
            },
        }
    }
}

/// What the address holds after `caller` has asked for a record there: the
/// caller's new record where the request is accepted, what it held before
/// where not.
pub open spec fn initialize_state(
    slot: Option<RecordView>,
    caller: Identity,
    bio: Option<Seq<u8>>,
) -> Option<RecordView> {
    if initialize_result(slot, bio) is Ok {
        Some(
            RecordView {
                authority: caller,
                latest_post: Seq::empty(),
                bio: match bio {
                    Some(bytes) => bytes,
                    None => Seq::empty(),
                },
            },
        )
    } else {
        slot
    }
}

/// What `caller` gets for offering `bytes` for `field` of the record at an
/// address: the text to log, or the refusal. A missing record is reported
/// before the caller is judged, the caller before the bytes.
pub open spec fn update_result(
    slot: Option<RecordView>,
    caller: Identity,
    field: Field,
    bytes: Seq<u8>,
) -> Result<Seq<char>, BlogError> {
    match slot {
        None => Err(BlogError::NotInitialized),
        Some(rec) => rec.write_result(caller, field, bytes),
    }
}

/// What the address holds after that offer.
pub open spec fn update_state(
    slot: Option<RecordView>,
    caller: Identity,
    field: Field,
    bytes: Seq<u8>,
) -> Option<RecordView> {
    match slot {
        None => None,
        Some(rec) => Some(rec.write(caller, field, bytes)),
    }
}

/// The accounts of a request to create a record.
#[derive(Debug)]
pub struct Initialize {
    /// What the target address holds.
    pub blog_account: Option<BlogAccount>,
    /// The signer, who becomes the authority and pays for the space.
    pub authority: Identity,
}

/// The accounts of a request to overwrite a field.
#[derive(Debug)]
pub struct MutateAccount {
    /// What the target address holds.
    pub blog_account: Option<BlogAccount>,
    /// The signer.
    pub authority: Identity,
}

impl MutateAccount {
    /// Overwrites `field` of the record with `bytes`, whichever field it is.
    /// On success the decoded text is handed back for the log; on refusal
    /// the accounts are as they were.
    pub fn update(&mut self, field: Field, bytes: Vec<u8>) -> (r: Result<String, BlogError>)
        ensures
            entry_view(r) == update_result(
                slot_view(old(self).blog_account),
                old(self).authority,
                field,
                bytes@,
            ),
            slot_view(final(self).blog_account) == update_state(
                slot_view(old(self).blog_account),
                old(self).authority,
                field,
                bytes@,
            ),
            final(self).authority == old(self).authority,
    {
        let caller = self.authority;
        match &mut self.blog_account {
            None => Err(BlogError::NotInitialized),
            Some(rec) => rec.update_field(caller, field, bytes),
        }
    }
}

/// Creates the record of the signer at the target address, with `new_bio`
/// as its bio if one is given. On success the decoded bio, if any, is handed
/// back for the log; on refusal the accounts are as they were.
pub fn initialize(ctx: &mut Initialize, new_bio: Option<Vec<u8>>) -> (r: Result<
    Option<String>,
    BlogError,
>)
    ensures
        creation_view(r) == initialize_result(
            slot_view(old(ctx).blog_account),
            bytes_view(new_bio),
        ),
        slot_view(final(ctx).blog_account) == initialize_state(
            slot_view(old(ctx).blog_account),
            old(ctx).authority,
            bytes_view(new_bio),
        ),
        final(ctx).authority == old(ctx).authority,
{
    if ctx.blog_account.is_some() {
        return Err(BlogError::AlreadyInitialized);
    }
    let mut rec = BlogAccount::new(ctx.authority);
    match new_bio {
        None => {
            ctx.blog_account = Some(rec);
            Ok(None)
        },
        Some(bio) => match rec.update_field(ctx.authority, Field::Bio, bio) {
            Ok(text) => {
                ctx.blog_account = Some(rec);
                Ok(Some(text))
            },
            Err(e) => Err(e),
        },
    }
}

/// Overwrites the latest post of the signer's record.
pub fn make_post(ctx: &mut MutateAccount, new_post: Vec<u8>) -> (r: Result<String, BlogError>)
    ensures
        entry_view(r) == update_result(
            slot_view(old(ctx).blog_account),
            old(ctx).authority,
            Field::LatestPost,
            new_post@,
        ),
        slot_view(final(ctx).blog_account) == update_state(
            slot_view(old(ctx).blog_account),
            old(ctx).authority,
            Field::LatestPost,
            new_post@,
        ),
        final(ctx).authority == old(ctx).authority,
{
    ctx.update(Field::LatestPost, new_post)
}

/// Overwrites the bio of the signer's record.
pub fn update_bio(ctx: &mut MutateAccount, new_bio: Vec<u8>) -> (r: Result<String, BlogError>)
    ensures
        entry_view(r) == update_result(
            slot_view(old(ctx).blog_account),
            old(ctx).authority,
            Field::Bio,
            new_bio@,
        ),
        slot_view(final(ctx).blog_account) == update_state(
            slot_view(old(ctx).blog_account),
            old(ctx).authority,
            Field::Bio,
            new_bio@,
        ),
        final(ctx).authority == old(ctx).authority,
{
    ctx.update(Field::Bio, new_bio)
}

} // verus!
