//! The record kept for one author, and the space it may take.

use vstd::prelude::*;
use vstd::utf8::valid_utf8;
use crate::error::BlogError;
use crate::identity::{Identity, IDENTITY_LEN};
use crate::text::{entry_view, read_text, text_of};

verus! {

/// Bytes that the host puts in front of every stored record.
pub const HEADER_LEN: usize = 8;

/// Most bytes that a post may take.
pub const MAX_POST_LEN: usize = 566;

/// Most bytes that a bio may take.
pub const MAX_BIO_LEN: usize = 256;

/// Bytes to reserve when a record is created: the header, the authority and
/// both fields at their largest.
pub const ACCOUNT_SPACE: usize = HEADER_LEN + IDENTITY_LEN + MAX_POST_LEN + MAX_BIO_LEN;

/// The two texts of a record.
#[derive(Clone, Copy, Debug, PartialEq, Eq, Structural)]
pub enum Field {
    LatestPost,
    Bio,
}

impl Field {
    /// Most bytes that this field may take.
    pub open spec fn spec_capacity(self) -> nat {
        match self {
            Field::LatestPost => MAX_POST_LEN as nat,
            Field::Bio => MAX_BIO_LEN as nat,
        }
    }

    /// Most bytes that this field may take.
    pub fn capacity(self) -> (n: usize)
        ensures
            n == self.spec_capacity(),
    {
        match self {
            Field::LatestPost => MAX_POST_LEN,
            Field::Bio => MAX_BIO_LEN,
        }
    }
}

/// A record as mathematics sees it.
#[verifier::ext_equal]
pub struct RecordView {
    pub authority: Identity,
    pub latest_post: Seq<u8>,
    pub bio: Seq<u8>,
}

impl RecordView {
    /// Both texts are well-formed UTF-8 within their bounds.
    pub open spec fn wf(self) -> bool {
        &&& self.latest_post.len() <= MAX_POST_LEN
        &&& self.bio.len() <= MAX_BIO_LEN
        &&& valid_utf8(self.latest_post)
        &&& valid_utf8(self.bio)
    }

    /// What is wrong with these fields, the post judged before the bio, or
    /// `None` where the record is well-formed.
    pub open spec fn fault(self) -> Option<BlogError> {
        match text_of(self.latest_post, MAX_POST_LEN as nat) {
            Err(e) => Some(e),
            Ok(_) => match text_of(self.bio, MAX_BIO_LEN as nat) {
                Err(e) => Some(e),
                Ok(_) => None,
            },
        }
    }

    /// The record of an author who has written nothing yet.
    pub open spec fn fresh(authority: Identity) -> RecordView {
        RecordView { authority, latest_post: Seq::empty(), bio: Seq::empty() }
    }

    /// The bytes of one field.
    pub open spec fn field(self, field: Field) -> Seq<u8> {
        match field {
            Field::LatestPost => self.latest_post,
            Field::Bio => self.bio,
        }
    }

    /// This record with one field replaced whole.
    pub open spec fn with_field(self, field: Field, bytes: Seq<u8>) -> RecordView {
        match field {
            Field::LatestPost => RecordView { latest_post: bytes, ..self },
            Field::Bio => RecordView { bio: bytes, ..self },
        }
    }

    /// Bytes that the stored record takes: header, authority and both texts.
    pub open spec fn size(self) -> nat {
        HEADER_LEN as nat + IDENTITY_LEN as nat + self.latest_post.len() + self.bio.len()
    }

    /// What `caller` gets for offering `bytes` for `field`: the text to log,
    /// or the refusal. The caller is judged before the bytes.
    pub open spec fn write_result(self, caller: Identity, field: Field, bytes: Seq<u8>) -> Result<
        Seq<char>,
        BlogError,
    > {
        if caller != self.authority {
            Err(BlogError::Unauthorized)
        } else {
            text_of(bytes, field.spec_capacity())
        }
    }

    /// The record after `caller` has offered `bytes` for `field`: the field
    /// replaced where the offer is accepted, the record as it was where not.
    pub open spec fn write(self, caller: Identity, field: Field, bytes: Seq<u8>) -> RecordView {
        if self.write_result(caller, field, bytes) is Ok {
            self.with_field(field, bytes)
        } else {
            self
        }
    }
}

/// The record of one author: who may write, the latest post and the bio.
/// Older posts are not kept here; the log that the host collects has them.
#[derive(Debug)]
pub struct BlogAccount {
    authority: Identity,
    latest_post: Vec<u8>,
    bio: Vec<u8>,
}

impl View for BlogAccount {
    type V = RecordView;

    closed spec fn view(&self) -> RecordView {
        RecordView { authority: self.authority, latest_post: self.latest_post@, bio: self.bio@ }
    }
}

impl BlogAccount {
    /// Holds of every record that exists.
    #[verifier::type_invariant]
    pub open spec fn wf(&self) -> bool {
        self@.wf()
    }

    /// The record of `authority`, with no post and no bio yet.
    pub fn new(authority: Identity) -> (rec: BlogAccount)
        ensures
            rec@ == RecordView::fresh(authority),
            rec@.wf(),
    {
        BlogAccount { authority, latest_post: Vec::new(), bio: Vec::new() }
    }

    /// Rebuilds a record from what storage holds, if that is a well-formed
    /// record; if not, reports what a write would have reported of the field
    /// at fault.
    pub fn from_parts(authority: Identity, latest_post: Vec<u8>, bio: Vec<u8>) -> (r: Result<
        BlogAccount,
        BlogError,
    >)
        ensures
            match r {
                Ok(rec) => {
                    &&& rec@ == (RecordView { authority, latest_post: latest_post@, bio: bio@ })
                    &&& rec@.fault() is None
                },
                Err(e) => (RecordView { authority, latest_post: latest_post@, bio: bio@ }).fault()
                    == Some(e),
            },
    {
        if let Err(e) = read_text(latest_post.as_slice(), MAX_POST_LEN) {
            return Err(e);
        }
        if let Err(e) = read_text(bio.as_slice(), MAX_BIO_LEN) {
            return Err(e);
        }
        Ok(BlogAccount { authority, latest_post, bio })
    }

    /// Who may write to this record.
    pub fn authority(&self) -> (id: Identity)
        ensures
            id == self@.authority,
    {
        self.authority
    }

    /// The latest post, as stored.
    pub fn latest_post(&self) -> (bytes: &[u8])
        ensures
            bytes@ == self@.latest_post,
    {
        self.latest_post.as_slice()
    }

    /// The bio, as stored.
    pub fn bio(&self) -> (bytes: &[u8])
        ensures
            bytes@ == self@.bio,
    {
        self.bio.as_slice()
    }

    /// Bytes that this record takes in storage. It never outgrows what was
    /// reserved for it.
    pub fn size(&self) -> (n: usize)
        ensures
            n == self@.size(),
            n <= ACCOUNT_SPACE,
    {
        proof {
            use_type_invariant(self);
        }
        HEADER_LEN + IDENTITY_LEN + self.latest_post.len() + self.bio.len()
    }

    /// Replaces one field whole, for its authority only and with well-formed
    /// text that fits. On success the text is handed back for the log; on
    /// refusal nothing has changed.
    pub fn update_field(&mut self, caller: Identity, field: Field, bytes: Vec<u8>) -> (r: Result<
        String,
        BlogError,
    >)
        ensures
            entry_view(r) == old(self)@.write_result(caller, field, bytes@),
            final(self)@ == old(self)@.write(caller, field, bytes@),
            final(self)@.wf(),
    {
        proof {
            use_type_invariant(&*self);
        }
        if !(caller == self.authority) {
            return Err(BlogError::Unauthorized);
        }
        let text = match read_text(bytes.as_slice(), field.capacity()) {
            Ok(text) => text.to_owned(),
            Err(e) => {
                return Err(e);
            },
        };
        match field {
            Field::LatestPost => {
                self.latest_post = bytes;
            },
            Field::Bio => {
                self.bio = bytes;
            },
        }
        Ok(text)
    }
}

} // verus!
