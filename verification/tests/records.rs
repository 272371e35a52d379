use solblog::text::read_text;
use solblog::{
    BlogAccount, BlogError, Field, Identity, ACCOUNT_SPACE, HEADER_LEN, MAX_BIO_LEN, MAX_POST_LEN,
};

fn alice() -> Identity {
    Identity::new([0xA1; 32])
}

fn bob() -> Identity {
    Identity::new([0xB0; 32])
}

#[test]
fn identity_keeps_its_bytes() {
    let mut key = [0u8; 32];
    for (i, b) in key.iter_mut().enumerate() {
        *b = i as u8;
    }
    assert_eq!(Identity::new(key).to_bytes(), key);
}

#[test]
fn identities_compare_by_bytes() {
    assert_eq!(alice(), Identity::new([0xA1; 32]));
    assert_ne!(alice(), bob());
    let mut last = [0xA1u8; 32];
    last[31] = 0xA2;
    assert_ne!(alice(), Identity::new(last));
    let mut first = [0xA1u8; 32];
    first[0] = 0;
    assert_ne!(alice(), Identity::new(first));
}

#[test]
fn space_is_header_authority_and_both_fields() {
    assert_eq!(HEADER_LEN, 8);
    assert_eq!(MAX_POST_LEN, 566);
    assert_eq!(MAX_BIO_LEN, 256);
    assert_eq!(ACCOUNT_SPACE, 862);
    assert_eq!(ACCOUNT_SPACE, 8 + 32 + 566 + 256);
}

#[test]
fn field_capacities() {
    assert_eq!(Field::LatestPost.capacity(), 566);
    assert_eq!(Field::Bio.capacity(), 256);
}

#[test]
fn read_text_decodes_well_formed_bytes() {
    assert_eq!(read_text(b"hello", 566), Ok("hello"));
    assert_eq!(read_text("héllo wörld ✓ 🦀".as_bytes(), 566), Ok("héllo wörld ✓ 🦀"));
    assert_eq!(read_text(b"", 0), Ok(""));
}

#[test]
fn read_text_reports_first_ill_formed_offset() {
    assert_eq!(read_text(b"ab\xffcd", 566), Err(BlogError::InvalidEncoding { offset: 2 }));
    assert_eq!(read_text(b"\xff", 566), Err(BlogError::InvalidEncoding { offset: 0 }));
    // a three-byte sequence cut short by the end of the input
    assert_eq!(read_text(b"a\xe2\x82", 566), Err(BlogError::InvalidEncoding { offset: 1 }));
    // an overlong encoding of NUL
    assert_eq!(read_text(b"\xc0\x80", 566), Err(BlogError::InvalidEncoding { offset: 0 }));
    // a surrogate
    assert_eq!(read_text(b"ok\xed\xa0\x80", 566), Err(BlogError::InvalidEncoding { offset: 2 }));
    // beyond the last scalar value
    assert_eq!(read_text(b"\xf4\x90\x80\x80", 566), Err(BlogError::InvalidEncoding { offset: 0 }));
    // a stray continuation byte after a full character
    assert_eq!(
        read_text(b"\xe2\x9c\x93\x80", 566),
        Err(BlogError::InvalidEncoding { offset: 3 })
    );
}

#[test]
fn read_text_judges_length_in_bytes() {
    assert_eq!(read_text(b"abc", 3), Ok("abc"));
    assert_eq!(read_text(b"abcd", 3), Err(BlogError::CapacityExceeded));
    // two characters, six bytes
    assert_eq!(read_text("✓✓".as_bytes(), 6), Ok("✓✓"));
    assert_eq!(read_text("✓✓".as_bytes(), 5), Err(BlogError::CapacityExceeded));
}

#[test]
fn read_text_judges_encoding_before_length() {
    assert_eq!(read_text(b"abc\xff", 2), Err(BlogError::InvalidEncoding { offset: 3 }));
}

#[test]
fn new_record_is_empty() {
    let rec = BlogAccount::new(alice());
    assert_eq!(rec.authority(), alice());
    assert_eq!(rec.latest_post(), b"");
    assert_eq!(rec.bio(), b"");
    assert_eq!(rec.size(), 40);
}

#[test]
fn record_size_counts_header_authority_and_texts() {
    let mut rec = BlogAccount::new(alice());
    rec.update_field(alice(), Field::LatestPost, b"hello".to_vec()).unwrap();
    assert_eq!(rec.size(), 45);
    rec.update_field(alice(), Field::Bio, "✓".as_bytes().to_vec()).unwrap();
    assert_eq!(rec.size(), 48);
    rec.update_field(alice(), Field::LatestPost, vec![b'x'; 566]).unwrap();
    rec.update_field(alice(), Field::Bio, vec![b'y'; 256]).unwrap();
    assert_eq!(rec.size(), ACCOUNT_SPACE);
}

#[test]
fn update_field_writes_the_chosen_field_only() {
    let mut rec = BlogAccount::new(alice());
    assert_eq!(
        rec.update_field(alice(), Field::Bio, b"about me".to_vec()),
        Ok("about me".to_string())
    );
    assert_eq!(rec.bio(), b"about me");
    assert_eq!(rec.latest_post(), b"");
    assert_eq!(
        rec.update_field(alice(), Field::LatestPost, b"first".to_vec()),
        Ok("first".to_string())
    );
    assert_eq!(rec.bio(), b"about me");
    assert_eq!(rec.latest_post(), b"first");
    assert_eq!(rec.authority(), alice());
}

#[test]
fn update_field_replaces_rather_than_appends() {
    let mut rec = BlogAccount::new(alice());
    rec.update_field(alice(), Field::LatestPost, b"a long first post".to_vec()).unwrap();
    rec.update_field(alice(), Field::LatestPost, b"short".to_vec()).unwrap();
    assert_eq!(rec.latest_post(), b"short");
    rec.update_field(alice(), Field::LatestPost, Vec::new()).unwrap();
    assert_eq!(rec.latest_post(), b"");
}

#[test]
fn update_field_refuses_a_stranger_before_reading_the_bytes() {
    let mut rec = BlogAccount::new(alice());
    rec.update_field(alice(), Field::Bio, b"mine".to_vec()).unwrap();
    assert_eq!(
        rec.update_field(bob(), Field::Bio, b"\xff".to_vec()),
        Err(BlogError::Unauthorized)
    );
    assert_eq!(
        rec.update_field(bob(), Field::LatestPost, vec![b'x'; 600]),
        Err(BlogError::Unauthorized)
    );
    assert_eq!(rec.bio(), b"mine");
    assert_eq!(rec.latest_post(), b"");
    assert_eq!(rec.authority(), alice());
}

#[test]
fn update_field_holds_each_field_to_its_own_bound() {
    let mut rec = BlogAccount::new(alice());
    assert!(rec.update_field(alice(), Field::Bio, vec![b'b'; 256]).is_ok());
    assert_eq!(
        rec.update_field(alice(), Field::Bio, vec![b'c'; 257]),
        Err(BlogError::CapacityExceeded)
    );
    assert_eq!(rec.bio(), vec![b'b'; 256].as_slice());
    assert!(rec.update_field(alice(), Field::LatestPost, vec![b'p'; 257]).is_ok());
    assert!(rec.update_field(alice(), Field::LatestPost, vec![b'p'; 566]).is_ok());
    assert_eq!(
        rec.update_field(alice(), Field::LatestPost, vec![b'q'; 567]),
        Err(BlogError::CapacityExceeded)
    );
    assert_eq!(rec.latest_post(), vec![b'p'; 566].as_slice());
}

#[test]
fn from_parts_accepts_a_well_formed_record() {
    let rec = BlogAccount::from_parts(bob(), "пост".as_bytes().to_vec(), b"bio".to_vec()).unwrap();
    assert_eq!(rec.authority(), bob());
    assert_eq!(rec.latest_post(), "пост".as_bytes());
    assert_eq!(rec.bio(), b"bio");
    assert_eq!(rec.size(), 8 + 32 + 8 + 3);
}

#[test]
fn from_parts_reports_the_post_before_the_bio() {
    assert_eq!(
        BlogAccount::from_parts(bob(), b"p\xfe".to_vec(), b"\xfe".to_vec()).unwrap_err(),
        BlogError::InvalidEncoding { offset: 1 }
    );
    assert_eq!(
        BlogAccount::from_parts(bob(), vec![b'p'; 567], b"\xfe".to_vec()).unwrap_err(),
        BlogError::CapacityExceeded
    );
    assert_eq!(
        BlogAccount::from_parts(bob(), b"post".to_vec(), b"bi\xfe".to_vec()).unwrap_err(),
        BlogError::InvalidEncoding { offset: 2 }
    );
    assert_eq!(
        BlogAccount::from_parts(bob(), b"post".to_vec(), vec![b'b'; 257]).unwrap_err(),
        BlogError::CapacityExceeded
    );
}
