use cnosdb::tag::{sort_tags, FbTag, ModelError, Tag, TagFromParts};

#[test]
fn test_tag_bytes() {
    let tag = Tag::new(b"hello".to_vec(), b"123".to_vec());
    assert_eq!(tag.to_bytes(), Vec::from("hello123"));
}

#[test]
fn test_tag_format_check() {
    let tag = Tag::new(b"hello".to_vec(), b"123".to_vec());
    tag.check().unwrap();
}

fn invalid_tag_message(r: Result<(), ModelError>) -> String {
    match r {
        Err(ModelError::InvalidTag { err }) => err,
        other => panic!("unexpected {:?}", other),
    }
}

#[test]
fn check_rejects_empty_key_first() {
    let tag = Tag::new(vec![], vec![]);
    assert_eq!(invalid_tag_message(tag.check()), "Tag key cannot be empty");
}

#[test]
fn check_rejects_empty_value() {
    let tag = Tag::new(b"k".to_vec(), vec![]);
    assert_eq!(invalid_tag_message(tag.check()), "Tag value cannot be empty");
}

#[test]
fn check_key_length_limit() {
    assert!(Tag::new(vec![b'a'; 512], b"v".to_vec()).check().is_ok());
    let tag = Tag::new(vec![b'a'; 513], b"v".to_vec());
    assert_eq!(
        invalid_tag_message(tag.check()),
        "Tag key exceeds the TAG_KEY_MAX_LEN(512)"
    );
}

#[test]
fn check_value_length_limit() {
    assert!(Tag::new(b"k".to_vec(), vec![b'v'; 4096]).check().is_ok());
    let tag = Tag::new(b"k".to_vec(), vec![b'v'; 4097]);
    assert_eq!(
        invalid_tag_message(tag.check()),
        "Tag value exceeds the TAG_VALUE_MAX_LEN(4096)"
    );
}

#[test]
fn sort_tags_orders_by_key_and_keeps_equal_keys_in_order() {
    let mut tags = vec![
        Tag::from_parts("b", "1"),
        Tag::from_parts("a", "2"),
        Tag::from_parts("ab", "3"),
        Tag::from_parts("a", "4"),
        Tag::from_parts("", "5"),
    ];
    sort_tags(&mut tags);
    let got: Vec<(Vec<u8>, Vec<u8>)> = tags.into_iter().map(|t| (t.key, t.value)).collect();
    assert_eq!(
        got,
        vec![
            (b"".to_vec(), b"5".to_vec()),
            (b"a".to_vec(), b"2".to_vec()),
            (b"a".to_vec(), b"4".to_vec()),
            (b"ab".to_vec(), b"3".to_vec()),
            (b"b".to_vec(), b"1".to_vec()),
        ]
    );
}

#[test]
fn from_parts_takes_utf8_bytes() {
    let t = Tag::from_parts("ключ", "v");
    assert_eq!(t.key, "ключ".as_bytes().to_vec());
    let u = <Tag as TagFromParts<Vec<u8>, Vec<u8>>>::from_parts(b"k".to_vec(), b"v".to_vec());
    assert_eq!(u, Tag::new(b"k".to_vec(), b"v".to_vec()));
}

#[test]
fn from_flatbuffers_needs_both_parts() {
    let ok = Tag::from_flatbuffers(&FbTag { key: Some(b"k".to_vec()), value: Some(b"v".to_vec()) });
    assert_eq!(ok.unwrap(), Tag::new(b"k".to_vec(), b"v".to_vec()));
    match Tag::from_flatbuffers(&FbTag { key: None, value: Some(b"v".to_vec()) }) {
        Err(ModelError::InvalidFlatbufferMessage { err }) => {
            assert_eq!(err, "Tag key cannot be empty")
        }
        other => panic!("unexpected {:?}", other),
    }
    match Tag::from_flatbuffers(&FbTag { key: Some(b"k".to_vec()), value: None }) {
        Err(ModelError::InvalidFlatbufferMessage { err }) => {
            assert_eq!(err, "Tag value cannot be emptyt")
        }
        other => panic!("unexpected {:?}", other),
    }
}
