//! The fetched-object payload type and the paged-result merge helper.

use ssm_utils::S3Object;
use ssm_utils::TableType;
use ssm_utils::merge;

#[test]
fn object_content_type_and_bytes() {
    let obj = S3Object::new("image/png".to_string(), vec![1u8, 2, 3]);
    assert_eq!(obj.content_type(), "image/png");
    let (ct, bytes) = obj.into_bytes();
    assert_eq!(ct, "image/png");
    assert_eq!(bytes, vec![1u8, 2, 3]);
}

#[test]
fn object_into_string_decodes_utf8() {
    let obj = S3Object::new("text/plain".to_string(), "héllo".as_bytes().to_vec());
    let (ct, text) = obj.into_string().unwrap();
    assert_eq!(ct, "text/plain");
    assert_eq!(text, "héllo");
}

#[test]
fn object_into_string_rejects_invalid_utf8() {
    let obj = S3Object::new("application/octet-stream".to_string(), vec![0xffu8, 0xfe]);
    assert!(obj.into_string().is_err());
}

#[test]
fn object_into_base64_string() {
    let obj = S3Object::new("text/plain".to_string(), b"abc".to_vec());
    let (ct, encoded) = obj.into_base64_string().unwrap();
    assert_eq!(ct, "text/plain");
    assert_eq!(encoded, "YWJj");
}

#[test]
fn object_base64_of_empty_is_empty() {
    let obj = S3Object::new("text/plain".to_string(), Vec::new());
    let (_, encoded) = obj.into_base64_string().unwrap();
    assert_eq!(encoded, "");
}

#[test]
fn merge_none_none() {
    let mut first: Option<Vec<u32>> = None;
    let mut second: Option<Vec<u32>> = None;
    merge(&mut first, &mut second);
    assert!(first.is_none());
    assert!(second.is_none());
}

#[test]
fn merge_none_some_moves_the_batch() {
    let mut first: Option<Vec<u32>> = None;
    let mut second = Some(vec![1u32, 2]);
    merge(&mut first, &mut second);
    assert_eq!(first, Some(vec![1u32, 2]));
    assert!(second.is_none());
}

#[test]
fn merge_some_none_keeps_the_batch() {
    let mut first = Some(vec![1u32]);
    let mut second: Option<Vec<u32>> = None;
    merge(&mut first, &mut second);
    assert_eq!(first, Some(vec![1u32]));
    assert!(second.is_none());
}

#[test]
fn merge_some_some_concatenates() {
    let mut first = Some(vec![1u32, 2]);
    let mut second = Some(vec![3u32, 4]);
    merge(&mut first, &mut second);
    assert_eq!(first, Some(vec![1u32, 2, 3, 4]));
    assert_eq!(second, Some(Vec::new()));
}

#[test]
fn table_type_carries_capacity_units() {
    match TableType::Provisioned(5, 7) {
        TableType::Provisioned(read, write) => {
            assert_eq!(read, 5);
            assert_eq!(write, 7);
        }
        TableType::OnDemand => panic!("expected the provisioned mode"),
    }
}

#[test]
fn copy_source_encodes_bucket_and_key() {
    let src = ssm_utils::copy_source(b"my-bucket", b"folder one/file.txt");
    assert_eq!(src, "my-bucket/folder%20one%2Ffile.txt");
}

#[test]
fn copy_source_of_empty_parts() {
    assert_eq!(ssm_utils::copy_source(b"", b""), "/");
}

#[test]
fn strip_key_prefix_removes_a_matching_prefix() {
    let r = ssm_utils::strip_key_prefix("folder1/aaa.png", "folder1/");
    assert_eq!(r.as_deref(), Some("aaa.png"));
    assert_eq!(ssm_utils::strip_key_prefix("abc", "").as_deref(), Some("abc"));
    assert_eq!(ssm_utils::strip_key_prefix("abc", "abc").as_deref(), Some(""));
}

#[test]
fn strip_key_prefix_rejects_a_mismatch() {
    assert!(ssm_utils::strip_key_prefix("folder1/aaa.png", "folder2/").is_none());
    assert!(ssm_utils::strip_key_prefix("ab", "abc").is_none());
}

#[test]
fn copy_destination_key_reroots_under_the_new_prefix() {
    let r = ssm_utils::copy_destination_key("src/a/b.txt", "src/", "dst");
    assert_eq!(r.as_deref(), Some("dst/a/b.txt"));
}

#[test]
fn copy_destination_key_rejects_a_foreign_key() {
    assert!(ssm_utils::copy_destination_key("other/a.txt", "src/", "dst").is_none());
}
