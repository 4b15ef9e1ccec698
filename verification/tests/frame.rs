use bytes::Bytes;
use cursor_server::frame::{is_success, merge_catalog_body, unary_payload, CatalogError, CatalogMerge};

fn body(b: &[u8]) -> Bytes {
    Bytes::copy_from_slice(b)
}

#[test]
fn short_and_mismatched_bodies_are_bare_messages() {
    let short = body(&[1, 2, 3]);
    assert_eq!(unary_payload(&short).unwrap(), (false, &[1u8, 2, 3][..]));
    let mismatched = body(&[0u8, 0, 0, 0, 9, 1, 2]);
    assert_eq!(unary_payload(&mismatched).unwrap(), (false, &[0u8, 0, 0, 0, 9, 1, 2][..]));
}

#[test]
fn a_single_frame_yields_its_message() {
    let framed = body(&[0u8, 0, 0, 0, 2, 7, 8]);
    assert_eq!(unary_payload(&framed).unwrap(), (true, &[7u8, 8][..]));
    let empty = body(&[0u8, 0, 0, 0, 0]);
    assert_eq!(unary_payload(&empty).unwrap(), (true, &[][..]));
}

#[test]
fn compressed_frames_are_refused() {
    let compressed = body(&[1u8, 0, 0, 0, 1, 5]);
    assert_eq!(unary_payload(&compressed), Err(CatalogError::CompressedFrame(1)));
    assert_eq!(
        CatalogError::CompressedFrame(2).message(),
        "cannot merge compressed or terminal model catalog frame: flags=2"
    );
    assert!(matches!(
        merge_catalog_body(200, &body(&[128, 0, 0, 0, 0]), &[1]),
        Err(CatalogError::CompressedFrame(128))
    ));
}

#[test]
fn refused_upstream_answers_fall_back_to_the_local_catalog() {
    assert!(matches!(merge_catalog_body(503, &body(&[1, 2]), &[3]), Ok(CatalogMerge::UseLocal)));
    assert!(matches!(merge_catalog_body(302, &body(&[]), &[]), Ok(CatalogMerge::UseLocal)));
    assert!(is_success(200) && is_success(299) && !is_success(300) && !is_success(199));
}

#[test]
fn framed_answers_are_reframed_around_both_messages() {
    let upstream = body(&[0u8, 0, 0, 0, 2, 10, 11]);
    match merge_catalog_body(200, &upstream, &[12, 13, 14]).unwrap() {
        CatalogMerge::Merged(m) => {
            assert_eq!(&m[..], &[0, 0, 0, 0, 5, 10, 11, 12, 13, 14]);
            assert_eq!(unary_payload(&m).unwrap(), (true, &[10u8, 11, 12, 13, 14][..]));
        }
        CatalogMerge::UseLocal => panic!("expected a merged body"),
    }
}

#[test]
fn large_frames_carry_a_big_endian_length() {
    let payload = vec![7u8; 300];
    let mut framed = vec![0u8, 0, 0, 1, 44];
    framed.extend_from_slice(&payload);
    match merge_catalog_body(200, &Bytes::from(framed), &[1]).unwrap() {
        CatalogMerge::Merged(m) => {
            assert_eq!(&m[..5], &[0, 0, 0, 1, 45]);
            assert_eq!(m.len(), 5 + 301);
        }
        CatalogMerge::UseLocal => panic!("expected a merged body"),
    }
}

#[test]
fn bare_answers_are_extended() {
    match merge_catalog_body(204, &body(&[1, 2]), &[3]).unwrap() {
        CatalogMerge::Merged(m) => assert_eq!(&m[..], &[1, 2, 3]),
        CatalogMerge::UseLocal => panic!("expected a merged body"),
    }
}
