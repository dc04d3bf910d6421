use riden_flash::chunking::{chunk_at, chunk_count};

#[test]
fn chunk_count_is_ceiling_of_length_over_64() {
    assert_eq!(chunk_count(0), 0);
    assert_eq!(chunk_count(1), 1);
    assert_eq!(chunk_count(63), 1);
    assert_eq!(chunk_count(64), 1);
    assert_eq!(chunk_count(65), 2);
    assert_eq!(chunk_count(128), 2);
    assert_eq!(chunk_count(130), 3);
}

#[test]
fn all_chunks_but_last_are_full() {
    let image: Vec<u8> = (0..130u32).map(|i| (i % 251) as u8).collect();
    let n = chunk_count(image.len());
    assert_eq!(n, 3);
    assert_eq!(chunk_at(&image, 0).len(), 64);
    assert_eq!(chunk_at(&image, 1).len(), 64);
    assert_eq!(chunk_at(&image, 2).len(), 2);
    assert_eq!(chunk_at(&image, 0), image[0..64].to_vec());
    assert_eq!(chunk_at(&image, 1), image[64..128].to_vec());
    assert_eq!(chunk_at(&image, 2), image[128..130].to_vec());
}

#[test]
fn exact_multiple_has_full_last_chunk() {
    let image = vec![0xA5u8; 128];
    assert_eq!(chunk_count(image.len()), 2);
    assert_eq!(chunk_at(&image, 1).len(), 64);
}

#[test]
fn short_image_is_one_short_chunk() {
    let image = vec![1u8, 2, 3];
    assert_eq!(chunk_count(image.len()), 1);
    assert_eq!(chunk_at(&image, 0), image);
}
