use solstice_glyph::atlas::{Cache, UpdateError};

#[test]
fn new_atlas_is_clear() {
    let c = Cache::new(4, 3);
    assert_eq!((c.width(), c.height()), (4, 3));
    assert_eq!(c.pixels(), &vec![0u8; 12]);
}

#[test]
fn update_writes_sub_rectangle() {
    let mut c = Cache::new(4, 3);
    assert_eq!(c.update([1, 1], [2, 2], &[1, 2, 3, 4]), Ok(()));
    assert_eq!(c.pixels(), &vec![0, 0, 0, 0, 0, 1, 2, 0, 0, 3, 4, 0]);
}

#[test]
fn update_out_of_bounds_is_refused() {
    let mut c = Cache::new(4, 3);
    assert_eq!(c.update([3, 0], [2, 1], &[9, 9]), Err(UpdateError::OutOfBounds));
    assert_eq!(c.update([0, 2], [1, 2], &[9, 9]), Err(UpdateError::OutOfBounds));
    assert_eq!(c.pixels(), &vec![0u8; 12]);
}

#[test]
fn update_with_wrong_length_is_refused() {
    let mut c = Cache::new(4, 3);
    assert_eq!(c.update([0, 0], [2, 2], &[1, 2, 3]), Err(UpdateError::DataLength));
    assert_eq!(c.pixels(), &vec![0u8; 12]);
}

#[test]
fn update_filling_whole_atlas() {
    let mut c = Cache::new(2, 2);
    assert_eq!(c.update([0, 0], [2, 2], &[5, 6, 7, 8]), Ok(()));
    assert_eq!(c.pixels(), &vec![5, 6, 7, 8]);
}

#[test]
fn resize_clears_state() {
    let mut c = Cache::new(4, 3);
    assert_eq!(c.update([0, 0], [4, 3], &[7; 12]), Ok(()));
    c.resize(5, 5);
    assert_eq!((c.width(), c.height()), (5, 5));
    assert_eq!(c.pixels(), &vec![0u8; 25]);
    assert_eq!(c.update([1, 1], [1, 1], &[9]), Ok(()));
    let expected: Vec<u8> = (0..25).map(|i| if i == 6 { 9 } else { 0 }).collect();
    assert_eq!(c.pixels(), &expected);
}
