use game_eng::texture::{check_rgba_data, TextureDataError};

#[test]
fn exact_rgba_coverage_is_accepted() {
    assert_eq!(check_rgba_data(1, 1, 4), Ok(()));
    assert_eq!(check_rgba_data(2, 3, 24), Ok(()));
    assert_eq!(check_rgba_data(16, 16, 1024), Ok(()));
}

#[test]
fn zero_dimension_is_an_empty_image() {
    assert_eq!(check_rgba_data(0, 5, 0), Err(TextureDataError::EmptyImage));
    assert_eq!(check_rgba_data(5, 0, 20), Err(TextureDataError::EmptyImage));
    assert_eq!(check_rgba_data(0, 0, 0), Err(TextureDataError::EmptyImage));
}

#[test]
fn mismatched_length_is_refused() {
    assert_eq!(check_rgba_data(1, 1, 3), Err(TextureDataError::WrongLength));
    assert_eq!(check_rgba_data(1, 1, 5), Err(TextureDataError::WrongLength));
    assert_eq!(check_rgba_data(2, 2, 0), Err(TextureDataError::WrongLength));
}
