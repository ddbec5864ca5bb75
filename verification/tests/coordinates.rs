use solplace::error::SolplaceError;
use solplace::logo_placement::validate_coordinates;

#[test]
fn latitude_bounds_are_inclusive() {
    assert_eq!(validate_coordinates(90_000_000, 0), Ok(()));
    assert_eq!(validate_coordinates(-90_000_000, 0), Ok(()));
    assert_eq!(validate_coordinates(0, 0), Ok(()));
}

#[test]
fn latitude_just_outside_bounds_is_rejected() {
    assert_eq!(
        validate_coordinates(90_000_001, 0),
        Err(SolplaceError::InvalidLatitude)
    );
    assert_eq!(
        validate_coordinates(-90_000_001, 0),
        Err(SolplaceError::InvalidLatitude)
    );
}

#[test]
fn latitude_far_outside_bounds_is_rejected() {
    assert_eq!(
        validate_coordinates(i32::MAX, 0),
        Err(SolplaceError::InvalidLatitude)
    );
    assert_eq!(
        validate_coordinates(i32::MIN, 0),
        Err(SolplaceError::InvalidLatitude)
    );
}

#[test]
fn longitude_bounds_are_inclusive() {
    assert_eq!(validate_coordinates(0, 180_000_000), Ok(()));
    assert_eq!(validate_coordinates(0, -180_000_000), Ok(()));
}

#[test]
fn longitude_just_outside_bounds_is_rejected() {
    assert_eq!(
        validate_coordinates(0, 180_000_001),
        Err(SolplaceError::InvalidLongitude)
    );
    assert_eq!(
        validate_coordinates(0, -180_000_001),
        Err(SolplaceError::InvalidLongitude)
    );
}

#[test]
fn longitude_far_outside_bounds_is_rejected() {
    assert_eq!(
        validate_coordinates(0, i32::MAX),
        Err(SolplaceError::InvalidLongitude)
    );
    assert_eq!(
        validate_coordinates(0, i32::MIN),
        Err(SolplaceError::InvalidLongitude)
    );
}

#[test]
fn latitude_error_takes_precedence_over_longitude() {
    assert_eq!(
        validate_coordinates(90_000_001, 180_000_001),
        Err(SolplaceError::InvalidLatitude)
    );
}
