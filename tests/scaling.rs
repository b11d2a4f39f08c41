use audio_featrs::scaling::{DEFAULT_MIN_LEVEL_DB, DEFAULT_REF_LEVEL_DB};
use audio_featrs::{db_range, DbRange, StftError};

#[test]
fn db_range_defaults() {
    let r = db_range(None, None).unwrap();
    assert_eq!(r, DbRange { min_level_db: DEFAULT_MIN_LEVEL_DB, ref_level_db: DEFAULT_REF_LEVEL_DB });
    assert_eq!(r.min_level_db, -100);
    assert_eq!(r.ref_level_db, 0);
    assert_eq!(r.floor_db(), -100);
    assert_eq!(r.ceiling_db(), 0);
}

#[test]
fn db_range_given_levels() {
    let r = db_range(Some(-80), Some(20)).unwrap();
    assert_eq!(r.floor_db(), -60);
    assert_eq!(r.ceiling_db(), 20);
}

#[test]
fn db_range_refuses_zero_min_level() {
    assert_eq!(db_range(Some(0), None), Err(StftError::NonNegativeMinLevel { min_level_db: 0 }));
}

#[test]
fn db_range_refuses_positive_min_level() {
    assert_eq!(db_range(Some(5), Some(-3)), Err(StftError::NonNegativeMinLevel { min_level_db: 5 }));
}

#[test]
fn db_range_extreme_levels_do_not_overflow() {
    let r = db_range(Some(i16::MIN), Some(i16::MIN)).unwrap();
    assert_eq!(r.floor_db(), 2 * (i16::MIN as i32));
}
