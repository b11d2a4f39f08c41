use vstd::prelude::*;

use crate::spectrum::StftError;

verus! {

/// Lower decibel level of the normalized range when none is given.
pub const DEFAULT_MIN_LEVEL_DB: i16 = -100;

/// Reference (upper) decibel level when none is given.
pub const DEFAULT_REF_LEVEL_DB: i16 = 0;

/// The decibel range that normalization maps linearly onto `[0, 1]`:
/// `[ref_level_db + min_level_db, ref_level_db]`.
#[derive(Clone, Copy, Debug, PartialEq, Eq, Structural)]
pub struct DbRange {
    pub min_level_db: i16,
    pub ref_level_db: i16,
}

impl DbRange {
    /// Decibel value that maps to 0.
    pub fn floor_db(&self) -> (r: i32)
        ensures
            r == self.ref_level_db + self.min_level_db,
    {
        self.ref_level_db as i32 + self.min_level_db as i32
    }

    /// Decibel value that maps to 1.
    pub fn ceiling_db(&self) -> (r: i32)
        ensures
            r == self.ref_level_db,
    {
        self.ref_level_db as i32
    }
}

/// Resolves the levels of a normalization, with their defaults, and refuses
/// a lower level that is not negative: the mapping divides by its negation.
pub fn db_range(min_level_db: Option<i16>, ref_level_db: Option<i16>) -> (r: Result<DbRange, StftError>)
    ensures
        ({
            let min = match min_level_db {
                Some(m) => m,
                None => DEFAULT_MIN_LEVEL_DB,
            };
            let rf = match ref_level_db {
                Some(v) => v,
                None => DEFAULT_REF_LEVEL_DB,
            };
            match r {
                Ok(range) => min < 0 && range == (DbRange { min_level_db: min, ref_level_db: rf }),
                Err(e) => min >= 0 && e == (StftError::NonNegativeMinLevel { min_level_db: min }),
            }
        }),
{
    let min = match min_level_db {
        Some(m) => m,
        None => DEFAULT_MIN_LEVEL_DB,
    };
    let rf = match ref_level_db {
        Some(v) => v,
        None => DEFAULT_REF_LEVEL_DB,
    };
    if min >= 0 {
        return Err(StftError::NonNegativeMinLevel { min_level_db: min });
    }
    Ok(DbRange { min_level_db: min, ref_level_db: rf })
}

} // verus!
