//! What a naming rule has captured of a path, and how a season is written.

use vstd::prelude::*;
use crate::text::{format_padded, parse_u32, parsed_unsigned, zero_padded};

verus! {

/// The parts of a path that a naming rule has captured.
#[derive(Debug, PartialEq, Eq)]
pub struct NamingRuleMatch {
    pub original_path: String,
    pub captures: Vec<String>,
    pub extension: String,
}

/// Why a captured part cannot be written out.
#[derive(Debug, PartialEq, Eq)]
pub enum NamingError {
    /// There is no capture at this index.
    IndexOutOfBounds { index: usize },
    /// The capture is no number.
    InvalidSeason { text: String },
}

impl NamingRuleMatch {
    /// The season at a capture, written with at least two digits.
    pub fn format_season(&self, season_index: usize) -> (r: Result<String, NamingError>)
        ensures
            season_index >= self.captures@.len() ==> r == Err::<String, NamingError>(
                NamingError::IndexOutOfBounds { index: season_index },
            ),
            season_index < self.captures@.len() ==> match parsed_unsigned(
                self.captures@[season_index as int]@,
                u32::MAX as nat,
            ) {
                Some(n) => r is Ok && r->Ok_0@ == zero_padded(n, 2),
                None => r is Err && r->Err_0 is InvalidSeason && r->Err_0->text@
                    == self.captures@[season_index as int]@,
            },
    {
        if season_index >= self.captures.len() {
            return Err(NamingError::IndexOutOfBounds { index: season_index });
        }
        let season_str = &self.captures[season_index];
        match parse_u32(season_str.as_str()) {
            Some(n) => Ok(format_padded(n as u64, 2)),
            None => Err(NamingError::InvalidSeason { text: season_str.clone() }),
        }
    }
}

} // verus!
