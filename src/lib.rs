//! The state behind form controls: text fields that hold typed values within
//! optional bounds, picks among enumerated options, grouped selection lists,
//! and the fixed list of UTC offsets.

pub mod decimal;
pub mod enum_iterator;
pub mod field_value;
pub mod input_value;
pub mod input_value_opt;
pub mod select_enum_value;
pub mod selected_value_opt;
pub mod text;
pub mod time_offset;
pub mod validators;
