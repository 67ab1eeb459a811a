//! The ownership-checked core of a bridge to an embedded, reference-counted
//! script engine: what the bridge decides about tagged engine values, kept
//! apart from the calls that reach the engine itself.
//!
//! Every value the engine hands out is a tag and a 64-bit payload
//! ([`RawValue`]). This crate classifies tags, converts scalar payloads,
//! decides identity-based equality, plans the reference-count steps of
//! duplicating and releasing a value, frames host text for the engine and
//! reads its text back, builds evaluation flags, and interprets array lengths,
//! element probes and native-call arguments.
pub mod tag;
pub use crate::tag::{
    Kind, TAG_BOOL, TAG_EXCEPTION, TAG_FIRST, TAG_FLOAT64, TAG_INT, TAG_NULL, TAG_OBJECT,
    TAG_STRING, TAG_UNDEFINED,
};

pub mod value;
pub use crate::value::{same_value, whole_double, Number, RawValue};

pub mod refcount;
pub use crate::refcount::{dup_count, release_step, Release};

pub mod text;
pub use crate::text::{c_string, render, text_length, ENCODING_ERROR};

pub mod context;
pub use crate::context::{
    EvalOptions, Ownership, EVAL_FLAG_SHEBANG, EVAL_FLAG_STRICT, EVAL_FLAG_STRIP,
    EVAL_TYPE_MODULE,
};

pub mod array;
pub use crate::array::{array_length, element_index, set_succeeded, Cursor, MAX_INDEX};

pub mod call;
pub use crate::call::{argument_count, c_int};
