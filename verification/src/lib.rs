//! Associates native Rust values with the Arrow column builders that hold
//! them, the Arrow field that describes such a column, and the conversion
//! of each value into the representation that Arrow stores.

pub mod constants;
pub mod schema;
pub mod column;
pub mod errors;
pub mod temporal;
pub mod assoc;
pub mod laws;
pub mod row_laws;

pub use assoc::ArrowAssoc;
pub use errors::{ArrowDestinationError, Result};
pub use schema::{DataType, Field, TimeUnit};
pub use temporal::{
    DateTime, DateTimeWrapperMicro, NaiveDate, NaiveDateTime, NaiveDateTimeWrapperMicro, NaiveTime,
    NaiveTimeWrapperMicro,
};
