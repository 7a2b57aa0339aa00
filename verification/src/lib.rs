mod args;
mod date;
mod decimal;
mod error;
mod run;

pub use args::{default_output_path, Args, CheckedArgs};
pub use date::{Advent, Day, ReferenceInstant, Year};
pub use decimal::spec_decimal;
pub use error::AdventError;
pub use run::{input_url, prefix_session_token};
