//! Pre-deployment validation of Beacon Object Files.
//!
//! A Beacon Object File is a small COFF object that an agent loads straight
//! into its own process. This library decodes such an object from raw bytes,
//! resolves the names of its symbols, sorts every imported symbol into one of
//! five categories and checks that the entry symbol is present. It reports
//! facts only: nothing is resolved, relocated or patched.
//!
//! One run goes through the modules in this order:
//!
//! - `header` reads the file header and checks that the tables it declares
//!   lie inside the buffer;
//! - `section` and `symbol` read the two tables;
//! - `resolve` holds the string table and gives every record its name;
//! - `coff` puts these together: `Bof::parse` decodes a buffer;
//! - `classify` selects the import prefix, sorts the imports by the tables
//!   of `tables`, and looks for the entry point;
//! - `report` is the whole run: `parse` takes a buffer to its report.
//!
//! Every function states what it returns over the mathematical values of its
//! arguments. Two functions are taken on trust: `header::read_header`,
//! which has the header decoded by goblin, and `resolve::utf8_text`, which
//! has the standard library decode UTF-8.

pub mod arch;
pub mod bytes;
pub mod classify;
pub mod coff;
pub mod error;
pub mod header;
pub mod report;
pub mod resolve;
pub mod section;
pub mod symbol;
pub mod tables;
pub mod text;

pub use coff::Bof;
pub use report::parse;
