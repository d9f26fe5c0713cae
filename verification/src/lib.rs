//! Strict field-grammar parsers for SWIFT MT940 customer statement messages.
//!
//! Each module holds one validated domain value: a fallible constructor from
//! raw field text, the value's rendering, and the closed set of parse errors
//! with their messages. Composite records slice one fixed-layout string into
//! leaf values and wrap the first leaf failure with provenance.

pub mod account_identification;
pub mod amount;
pub mod credit_debit_mark;
pub mod currency_code;
pub mod date;
pub mod mt_940_customer_statement_message;
pub mod opening_balance;
pub mod reference_format;
pub mod related_reference;
pub mod statement_sequence_number;
pub mod text;
pub mod transaction_reference_number;
