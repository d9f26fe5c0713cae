//! The customer statement message record: the shape the external
//! tag-scanning collaborator fills once each tag's raw value has been
//! parsed by the field parsers of this crate. The type itself enforces the
//! structural rules: exactly one opening and one closing balance, every
//! other balance and reference optional, statement lines and free-text
//! lines kept in tag occurrence order, and per-line free text attached to
//! its statement line rather than to the message.

use crate::account_identification::AccountIdentification;
use crate::amount::Amount;
use crate::date::Date;
use crate::opening_balance::OpeningBalance;
use crate::related_reference::RelatedReference;
use crate::statement_sequence_number::StatementSequenceNumber;
use crate::transaction_reference_number::TransactionReferenceNumber;
use vstd::prelude::*;

verus! {

/// The balance shape under its record-family name: the opening, closing,
/// closing-available and forward-available balances all share it.
pub type Balance = OpeningBalance;

/// Mark of one ledger entry. Reversal codes are SWIFT codes of their own,
/// so this is deliberately not the two-variant balance mark: a balance can
/// never carry a reversal.
#[derive(Debug, PartialEq, Eq, Clone, Copy)]
pub enum StatementLineMark {
    Credit,
    Debit,
    ReversalOfCredit,
    ReversalOfDebit,
}

/// One ledger entry of the statement.
#[derive(Debug, PartialEq, Eq)]
pub struct StatementLine {
    pub value_date: Date,
    pub entry_date: Option<Date>,
    pub debit_credit_mark: StatementLineMark,
    pub funds_code: Option<char>,
    pub amount: Amount,
    pub transaction_type_identification_code: String,
    pub account_owner_ref: String,
    pub bank_ref: Option<String>,
    pub supplementary_details: Option<String>,
    pub information_to_account_owner: Option<Vec<String>>,
}

/// One full customer statement message.
#[derive(Debug, PartialEq, Eq)]
pub struct Mt940CustomerStatementMessage {
    pub transaction_reference_number: TransactionReferenceNumber,
    pub related_reference: Option<RelatedReference>,
    pub account_identification: AccountIdentification,
    pub statement_sequence_no: StatementSequenceNumber,
    pub opening_balance: Balance,
    pub statement_lines: Option<Vec<StatementLine>>,
    pub closing_balance: Balance,
    pub closing_available_balance: Option<Balance>,
    pub forward_available_balance: Option<Balance>,
    pub information_to_account_owner: Option<Vec<String>>,
}

/// The structural faults message assembly can report: a missing mandatory
/// balance is fatal to the whole message, not a per-field error.
#[derive(Debug, PartialEq, Eq, Clone, Copy)]
pub enum MessageAssemblyError {
    MissingOpeningBalance,
    MissingClosingBalance,
}

impl Mt940CustomerStatementMessage {
    /// Assembles the message from the per-tag values the field parsers
    /// produced, in tag occurrence order. Exactly one opening and one
    /// closing balance must be present; every other part is optional and
    /// carried through unchanged.
    pub fn new(
        transaction_reference_number: TransactionReferenceNumber,
        related_reference: Option<RelatedReference>,
        account_identification: AccountIdentification,
        statement_sequence_no: StatementSequenceNumber,
        opening_balance: Option<Balance>,
        statement_lines: Option<Vec<StatementLine>>,
        closing_balance: Option<Balance>,
        closing_available_balance: Option<Balance>,
        forward_available_balance: Option<Balance>,
        information_to_account_owner: Option<Vec<String>>,
    ) -> (r: Result<Self, MessageAssemblyError>)
        ensures
            r is Ok <==> (opening_balance is Some && closing_balance is Some),
            opening_balance is None ==> r == Err::<Self, _>(
                MessageAssemblyError::MissingOpeningBalance,
            ),
            (opening_balance is Some && closing_balance is None) ==> r == Err::<Self, _>(
                MessageAssemblyError::MissingClosingBalance,
            ),
            r matches Ok(m) ==> {
                &&& m.transaction_reference_number == transaction_reference_number
                &&& m.related_reference == related_reference
                &&& m.account_identification == account_identification
                &&& m.statement_sequence_no == statement_sequence_no
                &&& Some(m.opening_balance) == opening_balance
                &&& m.statement_lines == statement_lines
                &&& Some(m.closing_balance) == closing_balance
                &&& m.closing_available_balance == closing_available_balance
                &&& m.forward_available_balance == forward_available_balance
                &&& m.information_to_account_owner == information_to_account_owner
            },
    {
        let opening = match opening_balance {
            Some(b) => b,
            None => {
                return Err(MessageAssemblyError::MissingOpeningBalance);
            },
        };
        let closing = match closing_balance {
            Some(b) => b,
            None => {
                return Err(MessageAssemblyError::MissingClosingBalance);
            },
        };
        Ok(
            Mt940CustomerStatementMessage {
                transaction_reference_number,
                related_reference,
                account_identification,
                statement_sequence_no,
                opening_balance: opening,
                statement_lines,
                closing_balance: closing,
                closing_available_balance,
                forward_available_balance,
                information_to_account_owner,
            },
        )
    }
}

pub open spec fn message_assembly_error_message(e: MessageAssemblyError) -> Seq<char> {
    match e {
        MessageAssemblyError::MissingOpeningBalance => "Missing opening balance"@,
        MessageAssemblyError::MissingClosingBalance => "Missing closing balance"@,
    }
}

impl MessageAssemblyError {
    pub fn message(&self) -> (r: String)
        ensures
            r@ == message_assembly_error_message(*self),
    {
        match self {
            MessageAssemblyError::MissingOpeningBalance => "Missing opening balance".to_owned(),
            MessageAssemblyError::MissingClosingBalance => "Missing closing balance".to_owned(),
        }
    }
}

} // verus!
