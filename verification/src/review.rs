//! Review flow: assembles the ordered field list shown to the holder before
//! approval. The presentation itself (screen and buttons) is a collaborator
//! outside this library; the dispatcher waits for its approve/reject answer.

use crate::format::{format_address, format_amount, spec_address, spec_amount};
use crate::tx::{Tx, ADDRESS_LENGTH};
use crate::MAX_COIN_LENGTH;
use vstd::prelude::*;

verus! {

/// Which transaction attribute a review line shows.
#[derive(Clone, Copy, Debug, PartialEq, Eq, Structural)]
pub enum FieldName {
    Amount,
    Destination,
    Memo,
}

/// One line of the approval screen: a named, fully formatted value.
pub struct ReviewField {
    pub name: FieldName,
    pub value: Vec<u8>,
}

/// Raised when a field cannot be formatted within its budget; the review is
/// aborted rather than showing a truncated value.
#[derive(Clone, Copy, Debug, PartialEq, Eq, Structural)]
pub enum DisplayError {
    FieldTooLarge,
}

/// Presentation options, read once per review. Hiding the memo trims the
/// field list to amount and destination only; it never touches the payload
/// that is signed.
pub struct ReviewConfig {
    pub show_memo: bool,
}

impl Default for ReviewConfig {
    /// All fields are shown unless the holder has chosen otherwise.
    fn default() -> (r: Self)
        ensures
            r.show_memo,
    {
        ReviewConfig { show_memo: true }
    }
}

/// Abstract view of one review field.
pub open spec fn spec_field(f: ReviewField) -> (FieldName, Seq<u8>) {
    (f.name, f.value@)
}

/// The ordered field list for a transaction: amount, destination, then the
/// memo unless it is hidden.
pub open spec fn spec_fields(
    coin: Seq<u8>,
    value: u64,
    to: Seq<u8>,
    memo: Seq<u8>,
    show_memo: bool,
) -> Seq<(FieldName, Seq<u8>)> {
    let base = seq![
        (FieldName::Amount, spec_amount(coin, value)),
        (FieldName::Destination, spec_address(to)),
    ];
    if show_memo {
        base + seq![(FieldName::Memo, memo)]
    } else {
        base
    }
}

/// Builds the ordered review fields for a transaction. Fails exactly when the
/// amount line cannot be formatted, and then no field list exists at all: the
/// holder never sees a partial or truncated review.
pub fn build_review_fields(tx: &Tx, config: &ReviewConfig) -> (r: Result<
    Vec<ReviewField>,
    DisplayError,
>)
    requires
        tx.to@.len() == ADDRESS_LENGTH,
    ensures
        match r {
            Ok(fields) => {
                &&& tx.coin@.len() <= MAX_COIN_LENGTH
                &&& fields@.map_values(|f: ReviewField| spec_field(f)) == spec_fields(
                    tx.coin@,
                    tx.value,
                    tx.to@,
                    tx.memo@,
                    config.show_memo,
                )
            },
            Err(e) => tx.coin@.len() > MAX_COIN_LENGTH && e == DisplayError::FieldTooLarge,
        },
{
    let amount = match format_amount(&tx.coin, tx.value) {
        Ok(s) => s,
        Err(_) => {
            return Err(DisplayError::FieldTooLarge);
        },
    };
    let destination = format_address(&tx.to);
    let mut fields: Vec<ReviewField> = Vec::new();
    fields.push(ReviewField { name: FieldName::Amount, value: amount });
    fields.push(ReviewField { name: FieldName::Destination, value: destination });
    if config.show_memo {
        let memo = crate::tx::copy_range(&tx.memo, 0, tx.memo.len());
        proof {
            assert(tx.memo@.subrange(0, tx.memo@.len() as int) =~= tx.memo@);
        }
        fields.push(ReviewField { name: FieldName::Memo, value: memo });
    }
    proof {
        assert(fields@.map_values(|f: ReviewField| spec_field(f)) =~= spec_fields(
            tx.coin@,
            tx.value,
            tx.to@,
            tx.memo@,
            config.show_memo,
        ));
    }
    Ok(fields)
}

} // verus!
