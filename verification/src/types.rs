//! Tags that select which field rule a validator applies.

use vstd::prelude::*;

verus! {

/// The fields of the three record kinds whose rule is picked by tag.
#[non_exhaustive]
#[derive(Debug, PartialEq, Eq, Clone, Copy)]
pub enum ValidationType {
    DescriptiveRecordTypeZero,
    DescriptiveBlankOne,
    DescriptiveReelSequence,
    DescriptiveUsername,
    DescriptiveSelfName,
    DescriptiveApca,
    DescriptiveEntry,
    DescriptiveBlankTwo,
    DescriptiveBlankThree,
    DescriptiveDate,
    DetailRecordTypeOne,
    DetailDestAccount,
    DetailIndicator,
    DetailTransCode,
    DetailAmount,
    DetailClientName,
    DetailLodgeRef,
    DetailSrcAccount,
    DetailRemitter,
    DetailTaxWithhold,
    TotalTypeSeven,
    TotalBsbFiller,
    TotalBlankOne,
    TotalBlankTwo,
    TotalBlankThree,
}

/// The character that pads a field to its width.
#[non_exhaustive]
#[derive(Debug, PartialEq, Eq, Clone, Copy)]
pub enum FillStrategy {
    Zero,
    Blank,
}

/// Which of a transaction's two branch codes is meant.
#[non_exhaustive]
#[derive(Debug, PartialEq, Eq, Clone, Copy)]
pub enum BsbType {
    DetailBsb,
    DetailTraceBsb,
}

/// The three amounts of the trailer's total field.
#[non_exhaustive]
#[derive(Debug, PartialEq, Eq, Clone, Copy)]
pub enum TotalAmountType {
    Total,
    Credit,
    Debit,
}

impl FillStrategy {
    /// The padding character of this strategy.
    pub open spec fn fill_char(self) -> char {
        match self {
            FillStrategy::Zero => '0',
            FillStrategy::Blank => ' ',
        }
    }
}

} // verus!
