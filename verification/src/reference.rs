//! Reference data: the bank codes and branch codes that a file may cite.

use vstd::prelude::*;
use vstd::string::*;

verus! {

/// A lookup table of codes. A code is listed when one entry equals it,
/// character for character.
#[derive(Debug, Clone, Default)]
pub struct CodeTable {
    pub codes: Vec<String>,
}

impl View for CodeTable {
    type V = Set<Seq<char>>;

    open spec fn view(&self) -> Set<Seq<char>> {
        Set::new(
            |code: Seq<char>|
                exists|k: int| 0 <= k < self.codes@.len() && (#[trigger] self.codes@[k])@ == code,
        )
    }
}

impl CodeTable {
    /// A table of the given codes.
    pub fn new(codes: Vec<String>) -> (table: CodeTable)
        ensures
            table.codes == codes,
    {
        CodeTable { codes }
    }

    /// Whether `code` is listed.
    pub fn contains(&self, code: &str) -> (found: bool)
        ensures
            found == self@.contains(code@),
    {
        let wanted = code.to_owned();
        let mut k: usize = 0;
        while k < self.codes.len()
            invariant
                k <= self.codes.len(),
                wanted@ == code@,
                forall|j: int| 0 <= j < k ==> (#[trigger] self.codes@[j])@ != code@,
            decreases self.codes.len() - k,
        {
            if self.codes[k] == wanted {
                return true;
            }
            k += 1;
        }
        false
    }
}

/// The two tables that validation looks codes up in.
#[derive(Debug, Clone, Default)]
pub struct ReferenceData {
    /// Three-character bank codes.
    pub banks: CodeTable,
    /// Branch codes, written `XXX-XXX`.
    pub branches: CodeTable,
}

} // verus!
