use vstd::prelude::*;

verus! {

/// The immutable input of one save operation, as handed over by the caller:
/// a dialog title, a suggested file name, the bytes to persist, and whether
/// the written file should afterwards be opened with its default handler.
pub struct SaveRequest {
    pub title: String,
    pub default_name: String,
    pub content: Vec<u8>,
    pub open_after_save: bool,
}

/// The mathematical value of a [`SaveRequest`]: its strings as character
/// sequences and its payload as a byte sequence.
pub ghost struct SpecSaveRequest {
    pub title: Seq<char>,
    pub default_name: Seq<char>,
    pub content: Seq<u8>,
    pub open_after_save: bool,
}

impl View for SaveRequest {
    type V = SpecSaveRequest;

    open spec fn view(&self) -> SpecSaveRequest {
        SpecSaveRequest {
            title: self.title@,
            default_name: self.default_name@,
            content: self.content@,
            open_after_save: self.open_after_save,
        }
    }
}

} // verus!
