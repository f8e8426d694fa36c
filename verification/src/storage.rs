use vstd::prelude::*;

use crate::text::{
    decimal, digits_value, is_digit, lemma_decimal_injective, lemma_decimal_value, lemma_decimal_is_digits, lemma_decimal_shape,
    push_decimal,
};

verus! {

/// Where summaries are saved.
#[derive(Debug, PartialEq, Eq)]
pub enum SummaryFolder {
    /// The folder the user chose.
    Custom { path: String },
    /// The "Meeting-Summaries" folder inside the user's documents folder.
    InDocuments,
}

/// The name of the folder, inside the documents folder, that summaries go to
/// when the user chose none.
pub fn documents_subfolder() -> (name: &'static str)
    ensures
        name@ == "Meeting-Summaries"@,
{
    "Meeting-Summaries"
}

/// Picks where summaries are saved: the folder the user chose, unless none was
/// chosen or the choice is empty, in which case the documents folder is used.
pub fn summaries_folder(custom_path: Option<&str>) -> (folder: SummaryFolder)
    ensures
        match custom_path {
            Some(p) => if p@.len() > 0 {
                folder matches SummaryFolder::Custom { path } && path@ == p@
            } else {
                folder == SummaryFolder::InDocuments
            },
            None => folder == SummaryFolder::InDocuments,
        },
{
    match custom_path {
        Some(p) => {
            if p.is_empty() {
                SummaryFolder::InDocuments
            } else {
                SummaryFolder::Custom { path: p.to_owned() }
            }
        },
        None => SummaryFolder::InDocuments,
    }
}

/// Why a summary could not be saved.
#[derive(Debug, Clone, Copy, PartialEq, Eq, Structural)]
pub enum SaveError {
    /// The documents folder was needed and the system does not have one.
    NoDocumentsFolder,
}

/// Takes the documents folder when the system has one; without it, summaries
/// that need it cannot be saved.
pub fn require_documents_folder<P>(documents_folder: Option<P>) -> (res: Result<P, SaveError>)
    ensures
        match documents_folder {
            Some(folder) => res == Ok::<P, SaveError>(folder),
            None => res == Err::<P, SaveError>(SaveError::NoDocumentsFolder),
        },
{
    match documents_folder {
        Some(folder) => Ok(folder),
        None => Err(SaveError::NoDocumentsFolder),
    }
}

impl SaveError {
    /// The text shown to the user.
    pub fn message(&self) -> (text: &'static str)
        ensures
            text@ == "Could not find documents directory"@,
    {
        "Could not find documents directory"
    }
}

/// The name of the file a summary written at `timestamp` (seconds since the
/// Unix epoch) is saved under.
pub open spec fn spec_summary_file_name(timestamp: u64) -> Seq<char> {
    "summary_"@ + decimal(timestamp as nat) + ".md"@
}

/// Names the file a summary is saved under, such as "summary_1700000000.md".
pub fn summary_file_name(timestamp: u64) -> (name: String)
    ensures
        name@ == spec_summary_file_name(timestamp),
{
    let mut name = String::new();
    name.append("summary_");
    push_decimal(&mut name, timestamp);
    name.append(".md");
    assert(name@ =~= spec_summary_file_name(timestamp));
    name
}

/// Summaries written at different seconds get different file names, so one
/// never overwrites another.
pub proof fn lemma_file_names_differ(a: u64, b: u64)
    requires
        a != b,
    ensures
        spec_summary_file_name(a) != spec_summary_file_name(b),
{
    let na = spec_summary_file_name(a);
    let nb = spec_summary_file_name(b);
    if na == nb {
        let prefix = "summary_"@;
        let suffix = ".md"@;
        let da = decimal(a as nat);
        let db = decimal(b as nat);
        assert(na.len() == nb.len());
        assert(da.len() == db.len());
        assert(da =~= na.subrange(prefix.len() as int, (prefix.len() + da.len()) as int));
        assert(db =~= nb.subrange(prefix.len() as int, (prefix.len() + db.len()) as int));
        lemma_decimal_injective(a as nat, b as nat);
    }
}

/// A summary file name is "summary_", then one or more decimal digits that
/// stand for the timestamp, then ".md".
pub proof fn lemma_file_name_shape(timestamp: u64)
    ensures
        ({
            let name = spec_summary_file_name(timestamp);
            let digits = name.subrange(8, name.len() - 3);
            &&& name.subrange(0, 8) == "summary_"@
            &&& name.subrange(name.len() - 3, name.len() as int) == ".md"@
            &&& digits.len() >= 1
            &&& forall|i: int| 0 <= i < digits.len() ==> is_digit(#[trigger] digits[i])
            &&& digits_value(digits) == timestamp
        }),
{
    lemma_decimal_value(timestamp as nat);
    reveal_strlit("summary_");
    reveal_strlit(".md");
    lemma_decimal_is_digits(timestamp as nat);
    lemma_decimal_shape(timestamp as nat);
    let d = decimal(timestamp as nat);
    let name = spec_summary_file_name(timestamp);
    assert(name.subrange(0, 8) =~= "summary_"@);
    assert(name.subrange(name.len() - 3, name.len() as int) =~= ".md"@);
    assert(name.subrange(8, name.len() - 3) =~= d);
}

} // verus!
