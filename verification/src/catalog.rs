//! The fixed table of target languages the wizard offers.

use vstd::prelude::*;

verus! {

/// Number of entries in the language table.
pub const LANG_COUNT: usize = 9;

/// Label of the entry at `index`, as shown to the user.
pub open spec fn label_of(index: int) -> Seq<char> {
    if index == 0 {
        "Chinese"@
    } else if index == 1 {
        "English"@
    } else if index == 2 {
        "Japanese"@
    } else if index == 3 {
        "Korean"@
    } else if index == 4 {
        "Spanish"@
    } else if index == 5 {
        "French"@
    } else if index == 6 {
        "German"@
    } else if index == 7 {
        "Portuguese"@
    } else {
        "No translation"@
    }
}

/// Language code of the entry at `index`; empty for "No translation".
pub open spec fn code_of(index: int) -> Seq<char> {
    if index == 0 {
        "zh"@
    } else if index == 1 {
        "en"@
    } else if index == 2 {
        "ja"@
    } else if index == 3 {
        "ko"@
    } else if index == 4 {
        "es"@
    } else if index == 5 {
        "fr"@
    } else if index == 6 {
        "de"@
    } else if index == 7 {
        "pt"@
    } else {
        ""@
    }
}

/// The label of a table entry.
pub fn lang_label(index: usize) -> (label: &'static str)
    requires
        index < LANG_COUNT,
    ensures
        label@ == label_of(index as int),
{
    if index == 0 {
        "Chinese"
    } else if index == 1 {
        "English"
    } else if index == 2 {
        "Japanese"
    } else if index == 3 {
        "Korean"
    } else if index == 4 {
        "Spanish"
    } else if index == 5 {
        "French"
    } else if index == 6 {
        "German"
    } else if index == 7 {
        "Portuguese"
    } else {
        "No translation"
    }
}

/// The language code of a table entry.
pub fn lang_code(index: usize) -> (code: &'static str)
    requires
        index < LANG_COUNT,
    ensures
        code@ == code_of(index as int),
{
    if index == 0 {
        "zh"
    } else if index == 1 {
        "en"
    } else if index == 2 {
        "ja"
    } else if index == 3 {
        "ko"
    } else if index == 4 {
        "es"
    } else if index == 5 {
        "fr"
    } else if index == 6 {
        "de"
    } else if index == 7 {
        "pt"
    } else {
        ""
    }
}

/// Only the last entry, "No translation", has an empty code.
pub proof fn lemma_only_last_code_is_empty(index: int)
    requires
        0 <= index < LANG_COUNT,
    ensures
        code_of(index).len() == 0 <==> index == LANG_COUNT - 1,
{
    reveal_strlit("zh");
    reveal_strlit("en");
    reveal_strlit("ja");
    reveal_strlit("ko");
    reveal_strlit("es");
    reveal_strlit("fr");
    reveal_strlit("de");
    reveal_strlit("pt");
    reveal_strlit("");
}

} // verus!
