//! The list of software a block describes: web sites now, applications
//! later.
//!
//! The caller reads the user's list file; this module parses its text —
//! one entry per line, surrounding whitespace discarded, blank lines
//! dropped — and rejects a list with no usable entry.

use vstd::prelude::*;

use crate::text::{clean_entries, clean_list_spec};

verus! {

/// Why a list text was rejected.
#[derive(Clone, Copy, PartialEq, Eq, Structural, Debug)]
pub enum SoftwareListError {
    /// The text is empty or holds only blank lines.
    EmptyOrInvalid,
}

/// What is to be blocked, by kind.
#[derive(Debug)]
pub struct SoftwareList {
    /// The web sites to block, when the list names any.
    pub website_list: Option<Vec<String>>,
    /// The applications to block; no list format names any yet.
    pub application_list: Option<Vec<String>>,
}

impl SoftwareList {
    /// Parses a list text: one entry per line, trimmed, blank lines
    /// dropped. A text with no usable entry is rejected.
    pub fn from_text(content: &str) -> (r: Result<SoftwareList, SoftwareListError>)
        ensures
            clean_list_spec(content@).len() == 0 ==> r == Err::<SoftwareList, SoftwareListError>(
                SoftwareListError::EmptyOrInvalid,
            ),
            clean_list_spec(content@).len() > 0 ==> {
                &&& r is Ok
                &&& r->Ok_0.website_list is Some
                &&& r->Ok_0.website_list->Some_0.deep_view() == clean_list_spec(content@)
                &&& r->Ok_0.application_list is None
            },
    {
        let website_list = clean_entries(content);
        if website_list.len() == 0 {
            Err(SoftwareListError::EmptyOrInvalid)
        } else {
            Ok(SoftwareList { website_list: Some(website_list), application_list: None })
        }
    }
}

} // verus!
