//! The response to an update-document request.

use vstd::prelude::*;

verus! {

/// What an operation did to a document.
#[derive(PartialEq, Eq, Structural, Debug, Clone, Copy)]
pub enum DocumentResult {
    Created,
    Updated,
    Deleted,
    NotFound,
    Noop,
}

fn text_eq(a: &str, b: &str) -> (r: bool)
    ensures
        r == (a@ == b@),
{
    String::from_str(a) == String::from_str(b)
}

impl DocumentResult {
    /// The result named by its wire form (`created`, `updated`, `deleted`,
    /// `not_found`, `noop`), or nothing for another name.
    pub fn from_name(name: &str) -> (r: Option<DocumentResult>)
        ensures
            r == (if name@ == "created"@ {
                Some(DocumentResult::Created)
            } else if name@ == "updated"@ {
                Some(DocumentResult::Updated)
            } else if name@ == "deleted"@ {
                Some(DocumentResult::Deleted)
            } else if name@ == "not_found"@ {
                Some(DocumentResult::NotFound)
            } else if name@ == "noop"@ {
                Some(DocumentResult::Noop)
            } else {
                None
            }),
    {
        if text_eq(name, "created") {
            Some(DocumentResult::Created)
        } else if text_eq(name, "updated") {
            Some(DocumentResult::Updated)
        } else if text_eq(name, "deleted") {
            Some(DocumentResult::Deleted)
        } else if text_eq(name, "not_found") {
            Some(DocumentResult::NotFound)
        } else if text_eq(name, "noop") {
            Some(DocumentResult::Noop)
        } else {
            None
        }
    }
}

/// Response for an update-document request.
pub struct UpdateResponse {
    pub index: String,
    pub ty: String,
    pub id: String,
    pub version: Option<u32>,
    pub routing: Option<String>,
    pub result: DocumentResult,
}

impl UpdateResponse {
    /// Whether the document was updated.
    pub fn updated(&self) -> (r: bool)
        ensures
            r == (self.result == DocumentResult::Updated),
    {
        match self.result {
            DocumentResult::Updated => true,
            _ => false,
        }
    }

    /// The index of the document.
    pub fn index(&self) -> (r: &str)
        ensures
            r@ == self.index@,
    {
        self.index.as_str()
    }

    /// The type of the document.
    pub fn ty(&self) -> (r: &str)
        ensures
            r@ == self.ty@,
    {
        self.ty.as_str()
    }

    /// The id of the document.
    pub fn id(&self) -> (r: &str)
        ensures
            r@ == self.id@,
    {
        self.id.as_str()
    }

    /// The version of the document.
    pub fn version(&self) -> (r: Option<u32>)
        ensures
            r == self.version,
    {
        self.version
    }

    /// Whether a response with this HTTP status holds a document result
    /// rather than an error: any status from 200 to 299.
    pub fn is_ok(status: u16) -> (r: bool)
        ensures
            r == (200 <= status && status <= 299),
    {
        200 <= status && status <= 299
    }
}

} // verus!
