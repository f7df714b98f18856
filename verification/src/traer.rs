//! Answers of the Traer page reading service.
use vstd::prelude::*;

verus! {

/// An answer of the Traer service: whether it could read the page, the HTTP status, and
/// what it read.
#[derive(Debug, Clone, PartialEq, Eq)]
pub struct TraerResponse<T> {
    pub success: bool,
    pub status: u16,
    pub data: T,
}

/// A full reading of a page.
#[derive(Debug, Clone, PartialEq, Eq)]
pub struct TraerReadResult {
    pub title: Option<String>,
    pub description: Option<String>,
    pub html: Option<String>,
    pub text: Option<String>,
    pub length: Option<i64>,
    pub author: Option<String>,
    pub publisher: Option<String>,
    pub image: Option<String>,
    pub logo: Option<String>,
}

/// A slim reading of a page, without its content.
#[derive(Debug, Clone, PartialEq, Eq)]
pub struct TraerReadSomeResult {
    pub title: Option<String>,
    pub description: Option<String>,
    pub author: Option<String>,
    pub publisher: Option<String>,
    pub image: Option<String>,
    pub logo: Option<String>,
}

impl<T> TraerResponse<T> {
    /// What Traer read, when it could read the page.
    pub fn into_content(self) -> (r: Option<T>)
        ensures
            r == if self.success { Some(self.data) } else { None::<T> },
    {
        if !self.success {
            return None;
        }
        Some(self.data)
    }
}

} // verus!
