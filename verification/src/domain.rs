//! The domain-error model.
//!
//! The operations the runner drives fail with errors from a closed set of
//! families, disjoint per subsystem: entry/file validation, network download,
//! and registry state. The binding layer never branches on their structure; the
//! one thing it observes is each error's rendered text. The types here carry
//! each family's variants as plain values, and each family's rendering is
//! specified exactly by a spec function, so that the normalization boundary can
//! be proved to preserve the text character for character.

use vstd::prelude::*;

verus! {

/// An error from dataset-entry validation: the files named for a dataset
/// could not be accepted.
#[derive(Debug, Clone, PartialEq, Eq)]
pub enum EntryError {
    /// A file named for the dataset does not exist at the given path.
    FileNotFound(String),
    /// The dataset with the given label names no files at all.
    EmptyDataset(String),
}

/// An error from downloading a registered dataset.
#[derive(Debug, Clone, PartialEq, Eq)]
pub enum DownloadError {
    /// The transfer itself failed; carries the transport's diagnostic text.
    TransferFailed(String),
    /// The destination path cannot be written.
    DestinationUnwritable(String),
}

/// An error from reading, writing or querying the registry.
#[derive(Debug, Clone, PartialEq, Eq)]
pub enum RegistryError {
    /// No dataset is registered under the given label.
    NotRegistered(String),
    /// The registry could not be read; carries the underlying diagnostic text.
    RegistryUnreadable(String),
    /// The registry could not be written; carries the underlying diagnostic text.
    RegistryUnwritable(String),
}

/// A generic diagnostic report: a failure that belongs to no structured
/// family, reduced to its rendered text.
#[derive(Debug, Clone, PartialEq, Eq)]
pub struct Report {
    /// The rendered diagnostic.
    pub text: String,
}

/// Any error an operation can produce, tagged by family. The families are
/// never merged structurally; this sum only carries one of them to the
/// rendering boundary.
#[derive(Debug, Clone, PartialEq, Eq)]
pub enum DomainError {
    /// An entry/file-validation failure.
    Entry(EntryError),
    /// A download failure.
    Download(DownloadError),
    /// A registry failure.
    Registry(RegistryError),
    /// A generic diagnostic report.
    Report(Report),
}

impl EntryError {
    /// The family's own rendering, as a sequence of characters.
    pub open spec fn render_spec(self) -> Seq<char> {
        match self {
            EntryError::FileNotFound(path) => "no file could be found at "@ + path@,
            EntryError::EmptyDataset(label) => "dataset "@ + label@ + " names no files"@,
        }
    }

    /// Renders the error to exactly the text `render_spec` describes.
    pub fn render(&self) -> (s: String)
        ensures
            s@ == self.render_spec(),
    {
        match self {
            EntryError::FileNotFound(path) => {
                let mut s = "no file could be found at ".to_owned();
                s.append(path.as_str());
                s
            },
            EntryError::EmptyDataset(label) => {
                let mut s = "dataset ".to_owned();
                s.append(label.as_str());
                s.append(" names no files");
                s
            },
        }
    }
}

impl DownloadError {
    /// The family's own rendering, as a sequence of characters.
    pub open spec fn render_spec(self) -> Seq<char> {
        match self {
            DownloadError::TransferFailed(reason) => "the transfer failed: "@ + reason@,
            DownloadError::DestinationUnwritable(path) => (
                "the destination "@ + path@ + " cannot be written"@
            ),
        }
    }

    /// Renders the error to exactly the text `render_spec` describes.
    pub fn render(&self) -> (s: String)
        ensures
            s@ == self.render_spec(),
    {
        match self {
            DownloadError::TransferFailed(reason) => {
                let mut s = "the transfer failed: ".to_owned();
                s.append(reason.as_str());
                s
            },
            DownloadError::DestinationUnwritable(path) => {
                let mut s = "the destination ".to_owned();
                s.append(path.as_str());
                s.append(" cannot be written");
                s
            },
        }
    }
}

impl RegistryError {
    /// The family's own rendering, as a sequence of characters.
    pub open spec fn render_spec(self) -> Seq<char> {
        match self {
            RegistryError::NotRegistered(label) => (
                "no dataset is registered under the label "@ + label@
            ),
            RegistryError::RegistryUnreadable(reason) => (
                "the registry could not be read: "@ + reason@
            ),
            RegistryError::RegistryUnwritable(reason) => (
                "the registry could not be written: "@ + reason@
            ),
        }
    }

    /// Renders the error to exactly the text `render_spec` describes.
    pub fn render(&self) -> (s: String)
        ensures
            s@ == self.render_spec(),
    {
        match self {
            RegistryError::NotRegistered(label) => {
                let mut s = "no dataset is registered under the label ".to_owned();
                s.append(label.as_str());
                s
            },
            RegistryError::RegistryUnreadable(reason) => {
                let mut s = "the registry could not be read: ".to_owned();
                s.append(reason.as_str());
                s
            },
            RegistryError::RegistryUnwritable(reason) => {
                let mut s = "the registry could not be written: ".to_owned();
                s.append(reason.as_str());
                s
            },
        }
    }
}

impl Report {
    /// A report renders as the diagnostic text it carries, unchanged.
    pub open spec fn render_spec(self) -> Seq<char> {
        self.text@
    }

    /// Renders the report to exactly the text `render_spec` describes.
    pub fn render(&self) -> (s: String)
        ensures
            s@ == self.render_spec(),
    {
        self.text.clone()
    }
}

impl DomainError {
    /// A domain error renders as its family's own rendering: the tag adds
    /// nothing to the text.
    pub open spec fn render_spec(self) -> Seq<char> {
        match self {
            DomainError::Entry(e) => e.render_spec(),
            DomainError::Download(e) => e.render_spec(),
            DomainError::Registry(e) => e.render_spec(),
            DomainError::Report(e) => e.render_spec(),
        }
    }

    /// Renders the error to exactly the text `render_spec` describes.
    pub fn render(&self) -> (s: String)
        ensures
            s@ == self.render_spec(),
    {
        match self {
            DomainError::Entry(e) => e.render(),
            DomainError::Download(e) => e.render(),
            DomainError::Registry(e) => e.render(),
            DomainError::Report(e) => e.render(),
        }
    }
}

} // verus!
