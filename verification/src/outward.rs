//! The error-normalization boundary.
//!
//! Whatever family an operation's error belongs to, the host sees one uniform
//! shape: a single generic "rejected" kind carrying the error's rendered text.
//! One adaptor per family mediates the conversion — it owns one value of the
//! family, renders to text identical to the family's own rendering, and
//! converts into the outward channel. The adaptors never inspect or branch on
//! the wrapped error's structure: normalization is a pure rendering
//! pass-through, proved here to preserve the text character for character. In
//! exchange, the outward channel deliberately cannot distinguish error kinds;
//! a caller that needs structured discrimination must do it before
//! normalizing.
//!
//! Supporting a new family takes exactly one new adaptor with its rendering,
//! conversion and mapping helper; nothing here changes.

use vstd::prelude::*;

use crate::domain::{DomainError, DownloadError, EntryError, RegistryError, Report};
use crate::runner::RunError;

verus! {

/// The one failure shape the host ever sees: an operation was rejected, for
/// the reason the carried text renders. Which family produced the text is
/// intentionally no longer representable.
#[derive(Debug, Clone, PartialEq, Eq)]
pub enum OutwardError {
    /// The single generic kind, carrying the originating error's rendered
    /// text unchanged.
    Rejected(String),
}

impl OutwardError {
    /// The carried text.
    pub open spec fn text_spec(self) -> Seq<char> {
        self->0@
    }

    /// The carried text.
    pub fn text(&self) -> (t: &str)
        ensures
            t@ == self.text_spec(),
    {
        match self {
            OutwardError::Rejected(text) => text.as_str(),
        }
    }
}

/// Adaptor for the entry-validation family: owns one [`EntryError`] and
/// mediates its conversion into the outward channel.
#[derive(Debug, Clone, PartialEq, Eq)]
pub struct EntryAdaptor(pub EntryError);

impl EntryAdaptor {
    /// Renders to text identical to the wrapped error's own rendering.
    pub fn render(&self) -> (s: String)
        ensures
            s@ == self.0.render_spec(),
    {
        self.0.render()
    }

    /// Converts into the outward channel, text preserved exactly.
    pub fn into_outward(self) -> (out: OutwardError)
        ensures
            out.text_spec() == self.0.render_spec(),
    {
        OutwardError::Rejected(self.render())
    }
}

/// Adaptor for the download family: owns one [`DownloadError`] and mediates
/// its conversion into the outward channel.
#[derive(Debug, Clone, PartialEq, Eq)]
pub struct DownloadAdaptor(pub DownloadError);

impl DownloadAdaptor {
    /// Renders to text identical to the wrapped error's own rendering.
    pub fn render(&self) -> (s: String)
        ensures
            s@ == self.0.render_spec(),
    {
        self.0.render()
    }

    /// Converts into the outward channel, text preserved exactly.
    pub fn into_outward(self) -> (out: OutwardError)
        ensures
            out.text_spec() == self.0.render_spec(),
    {
        OutwardError::Rejected(self.render())
    }
}

/// Adaptor for the registry family: owns one [`RegistryError`] and mediates
/// its conversion into the outward channel.
#[derive(Debug, Clone, PartialEq, Eq)]
pub struct RegistryAdaptor(pub RegistryError);

impl RegistryAdaptor {
    /// Renders to text identical to the wrapped error's own rendering.
    pub fn render(&self) -> (s: String)
        ensures
            s@ == self.0.render_spec(),
    {
        self.0.render()
    }

    /// Converts into the outward channel, text preserved exactly.
    pub fn into_outward(self) -> (out: OutwardError)
        ensures
            out.text_spec() == self.0.render_spec(),
    {
        OutwardError::Rejected(self.render())
    }
}

/// Adaptor for generic diagnostic reports: owns one [`Report`] and mediates
/// its conversion into the outward channel.
#[derive(Debug, Clone, PartialEq, Eq)]
pub struct ReportAdaptor(pub Report);

impl ReportAdaptor {
    /// Renders to text identical to the wrapped report's own rendering.
    pub fn render(&self) -> (s: String)
        ensures
            s@ == self.0.render_spec(),
    {
        self.0.render()
    }

    /// Converts into the outward channel, text preserved exactly.
    pub fn into_outward(self) -> (out: OutwardError)
        ensures
            out.text_spec() == self.0.render_spec(),
    {
        OutwardError::Rejected(self.render())
    }
}

/// Normalizes an entry-validation result: a success passes through unchanged;
/// an error crosses the boundary as the single rejected kind, its rendered
/// text preserved exactly.
pub fn normalize_entry<T>(r: Result<T, EntryError>) -> (out: Result<T, OutwardError>)
    ensures
        out is Ok <==> r is Ok,
        r matches Ok(v) ==> out matches Ok(w) && w == v,
        r matches Err(e) ==> out matches Err(o) && o.text_spec() == e.render_spec(),
{
    match r {
        Ok(v) => Ok(v),
        Err(e) => Err(EntryAdaptor(e).into_outward()),
    }
}

/// Normalizes a download result: a success passes through unchanged; an error
/// crosses the boundary as the single rejected kind, its rendered text
/// preserved exactly.
pub fn normalize_download<T>(r: Result<T, DownloadError>) -> (out: Result<T, OutwardError>)
    ensures
        out is Ok <==> r is Ok,
        r matches Ok(v) ==> out matches Ok(w) && w == v,
        r matches Err(e) ==> out matches Err(o) && o.text_spec() == e.render_spec(),
{
    match r {
        Ok(v) => Ok(v),
        Err(e) => Err(DownloadAdaptor(e).into_outward()),
    }
}

/// Normalizes a registry result: a success passes through unchanged; an error
/// crosses the boundary as the single rejected kind, its rendered text
/// preserved exactly.
pub fn normalize_registry<T>(r: Result<T, RegistryError>) -> (out: Result<T, OutwardError>)
    ensures
        out is Ok <==> r is Ok,
        r matches Ok(v) ==> out matches Ok(w) && w == v,
        r matches Err(e) ==> out matches Err(o) && o.text_spec() == e.render_spec(),
{
    match r {
        Ok(v) => Ok(v),
        Err(e) => Err(RegistryAdaptor(e).into_outward()),
    }
}

/// Normalizes a result whose error is a generic diagnostic report: a success
/// passes through unchanged; a report crosses the boundary as the single
/// rejected kind, its text preserved exactly.
pub fn normalize_report<T>(r: Result<T, Report>) -> (out: Result<T, OutwardError>)
    ensures
        out is Ok <==> r is Ok,
        r matches Ok(v) ==> out matches Ok(w) && w == v,
        r matches Err(e) ==> out matches Err(o) && o.text_spec() == e.render_spec(),
{
    match r {
        Ok(v) => Ok(v),
        Err(e) => Err(ReportAdaptor(e).into_outward()),
    }
}

/// Normalizes a domain-error result, whichever family produced the error: a
/// success passes through unchanged; the error crosses the boundary as the
/// single rejected kind, carrying its family's rendered text exactly.
pub fn normalize_domain<T>(r: Result<T, DomainError>) -> (out: Result<T, OutwardError>)
    ensures
        out is Ok <==> r is Ok,
        r matches Ok(v) ==> out matches Ok(w) && w == v,
        r matches Err(e) ==> out matches Err(o) && o.text_spec() == e.render_spec(),
{
    match r {
        Ok(v) => Ok(v),
        Err(e) => {
            let out = match e {
                DomainError::Entry(inner) => EntryAdaptor(inner).into_outward(),
                DomainError::Download(inner) => DownloadAdaptor(inner).into_outward(),
                DomainError::Registry(inner) => RegistryAdaptor(inner).into_outward(),
                DomainError::Report(inner) => ReportAdaptor(inner).into_outward(),
            };
            Err(out)
        },
    }
}

/// Normalizes a whole run: the operation's success passes through unchanged; a
/// forwarded domain error crosses the boundary with its family's text exactly,
/// and a cancellation crosses it with the fixed interrupt notice.
pub fn normalize_run<T>(r: Result<T, RunError>) -> (out: Result<T, OutwardError>)
    ensures
        out is Ok <==> r is Ok,
        r matches Ok(v) ==> out matches Ok(w) && w == v,
        r matches Err(e) ==> out matches Err(o) && o.text_spec() == e.render_spec(),
{
    match r {
        Ok(v) => Ok(v),
        Err(e) => Err(OutwardError::Rejected(e.render())),
    }
}

} // verus!
