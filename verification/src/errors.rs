//! Error types for ESP path computation.
//!
//! Two kinds of failure exist. A `PathError` is raised while flattening one
//! store path and carries the offending path for diagnostics. A
//! `ConfigurationError` reports generation metadata this library cannot work
//! with: an architecture identifier it does not recognize, or a generation
//! without an initrd.

use vstd::prelude::*;

verus! {

/// A store path could not be flattened into an ESP file name.
#[derive(Debug)]
pub enum PathError {
    /// The resolved path has no parent directory; carries the resolved path.
    MissingParent(String),
    /// The parent directory of the resolved path lies outside the store
    /// root; carries the path as it was handed in.
    OutsideStore(String),
}

/// Mathematical image of a `PathError`.
pub enum PathErrorView {
    MissingParent(Seq<char>),
    OutsideStore(Seq<char>),
}

impl View for PathError {
    type V = PathErrorView;

    open spec fn view(&self) -> PathErrorView {
        match self {
            PathError::MissingParent(p) => PathErrorView::MissingParent(p@),
            PathError::OutsideStore(p) => PathErrorView::OutsideStore(p@),
        }
    }
}

/// Generation metadata the library refuses to work with.
#[derive(Debug)]
pub enum ConfigurationError {
    /// The architecture identifier routes to no known firmware file names;
    /// carries the identifier.
    UnrecognizedArchitecture(String),
    /// The generation carries no initrd; such generations are unsupported.
    MissingInitrd,
}

/// Mathematical image of a `ConfigurationError`.
pub enum ConfigurationErrorView {
    UnrecognizedArchitecture(Seq<char>),
    MissingInitrd,
}

impl View for ConfigurationError {
    type V = ConfigurationErrorView;

    open spec fn view(&self) -> ConfigurationErrorView {
        match self {
            ConfigurationError::UnrecognizedArchitecture(s) => {
                ConfigurationErrorView::UnrecognizedArchitecture(s@)
            },
            ConfigurationError::MissingInitrd => ConfigurationErrorView::MissingInitrd,
        }
    }
}

/// Any failure of the ESP layout computation.
#[derive(Debug)]
pub enum EspError {
    Path(PathError),
    Configuration(ConfigurationError),
}

/// Mathematical image of an `EspError`.
pub enum EspErrorView {
    Path(PathErrorView),
    Configuration(ConfigurationErrorView),
}

impl View for EspError {
    type V = EspErrorView;

    open spec fn view(&self) -> EspErrorView {
        match self {
            EspError::Path(e) => EspErrorView::Path(e@),
            EspError::Configuration(e) => EspErrorView::Configuration(e@),
        }
    }
}

} // verus!
