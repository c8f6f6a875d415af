//! Where the bytecode of a contract is looked for.

use crate::text::concat3;
use vstd::prelude::*;

verus! {

/// Which bytecode artifact an operation needs.
#[derive(Debug, Clone, PartialEq, Eq)]
pub enum CodeSource {
    /// The file at a path that the user gave.
    Explicit { path: String },
    /// The artifact of the project's own package, at its default path.
    PackageDefault,
    /// The artifact of one component of a composable project.
    Component { name: String },
}

/// The mathematical content of a [`CodeSource`].
pub enum CodeSourceView {
    Explicit { path: Seq<char> },
    PackageDefault,
    Component { name: Seq<char> },
}

impl View for CodeSource {
    type V = CodeSourceView;

    open spec fn view(&self) -> CodeSourceView {
        match self {
            CodeSource::Explicit { path } => CodeSourceView::Explicit { path: path@ },
            CodeSource::PackageDefault => CodeSourceView::PackageDefault,
            CodeSource::Component { name } => CodeSourceView::Component { name: name@ },
        }
    }
}

impl CodeSource {
    /// The source for an optional path given by the user: that path, or the package default.
    pub fn from_path(path: Option<String>) -> (source: CodeSource)
        ensures
            source@ == match path {
                Some(p) => CodeSourceView::Explicit { path: p@ },
                None => CodeSourceView::PackageDefault,
            },
    {
        match path {
            Some(path) => CodeSource::Explicit { path },
            None => CodeSource::PackageDefault,
        }
    }
}

/// The default artifact path of the package called `name`.
pub open spec fn default_path_of(name: Seq<char>) -> Seq<char> {
    "./target/"@ + name + "-pruned.wasm"@
}

/// The path at which the bytecode of the package called `package_name` is looked for when the
/// user names none: `./target/<name>-pruned.wasm`.
pub fn default_code_path(package_name: &str) -> (path: String)
    ensures
        path@ == default_path_of(package_name@),
{
    concat3("./target/", package_name, "-pruned.wasm")
}

} // verus!
