use vstd::prelude::*;

verus! {

/// A package record as the registry lists it.
#[derive(Debug, Clone)]
pub struct Package {
    pub id: u64,
    pub version: String,
    pub name: String,
}

/// The mathematical content of a [`Package`].
pub struct PackageView {
    pub id: u64,
    pub version: Seq<char>,
    pub name: Seq<char>,
}

impl View for Package {
    type V = PackageView;

    open spec fn view(&self) -> PackageView {
        PackageView { id: self.id, version: self.version@, name: self.name@ }
    }
}

impl Package {
    /// A field-by-field copy that keeps the view.
    pub fn copy(&self) -> (r: Package)
        ensures
            r@ == self@,
    {
        Package { id: self.id, version: self.version.clone(), name: self.name.clone() }
    }
}

/// The views of a sequence of packages.
pub open spec fn package_views(s: Seq<Package>) -> Seq<PackageView> {
    s.map_values(|p: Package| p@)
}

/// One file held by a package version.
#[derive(Debug, Clone)]
pub struct PackageFile {
    pub name: String,
}

/// A version of the resource, as the pipeline sees it.
#[derive(Debug, Clone)]
pub struct Version {
    pub version: String,
}

/// The version strings of a sequence of versions.
pub open spec fn version_strings(s: Seq<Version>) -> Seq<Seq<char>> {
    s.map_values(|v: Version| v.version@)
}

} // verus!
