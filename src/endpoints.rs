//! The registry's REST endpoints: method, path and query of each request.
use vstd::prelude::*;

verus! {

/// The HTTP method of a request.
#[derive(Debug, Clone, Copy, PartialEq, Eq)]
pub enum HttpMethod {
    Get,
    Put,
}

impl HttpMethod {
    /// The method's name on the wire.
    pub fn as_str(&self) -> (r: &'static str)
        ensures
            r@ == method_name(*self),
    {
        match self {
            HttpMethod::Get => "GET",
            HttpMethod::Put => "PUT",
        }
    }
}

/// The wire name of each method.
pub open spec fn method_name(m: HttpMethod) -> Seq<char> {
    match m {
        HttpMethod::Get => "GET"@,
        HttpMethod::Put => "PUT"@,
    }
}

/// A field of an endpoint that a builder sets.
#[derive(Debug, Clone, Copy, PartialEq, Eq)]
pub enum EndpointField {
    Owner,
    Package,
    Version,
    File,
}

/// Why an endpoint builder could not build.
#[derive(Debug, Clone, Copy, PartialEq, Eq)]
pub enum BuildError {
    /// The field was never set.
    UninitializedField(EndpointField),
}

/// The path that lists an owner's packages.
pub open spec fn packages_path(owner: Seq<char>) -> Seq<char> {
    "api/v1/packages/"@ + owner
}

/// The path that lists the files of one version of a generic package.
pub open spec fn package_files_path(owner: Seq<char>, package: Seq<char>, version: Seq<char>) -> Seq<
    char,
> {
    "api/v1/packages/"@ + owner + "/generic/"@ + package + "/"@ + version + "/files"@
}

/// The path of one file of one version of a generic package, for download and upload.
pub open spec fn package_file_path(
    owner: Seq<char>,
    package: Seq<char>,
    version: Seq<char>,
    file: Seq<char>,
) -> Seq<char> {
    "api/packages/"@ + owner + "/generic/"@ + package + "/"@ + version + "/"@ + file
}

/// The views of a list of query parameters.
pub open spec fn query_views(q: Seq<(String, String)>) -> Seq<(Seq<char>, Seq<char>)> {
    q.map_values(|kv: (String, String)| (kv.0@, kv.1@))
}

/// The query that searches an owner's generic packages for `package`.
pub open spec fn packages_query(package: Seq<char>) -> Seq<(Seq<char>, Seq<char>)> {
    seq![("type"@, "generic"@), ("q"@, package)]
}

/// The text of an optional string.
pub open spec fn opt_view(o: Option<String>) -> Option<Seq<char>> {
    match o {
        Some(s) => Some(s@),
        None => None,
    }
}

/// Search for a package among an owner's generic packages. The registry
/// matches the name as a substring.
#[derive(Debug, Clone)]
pub struct PackagesEndpoint {
    pub owner: String,
    pub package: String,
}

impl PackagesEndpoint {
    /// A builder with no field set.
    pub fn buidler() -> (r: PackagesEndpointBuilder)
        ensures
            r.owner is None,
            r.package is None,
    {
        PackagesEndpointBuilder { owner: None, package: None }
    }

    pub fn method(&self) -> (r: HttpMethod)
        ensures
            r == HttpMethod::Get,
    {
        HttpMethod::Get
    }

    pub fn endpoint(&self) -> (r: String)
        ensures
            r@ == packages_path(self.owner@),
    {
        let mut path = String::from_str("api/v1/packages/");
        path.append(self.owner.as_str());
        path
    }

    pub fn parameters(&self) -> (r: Vec<(String, String)>)
        ensures
            query_views(r@) == packages_query(self.package@),
    {
        let mut params: Vec<(String, String)> = Vec::new();
        params.push((String::from_str("type"), String::from_str("generic")));
        params.push((String::from_str("q"), self.package.clone()));
        assert(query_views(params@) =~= packages_query(self.package@));
        params
    }
}

/// Builds a [`PackagesEndpoint`] field by field.
#[derive(Debug, Clone)]
pub struct PackagesEndpointBuilder {
    pub owner: Option<String>,
    pub package: Option<String>,
}

impl PackagesEndpointBuilder {
    pub fn owner(self, value: &str) -> (r: Self)
        ensures
            opt_view(r.owner) == Some(value@),
            r.package == self.package,
    {
        PackagesEndpointBuilder { owner: Some(String::from_str(value)), ..self }
    }

    pub fn package(self, value: &str) -> (r: Self)
        ensures
            opt_view(r.package) == Some(value@),
            r.owner == self.owner,
    {
        PackagesEndpointBuilder { package: Some(String::from_str(value)), ..self }
    }

    /// The endpoint, or the first field in declaration order that was not set.
    pub fn build(&self) -> (r: Result<PackagesEndpoint, BuildError>)
        ensures
            r is Ok <==> self.owner is Some && self.package is Some,
            r matches Ok(e) ==> Some(e.owner@) == opt_view(self.owner) && Some(e.package@)
                == opt_view(self.package),
            self.owner is None ==> r == Err::<PackagesEndpoint, _>(
                BuildError::UninitializedField(EndpointField::Owner),
            ),
            self.owner is Some && self.package is None ==> r == Err::<PackagesEndpoint, _>(
                BuildError::UninitializedField(EndpointField::Package),
            ),
    {
        let owner = match &self.owner {
            Some(v) => v.clone(),
            None => return Err(BuildError::UninitializedField(EndpointField::Owner)),
        };
        let package = match &self.package {
            Some(v) => v.clone(),
            None => return Err(BuildError::UninitializedField(EndpointField::Package)),
        };
        Ok(PackagesEndpoint { owner, package })
    }
}

/// List the files of one version of a generic package.
#[derive(Debug, Clone)]
pub struct PackageFilesEndpoint {
    pub owner: String,
    pub package: String,
    pub version: String,
}

impl PackageFilesEndpoint {
    /// A builder with no field set.
    pub fn buidler() -> (r: PackageFilesEndpointBuilder)
        ensures
            r.owner is None,
            r.package is None,
            r.version is None,
    {
        PackageFilesEndpointBuilder { owner: None, package: None, version: None }
    }

    pub fn method(&self) -> (r: HttpMethod)
        ensures
            r == HttpMethod::Get,
    {
        HttpMethod::Get
    }

    pub fn endpoint(&self) -> (r: String)
        ensures
            r@ == package_files_path(self.owner@, self.package@, self.version@),
    {
        let mut path = String::from_str("api/v1/packages/");
        path.append(self.owner.as_str());
        path.append("/generic/");
        path.append(self.package.as_str());
        path.append("/");
        path.append(self.version.as_str());
        path.append("/files");
        path
    }
}

/// Builds a [`PackageFilesEndpoint`] field by field.
#[derive(Debug, Clone)]
pub struct PackageFilesEndpointBuilder {
    pub owner: Option<String>,
    pub package: Option<String>,
    pub version: Option<String>,
}

impl PackageFilesEndpointBuilder {
    pub fn owner(self, value: &str) -> (r: Self)
        ensures
            opt_view(r.owner) == Some(value@),
            r.package == self.package,
            r.version == self.version,
    {
        PackageFilesEndpointBuilder { owner: Some(String::from_str(value)), ..self }
    }

    pub fn package(self, value: &str) -> (r: Self)
        ensures
            opt_view(r.package) == Some(value@),
            r.owner == self.owner,
            r.version == self.version,
    {
        PackageFilesEndpointBuilder { package: Some(String::from_str(value)), ..self }
    }

    pub fn version(self, value: &str) -> (r: Self)
        ensures
            opt_view(r.version) == Some(value@),
            r.owner == self.owner,
            r.package == self.package,
    {
        PackageFilesEndpointBuilder { version: Some(String::from_str(value)), ..self }
    }

    /// The endpoint, or the first field in declaration order that was not set.
    pub fn build(&self) -> (r: Result<PackageFilesEndpoint, BuildError>)
        ensures
            r is Ok <==> self.owner is Some && self.package is Some && self.version is Some,
            r matches Ok(e) ==> Some(e.owner@) == opt_view(self.owner) && Some(e.package@)
                == opt_view(self.package) && Some(e.version@) == opt_view(self.version),
            self.owner is None ==> r == Err::<PackageFilesEndpoint, _>(
                BuildError::UninitializedField(EndpointField::Owner),
            ),
            self.owner is Some && self.package is None ==> r == Err::<PackageFilesEndpoint, _>(
                BuildError::UninitializedField(EndpointField::Package),
            ),
            self.owner is Some && self.package is Some && self.version is None ==> r == Err::<
                PackageFilesEndpoint,
                _,
            >(BuildError::UninitializedField(EndpointField::Version)),
    {
        let owner = match &self.owner {
            Some(v) => v.clone(),
            None => return Err(BuildError::UninitializedField(EndpointField::Owner)),
        };
        let package = match &self.package {
            Some(v) => v.clone(),
            None => return Err(BuildError::UninitializedField(EndpointField::Package)),
        };
        let version = match &self.version {
            Some(v) => v.clone(),
            None => return Err(BuildError::UninitializedField(EndpointField::Version)),
        };
        Ok(PackageFilesEndpoint { owner, package, version })
    }
}

/// Download one file of one version of a generic package.
#[derive(Debug, Clone)]
pub struct PackageFileEndpoint {
    pub owner: String,
    pub package: String,
    pub version: String,
    pub file: String,
}

impl PackageFileEndpoint {
    /// A builder with no field set.
    pub fn buidler() -> (r: PackageFileEndpointBuilder)
        ensures
            r.owner is None,
            r.package is None,
            r.version is None,
            r.file is None,
    {
        PackageFileEndpointBuilder { owner: None, package: None, version: None, file: None }
    }

    pub fn method(&self) -> (r: HttpMethod)
        ensures
            r == HttpMethod::Get,
    {
        HttpMethod::Get
    }

    pub fn endpoint(&self) -> (r: String)
        ensures
            r@ == package_file_path(self.owner@, self.package@, self.version@, self.file@),
    {
        let mut path = String::from_str("api/packages/");
        path.append(self.owner.as_str());
        path.append("/generic/");
        path.append(self.package.as_str());
        path.append("/");
        path.append(self.version.as_str());
        path.append("/");
        path.append(self.file.as_str());
        path
    }
}

/// Builds a [`PackageFileEndpoint`] field by field.
#[derive(Debug, Clone)]
pub struct PackageFileEndpointBuilder {
    pub owner: Option<String>,
    pub package: Option<String>,
    pub version: Option<String>,
    pub file: Option<String>,
}

impl PackageFileEndpointBuilder {
    pub fn owner(self, value: &str) -> (r: Self)
        ensures
            opt_view(r.owner) == Some(value@),
            r.package == self.package,
            r.version == self.version,
            r.file == self.file,
    {
        PackageFileEndpointBuilder { owner: Some(String::from_str(value)), ..self }
    }

    pub fn package(self, value: &str) -> (r: Self)
        ensures
            opt_view(r.package) == Some(value@),
            r.owner == self.owner,
            r.version == self.version,
            r.file == self.file,
    {
        PackageFileEndpointBuilder { package: Some(String::from_str(value)), ..self }
    }

    pub fn version(self, value: &str) -> (r: Self)
        ensures
            opt_view(r.version) == Some(value@),
            r.owner == self.owner,
            r.package == self.package,
            r.file == self.file,
    {
        PackageFileEndpointBuilder { version: Some(String::from_str(value)), ..self }
    }

    pub fn file(self, value: &str) -> (r: Self)
        ensures
            opt_view(r.file) == Some(value@),
            r.owner == self.owner,
            r.package == self.package,
            r.version == self.version,
    {
        PackageFileEndpointBuilder { file: Some(String::from_str(value)), ..self }
    }

    /// The endpoint, or the first field in declaration order that was not set.
    pub fn build(&self) -> (r: Result<PackageFileEndpoint, BuildError>)
        ensures
            r is Ok <==> self.owner is Some && self.package is Some && self.version is Some
                && self.file is Some,
            r matches Ok(e) ==> Some(e.owner@) == opt_view(self.owner) && Some(e.package@)
                == opt_view(self.package) && Some(e.version@) == opt_view(self.version) && Some(
                e.file@,
            ) == opt_view(self.file),
            self.owner is None ==> r == Err::<PackageFileEndpoint, _>(
                BuildError::UninitializedField(EndpointField::Owner),
            ),
            self.owner is Some && self.package is None ==> r == Err::<PackageFileEndpoint, _>(
                BuildError::UninitializedField(EndpointField::Package),
            ),
            self.owner is Some && self.package is Some && self.version is None ==> r == Err::<
                PackageFileEndpoint,
                _,
            >(BuildError::UninitializedField(EndpointField::Version)),
            self.owner is Some && self.package is Some && self.version is Some && self.file is None
                ==> r == Err::<PackageFileEndpoint, _>(BuildError::UninitializedField(EndpointField::File)),
    {
        let owner = match &self.owner {
            Some(v) => v.clone(),
            None => return Err(BuildError::UninitializedField(EndpointField::Owner)),
        };
        let package = match &self.package {
            Some(v) => v.clone(),
            None => return Err(BuildError::UninitializedField(EndpointField::Package)),
        };
        let version = match &self.version {
            Some(v) => v.clone(),
            None => return Err(BuildError::UninitializedField(EndpointField::Version)),
        };
        let file = match &self.file {
            Some(v) => v.clone(),
            None => return Err(BuildError::UninitializedField(EndpointField::File)),
        };
        Ok(PackageFileEndpoint { owner, package, version, file })
    }
}

/// Upload one file to one version of a generic package.
#[derive(Debug, Clone)]
pub struct PackageUploadEndpoint {
    pub owner: String,
    pub package: String,
    pub version: String,
    pub file: String,
}

impl PackageUploadEndpoint {
    /// A builder with no field set.
    pub fn buidler() -> (r: PackageUploadEndpointBuilder)
        ensures
            r.owner is None,
            r.package is None,
            r.version is None,
            r.file is None,
    {
        PackageUploadEndpointBuilder { owner: None, package: None, version: None, file: None }
    }

    pub fn method(&self) -> (r: HttpMethod)
        ensures
            r == HttpMethod::Put,
    {
        HttpMethod::Put
    }

    pub fn endpoint(&self) -> (r: String)
        ensures
            r@ == package_file_path(self.owner@, self.package@, self.version@, self.file@),
    {
        let mut path = String::from_str("api/packages/");
        path.append(self.owner.as_str());
        path.append("/generic/");
        path.append(self.package.as_str());
        path.append("/");
        path.append(self.version.as_str());
        path.append("/");
        path.append(self.file.as_str());
        path
    }
}

/// Builds a [`PackageUploadEndpoint`] field by field.
#[derive(Debug, Clone)]
pub struct PackageUploadEndpointBuilder {
    pub owner: Option<String>,
    pub package: Option<String>,
    pub version: Option<String>,
    pub file: Option<String>,
}

impl PackageUploadEndpointBuilder {
    pub fn owner(self, value: &str) -> (r: Self)
        ensures
            opt_view(r.owner) == Some(value@),
            r.package == self.package,
            r.version == self.version,
            r.file == self.file,
    {
        PackageUploadEndpointBuilder { owner: Some(String::from_str(value)), ..self }
    }

    pub fn package(self, value: &str) -> (r: Self)
        ensures
            opt_view(r.package) == Some(value@),
            r.owner == self.owner,
            r.version == self.version,
            r.file == self.file,
    {
        PackageUploadEndpointBuilder { package: Some(String::from_str(value)), ..self }
    }

    pub fn version(self, value: &str) -> (r: Self)
        ensures
            opt_view(r.version) == Some(value@),
            r.owner == self.owner,
            r.package == self.package,
            r.file == self.file,
    {
        PackageUploadEndpointBuilder { version: Some(String::from_str(value)), ..self }
    }

    pub fn file(self, value: &str) -> (r: Self)
        ensures
            opt_view(r.file) == Some(value@),
            r.owner == self.owner,
            r.package == self.package,
            r.version == self.version,
    {
        PackageUploadEndpointBuilder { file: Some(String::from_str(value)), ..self }
    }

    /// The endpoint, or the first field in declaration order that was not set.
    pub fn build(&self) -> (r: Result<PackageUploadEndpoint, BuildError>)
        ensures
            r is Ok <==> self.owner is Some && self.package is Some && self.version is Some
                && self.file is Some,
            r matches Ok(e) ==> Some(e.owner@) == opt_view(self.owner) && Some(e.package@)
                == opt_view(self.package) && Some(e.version@) == opt_view(self.version) && Some(
                e.file@,
            ) == opt_view(self.file),
            self.owner is None ==> r == Err::<PackageUploadEndpoint, _>(
                BuildError::UninitializedField(EndpointField::Owner),
            ),
            self.owner is Some && self.package is None ==> r == Err::<PackageUploadEndpoint, _>(
                BuildError::UninitializedField(EndpointField::Package),
            ),
            self.owner is Some && self.package is Some && self.version is None ==> r == Err::<
                PackageUploadEndpoint,
                _,
            >(BuildError::UninitializedField(EndpointField::Version)),
            self.owner is Some && self.package is Some && self.version is Some && self.file is None
                ==> r == Err::<PackageUploadEndpoint, _>(BuildError::UninitializedField(EndpointField::File)),
    {
        let owner = match &self.owner {
            Some(v) => v.clone(),
            None => return Err(BuildError::UninitializedField(EndpointField::Owner)),
        };
        let package = match &self.package {
            Some(v) => v.clone(),
            None => return Err(BuildError::UninitializedField(EndpointField::Package)),
        };
        let version = match &self.version {
            Some(v) => v.clone(),
            None => return Err(BuildError::UninitializedField(EndpointField::Version)),
        };
        let file = match &self.file {
            Some(v) => v.clone(),
            None => return Err(BuildError::UninitializedField(EndpointField::File)),
        };
        Ok(PackageUploadEndpoint { owner, package, version, file })
    }
}

} // verus!
