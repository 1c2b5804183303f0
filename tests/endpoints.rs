use gitea_resource::endpoints::{
    BuildError, EndpointField, HttpMethod, PackageFileEndpoint, PackageFilesEndpoint,
    PackageUploadEndpoint, PackagesEndpoint,
};
use gitea_resource::params::Source;

#[test]
fn packages_endpoint_searches_generic_packages() {
    let e = PackagesEndpoint::buidler().owner("acme").package("tool").build().unwrap();
    assert_eq!(e.method(), HttpMethod::Get);
    assert_eq!(e.endpoint(), "api/v1/packages/acme");
    assert_eq!(
        e.parameters(),
        vec![
            ("type".to_string(), "generic".to_string()),
            ("q".to_string(), "tool".to_string())
        ]
    );
}

#[test]
fn files_endpoint_path() {
    let e = PackageFilesEndpoint::buidler()
        .owner("acme")
        .package("tool")
        .version("1.2.0")
        .build()
        .unwrap();
    assert_eq!(e.method(), HttpMethod::Get);
    assert_eq!(e.endpoint(), "api/v1/packages/acme/generic/tool/1.2.0/files");
}

#[test]
fn file_endpoints_share_an_unversioned_path() {
    let get = PackageFileEndpoint::buidler()
        .owner("acme")
        .package("tool")
        .version("1.2.0")
        .file("a.txt")
        .build()
        .unwrap();
    let put = PackageUploadEndpoint::buidler()
        .owner("acme")
        .package("tool")
        .version("1.2.0")
        .file("a.txt")
        .build()
        .unwrap();
    assert_eq!(get.endpoint(), "api/packages/acme/generic/tool/1.2.0/a.txt");
    assert_eq!(put.endpoint(), "api/packages/acme/generic/tool/1.2.0/a.txt");
    assert_eq!(get.method().as_str(), "GET");
    assert_eq!(put.method().as_str(), "PUT");
}

#[test]
fn builders_name_the_first_missing_field() {
    let r = PackagesEndpoint::buidler().package("tool").build();
    assert!(matches!(r, Err(BuildError::UninitializedField(EndpointField::Owner))));
    let r = PackageFilesEndpoint::buidler().owner("acme").package("tool").build();
    assert!(matches!(r, Err(BuildError::UninitializedField(EndpointField::Version))));
    let r = PackageUploadEndpoint::buidler().owner("acme").version("1").build();
    assert!(matches!(r, Err(BuildError::UninitializedField(EndpointField::Package))));
    let r = PackageFileEndpoint::buidler().owner("a").package("b").version("c").build();
    assert!(matches!(r, Err(BuildError::UninitializedField(EndpointField::File))));
}

#[test]
fn source_fields_feed_the_builders() {
    let source = Source {
        uri: "https://git.example.com/".to_string(),
        owner: "acme".to_string(),
        token: "SECRET-REDACTED".to_string(),
        package: "tool".to_string(),
    };
    let e = PackagesEndpoint::buidler().owner(&source.owner).package(&source.package).build().unwrap();
    assert_eq!(e.endpoint(), "api/v1/packages/acme");
}
