use gitea_resource::models::{Package, Version};
use gitea_resource::resolver::{check_versions, cutoff_id, retain_exact_name, sort_packages_by_id};

fn pkg(id: u64, version: &str, name: &str) -> Package {
    Package { id, version: version.to_string(), name: name.to_string() }
}

fn ver(v: &str) -> Version {
    Version { version: v.to_string() }
}

fn strings(vs: &[Version]) -> Vec<String> {
    vs.iter().map(|v| v.version.clone()).collect()
}

#[test]
fn substring_matches_are_dropped_before_cutoff() {
    let packages = vec![
        pkg(1, "v1", "tool"),
        pkg(2, "v2", "tool-extra"),
        pkg(3, "v3", "tool"),
        pkg(4, "v4", "my-tool"),
    ];
    let name = "tool".to_string();
    let kept = retain_exact_name(&packages, &name);
    assert_eq!(kept.iter().map(|p| p.id).collect::<Vec<_>>(), vec![1, 3]);
    // "v2" names only a package whose name merely contains the target: it is unknown.
    let r = check_versions(&packages, &name, &Some(ver("v2")));
    assert_eq!(strings(&r), vec!["v1", "v3"]);
    let r = check_versions(&packages, &name, &None);
    assert_eq!(strings(&r), vec!["v1", "v3"]);
}

#[test]
fn latest_previous_is_reported_alone_twice() {
    let packages = vec![pkg(1, "v1", "tool"), pkg(2, "v2", "tool"), pkg(9, "v9", "tool-x")];
    let name = "tool".to_string();
    let first = check_versions(&packages, &name, &Some(ver("v2")));
    assert_eq!(strings(&first), vec!["v2"]);
    let second = check_versions(&packages, &name, &Some(first[0].clone()));
    assert_eq!(strings(&second), vec!["v2"]);
}

#[test]
fn report_is_ascending_by_id() {
    let packages = vec![
        pkg(7, "c", "tool"),
        pkg(2, "a", "tool"),
        pkg(5, "b", "tool"),
        pkg(9, "d", "tool"),
    ];
    let name = "tool".to_string();
    let r = check_versions(&packages, &name, &None);
    assert_eq!(strings(&r), vec!["a", "b", "c", "d"]);
    let sorted = sort_packages_by_id(&packages);
    let ids: Vec<u64> = sorted.iter().map(|p| p.id).collect();
    assert_eq!(ids, vec![2, 5, 7, 9]);
}

#[test]
fn cutoff_keeps_only_newer_ids() {
    let packages = vec![
        pkg(1, "1.0", "tool"),
        pkg(2, "2.0", "tool"),
        pkg(3, "3.0", "tool"),
        pkg(4, "4.0", "tool"),
    ];
    let name = "tool".to_string();
    let r = check_versions(&packages, &name, &Some(ver("2.0")));
    assert_eq!(strings(&r), vec!["3.0", "4.0"]);
}

#[test]
fn unknown_previous_falls_back_to_full_history() {
    let packages = vec![pkg(3, "3.0", "tool"), pkg(1, "1.0", "tool"), pkg(2, "2.0", "tool")];
    let name = "tool".to_string();
    let r = check_versions(&packages, &name, &Some(ver("0.9")));
    assert_eq!(strings(&r), vec!["1.0", "2.0", "3.0"]);
}

#[test]
fn no_packages_gives_empty_report() {
    let packages: Vec<Package> = vec![pkg(1, "1.0", "other")];
    let name = "tool".to_string();
    assert!(check_versions(&packages, &name, &None).is_empty());
    assert!(check_versions(&packages, &name, &Some(ver("1.0"))).is_empty());
}

#[test]
fn equal_ids_keep_their_order() {
    let packages = vec![pkg(5, "x", "tool"), pkg(1, "y", "tool"), pkg(5, "z", "tool")];
    let sorted = sort_packages_by_id(&packages);
    let versions: Vec<&str> = sorted.iter().map(|p| p.version.as_str()).collect();
    assert_eq!(versions, vec!["y", "x", "z"]);
}

#[test]
fn cutoff_is_the_first_matching_version() {
    let packages = vec![pkg(4, "a", "tool"), pkg(6, "b", "tool"), pkg(8, "b", "tool")];
    assert_eq!(cutoff_id(&packages, &"b".to_string()), Some(6));
    assert_eq!(cutoff_id(&packages, &"c".to_string()), None);
}
