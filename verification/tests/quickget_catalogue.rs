use quickemu_manager::services::quickget::{
    cache_is_fresh, cache_location_in, group_os_entries, image_url_from_output, os_choices, os_icon,
    parse_editions, popular_systems, QuickgetEntry,
};

fn entry(os: &str, release: &str, png: Option<&str>) -> QuickgetEntry {
    QuickgetEntry {
        display_name: os.to_string(),
        os: os.to_string(),
        release: release.to_string(),
        option: None,
        png: png.map(|s| s.to_string()),
        svg: None,
    }
}

fn sample() -> Vec<QuickgetEntry> {
    vec![
        entry("ubuntu", "24.04", Some("ubuntu.png")),
        entry("fedora", "40", None),
        entry("ubuntu", "22.04", Some("other.png")),
        entry("archlinux", "latest", None),
        entry("ubuntu", "24.04", None),
    ]
}

#[test]
fn test_quickget_service() {
    // The catalogue built from quickget's list, and its popular systems.
    let systems = group_os_entries(&sample());
    assert!(!systems.is_empty());
    let popular = popular_systems(&systems);
    assert!(!popular.is_empty());
    assert!(popular.iter().any(|os| os.name == "ubuntu"));
}

#[test]
fn catalogue_groups_and_sorts() {
    let systems = group_os_entries(&sample());
    let names: Vec<&str> = systems.iter().map(|s| s.name.as_str()).collect();
    assert_eq!(names, vec!["archlinux", "fedora", "ubuntu"]);
    let ubuntu = &systems[2];
    assert_eq!(ubuntu.versions, vec!["22.04".to_string(), "24.04".to_string()]);
    assert_eq!(ubuntu.png_icon, Some("ubuntu.png".to_string()));
    assert_eq!(os_icon(&systems, "ubuntu"), Some("ubuntu.png".to_string()));
    assert_eq!(os_icon(&systems, "fedora"), None);
    assert_eq!(os_icon(&systems, "haiku"), None);
}

#[test]
fn choices_pair_names_with_versions() {
    let systems = group_os_entries(&sample());
    let choices = os_choices(&systems);
    assert_eq!(choices[1], ("fedora".to_string(), vec!["40".to_string()]));
}

#[test]
fn editions_of_quickget_output() {
    let out = "ERROR! You must specify an edition.\n - Editions: Pro Home Education\n";
    assert_eq!(
        parse_editions(out),
        vec!["Pro".to_string(), "Home".to_string(), "Education".to_string()]
    );
    assert!(parse_editions("nothing here").is_empty());
}

#[test]
fn image_url_is_trimmed() {
    assert_eq!(image_url_from_output("  https://example.org/a.iso\n"), "https://example.org/a.iso");
}

#[test]
fn cache_lasts_a_day() {
    assert!(cache_is_fresh(0));
    assert!(cache_is_fresh(86399));
    assert!(!cache_is_fresh(86400));
}

#[test]
fn cache_file_location() {
    assert_eq!(
        cache_location_in(Some("/home/u/.cache".to_string())),
        (
            "/home/u/.cache/quickemu-manager".to_string(),
            "/home/u/.cache/quickemu-manager/quickget_cache.json".to_string()
        )
    );
    assert_eq!(
        cache_location_in(None).1,
        "/tmp/quickemu-manager/quickget_cache.json".to_string()
    );
}
