use smugmug::parsers::is_none_or_empty_str;
use smugmug::parsers::node_type_from_name;
use smugmug::parsers::privacy_from_name;
use smugmug::properties::CreateAlbumProps;
use smugmug::properties::NodeType;
use smugmug::properties::NodeTypeFilters;
use smugmug::properties::PrivacyLevel;
use smugmug::properties::SortDirection;
use smugmug::properties::SortMethod;

#[test]
fn names_round_trip() {
    assert_eq!(NodeTypeFilters::SystemAlbum.as_str(), "System Album");
    assert_eq!(NodeTypeFilters::from_name("Folder Album Page"), Some(NodeTypeFilters::FolderAlbumPage));
    assert_eq!(NodeType::SystemFolder.as_str(), "System Folder");
    assert_eq!(NodeType::from_name("System Page"), Some(NodeType::SystemPage));
    assert_eq!(SortMethod::DateModified.as_str(), "DateModified");
    assert_eq!(SortMethod::from_name("SortIndex"), Some(SortMethod::SortIndex));
    assert_eq!(SortDirection::from_name("Descending"), Some(SortDirection::Descending));
    assert_eq!(PrivacyLevel::Unlisted.as_str(), "Unlisted");
    assert_eq!(PrivacyLevel::from_name("private"), None);
}

#[test]
fn unknown_names_read_as_unknown() {
    assert_eq!(node_type_from_name("Album"), NodeType::Album);
    assert_eq!(node_type_from_name("Gallery"), NodeType::Unknown);
    assert_eq!(privacy_from_name("Public"), PrivacyLevel::Public);
    assert_eq!(privacy_from_name(""), PrivacyLevel::Unknown);
}

#[test]
fn none_or_empty() {
    assert!(is_none_or_empty_str(&None));
    assert!(is_none_or_empty_str(&Some(String::new())));
    assert!(!is_none_or_empty_str(&Some("x".to_string())));
}

#[test]
fn album_props_named() {
    let p = CreateAlbumProps::named("Trip");
    assert_eq!(p.name, "Trip");
    assert!(p.upload_key.is_none() && p.privacy.is_none());
}
