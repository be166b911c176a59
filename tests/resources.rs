use smugmug::error::SmugMugError;
use smugmug::properties::NodeTypeFilters;
use smugmug::properties::SortDirection;
use smugmug::properties::SortMethod;
use smugmug::resources::album_id;
use smugmug::resources::album_url;
use smugmug::resources::archive_uri;
use smugmug::resources::children_params;
use smugmug::resources::resource_list_url;
use smugmug::resources::resource_url;
use smugmug::resources::AUTH_USER_URI;
use smugmug::resources::NODE_BASE_URI;
use smugmug::resources::origin_url;

fn pair(k: &str, v: &str) -> (String, String) {
    (k.to_string(), v.to_string())
}

#[test]
fn resource_urls() {
    assert_eq!(resource_url(NODE_BASE_URI, "2StTX5").unwrap(), "https://api.smugmug.com/api/v2/node/2StTX5");
    assert_eq!(origin_url(AUTH_USER_URI).unwrap(), "https://api.smugmug.com/api/v2!authuser");
}

#[test]
fn list_urls_join_ids() {
    let ids = vec!["2StTX5".to_string(), "XWx8t".to_string()];
    assert_eq!(
        resource_list_url(NODE_BASE_URI, &ids).unwrap(),
        Some("https://api.smugmug.com/api/v2/node/2StTX5,XWx8t".to_string())
    );
    assert_eq!(resource_list_url(NODE_BASE_URI, &Vec::new()).unwrap(), None);
}

#[test]
fn children_query_leaves_out_defaults() {
    assert_eq!(
        children_params(NodeTypeFilters::Any, SortDirection::Descending, SortMethod::SortIndex),
        vec![pair("SortDirection", "Descending")]
    );
    assert_eq!(
        children_params(NodeTypeFilters::SystemAlbum, SortDirection::Ascending, SortMethod::Organizer),
        vec![pair("SortDirection", "Ascending"), pair("Type", "System Album"), pair("SortMethod", "Organizer")]
    );
}

#[test]
fn album_id_is_last_segment() {
    assert_eq!(album_id(Some("/api/v2/album/SJT3DX")).unwrap(), "SJT3DX");
    assert_eq!(album_id(None), Err(SmugMugError::NotAnAlbum));
}

#[test]
fn album_and_archive_locations() {
    assert_eq!(album_url(Some("/api/v2/album/SJT3DX")).unwrap(), "https://api.smugmug.com/api/v2/album/SJT3DX");
    assert_eq!(album_url(None), Err(SmugMugError::NotAnAlbum));
    assert_eq!(archive_uri(Some("https://x/y.jpg"), "y.jpg", "K"), Ok("https://x/y.jpg"));
    assert_eq!(
        archive_uri(None, "y.jpg", "K"),
        Err(SmugMugError::ImageArchiveNotFound("y.jpg".to_string(), "K".to_string()))
    );
}
