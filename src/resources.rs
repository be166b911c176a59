//! Where the API's resources live, and the queries that list them.

use vstd::prelude::*;
use vstd::string::*;
use crate::error::SmugMugError;
use crate::params::TextPair;
use crate::properties::NodeTypeFilters;
use crate::properties::SortDirection;
use crate::properties::SortMethod;
use crate::text::pairs_view;
use crate::transport::API_ORIGIN;
use crate::urls::join_url;
use crate::urls::joined_url;

verus! {

/// Path of nodes.
pub const NODE_BASE_URI: &'static str = "/api/v2/node/";

/// Path of albums.
pub const ALBUM_BASE_URI: &'static str = "/api/v2/album/";

/// Path of images.
pub const IMAGE_BASE_URI: &'static str = "/api/v2/image/";

/// Path of users.
pub const USER_BASE_URI: &'static str = "/api/v2/user/";

/// Path of the authenticated user.
pub const AUTH_USER_URI: &'static str = "/api/v2!authuser";

/// `path` resolved against the origin, then `id` against that.
pub open spec fn resource_url_of(path: Seq<char>, id: Seq<char>) -> Option<Seq<char>> {
    match joined_url(API_ORIGIN@, path) {
        Some(b) => joined_url(b, id),
        None => None,
    }
}

/// The URL of the resource `id` under `path`; fails with `UrlParsing` when
/// it does not resolve.
pub fn resource_url(path: &str, id: &str) -> (r: Result<String, SmugMugError>)
    ensures
        resource_url_of(path@, id@) matches Some(u) ==> (r matches Ok(s) && s@ == u),
        resource_url_of(path@, id@) is None ==> r matches Err(SmugMugError::UrlParsing),
{
    let base = match join_url(API_ORIGIN, path) {
        Ok(b) => b,
        Err(_) => {
            return Err(SmugMugError::UrlParsing);
        },
    };
    match join_url(base.as_str(), id) {
        Ok(u) => Ok(u),
        Err(_) => Err(SmugMugError::UrlParsing),
    }
}

/// The URL of a path resolved against the origin; fails with `UrlParsing`
/// when it does not resolve.
pub fn origin_url(path: &str) -> (r: Result<String, SmugMugError>)
    ensures
        joined_url(API_ORIGIN@, path@) matches Some(u) ==> (r matches Ok(s) && s@ == u),
        joined_url(API_ORIGIN@, path@) is None ==> r matches Err(SmugMugError::UrlParsing),
{
    match join_url(API_ORIGIN, path) {
        Ok(u) => Ok(u),
        Err(_) => Err(SmugMugError::UrlParsing),
    }
}

/// Texts joined by commas.
pub open spec fn comma_joined(s: Seq<Seq<char>>) -> Seq<char>
    decreases s.len(),
{
    if s.len() == 0 {
        seq![]
    } else if s.len() == 1 {
        s[0]
    } else {
        comma_joined(s.drop_last()) + ","@ + s.last()
    }
}

/// The ids joined by commas.
pub fn join_ids(ids: &Vec<String>) -> (r: String)
    ensures
        r@ == comma_joined(ids@.map_values(|s: String| s@)),
{
    let mut r = String::new();
    let mut i: usize = 0;
    while i < ids.len()
        invariant
            i <= ids.len(),
            r@ == comma_joined(ids@.take(i as int).map_values(|s: String| s@)),
        decreases ids.len() - i,
    {
        let ghost prev = ids@.take(i as int).map_values(|s: String| s@);
        if i > 0 {
            r.append(",");
        }
        r.append(ids[i].as_str());
        proof {
            let cur = ids@.take(i as int + 1).map_values(|s: String| s@);
            assert(cur.drop_last() =~= prev);
            if i == 0 {
                assert(r@ =~= cur[0]);
            } else {
                assert(r@ =~= comma_joined(prev) + ","@ + cur.last());
            }
        }
        i = i + 1;
    }
    assert(ids@.take(ids.len() as int) =~= ids@);
    r
}

/// The URL that fetches several resources under `path` at once, or `None`
/// when there are no ids and so nothing to fetch.
pub fn resource_list_url(path: &str, ids: &Vec<String>) -> (r: Result<
    Option<String>,
    SmugMugError,
>)
    ensures
        ids@.len() == 0 ==> r matches Ok(None),
        ids@.len() > 0 ==> (resource_url_of(path@, comma_joined(ids@.map_values(|s: String| s@)))
            matches Some(u) ==> (r matches Ok(Some(s)) && s@ == u)),
        ids@.len() > 0 && resource_url_of(path@, comma_joined(ids@.map_values(|s: String| s@)))
            is None ==> r matches Err(SmugMugError::UrlParsing),
{
    if ids.len() == 0 {
        return Ok(None);
    }
    let joined = join_ids(ids);
    let u = resource_url(path, joined.as_str())?;
    Ok(Some(u))
}

/// The query that lists a node's children: the sort direction always, the
/// type unless any type will do, the sort method unless it is the sort index.
pub open spec fn children_query(
    filter: NodeTypeFilters,
    direction: SortDirection,
    method: SortMethod,
) -> Seq<TextPair> {
    seq![("SortDirection"@, direction.spec_name())] + (if filter == NodeTypeFilters::Any {
        Seq::<TextPair>::empty()
    } else {
        seq![("Type"@, filter.spec_name())]
    }) + (if method == SortMethod::SortIndex {
        Seq::<TextPair>::empty()
    } else {
        seq![("SortMethod"@, method.spec_name())]
    })
}

/// The query that lists a node's children.
pub fn children_params(
    filter_by_type: NodeTypeFilters,
    sort_direction: SortDirection,
    sort_method: SortMethod,
) -> (r: Vec<(String, String)>)
    ensures
        pairs_view(r@) == children_query(filter_by_type, sort_direction, sort_method),
{
    let mut params: Vec<(String, String)> = Vec::new();
    params.push((String::from_str("SortDirection"), String::from_str(sort_direction.as_str())));
    let ghost a = pairs_view(params@);
    match filter_by_type {
        NodeTypeFilters::Any => {},
        _ => {
            params.push((String::from_str("Type"), String::from_str(filter_by_type.as_str())));
        },
    }
    let ghost b = pairs_view(params@);
    match sort_method {
        SortMethod::SortIndex => {},
        _ => {
            params.push((String::from_str("SortMethod"), String::from_str(sort_method.as_str())));
        },
    }
    assert(pairs_view(params@) =~= children_query(filter_by_type, sort_direction, sort_method));
    params
}

/// The URL of a node's album, resolved against the origin. Fails with
/// `NotAnAlbum` when the node has no album URI, and with `UrlParsing` when it
/// does not resolve.
pub fn album_url(album_uri: Option<&str>) -> (r: Result<String, SmugMugError>)
    ensures
        album_uri is None ==> r matches Err(SmugMugError::NotAnAlbum),
        album_uri matches Some(u) ==> match joined_url(API_ORIGIN@, u@) {
            Some(full) => (r matches Ok(s) && s@ == full),
            None => r matches Err(SmugMugError::UrlParsing),
        },
{
    match album_uri {
        Some(u) => origin_url(u),
        None => Err(SmugMugError::NotAnAlbum),
    }
}

/// Where an image's archived original is. Fails with `ImageArchiveNotFound`,
/// naming the file and the image key, when the image has none.
pub fn archive_uri<'a>(archived_uri: Option<&'a str>, file_name: &str, image_key: &str) -> (r: Result<
    &'a str,
    SmugMugError,
>)
    ensures
        archived_uri matches Some(u) ==> r == Ok::<&str, SmugMugError>(u),
        archived_uri is None ==> (r matches Err(SmugMugError::ImageArchiveNotFound(f, k)) && f@
            == file_name@ && k@ == image_key@),
{
    match archived_uri {
        Some(u) => Ok(u),
        None => Err(SmugMugError::ImageArchiveNotFound(file_name.to_owned(), image_key.to_owned())),
    }
}

/// The last segment of the path of a URL, if it parses and has a path.
pub uninterp spec fn url_last_segment(url: Seq<char>) -> Option<Seq<char>>;

/// Relies on url::Url::parse, then Url::path_segments and its last item.
#[verifier::external_body]
fn last_path_segment(url: &str) -> (r: Option<String>)
    ensures
        r matches Some(s) ==> url_last_segment(url@) == Some(s@),
        r is None ==> url_last_segment(url@) is None,
{
    url::Url::parse(url).ok().and_then(|u| u.path_segments().and_then(|mut s| s.next_back()).map(String::from))
}

/// The album id of a node: the last path segment of its album URI. Fails
/// with `NotAnAlbum` when the node has no album URI or the URI has no path,
/// and with `UrlParsing` when it does not resolve.
pub fn album_id(album_uri: Option<&str>) -> (r: Result<String, SmugMugError>)
    ensures
        album_uri is None ==> r matches Err(SmugMugError::NotAnAlbum),
        album_uri matches Some(u) ==> match joined_url(API_ORIGIN@, u@) {
            None => r matches Err(SmugMugError::UrlParsing),
            Some(full) => match url_last_segment(full) {
                None => r matches Err(SmugMugError::NotAnAlbum),
                Some(seg) => (r matches Ok(s) && s@ == seg),
            },
        },
{
    let uri = match album_uri {
        Some(u) => u,
        None => {
            return Err(SmugMugError::NotAnAlbum);
        },
    };
    let full = origin_url(uri)?;
    match last_path_segment(full.as_str()) {
        Some(s) => Ok(s),
        None => Err(SmugMugError::NotAnAlbum),
    }
}

} // verus!
