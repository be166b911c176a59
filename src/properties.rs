//! The enumerated properties of nodes and albums, and their names in the API.

use vstd::prelude::*;
use vstd::string::*;

verus! {

fn same_text(a: &str, b: &str) -> (r: bool)
    ensures
        r == (a@ == b@),
{
    a.to_owned() == b.to_owned()
}

/// How children are sorted.
#[derive(Clone, Copy, PartialEq, Eq, Structural, Debug)]
pub enum SortMethod {
    Organizer,
    SortIndex,
    Name,
    DateAdded,
    DateModified,
}

impl SortMethod {
    /// The name of the value in the API.
    pub open spec fn spec_name(&self) -> Seq<char> {
        match self {
            SortMethod::Organizer => "Organizer"@,
            SortMethod::SortIndex => "SortIndex"@,
            SortMethod::Name => "Name"@,
            SortMethod::DateAdded => "DateAdded"@,
            SortMethod::DateModified => "DateModified"@,
        }
    }

    /// The value that a name stands for, if any.
    pub open spec fn spec_from_name(s: Seq<char>) -> Option<Self> {
        if s == "Organizer"@ {
            Some(SortMethod::Organizer)
        } else if s == "SortIndex"@ {
            Some(SortMethod::SortIndex)
        } else if s == "Name"@ {
            Some(SortMethod::Name)
        } else if s == "DateAdded"@ {
            Some(SortMethod::DateAdded)
        } else if s == "DateModified"@ {
            Some(SortMethod::DateModified)
        } else {
            None
        }
    }

    /// The name of the value in the API.
    pub fn as_str(&self) -> (r: &'static str)
        ensures
            r@ == self.spec_name(),
    {
        match self {
            SortMethod::Organizer => "Organizer",
            SortMethod::SortIndex => "SortIndex",
            SortMethod::Name => "Name",
            SortMethod::DateAdded => "DateAdded",
            SortMethod::DateModified => "DateModified",
        }
    }

    /// The value that a name stands for, if any.
    pub fn from_name(s: &str) -> (r: Option<Self>)
        ensures
            r == Self::spec_from_name(s@),
    {
        if same_text(s, "Organizer") {
            Some(SortMethod::Organizer)
        } else if same_text(s, "SortIndex") {
            Some(SortMethod::SortIndex)
        } else if same_text(s, "Name") {
            Some(SortMethod::Name)
        } else if same_text(s, "DateAdded") {
            Some(SortMethod::DateAdded)
        } else if same_text(s, "DateModified") {
            Some(SortMethod::DateModified)
        } else {
            None
        }
    }
}

/// The direction of a sort.
#[derive(Clone, Copy, PartialEq, Eq, Structural, Debug)]
pub enum SortDirection {
    Ascending,
    Descending,
}

impl SortDirection {
    /// The name of the value in the API.
    pub open spec fn spec_name(&self) -> Seq<char> {
        match self {
            SortDirection::Ascending => "Ascending"@,
            SortDirection::Descending => "Descending"@,
        }
    }

    /// The value that a name stands for, if any.
    pub open spec fn spec_from_name(s: Seq<char>) -> Option<Self> {
        if s == "Ascending"@ {
            Some(SortDirection::Ascending)
        } else if s == "Descending"@ {
            Some(SortDirection::Descending)
        } else {
            None
        }
    }

    /// The name of the value in the API.
    pub fn as_str(&self) -> (r: &'static str)
        ensures
            r@ == self.spec_name(),
    {
        match self {
            SortDirection::Ascending => "Ascending",
            SortDirection::Descending => "Descending",
        }
    }

    /// The value that a name stands for, if any.
    pub fn from_name(s: &str) -> (r: Option<Self>)
        ensures
            r == Self::spec_from_name(s@),
    {
        if same_text(s, "Ascending") {
            Some(SortDirection::Ascending)
        } else if same_text(s, "Descending") {
            Some(SortDirection::Descending)
        } else {
            None
        }
    }
}

/// Who can see a node or album.
#[derive(Clone, Copy, PartialEq, Eq, Structural, Debug)]
pub enum PrivacyLevel {
    Unknown,
    Public,
    Unlisted,
    Private,
}

impl PrivacyLevel {
    /// The name of the value in the API.
    pub open spec fn spec_name(&self) -> Seq<char> {
        match self {
            PrivacyLevel::Unknown => "Unknown"@,
            PrivacyLevel::Public => "Public"@,
            PrivacyLevel::Unlisted => "Unlisted"@,
            PrivacyLevel::Private => "Private"@,
        }
    }

    /// The value that a name stands for, if any.
    pub open spec fn spec_from_name(s: Seq<char>) -> Option<Self> {
        if s == "Unknown"@ {
            Some(PrivacyLevel::Unknown)
        } else if s == "Public"@ {
            Some(PrivacyLevel::Public)
        } else if s == "Unlisted"@ {
            Some(PrivacyLevel::Unlisted)
        } else if s == "Private"@ {
            Some(PrivacyLevel::Private)
        } else {
            None
        }
    }

    /// The name of the value in the API.
    pub fn as_str(&self) -> (r: &'static str)
        ensures
            r@ == self.spec_name(),
    {
        match self {
            PrivacyLevel::Unknown => "Unknown",
            PrivacyLevel::Public => "Public",
            PrivacyLevel::Unlisted => "Unlisted",
            PrivacyLevel::Private => "Private",
        }
    }

    /// The value that a name stands for, if any.
    pub fn from_name(s: &str) -> (r: Option<Self>)
        ensures
            r == Self::spec_from_name(s@),
    {
        if same_text(s, "Unknown") {
            Some(PrivacyLevel::Unknown)
        } else if same_text(s, "Public") {
            Some(PrivacyLevel::Public)
        } else if same_text(s, "Unlisted") {
            Some(PrivacyLevel::Unlisted)
        } else if same_text(s, "Private") {
            Some(PrivacyLevel::Private)
        } else {
            None
        }
    }
}

/// Which children of a node are listed.
#[derive(Clone, Copy, PartialEq, Eq, Structural, Debug)]
pub enum NodeTypeFilters {
    Any,
    Album,
    Folder,
    Page,
    SystemAlbum,
    FolderAlbumPage,
}

impl NodeTypeFilters {
    /// The name of the value in the API.
    pub open spec fn spec_name(&self) -> Seq<char> {
        match self {
            NodeTypeFilters::Any => "Any"@,
            NodeTypeFilters::Album => "Album"@,
            NodeTypeFilters::Folder => "Folder"@,
            NodeTypeFilters::Page => "Page"@,
            NodeTypeFilters::SystemAlbum => "System Album"@,
            NodeTypeFilters::FolderAlbumPage => "Folder Album Page"@,
        }
    }

    /// The value that a name stands for, if any.
    pub open spec fn spec_from_name(s: Seq<char>) -> Option<Self> {
        if s == "Any"@ {
            Some(NodeTypeFilters::Any)
        } else if s == "Album"@ {
            Some(NodeTypeFilters::Album)
        } else if s == "Folder"@ {
            Some(NodeTypeFilters::Folder)
        } else if s == "Page"@ {
            Some(NodeTypeFilters::Page)
        } else if s == "System Album"@ {
            Some(NodeTypeFilters::SystemAlbum)
        } else if s == "Folder Album Page"@ {
            Some(NodeTypeFilters::FolderAlbumPage)
        } else {
            None
        }
    }

    /// The name of the value in the API.
    pub fn as_str(&self) -> (r: &'static str)
        ensures
            r@ == self.spec_name(),
    {
        match self {
            NodeTypeFilters::Any => "Any",
            NodeTypeFilters::Album => "Album",
            NodeTypeFilters::Folder => "Folder",
            NodeTypeFilters::Page => "Page",
            NodeTypeFilters::SystemAlbum => "System Album",
            NodeTypeFilters::FolderAlbumPage => "Folder Album Page",
        }
    }

    /// The value that a name stands for, if any.
    pub fn from_name(s: &str) -> (r: Option<Self>)
        ensures
            r == Self::spec_from_name(s@),
    {
        if same_text(s, "Any") {
            Some(NodeTypeFilters::Any)
        } else if same_text(s, "Album") {
            Some(NodeTypeFilters::Album)
        } else if same_text(s, "Folder") {
            Some(NodeTypeFilters::Folder)
        } else if same_text(s, "Page") {
            Some(NodeTypeFilters::Page)
        } else if same_text(s, "System Album") {
            Some(NodeTypeFilters::SystemAlbum)
        } else if same_text(s, "Folder Album Page") {
            Some(NodeTypeFilters::FolderAlbumPage)
        } else {
            None
        }
    }
}

/// The kind of a node.
#[derive(Clone, Copy, PartialEq, Eq, Structural, Debug)]
pub enum NodeType {
    Unknown,
    Album,
    Folder,
    Page,
    SystemFolder,
    SystemPage,
}

impl NodeType {
    /// The name of the value in the API.
    pub open spec fn spec_name(&self) -> Seq<char> {
        match self {
            NodeType::Unknown => "Unknown"@,
            NodeType::Album => "Album"@,
            NodeType::Folder => "Folder"@,
            NodeType::Page => "Page"@,
            NodeType::SystemFolder => "System Folder"@,
            NodeType::SystemPage => "System Page"@,
        }
    }

    /// The value that a name stands for, if any.
    pub open spec fn spec_from_name(s: Seq<char>) -> Option<Self> {
        if s == "Unknown"@ {
            Some(NodeType::Unknown)
        } else if s == "Album"@ {
            Some(NodeType::Album)
        } else if s == "Folder"@ {
            Some(NodeType::Folder)
        } else if s == "Page"@ {
            Some(NodeType::Page)
        } else if s == "System Folder"@ {
            Some(NodeType::SystemFolder)
        } else if s == "System Page"@ {
            Some(NodeType::SystemPage)
        } else {
            None
        }
    }

    /// The name of the value in the API.
    pub fn as_str(&self) -> (r: &'static str)
        ensures
            r@ == self.spec_name(),
    {
        match self {
            NodeType::Unknown => "Unknown",
            NodeType::Album => "Album",
            NodeType::Folder => "Folder",
            NodeType::Page => "Page",
            NodeType::SystemFolder => "System Folder",
            NodeType::SystemPage => "System Page",
        }
    }

    /// The value that a name stands for, if any.
    pub fn from_name(s: &str) -> (r: Option<Self>)
        ensures
            r == Self::spec_from_name(s@),
    {
        if same_text(s, "Unknown") {
            Some(NodeType::Unknown)
        } else if same_text(s, "Album") {
            Some(NodeType::Album)
        } else if same_text(s, "Folder") {
            Some(NodeType::Folder)
        } else if same_text(s, "Page") {
            Some(NodeType::Page)
        } else if same_text(s, "System Folder") {
            Some(NodeType::SystemFolder)
        } else if same_text(s, "System Page") {
            Some(NodeType::SystemPage)
        } else {
            None
        }
    }
}

/// Properties that can be used in the creation of an album.
pub struct CreateAlbumProps {
    pub name: String,
    pub description: Option<String>,
    pub password_hint: Option<String>,
    pub url_name: Option<String>,
    pub web_uri: Option<String>,
    pub upload_key: Option<String>,
    pub privacy: Option<PrivacyLevel>,
}

impl CreateAlbumProps {
    /// Properties with only a name.
    pub fn named(name: &str) -> (r: Self)
        ensures
            r.name@ == name@,
            r.description is None,
            r.password_hint is None,
            r.url_name is None,
            r.web_uri is None,
            r.upload_key is None,
            r.privacy is None,
    {
        CreateAlbumProps {
            name: name.to_owned(),
            description: None,
            password_hint: None,
            url_name: None,
            web_uri: None,
            upload_key: None,
            privacy: None,
        }
    }
}

} // verus!
