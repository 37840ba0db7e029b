//! The folder view that a listing request is answered with.

use crate::error::GatewayError;
use crate::instant::Timestamp;
use vstd::prelude::*;

verus! {

/// One file of a folder view.
#[derive(Clone, Debug, PartialEq, Eq)]
pub struct ViewFileResponse {
    /// The object's key, relative to the listed prefix.
    pub name: String,
    pub last_modified: Timestamp,
    pub size: u64,
    pub download_url: Option<String>,
}

/// What a `ViewFileResponse` holds.
pub struct FileModel {
    pub name: Seq<char>,
    pub last_modified: Timestamp,
    pub size: u64,
    pub download_url: Option<Seq<char>>,
}

impl View for ViewFileResponse {
    type V = FileModel;

    open spec fn view(&self) -> FileModel {
        FileModel {
            name: self.name@,
            last_modified: self.last_modified,
            size: self.size,
            download_url: self.download_url.deep_view(),
        }
    }
}

impl DeepView for ViewFileResponse {
    type V = FileModel;

    open spec fn deep_view(&self) -> FileModel {
        self@
    }
}

/// The files and folders directly below a prefix, one page of them.
#[derive(Clone, Debug, PartialEq, Eq)]
pub struct ViewResponse {
    /// The listed prefix.
    pub path: String,
    /// The files of this page; absent where there are none.
    pub files: Option<Vec<ViewFileResponse>>,
    /// The names of the folders of this page, without the prefix and
    /// without a trailing delimiter; absent where there are none.
    pub folders: Option<Vec<String>>,
    /// Where the next page starts; absent on the last page.
    pub next_cursor: Option<String>,
}

/// What a `ViewResponse` holds.
pub struct ViewModel {
    pub path: Seq<char>,
    pub files: Option<Seq<FileModel>>,
    pub folders: Option<Seq<Seq<char>>>,
    pub next_cursor: Option<Seq<char>>,
}

impl ViewModel {
    /// Neither list is present and empty, and one of them is present.
    pub open spec fn well_formed(self) -> bool {
        &&& self.files matches Some(files) ==> files.len() > 0
        &&& self.folders matches Some(folders) ==> folders.len() > 0
        &&& self.files is Some || self.folders is Some
    }
}

impl View for ViewResponse {
    type V = ViewModel;

    open spec fn view(&self) -> ViewModel {
        ViewModel {
            path: self.path@,
            files: self.files.deep_view(),
            folders: self.folders.deep_view(),
            next_cursor: self.next_cursor.deep_view(),
        }
    }
}

impl DeepView for ViewResponse {
    type V = ViewModel;

    open spec fn deep_view(&self) -> ViewModel {
        self@
    }
}

/// What an attempt to build a view ended in.
pub open spec fn outcome_model(r: Result<ViewResponse, GatewayError>) -> Result<
    ViewModel,
    GatewayError,
> {
    match r {
        Ok(response) => Ok(response@),
        Err(e) => Err(e),
    }
}

/// `items`, or nothing where `items` is empty.
pub open spec fn present<T>(items: Seq<T>) -> Option<Seq<T>> {
    if items.len() > 0 {
        Some(items)
    } else {
        None
    }
}

/// The view of `path` with the given files and folders. A prefix under
/// which nothing was found does not exist.
pub open spec fn assembled(
    path: Seq<char>,
    files: Seq<FileModel>,
    folders: Seq<Seq<char>>,
    next_cursor: Option<Seq<char>>,
) -> Result<ViewModel, GatewayError> {
    if files.len() == 0 && folders.len() == 0 {
        Err(GatewayError::NotFound)
    } else {
        Ok(
            ViewModel {
                path,
                files: present(files),
                folders: present(folders),
                next_cursor,
            },
        )
    }
}

/// Puts a view together, leaving out a list that would be empty.
pub fn assemble(
    path: String,
    files: Vec<ViewFileResponse>,
    folders: Vec<String>,
    next_cursor: Option<String>,
) -> (r: Result<ViewResponse, GatewayError>)
    ensures
        outcome_model(r) == assembled(
            path@,
            files.deep_view(),
            folders.deep_view(),
            next_cursor.deep_view(),
        ),
        r matches Ok(response) ==> response@.well_formed(),
{
    let files = if files.len() > 0 {
        Some(files)
    } else {
        None
    };
    let folders = if folders.len() > 0 {
        Some(folders)
    } else {
        None
    };
    if files.is_none() && folders.is_none() {
        return Err(GatewayError::NotFound);
    }
    Ok(ViewResponse { path, files, folders, next_cursor })
}

} // verus!
