//! From one page of the store's flat listing to the files and folders of a
//! prefix.

use crate::error::GatewayError;
use crate::instant::{instant_of, parse_timestamp, Timestamp};
use crate::link::{download_link, download_url};
use crate::response::{
    assemble, assembled, outcome_model, FileModel, ViewFileResponse, ViewModel, ViewResponse,
};
use crate::text::{
    ends_with_char, lemma_without_prefix_undoes_concat, lemma_without_trailing_is_clean,
    strip_prefix, trim_end, without_prefix, without_trailing,
};
use vstd::prelude::*;
use vstd::string::*;

verus! {

/// The character that separates the segments of a key.
pub const DELIMITER: char = '/';

/// One object of a listing page, as the store describes it.
#[derive(Clone, Debug, PartialEq, Eq)]
pub struct ObjectEntry {
    pub key: String,
    /// When the object was last written, as an RFC 3339 date and time.
    pub last_modified: String,
    pub size: u64,
}

/// What an `ObjectEntry` holds.
pub struct ObjectModel {
    pub key: Seq<char>,
    pub last_modified: Seq<char>,
    pub size: u64,
}

impl View for ObjectEntry {
    type V = ObjectModel;

    open spec fn view(&self) -> ObjectModel {
        ObjectModel { key: self.key@, last_modified: self.last_modified@, size: self.size }
    }
}

impl DeepView for ObjectEntry {
    type V = ObjectModel;

    open spec fn deep_view(&self) -> ObjectModel {
        self@
    }
}

/// One page of the store's listing of a prefix.
#[derive(Clone, Debug, PartialEq, Eq)]
pub struct ListingPage {
    /// The objects directly below the prefix, in the store's order.
    pub contents: Vec<ObjectEntry>,
    /// The prefixes of the keys that lie deeper, each cut after the first
    /// delimiter behind the listed prefix.
    pub common_prefixes: Vec<String>,
    /// Where the next page starts; absent on the last page.
    pub next_cursor: Option<String>,
}

/// What a `ListingPage` holds.
pub struct PageModel {
    pub contents: Seq<ObjectModel>,
    pub common_prefixes: Seq<Seq<char>>,
    pub next_cursor: Option<Seq<char>>,
}

impl View for ListingPage {
    type V = PageModel;

    open spec fn view(&self) -> PageModel {
        PageModel {
            contents: self.contents.deep_view(),
            common_prefixes: self.common_prefixes.deep_view(),
            next_cursor: self.next_cursor.deep_view(),
        }
    }
}

/// The file entry of an object called `name` below the listed prefix, given
/// its download link and the instant of its last change, where they could
/// be had. Without a link the gateway is misconfigured; without the instant
/// the store's answer is broken.
pub open spec fn file_entry_of(
    name: Seq<char>,
    size: u64,
    link: Option<Seq<char>>,
    stamp: Option<Timestamp>,
) -> Result<FileModel, GatewayError> {
    match link {
        None => Err(GatewayError::ConfigurationError),
        Some(url) => match stamp {
            None => Err(GatewayError::UpstreamError),
            Some(at) => Ok(
                FileModel { name, last_modified: at, size, download_url: Some(url) },
            ),
        },
    }
}

/// The file that `object` shows as in the view of `prefix`. An object whose
/// key does not start with `prefix` is left out.
pub open spec fn listed_file(base: Seq<char>, prefix: Seq<char>, object: ObjectModel) -> Result<
    Option<FileModel>,
    GatewayError,
> {
    match without_prefix(object.key, prefix) {
        None => Ok(None),
        Some(name) => match file_entry_of(
            name,
            object.size,
            download_link(base, object.key),
            instant_of(object.last_modified),
        ) {
            Ok(file) => Ok(Some(file)),
            Err(e) => Err(e),
        },
    }
}

/// The files that `contents` show as in the view of `prefix`, in their
/// order; the failure of the first object that has one, if any has.
pub open spec fn listed_files(
    base: Seq<char>,
    prefix: Seq<char>,
    contents: Seq<ObjectModel>,
) -> Result<Seq<FileModel>, GatewayError>
    decreases contents.len(),
{
    if contents.len() == 0 {
        Ok(Seq::empty())
    } else {
        match listed_files(base, prefix, contents.drop_last()) {
            Err(e) => Err(e),
            Ok(files) => match listed_file(base, prefix, contents.last()) {
                Err(e) => Err(e),
                Ok(None) => Ok(files),
                Ok(Some(file)) => Ok(files.push(file)),
            },
        }
    }
}

/// The folder name that the common prefix `common` shows as in the view of
/// `prefix`: what follows `prefix`, without the delimiters at its end.
pub open spec fn folder_name(prefix: Seq<char>, common: Seq<char>) -> Option<Seq<char>> {
    match without_prefix(common, prefix) {
        None => None,
        Some(rest) => Some(without_trailing(rest, DELIMITER)),
    }
}

/// The folder names that `commons` show as in the view of `prefix`, in
/// their order. A common prefix that does not start with `prefix` is left
/// out.
pub open spec fn listed_folders(prefix: Seq<char>, commons: Seq<Seq<char>>) -> Seq<Seq<char>> {
    commons.filter_map(|common: Seq<char>| folder_name(prefix, common))
}

/// The view of `prefix` that the page `page` gives.
pub open spec fn page_view(base: Seq<char>, prefix: Seq<char>, page: PageModel) -> Result<
    ViewModel,
    GatewayError,
> {
    match listed_files(base, prefix, page.contents) {
        Err(e) => Err(e),
        Ok(files) => assembled(
            prefix,
            files,
            listed_folders(prefix, page.common_prefixes),
            page.next_cursor,
        ),
    }
}

/// A failure among the first `n` objects is the failure of the whole list.
pub proof fn lemma_listed_files_failure_stays(
    base: Seq<char>,
    prefix: Seq<char>,
    contents: Seq<ObjectModel>,
    n: int,
)
    requires
        0 <= n <= contents.len(),
        listed_files(base, prefix, contents.take(n)) is Err,
    ensures
        listed_files(base, prefix, contents) == listed_files(base, prefix, contents.take(n)),
    decreases contents.len() - n,
{
    if n == contents.len() {
        assert(contents.take(n) =~= contents);
    } else {
        assert(contents.take(n + 1).drop_last() =~= contents.take(n));
        lemma_listed_files_failure_stays(base, prefix, contents, n + 1);
    }
}

/// A view that a page gives has the prefix as its path and the page's
/// cursor, and holds no list that is empty.
pub proof fn lemma_page_view_is_well_formed(base: Seq<char>, prefix: Seq<char>, page: PageModel)
    ensures
        page_view(base, prefix, page) matches Ok(view) ==> view.well_formed() && view.path == prefix
            && view.next_cursor == page.next_cursor,
{
}

/// A page none of whose keys and common prefixes starts with the prefix
/// gives what the page without anything gives: the prefix is not found.
pub proof fn lemma_nothing_under_prefix_is_not_found(
    base: Seq<char>,
    prefix: Seq<char>,
    page: PageModel,
)
    requires
        forall|i: int|
            0 <= i < page.contents.len() ==> !prefix.is_prefix_of(#[trigger] page.contents[i].key),
        forall|i: int|
            0 <= i < page.common_prefixes.len() ==> !prefix.is_prefix_of(
                #[trigger] page.common_prefixes[i],
            ),
    ensures
        page_view(base, prefix, page) == Err::<ViewModel, GatewayError>(GatewayError::NotFound),
        page_view(base, prefix, page) == page_view(
            base,
            prefix,
            PageModel {
                contents: Seq::empty(),
                common_prefixes: Seq::empty(),
                next_cursor: None,
            },
        ),
{
    lemma_no_files_listed(base, prefix, page.contents);
    lemma_no_folders_listed(prefix, page.common_prefixes);
}

/// Objects that do not lie under the prefix show as no files.
proof fn lemma_no_files_listed(base: Seq<char>, prefix: Seq<char>, contents: Seq<ObjectModel>)
    requires
        forall|i: int| 0 <= i < contents.len() ==> !prefix.is_prefix_of(#[trigger] contents[i].key),
    ensures
        listed_files(base, prefix, contents) == Ok::<Seq<FileModel>, GatewayError>(Seq::empty()),
    decreases contents.len(),
{
    if contents.len() > 0 {
        lemma_no_files_listed(base, prefix, contents.drop_last());
        assert(!prefix.is_prefix_of(contents[contents.len() - 1].key));
    }
}

/// Common prefixes that do not lie under the prefix show as no folders.
proof fn lemma_no_folders_listed(prefix: Seq<char>, commons: Seq<Seq<char>>)
    requires
        forall|i: int| 0 <= i < commons.len() ==> !prefix.is_prefix_of(#[trigger] commons[i]),
    ensures
        listed_folders(prefix, commons) == Seq::<Seq<char>>::empty(),
    decreases commons.len(),
{
    if commons.len() > 0 {
        lemma_no_folders_listed(prefix, commons.drop_last());
        assert(!prefix.is_prefix_of(commons[commons.len() - 1]));
    }
}

/// The file of an object that is listed without failure, if it has one.
pub open spec fn file_of(base: Seq<char>, prefix: Seq<char>, object: ObjectModel) -> Option<
    FileModel,
> {
    match listed_file(base, prefix, object) {
        Ok(file) => file,
        Err(_) => None,
    }
}

/// A file of the view is its object seen from the prefix: the object's key
/// is the prefix with the file's name behind it, and the file has the
/// object's size, the instant that its date writes, and its download link.
pub proof fn lemma_listed_file_names_its_object(
    base: Seq<char>,
    prefix: Seq<char>,
    object: ObjectModel,
)
    ensures
        listed_file(base, prefix, object) matches Ok(Some(file)) ==> {
            &&& object.key == prefix + file.name
            &&& file.size == object.size
            &&& Some(file.last_modified) == instant_of(object.last_modified)
            &&& file.download_url == download_link(base, object.key)
            &&& file.download_url is Some
        },
        listed_file(base, prefix, object) == Ok::<Option<FileModel>, GatewayError>(None) <==> !(
        exists|name: Seq<char>| object.key == prefix + name),
{
    match without_prefix(object.key, prefix) {
        Some(name) => {
            lemma_without_prefix_undoes_concat(object.key, prefix, name);
        },
        None => {
            assert forall|name: Seq<char>| object.key != prefix + name by {
                lemma_without_prefix_undoes_concat(object.key, prefix, name);
            }
        },
    }
}

/// Listing collects the files of the objects one by one. Where no object
/// fails, the files are those of the objects under the prefix, in the
/// order of the objects. Where one fails, the failure is that of the first
/// object that fails.
pub proof fn lemma_listed_files_collects(
    base: Seq<char>,
    prefix: Seq<char>,
    contents: Seq<ObjectModel>,
)
    ensures
        match listed_files(base, prefix, contents) {
            Ok(files) => {
                &&& forall|i: int|
                    0 <= i < contents.len() ==> listed_file(base, prefix, #[trigger] contents[i])
                        is Ok
                &&& files == contents.filter_map(|object: ObjectModel| file_of(base, prefix, object))
            },
            Err(e) => exists|i: int|
                {
                    &&& 0 <= i < contents.len()
                    &&& listed_file(base, prefix, #[trigger] contents[i]) == Err::<
                        Option<FileModel>,
                        GatewayError,
                    >(e)
                    &&& forall|j: int|
                        0 <= j < i ==> listed_file(base, prefix, #[trigger] contents[j]) is Ok
                },
        },
    decreases contents.len(),
{
    if contents.len() > 0 {
        let earlier = contents.drop_last();
        lemma_listed_files_collects(base, prefix, earlier);
        let n = contents.len() - 1;
        match listed_files(base, prefix, earlier) {
            Ok(files) => {
                assert forall|i: int| 0 <= i < n implies listed_file(
                    base,
                    prefix,
                    #[trigger] contents[i],
                ) is Ok by {
                    assert(contents[i] == earlier[i]);
                }
                match listed_file(base, prefix, contents[n]) {
                    Ok(file) => {
                        let collected = earlier.filter_map(
                            |object: ObjectModel| file_of(base, prefix, object),
                        );
                        assert(file matches Some(f) ==> files.push(f) =~= collected + seq![f]);
                    },
                    Err(e) => {},
                }
            },
            Err(e) => {
                let i = choose|i: int|
                    {
                        &&& 0 <= i < earlier.len()
                        &&& listed_file(base, prefix, #[trigger] earlier[i]) == Err::<
                            Option<FileModel>,
                            GatewayError,
                        >(e)
                        &&& forall|j: int|
                            0 <= j < i ==> listed_file(base, prefix, #[trigger] earlier[j]) is Ok
                    };
                assert(contents[i] == earlier[i]);
                assert forall|j: int| 0 <= j < i implies listed_file(
                    base,
                    prefix,
                    #[trigger] contents[j],
                ) is Ok by {
                    assert(contents[j] == earlier[j]);
                }
            },
        }
    }
}

/// A folder name does not end with the delimiter, and each folder name
/// comes from one of the common prefixes: the common prefix is the listed
/// prefix, the name, and delimiters behind it.
pub proof fn lemma_folder_names_are_trimmed(prefix: Seq<char>, commons: Seq<Seq<char>>)
    ensures
        forall|i: int|
            0 <= i < listed_folders(prefix, commons).len() ==> {
                let name = #[trigger] listed_folders(prefix, commons)[i];
                &&& !ends_with_char(name, DELIMITER)
                &&& exists|j: int|
                    0 <= j < commons.len() && folder_name(prefix, #[trigger] commons[j]) == Some(
                        name,
                    )
            },
    decreases commons.len(),
{
    if commons.len() > 0 {
        let earlier = commons.drop_last();
        let last = commons.last();
        lemma_folder_names_are_trimmed(prefix, earlier);
        let before = listed_folders(prefix, earlier);
        let all = listed_folders(prefix, commons);
        assert forall|i: int| 0 <= i < all.len() implies {
            let name = #[trigger] all[i];
            &&& !ends_with_char(name, DELIMITER)
            &&& exists|j: int|
                0 <= j < commons.len() && folder_name(prefix, #[trigger] commons[j]) == Some(name)
        } by {
            if i < before.len() {
                assert(all[i] == before[i]);
                let j = choose|j: int|
                    0 <= j < earlier.len() && folder_name(prefix, #[trigger] earlier[j]) == Some(
                        before[i],
                    );
                assert(commons[j] == earlier[j]);
            } else {
                let rest = without_prefix(last, prefix).unwrap();
                lemma_without_trailing_is_clean(rest, DELIMITER);
                assert(commons[commons.len() - 1] == last);
            }
        }
    }
}

/// Makes the file entry of one object from its name below the prefix, its
/// size, its download link and the instant of its last change.
pub fn file_entry(name: String, size: u64, link: Option<String>, stamp: Option<Timestamp>) -> (r:
    Result<ViewFileResponse, GatewayError>)
    ensures
        match r {
            Ok(file) => file_entry_of(name@, size, link.deep_view(), stamp) == Ok::<
                FileModel,
                GatewayError,
            >(file@),
            Err(e) => file_entry_of(name@, size, link.deep_view(), stamp) == Err::<
                FileModel,
                GatewayError,
            >(e),
        },
{
    match link {
        None => Err(GatewayError::ConfigurationError),
        Some(url) => match stamp {
            None => Err(GatewayError::UpstreamError),
            Some(at) => Ok(
                ViewFileResponse { name, last_modified: at, size, download_url: Some(url) },
            ),
        },
    }
}

/// Makes the file entry of `object` for the view of `prefix`, or nothing
/// where the object does not lie under `prefix`.
pub fn list_entry(base: &str, prefix: &str, object: &ObjectEntry) -> (r: Result<
    Option<ViewFileResponse>,
    GatewayError,
>)
    ensures
        match r {
            Ok(file) => listed_file(base@, prefix@, object@) == Ok::<
                Option<FileModel>,
                GatewayError,
            >(file.deep_view()),
            Err(e) => listed_file(base@, prefix@, object@) == Err::<
                Option<FileModel>,
                GatewayError,
            >(e),
        },
{
    match strip_prefix(object.key.as_str(), prefix) {
        None => Ok(None),
        Some(name) => {
            let link = download_url(base, object.key.as_str());
            let stamp = parse_timestamp(object.last_modified.as_str());
            match file_entry(name.to_owned(), object.size, link, stamp) {
                Ok(file) => Ok(Some(file)),
                Err(e) => Err(e),
            }
        },
    }
}

/// Builds the view of `prefix` from one page of the store's listing.
pub fn build_view(base: &str, prefix: String, page: ListingPage) -> (r: Result<
    ViewResponse,
    GatewayError,
>)
    ensures
        outcome_model(r) == page_view(base@, prefix@, page@),
        r matches Ok(response) ==> response@.well_formed(),
{
    let ListingPage { contents, common_prefixes, next_cursor } = page;
    let ghost objects = contents.deep_view();
    let ghost commons = common_prefixes.deep_view();
    let mut files: Vec<ViewFileResponse> = Vec::new();
    let mut i: usize = 0;
    assert(objects.take(0) =~= Seq::empty());
    assert(files.deep_view() =~= Seq::empty());
    while i < contents.len()
        invariant
            i <= contents.len(),
            objects == contents.deep_view(),
            objects == page@.contents,
            listed_files(base@, prefix@, objects.take(i as int)) == Ok::<
                Seq<FileModel>,
                GatewayError,
            >(files.deep_view()),
        decreases contents.len() - i,
    {
        let ghost before = files.deep_view();
        proof {
            assert(objects.take(i + 1).drop_last() =~= objects.take(i as int));
            assert(objects.take(i + 1).last() == contents[i as int]@);
        }
        match list_entry(base, prefix.as_str(), &contents[i]) {
            Err(e) => {
                proof {
                    assert(listed_files(base@, prefix@, objects.take(i + 1)) == Err::<
                        Seq<FileModel>,
                        GatewayError,
                    >(e));
                    lemma_listed_files_failure_stays(base@, prefix@, objects, i + 1);
                }
                return Err(e);
            },
            Ok(None) => {},
            Ok(Some(file)) => {
                files.push(file);
                assert(files.deep_view() =~= before.push(file@));
            },
        }
        i = i + 1;
    }
    assert(objects.take(i as int) =~= objects);
    let mut folders: Vec<String> = Vec::new();
    let mut j: usize = 0;
    assert(commons.take(0) =~= Seq::empty());
    assert(folders.deep_view() =~= Seq::empty());
    while j < common_prefixes.len()
        invariant
            j <= common_prefixes.len(),
            commons == common_prefixes.deep_view(),
            folders.deep_view() == listed_folders(prefix@, commons.take(j as int)),
        decreases common_prefixes.len() - j,
    {
        let ghost before = folders.deep_view();
        proof {
            assert(commons.take(j + 1).drop_last() =~= commons.take(j as int));
            assert(commons.take(j + 1).last() == common_prefixes[j as int]@);
        }
        match strip_prefix(common_prefixes[j].as_str(), prefix.as_str()) {
            None => {},
            Some(rest) => {
                let name = trim_end(rest, DELIMITER).to_owned();
                folders.push(name);
                assert(folders.deep_view() =~= before + seq![name@]);
            },
        }
        j = j + 1;
    }
    assert(commons.take(j as int) =~= commons);
    assemble(prefix, files, folders, next_cursor)
}

} // verus!
