//! Static assets: precompressed siblings and conditional GET.
//!
//! The resolver never touches the file system itself. The caller hands it
//! two operations, one that opens a path and one that tells when an opened
//! file was last modified, and gets back the response to send.

use vstd::prelude::*;
use crate::paths::{gz_path, gz_sibling, join, joined};
use crate::text::optional_text;

verus! {

/// Status of a response that carries the asset.
pub const STATUS_OK: u16 = 200;

/// Status of a response that tells the client its copy is still good.
pub const STATUS_NOT_MODIFIED: u16 = 304;

/// Status of a response for an asset that could not be opened.
pub const STATUS_NOT_FOUND: u16 = 404;

/// An HTTP date: a point in time with the precision of one second, counted
/// from the Unix epoch.
#[derive(Debug, Clone, Copy, PartialEq, Eq, Structural, PartialOrd, Ord)]
pub struct HttpDateTime {
    seconds: i64,
}

impl HttpDateTime {
    /// Seconds since the Unix epoch.
    pub closed spec fn timestamp(self) -> int {
        self.seconds as int
    }

    /// The HTTP date of a point in time given in seconds and nanoseconds
    /// since the Unix epoch. HTTP dates know no fractions of a second, so
    /// the nanoseconds are dropped.
    pub fn from_unix(seconds: i64, nanoseconds: u32) -> (date: HttpDateTime)
        ensures
            date.timestamp() == seconds,
    {
        let _ = nanoseconds;
        HttpDateTime { seconds }
    }

    /// Seconds since the Unix epoch.
    pub fn seconds(&self) -> (seconds: i64)
        ensures
            seconds == self.timestamp(),
    {
        self.seconds
    }

    /// Whether this date is the same as `other` or later.
    pub fn is_at_or_after(&self, other: &HttpDateTime) -> (result: bool)
        ensures
            result == (self.timestamp() >= other.timestamp()),
    {
        self.seconds >= other.seconds
    }
}

/// A file that was opened for a request, and what is known about it.
#[derive(Debug)]
pub struct Found<F> {
    /// The opened file.
    pub file: F,
    /// Whether it is the precompressed sibling rather than the file asked for.
    pub gzipped: bool,
    /// When it was last modified, if known.
    pub modified: Option<HttpDateTime>,
}

/// The body of a response: an opened file, or nothing.
#[derive(Debug)]
pub enum MaybeFile<F> {
    /// The contents of this file.
    File(F),
    /// No content.
    Empty,
}

/// The response to a request for a static asset.
#[derive(Debug)]
pub struct FileResponse<F> {
    /// The status code.
    pub status: u16,
    /// The `Content-Type` header, if sent.
    pub content_type: Option<String>,
    /// Whether `Content-Encoding: gzip` is sent.
    pub gzip_encoded: bool,
    /// The `Last-Modified` header, if sent.
    pub last_modified: Option<HttpDateTime>,
    /// The `Cache-Control` header, if sent.
    pub cache_control: Option<String>,
    /// The body.
    pub body: MaybeFile<F>,
}

/// A [`FileResponse`] with its texts as sequences of characters.
pub struct FileResponseView<F> {
    pub status: u16,
    pub content_type: Option<Seq<char>>,
    pub gzip_encoded: bool,
    pub last_modified: Option<HttpDateTime>,
    pub cache_control: Option<Seq<char>>,
    pub body: MaybeFile<F>,
}

impl<F> View for FileResponse<F> {
    type V = FileResponseView<F>;

    open spec fn view(&self) -> FileResponseView<F> {
        FileResponseView {
            status: self.status,
            content_type: optional_text(self.content_type),
            gzip_encoded: self.gzip_encoded,
            last_modified: self.last_modified,
            cache_control: optional_text(self.cache_control),
            body: self.body,
        }
    }
}

/// The response for an asset that could not be opened: status 404, no
/// headers, no body.
pub open spec fn not_found_response<F>() -> FileResponseView<F> {
    FileResponseView {
        status: STATUS_NOT_FOUND,
        content_type: None,
        gzip_encoded: false,
        last_modified: None,
        cache_control: None,
        body: MaybeFile::Empty,
    }
}

/// Whether the client's copy is still good: the client named the date of
/// its copy, the file's modification time is known, and the copy is not
/// older than the file.
pub open spec fn is_unchanged(
    if_modified_since: Option<HttpDateTime>,
    modified: Option<HttpDateTime>,
) -> bool {
    match (if_modified_since, modified) {
        (Some(client), Some(server)) => client.timestamp() >= server.timestamp(),
        _ => false,
    }
}

/// The response for a request, given what probing the file system found.
///
/// Nothing found: 404. Client's copy still good: 304, no content headers
/// and no body. Otherwise 200 with the content type, `gzip` encoding
/// exactly when the precompressed sibling was opened, the modification
/// time where known, and the file as body.
pub open spec fn response_for<F>(
    content_type: Seq<char>,
    found: Option<Found<F>>,
    if_modified_since: Option<HttpDateTime>,
) -> FileResponseView<F> {
    match found {
        None => not_found_response(),
        Some(found) => if is_unchanged(if_modified_since, found.modified) {
            FileResponseView {
                status: STATUS_NOT_MODIFIED,
                content_type: None,
                gzip_encoded: false,
                last_modified: None,
                cache_control: None,
                body: MaybeFile::Empty,
            }
        } else {
            FileResponseView {
                status: STATUS_OK,
                content_type: Some(content_type),
                gzip_encoded: found.gzipped,
                last_modified: found.modified,
                cache_control: None,
                body: MaybeFile::File(found.file),
            }
        },
    }
}

/// Builds the response for a request from what probing the file system
/// found.
pub fn respond<F>(
    content_type: String,
    found: Option<Found<F>>,
    if_modified_since: Option<HttpDateTime>,
) -> (response: FileResponse<F>)
    ensures
        response@ == response_for(content_type@, found, if_modified_since),
{
    match found {
        None => FileResponse {
            status: STATUS_NOT_FOUND,
            content_type: None,
            gzip_encoded: false,
            last_modified: None,
            cache_control: None,
            body: MaybeFile::Empty,
        },
        Some(found) => {
            let unchanged = match (&if_modified_since, &found.modified) {
                (Some(client), Some(server)) => client.is_at_or_after(server),
                _ => false,
            };
            if unchanged {
                FileResponse {
                    status: STATUS_NOT_MODIFIED,
                    content_type: None,
                    gzip_encoded: false,
                    last_modified: None,
                    cache_control: None,
                    body: MaybeFile::Empty,
                }
            } else {
                FileResponse {
                    status: STATUS_OK,
                    content_type: Some(content_type),
                    gzip_encoded: found.gzipped,
                    last_modified: found.modified,
                    cache_control: None,
                    body: MaybeFile::File(found.file),
                }
            }
        },
    }
}

/// The media type that `mime_guess` associates with the extension of a
/// path, as text.
pub uninterp spec fn guessed_mime_type(path: Seq<char>) -> Seq<char>;

/// Calls `mime_guess::guess_mime_type` and renders the media type as text.
///
/// Trusted: the guess looks the path's extension up in a fixed table and
/// falls back to `application/octet-stream`, so it depends on the path
/// alone; the contract only gives that result its name.
#[verifier::external_body]
#[allow(deprecated)]
fn guess_mime_type(path: &str) -> (mime: String)
    ensures
        mime@ == guessed_mime_type(path@),
{
    mime_guess::guess_mime_type(path).to_string()
}

/// Serves the files below a base directory, preferring for each file its
/// precompressed sibling.
#[derive(Debug)]
pub struct PrecompressedAssets {
    base: String,
}

impl PrecompressedAssets {
    /// The directory that the assets are served from.
    pub closed spec fn base(&self) -> Seq<char> {
        self.base@
    }

    /// Serves the files below `base`.
    pub fn new(base: String) -> (assets: Self)
        ensures
            assets.base() == base@,
    {
        Self { base }
    }

    /// The path of the file that a request for `relative_path` asks for.
    pub open spec fn requested_path(&self, relative_path: Seq<char>) -> Seq<char> {
        joined(self.base(), relative_path)
    }

    /// What `file` needs of the two operations: `open` can be called on the
    /// requested path and on its precompressed sibling, and `modified` on
    /// any file.
    pub open spec fn can_probe<F, O, M>(&self, relative_path: Seq<char>, open: O, modified: M) -> bool
        where O: Fn(&str) -> Option<F>, M: Fn(&F) -> Option<HttpDateTime> {
        &&& forall|path: &str|
            path@ == self.requested_path(relative_path) || path@ == gz_sibling(
                self.requested_path(relative_path),
            ) ==> #[trigger] call_requires(open, (path,))
        &&& forall|file: &F| #[trigger] call_requires(modified, (file,))
    }

    /// What `file` may answer, in terms of what `open` and `modified` can
    /// return.
    ///
    /// The precompressed sibling is opened first, and the requested path
    /// only if that fails. If neither opens, nothing was found. The file
    /// that opens is found whether or not its modification time can be
    /// told. The response is the one that [`response_for`] gives for what
    /// was found, with the media type guessed from `relative_path`.
    pub open spec fn serves<F, O, M>(
        &self,
        relative_path: Seq<char>,
        if_modified_since: Option<HttpDateTime>,
        open: O,
        modified: M,
        response: FileResponseView<F>,
    ) -> bool where O: Fn(&str) -> Option<F>, M: Fn(&F) -> Option<HttpDateTime> {
        let requested = self.requested_path(relative_path);
        let content_type = guessed_mime_type(relative_path);
        exists|gz: &str, first: Option<F>|
            {
                &&& gz@ == gz_sibling(requested)
                &&& #[trigger] call_ensures(open, (gz,), first)
                &&& match first {
                    Some(file) => Self::describes(
                        content_type,
                        file,
                        true,
                        if_modified_since,
                        modified,
                        response,
                    ),
                    None => exists|plain: &str, second: Option<F>|
                        {
                            &&& plain@ == requested
                            &&& #[trigger] call_ensures(open, (plain,), second)
                            &&& match second {
                                Some(file) => Self::describes(
                                    content_type,
                                    file,
                                    false,
                                    if_modified_since,
                                    modified,
                                    response,
                                ),
                                None => response == not_found_response::<F>(),
                            }
                        },
                }
            }
    }

    /// What `file` may answer once `file` has been opened: the response for
    /// the file, with the modification time that `modified` tells, if it
    /// tells one.
    pub open spec fn describes<F, M>(
        content_type: Seq<char>,
        file: F,
        gzipped: bool,
        if_modified_since: Option<HttpDateTime>,
        modified: M,
        response: FileResponseView<F>,
    ) -> bool where M: Fn(&F) -> Option<HttpDateTime> {
        exists|told: Option<HttpDateTime>|
            {
                &&& #[trigger] call_ensures(modified, (&file,), told)
                &&& response == response_for(
                    content_type,
                    Some(Found { file, gzipped, modified: told }),
                    if_modified_since,
                )
            }
    }

    /// Answers a request for the file at `relative_path` below the base
    /// directory. `if_modified_since` is the date of the client's copy, if
    /// the client named one. `open` opens a path and gives `None` where that
    /// fails; `modified` tells when an opened file was last modified and
    /// gives `None` where that cannot be told.
    pub fn file<F, O, M>(
        &self,
        relative_path: &str,
        if_modified_since: Option<HttpDateTime>,
        open: O,
        modified: M,
    ) -> (response: FileResponse<F>) where O: Fn(&str) -> Option<F>, M: Fn(&F) -> Option<HttpDateTime>
        requires
            self.can_probe(relative_path@, open, modified),
        ensures
            self.serves(relative_path@, if_modified_since, open, modified, response@),
    {
        let requested_path = join(self.base.as_str(), relative_path);
        let gz_path = gz_path(requested_path.as_str());
        let content_type = guess_mime_type(relative_path);

        let first = open(gz_path.as_str());
        let (file, gzipped) = match first {
            Some(file) => (file, true),
            None => {
                let second = open(requested_path.as_str());
                match second {
                    Some(file) => (file, false),
                    None => {
                        return respond(content_type, None, if_modified_since);
                    },
                }
            },
        };
        let modified = modified(&file);
        respond(content_type, Some(Found { file, gzipped, modified }), if_modified_since)
    }
}


/// The front page: the file `index.html` of the base directory.
#[derive(Debug)]
pub struct Index(pub PrecompressedAssets);

impl Index {
    /// The front page below `base`.
    pub fn new(base: String) -> (index: Self)
        ensures
            index.0.base() == base@,
    {
        Index(PrecompressedAssets::new(base))
    }

    /// Answers a request for the front page, as
    /// [`PrecompressedAssets::file`] does for `index.html`.
    pub fn index<F, O, M>(
        &self,
        if_modified_since: Option<HttpDateTime>,
        open: O,
        modified: M,
    ) -> (response: FileResponse<F>) where O: Fn(&str) -> Option<F>, M: Fn(&F) -> Option<HttpDateTime>
        requires
            self.0.can_probe("index.html"@, open, modified),
        ensures
            self.0.serves("index.html"@, if_modified_since, open, modified, response@),
    {
        self.0.file("index.html", if_modified_since, open, modified)
    }

    /// Answers a request for the help page, which is the front page.
    pub fn help<F, O, M>(
        &self,
        if_modified_since: Option<HttpDateTime>,
        open: O,
        modified: M,
    ) -> (response: FileResponse<F>) where O: Fn(&str) -> Option<F>, M: Fn(&F) -> Option<HttpDateTime>
        requires
            self.0.can_probe("index.html"@, open, modified),
        ensures
            self.0.serves("index.html"@, if_modified_since, open, modified, response@),
    {
        self.index(if_modified_since, open, modified)
    }
}

/// The assets of the front end: the files of the directory `assets`
/// below the base directory.
#[derive(Debug)]
pub struct Assets(pub PrecompressedAssets);

impl Assets {
    /// The assets below `base`.
    pub fn new(base: String) -> (assets: Self)
        ensures
            assets.0.base() == joined(base@, "assets"@),
    {
        let base = join(base.as_str(), "assets");
        Assets(PrecompressedAssets::new(base))
    }

    /// Answers a request for the asset at the path `asset`, as
    /// [`PrecompressedAssets::file`] does.
    pub fn asset<F, O, M>(
        &self,
        asset: &str,
        if_modified_since: Option<HttpDateTime>,
        open: O,
        modified: M,
    ) -> (response: FileResponse<F>) where O: Fn(&str) -> Option<F>, M: Fn(&F) -> Option<HttpDateTime>
        requires
            self.0.can_probe(asset@, open, modified),
        ensures
            self.0.serves(asset@, if_modified_since, open, modified, response@),
    {
        self.0.file(asset, if_modified_since, open, modified)
    }
}


/// What a response looks like in each of the three cases.
///
/// Nothing found: status 404, no headers, no body. The client's copy is
/// at least as new as the file: status 304, no body, and neither content
/// type nor content encoding. Otherwise: status 200, the file as body, the
/// content type, and the `gzip` encoding exactly when the precompressed
/// sibling was opened.
pub proof fn law_conditional_get<F>(
    content_type: Seq<char>,
    found: Option<Found<F>>,
    if_modified_since: Option<HttpDateTime>,
)
    ensures
        found is None ==> response_for(content_type, found, if_modified_since)
            == not_found_response::<F>(),
        found matches Some(found) ==> {
            let response = response_for(content_type, Some(found), if_modified_since);
            if (if_modified_since matches Some(client) && found.modified matches Some(server)
                && client.timestamp() >= server.timestamp()) {
                &&& response.status == STATUS_NOT_MODIFIED
                &&& response.body == MaybeFile::<F>::Empty
                &&& response.content_type is None
                &&& !response.gzip_encoded
            } else {
                &&& response.status == STATUS_OK
                &&& response.body == MaybeFile::File(found.file)
                &&& response.content_type == Some(content_type)
                &&& response.gzip_encoded == found.gzipped
                &&& response.last_modified == found.modified
            }
        },
{
}

/// Where the precompressed sibling can be opened, it is what is served:
/// unless the client's copy is still good, the response has status 200 and
/// the `gzip` encoding.
pub proof fn law_gz_sibling_is_preferred<F, O, M>(
    assets: PrecompressedAssets,
    relative_path: Seq<char>,
    if_modified_since: Option<HttpDateTime>,
    open: O,
    modified: M,
    response: FileResponseView<F>,
) where O: Fn(&str) -> Option<F>, M: Fn(&F) -> Option<HttpDateTime>
    requires
        assets.serves(relative_path, if_modified_since, open, modified, response),
        forall|path: &str, opened: Option<F>|
            path@ == gz_sibling(assets.requested_path(relative_path)) && #[trigger] call_ensures(
                open,
                (path,),
                opened,
            ) ==> opened is Some,
        forall|file: &F, told: Option<HttpDateTime>| #[trigger]
            call_ensures(modified, (file,), told) ==> !is_unchanged(if_modified_since, told),
    ensures
        response.status == STATUS_OK,
        response.gzip_encoded,
        response.content_type == Some(guessed_mime_type(relative_path)),
        response.body is File,
{
}

/// Where only the requested file can be opened, it is served as it is:
/// unless the client's copy is still good, the response has status 200
/// and no `gzip` encoding.
pub proof fn law_plain_file_is_the_fallback<F, O, M>(
    assets: PrecompressedAssets,
    relative_path: Seq<char>,
    if_modified_since: Option<HttpDateTime>,
    open: O,
    modified: M,
    response: FileResponseView<F>,
) where O: Fn(&str) -> Option<F>, M: Fn(&F) -> Option<HttpDateTime>
    requires
        assets.serves(relative_path, if_modified_since, open, modified, response),
        forall|path: &str, opened: Option<F>| #[trigger]
            call_ensures(open, (path,), opened) ==> (opened is Some <==> path@
                == assets.requested_path(relative_path)),
        gz_sibling(assets.requested_path(relative_path)) != assets.requested_path(relative_path),
        forall|file: &F, told: Option<HttpDateTime>| #[trigger]
            call_ensures(modified, (file,), told) ==> !is_unchanged(if_modified_since, told),
    ensures
        response.status == STATUS_OK,
        !response.gzip_encoded,
        response.content_type == Some(guessed_mime_type(relative_path)),
        response.body is File,
{
}

/// Only where neither file can be opened is the answer 404: then the
/// response has no headers and no body, and in every other case the status
/// is 200 or 304.
pub proof fn law_missing_file_is_not_found<F, O, M>(
    assets: PrecompressedAssets,
    relative_path: Seq<char>,
    if_modified_since: Option<HttpDateTime>,
    open: O,
    modified: M,
    response: FileResponseView<F>,
) where O: Fn(&str) -> Option<F>, M: Fn(&F) -> Option<HttpDateTime>
    requires
        assets.serves(relative_path, if_modified_since, open, modified, response),
    ensures
        (forall|path: &str, opened: Option<F>| #[trigger]
            call_ensures(open, (path,), opened) ==> opened is None) ==> response
            == not_found_response::<F>(),
        (forall|path: &str, opened: Option<F>| #[trigger]
            call_ensures(open, (path,), opened) ==> opened is Some) ==> response.status
            != STATUS_NOT_FOUND,
{
}

/// A file whose modification time cannot be told is served all the same:
/// the response has status 200, the file as body and no `Last-Modified`,
/// whatever the client said of its copy. Where the time can be told and the
/// file is sent, the response carries that time.
pub proof fn law_modification_time_is_best_effort<F, O, M>(
    assets: PrecompressedAssets,
    relative_path: Seq<char>,
    if_modified_since: Option<HttpDateTime>,
    open: O,
    modified: M,
    response: FileResponseView<F>,
) where O: Fn(&str) -> Option<F>, M: Fn(&F) -> Option<HttpDateTime>
    requires
        assets.serves(relative_path, if_modified_since, open, modified, response),
        response.status != STATUS_NOT_FOUND,
    ensures
        (forall|file: &F, told: Option<HttpDateTime>| #[trigger]
            call_ensures(modified, (file,), told) ==> told is None) ==> {
            &&& response.status == STATUS_OK
            &&& response.last_modified is None
            &&& response.body is File
        },
        response.status == STATUS_OK && response.last_modified is Some ==> exists|file: &F| #[trigger]
            call_ensures(modified, (file,), response.last_modified),
{
}

/// Where the file that is opened was last modified no later than the
/// client's copy, the response has status 304, no body, and neither
/// content type nor content encoding.
pub proof fn law_unchanged_file_is_not_sent<F, O, M>(
    assets: PrecompressedAssets,
    relative_path: Seq<char>,
    client: HttpDateTime,
    open: O,
    modified: M,
    response: FileResponseView<F>,
) where O: Fn(&str) -> Option<F>, M: Fn(&F) -> Option<HttpDateTime>
    requires
        assets.serves(relative_path, Some(client), open, modified, response),
        response.status != STATUS_NOT_FOUND,
        forall|file: &F, told: Option<HttpDateTime>| #[trigger]
            call_ensures(modified, (file,), told) ==> is_unchanged(Some(client), told),
    ensures
        response.status == STATUS_NOT_MODIFIED,
        response.body is Empty,
        response.content_type is None,
        !response.gzip_encoded,
{
}

} // verus!
