//! The web front end without its transport: which media types are shown as
//! text, how content is escaped, and the pages that are built from a record.

use crate::data::{found_view, NewPaste, NewPasteView, Paste, PasteView, StorageError};
use crate::errors::{AppError, AppErrorView};
use crate::text::{
    contains, decimal, decode_lossy, has_substring, push_decimal, same, same_str, starts_with,
    text_of, to_chars,
};
use crate::uid::{is_uid, new_uid};
use crate::MAX_SIZE;
use vstd::prelude::*;
use vstd::string::*;
use vstd::utf8::*;

verus! {

/// What a handler answers with.
#[derive(Debug, PartialEq, Eq)]
pub enum Response {
    /// An HTML page, with status 200.
    Html(String),
    /// Stored bytes under their own media type, with status 200.
    Raw { content_type: String, content: Vec<u8> },
    /// A plain-text message under an error status.
    Error { status: u16, message: String },
}

/// The model of a [`Response`].
pub enum ResponseView {
    Html(Seq<char>),
    Raw { content_type: Seq<char>, content: Seq<u8> },
    Error { status: u16, message: Seq<char> },
}

impl View for Response {
    type V = ResponseView;

    open spec fn view(&self) -> ResponseView {
        match self {
            Response::Html(page) => ResponseView::Html(page@),
            Response::Raw { content_type, content } => ResponseView::Raw {
                content_type: content_type@,
                content: content@,
            },
            Response::Error { status, message } => ResponseView::Error {
                status: *status,
                message: message@,
            },
        }
    }
}

/// The media types that are shown as text whatever else they contain.
pub open spec fn textual_type(content_type: Seq<char>) -> bool {
    ||| content_type == "application/json"@
    ||| content_type == "application/xml"@
    ||| content_type == "application/javascript"@
    ||| content_type == "application/ecmascript"@
    ||| content_type == "application/x-sh"@
    ||| content_type == "application/x-www-form-urlencoded"@
}

/// The words that mark a media type as text wherever they occur in it.
pub open spec fn textual_word(content_type: Seq<char>) -> bool {
    ||| has_substring(content_type, "script"@)
    ||| has_substring(content_type, "json"@)
    ||| has_substring(content_type, "xml"@)
    ||| has_substring(content_type, "yaml"@)
    ||| has_substring(content_type, "toml"@)
    ||| has_substring(content_type, "csv"@)
}

/// A media type is shown as text if it is a `text/` type, one of the listed
/// application types, or holds one of the listed words.
pub open spec fn renders_as_text(content_type: Seq<char>) -> bool {
    ||| "text/"@.is_prefix_of(content_type)
    ||| textual_type(content_type)
    ||| textual_word(content_type)
}

/// Whether `s` is the text `literal`.
fn equals(s: &[char], literal: &str) -> (eq: bool)
    ensures
        eq == (s@ == literal@),
{
    let l = to_chars(literal);
    same(s, l.as_slice())
}

/// Whether `s` holds the text `literal`.
fn includes(s: &[char], literal: &str) -> (found: bool)
    ensures
        found == has_substring(s@, literal@),
{
    let l = to_chars(literal);
    contains(s, l.as_slice())
}

/// Decides whether content of the given media type is shown as text rather
/// than offered as a download.
pub fn is_renderable_as_text(content_type: &str) -> (text: bool)
    ensures
        text == renders_as_text(content_type@),
{
    let chars = to_chars(content_type);
    let t = chars.as_slice();
    let prefix = to_chars("text/");
    starts_with(t, prefix.as_slice())
        || equals(t, "application/json")
        || equals(t, "application/xml")
        || equals(t, "application/javascript")
        || equals(t, "application/ecmascript")
        || equals(t, "application/x-sh")
        || equals(t, "application/x-www-form-urlencoded")
        || includes(t, "script")
        || includes(t, "json")
        || includes(t, "xml")
        || includes(t, "yaml")
        || includes(t, "toml")
        || includes(t, "csv")
}

/// What one character becomes in HTML text.
pub open spec fn escaped_char(c: char) -> Seq<char> {
    if c == '&' {
        "&amp;"@
    } else if c == '<' {
        "&lt;"@
    } else if c == '>' {
        "&gt;"@
    } else if c == '"' {
        "&quot;"@
    } else {
        seq![c]
    }
}

/// `s` with `&`, `<`, `>` and `"` replaced by their entities.
pub open spec fn escaped(s: Seq<char>) -> Seq<char>
    decreases s.len(),
{
    if s.len() == 0 {
        Seq::empty()
    } else {
        escaped(s.drop_last()) + escaped_char(s.last())
    }
}

/// No character of `s` opens or closes a tag or a quoted attribute.
pub open spec fn markup_free(s: Seq<char>) -> bool {
    forall|i: int| 0 <= i < s.len() ==> s[i] != '<' && s[i] != '>' && s[i] != '"'
}

/// Escaped text holds no `<`, `>` or `"`, whatever it was made from.
pub proof fn law_escaped_is_markup_free(s: Seq<char>)
    ensures
        markup_free(escaped(s)),
    decreases s.len(),
{
    if s.len() > 0 {
        law_escaped_is_markup_free(s.drop_last());
        reveal_strlit("&amp;");
        reveal_strlit("&lt;");
        reveal_strlit("&gt;");
        reveal_strlit("&quot;");
    }
}

/// Replaces the four characters that HTML text cannot hold as they are.
pub fn html_escape(s: &str) -> (out: String)
    ensures
        out@ == escaped(s@),
{
    let mut out = String::new();
    for c in it: s.chars()
        invariant
            it.seq() == s@,
            out@ == escaped(s@.take(it.index() as int)),
    {
        assert(s@.take(it.index() + 1).drop_last() == s@.take(it.index() as int));
        if c == '&' {
            out.append("&amp;");
        } else if c == '<' {
            out.append("&lt;");
        } else if c == '>' {
            out.append("&gt;");
        } else if c == '"' {
            out.append("&quot;");
        } else {
            out.push(c);
        }
    }
    assert(s@.take(s@.len() as int) == s@);
    out
}

/// Every page of a paste up to its title.
pub const PAGE_OPEN: &'static str =
    "<!DOCTYPE html>\n<html>\n<head>\n    <meta charset=\"utf-8\">\n    <title>Paste ";

/// From the title of a paste's page to the line that describes the paste.
pub const PAGE_META: &'static str =
    "</title>\n    <link rel=\"stylesheet\" href=\"/static/style.css\">\n</head>\n<body>\n    <div class=\"container\">\n        <div class=\"meta\">\n            ID: ";

/// From the link to the raw text to the text itself.
pub const TEXT_OPEN: &'static str =
    "\">raw</a> | <a href=\"/\">new paste</a>\n        </div>\n        <pre>";

/// What follows the text.
pub const TEXT_CLOSE: &'static str = "</pre>\n    </div>\n</body>\n</html>";

/// From the download link to the media type in the notice.
pub const BINARY_OPEN: &'static str =
    "\">download</a> | <a href=\"/\">new paste</a>\n        </div>\n        <div class=\"binary-message\">\n            <p>This is a binary file (type: ";

/// From the media type in the notice to its download link.
pub const BINARY_LINK: &'static str =
    ") and cannot be displayed.</p>\n            <p><a href=\"/raw/";

/// What follows the download link of the notice.
pub const BINARY_CLOSE: &'static str =
    "\"> Download</a> to view it.</p>\n        </div>\n    </div>\n</body>\n</html>";

/// The page that confirms an upload, up to the first link.
pub const CREATED_OPEN: &'static str =
    "<!DOCTYPE html>\n<html>\n<head>\n    <meta charset=\"utf-8\">\n    <title>Paste Created</title>\n    <link rel=\"stylesheet\" href=\"/static/style.css\">\n</head>\n<body>\n    <div class=\"container\">\n        <h1>distrust</h1>\n        <div class=\"success\">\n            <p>✓ Paste created successfully!</p>\n            <p><strong>Link:</strong> <a href=\"/paste/";

/// Between the two links of the confirmation.
pub const CREATED_RAW: &'static str =
    "</a></p>\n            <p><strong>Raw:</strong> <a href=\"/raw/";

/// What follows the links of the confirmation.
pub const CREATED_CLOSE: &'static str =
    "</a></p>\n            <p><a href=\"/\">← Create another</a></p>\n        </div>\n    </div>\n</body>\n</html>";

/// The head of a paste's page and the line that describes the paste, up to
/// the link to its raw content.
pub open spec fn page_head(id: Seq<char>, content_type: Seq<char>, views: nat) -> Seq<char> {
    PAGE_OPEN@ + id + PAGE_META@ + id + " | Type: "@ + content_type + " | Views: "@ + decimal(
        views,
    ) + " | <a href=\"/raw/"@ + id
}

/// The page that shows a paste as text; `text` is what stands between the
/// `pre` tags, already escaped.
pub open spec fn text_page(
    id: Seq<char>,
    content_type: Seq<char>,
    views: nat,
    text: Seq<char>,
) -> Seq<char> {
    page_head(id, content_type, views) + TEXT_OPEN@ + text + TEXT_CLOSE@
}

/// The page that offers a paste as a download.
pub open spec fn binary_page(id: Seq<char>, content_type: Seq<char>, views: nat) -> Seq<char> {
    page_head(id, content_type, views) + BINARY_OPEN@ + content_type + BINARY_LINK@ + id
        + BINARY_CLOSE@
}

/// The page of `paste` as asked for under `id`: its text, escaped, where the
/// media type is shown as text, and the download notice otherwise.
pub open spec fn paste_page(id: Seq<char>, paste: PasteView) -> Seq<char> {
    if renders_as_text(paste.content_type) {
        text_page(id, paste.content_type, paste.view_count, escaped(text_of(paste.content)))
    } else {
        binary_page(id, paste.content_type, paste.view_count)
    }
}

/// The page that confirms an upload filed under `id`.
pub open spec fn created_page(id: Seq<char>) -> Seq<char> {
    CREATED_OPEN@ + id + "\">/paste/"@ + id + CREATED_RAW@ + id + "\">/raw/"@ + id
        + CREATED_CLOSE@
}

/// What a lookup in the store leads to: the store's failure, `NotFound` for
/// an absent paste, or the paste.
pub open spec fn looked_up(found: Result<Option<PasteView>, StorageError>) -> Result<
    PasteView,
    AppErrorView,
> {
    match found {
        Ok(Some(paste)) => Ok(paste),
        Ok(None) => Err(AppErrorView::NotFound),
        Err(e) => Err(AppErrorView::Database(e)),
    }
}

/// The model of a handler's outcome.
pub open spec fn outcome_view(outcome: Result<Response, AppError>) -> Result<
    ResponseView,
    AppErrorView,
> {
    match outcome {
        Ok(response) => Ok(response@),
        Err(e) => Err(e@),
    }
}

fn push_page_head(out: &mut String, id: &str, content_type: &str, views: u64)
    ensures
        final(out)@ == old(out)@ + page_head(id@, content_type@, views as nat),
{
    let mut head = PAGE_OPEN.to_owned();
    head.append(id);
    head.append(PAGE_META);
    head.append(id);
    head.append(" | Type: ");
    head.append(content_type);
    head.append(" | Views: ");
    push_decimal(&mut head, views);
    head.append(" | <a href=\"/raw/");
    head.append(id);
    out.append(head.as_str());
}

/// Answers a request for the page of the paste `id`, given what the store
/// found under it.
pub fn get_paste(id: &str, found: Result<Option<Paste>, StorageError>) -> (outcome: Result<
    Response,
    AppError,
>)
    ensures
        outcome_view(outcome) == match looked_up(found_view(found)) {
            Ok(paste) => Ok(ResponseView::Html(paste_page(id@, paste))),
            Err(e) => Err(e),
        },
{
    match found {
        Ok(Some(paste)) => {
            let mut page = String::new();
            push_page_head(&mut page, id, paste.content_type.as_str(), paste.view_count);
            if is_renderable_as_text(paste.content_type.as_str()) {
                let text = decode_lossy(paste.content.as_slice());
                let shown = html_escape(text.as_str());
                page.append(TEXT_OPEN);
                page.append(shown.as_str());
                page.append(TEXT_CLOSE);
            } else {
                page.append(BINARY_OPEN);
                page.append(paste.content_type.as_str());
                page.append(BINARY_LINK);
                page.append(id);
                page.append(BINARY_CLOSE);
            }
            Ok(Response::Html(page))
        },
        Ok(None) => Err(AppError::NotFound),
        Err(e) => Err(AppError::Database(e)),
    }
}

/// Answers a request for the stored bytes of a paste, given what the store
/// found: the bytes as they are, under the media type they were filed with.
pub fn get_paste_raw(found: Result<Option<Paste>, StorageError>) -> (outcome: Result<
    Response,
    AppError,
>)
    ensures
        outcome_view(outcome) == match looked_up(found_view(found)) {
            Ok(paste) => Ok(
                ResponseView::Raw { content_type: paste.content_type, content: paste.content },
            ),
            Err(e) => Err(e),
        },
{
    match found {
        Ok(Some(paste)) => Ok(
            Response::Raw { content_type: paste.content_type, content: paste.content },
        ),
        Ok(None) => Err(AppError::NotFound),
        Err(e) => Err(AppError::Database(e)),
    }
}

/// The media type that a file name suggests: the first entry that the
/// table of known extensions has for the extension of the name, read as a
/// path of the platform, and `application/octet-stream` where the name has
/// no extension or the table does not know it.
pub uninterp spec fn guessed_type(file_name: Seq<char>) -> Seq<char>;

/// Calls `mime_guess::from_path`, takes the first guess or
/// `application/octet-stream` where there is none, and renders it. The guess
/// goes by the name alone, through a table that is not restated here; no
/// file is opened.
#[verifier::external_body]
fn guess_type(file_name: &str) -> (content_type: String)
    ensures
        content_type@ == guessed_type(file_name@),
{
    mime_guess::from_path(file_name).first_or_octet_stream().to_string()
}

/// One field of an upload form that carries content.
#[derive(Debug, PartialEq, Eq)]
pub enum Part {
    /// The text typed into the form.
    Text(String),
    /// A file sent with the form, under the name it was sent with.
    File { file_name: String, data: Vec<u8> },
}

/// The model of a [`Part`].
pub enum PartView {
    Text(Seq<char>),
    File { file_name: Seq<char>, data: Seq<u8> },
}

impl View for Part {
    type V = PartView;

    open spec fn view(&self) -> PartView {
        match self {
            Part::Text(text) => PartView::Text(text@),
            Part::File { file_name, data } => PartView::File {
                file_name: file_name@,
                data: data@,
            },
        }
    }
}

/// How a form field is to be read.
#[derive(Debug, Clone, Copy, PartialEq, Eq, Structural)]
pub enum FieldKind {
    /// As text: the field named `content`.
    Text,
    /// As bytes: the field named `file`, if it names a file.
    File,
    /// Not at all.
    Other,
}

/// How the field `name` is read; `file_name` is empty where the field names
/// no file.
pub open spec fn kind_of(name: Seq<char>, file_name: Seq<char>) -> FieldKind {
    if name == "content"@ {
        FieldKind::Text
    } else if name == "file"@ && file_name.len() > 0 {
        FieldKind::File
    } else {
        FieldKind::Other
    }
}

/// An upload before any field has been read: no content, plain text.
pub open spec fn empty_upload() -> NewPasteView {
    NewPasteView { content: Seq::empty(), content_type: "text/plain"@ }
}

/// The upload after one more part. Text that is not empty becomes the
/// content and leaves the media type alone; a file with a name becomes the
/// content and decides the media type by its name.
pub open spec fn with_part(upload: NewPasteView, part: PartView) -> NewPasteView {
    match part {
        PartView::Text(text) => if text.len() > 0 {
            NewPasteView { content: encode_utf8(text), ..upload }
        } else {
            upload
        },
        PartView::File { file_name, data } => if file_name.len() > 0 {
            NewPasteView { content: data, content_type: guessed_type(file_name) }
        } else {
            upload
        },
    }
}

/// The upload that a form's parts make, taken in order.
pub open spec fn collected(parts: Seq<Part>) -> NewPasteView
    decreases parts.len(),
{
    if parts.len() == 0 {
        empty_upload()
    } else {
        with_part(collected(parts.drop_last()), parts.last()@)
    }
}

/// Why an upload is refused, if it is: it has no content, or more than
/// `MAX_SIZE` bytes of it.
pub open spec fn upload_error(upload: NewPasteView) -> Option<AppErrorView> {
    if upload.content.len() == 0 {
        Some(AppErrorView::BadRequest("Content cannot be empty"@))
    } else if upload.content.len() > MAX_SIZE {
        Some(AppErrorView::BadRequest("Content too large (max 10MB)"@))
    } else {
        None
    }
}

/// An upload is accepted exactly when it has content and no more than
/// `MAX_SIZE` bytes of it; an empty one is turned down before its size is
/// looked at.
pub proof fn law_accepted_upload_size(upload: NewPasteView)
    ensures
        upload_error(upload) is None <==> 0 < upload.content.len() <= MAX_SIZE,
        upload.content.len() == 0 ==> upload_error(upload) == Some(
            AppErrorView::BadRequest("Content cannot be empty"@),
        ),
{
}

/// Decides how a form field is read, by its name and the file name it
/// carries (empty where it carries none).
pub fn field_kind(name: &str, file_name: &str) -> (kind: FieldKind)
    ensures
        kind == kind_of(name@, file_name@),
{
    if same_str(name, "content") {
        FieldKind::Text
    } else if same_str(name, "file") && !file_name.is_empty() {
        FieldKind::File
    } else {
        FieldKind::Other
    }
}

/// Folds the parts of a form into one upload.
pub fn collect_upload(parts: Vec<Part>) -> (upload: NewPaste)
    ensures
        upload@ == collected(parts@),
{
    let mut upload = NewPaste { content: Vec::new(), content_type: "text/plain".to_owned() };
    for part in it: parts
        invariant
            it.seq() == parts@,
            upload@ == collected(parts@.take(it.index() as int)),
    {
        assert(parts@.take(it.index() + 1).drop_last() == parts@.take(it.index() as int));
        match part {
            Part::Text(text) => {
                if !text.as_str().is_empty() {
                    upload.content = text.as_str().as_bytes_vec();
                }
            },
            Part::File { file_name, data } => {
                if !file_name.as_str().is_empty() {
                    upload.content_type = guess_type(file_name.as_str());
                    upload.content = data;
                }
            },
        }
    }
    assert(parts@.take(parts@.len() as int) == parts@);
    upload
}

/// Accepts an upload or says why not.
pub fn check_upload(upload: NewPaste) -> (checked: Result<NewPaste, AppError>)
    ensures
        match checked {
            Ok(accepted) => accepted == upload && upload_error(upload@) is None,
            Err(e) => upload_error(upload@) == Some(e@),
        },
{
    if upload.content.len() == 0 {
        Err(AppError::BadRequest("Content cannot be empty".to_owned()))
    } else if upload.content.len() > MAX_SIZE {
        Err(AppError::BadRequest("Content too large (max 10MB)".to_owned()))
    } else {
        Ok(upload)
    }
}

/// Turns the parts of an upload form into a paste to be stored and the
/// identifier to store it under. The identifier is a new random one; the
/// paste, and whether there is one, is decided by the parts alone.
pub fn create_paste(parts: Vec<Part>) -> (created: Result<(String, NewPaste), AppError>)
    ensures
        match created {
            Ok((id, paste)) => {
                &&& is_uid(id@)
                &&& paste@ == collected(parts@)
                &&& upload_error(collected(parts@)) is None
            },
            Err(e) => upload_error(collected(parts@)) == Some(e@),
        },
{
    let upload = collect_upload(parts);
    match check_upload(upload) {
        Ok(paste) => Ok((new_uid(), paste)),
        Err(e) => Err(e),
    }
}

/// Answers an upload once the store has been asked to file it under `id`:
/// the confirmation with its two links, or the store's failure.
pub fn paste_created(id: &str, stored: Result<(), StorageError>) -> (outcome: Result<
    Response,
    AppError,
>)
    ensures
        outcome_view(outcome) == match stored {
            Ok(()) => Ok(ResponseView::Html(created_page(id@))),
            Err(e) => Err(AppErrorView::Database(e)),
        },
{
    match stored {
        Ok(()) => {
            let mut page = CREATED_OPEN.to_owned();
            page.append(id);
            page.append("\">/paste/");
            page.append(id);
            page.append(CREATED_RAW);
            page.append(id);
            page.append("\">/raw/");
            page.append(id);
            page.append(CREATED_CLOSE);
            Ok(Response::Html(page))
        },
        Err(e) => Err(AppError::Database(e)),
    }
}

} // verus!
