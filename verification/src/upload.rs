//! What an upload sends and what its answer means. The file contents
//! themselves never pass through the library: a part only says where they go.

use vstd::prelude::*;
use vstd::string::StringExecFns;
use crate::config::{option_text, texts};
use crate::error::{AuthError, AuthErrorView};
use crate::exchange::{is_success, status_is_success};
use crate::lifecycle::{TokenPlan, TokenPlanView};
use crate::text::{decimal, decimal_text, pair, pairs_view};

verus! {

/// One part of a multipart form.
#[derive(Debug, PartialEq, Eq)]
pub enum FormPart {
    /// A text field.
    Text { name: String, value: String },
    /// The audio file, sent under its own file name with the given media type.
    Audio { name: String, mime: String },
    /// The cover image, sent under its own file name, or under `fallback` if
    /// it has none that can be written as text.
    Image { name: String, fallback: String },
}

/// The mathematical value of a `FormPart`.
pub enum FormPartView {
    Text { name: Seq<char>, value: Seq<char> },
    Audio { name: Seq<char>, mime: Seq<char> },
    Image { name: Seq<char>, fallback: Seq<char> },
}

impl View for FormPart {
    type V = FormPartView;

    open spec fn view(&self) -> FormPartView {
        match self {
            FormPart::Text { name, value } => FormPartView::Text { name: name@, value: value@ },
            FormPart::Audio { name, mime } => FormPartView::Audio { name: name@, mime: mime@ },
            FormPart::Image { name, fallback } => FormPartView::Image {
                name: name@,
                fallback: fallback@,
            },
        }
    }
}

/// The values of a list of form parts.
pub open spec fn parts_view(parts: Seq<FormPart>) -> Seq<FormPartView> {
    Seq::new(parts.len(), |i: int| parts[i]@)
}

/// What the user says of a mix.
#[derive(Debug, PartialEq, Eq)]
pub struct UploadMetadata {
    pub title: String,
    pub description: Option<String>,
    /// Whether a cover image was given and can be read.
    pub has_image: bool,
    pub tags: Option<Vec<String>>,
    /// When to publish, as `YYYY-MM-DDTHH:MM:SSZ`. Mixcloud only.
    pub publish_date: Option<String>,
}

/// The mathematical value of an `UploadMetadata`.
pub struct UploadMetadataView {
    pub title: Seq<char>,
    pub description: Option<Seq<char>>,
    pub has_image: bool,
    pub tags: Option<Seq<Seq<char>>>,
    pub publish_date: Option<Seq<char>>,
}

impl View for UploadMetadata {
    type V = UploadMetadataView;

    open spec fn view(&self) -> UploadMetadataView {
        UploadMetadataView {
            title: self.title@,
            description: option_text(self.description),
            has_image: self.has_image,
            tags: match self.tags {
                Some(tags) => Some(texts(tags@)),
                None => None,
            },
            publish_date: option_text(self.publish_date),
        }
    }
}

/// An upload request: where it goes, what identifies the user, and the form.
#[derive(Debug, PartialEq, Eq)]
pub struct UploadRequest {
    pub url: String,
    /// Pairs for the URL's query string.
    pub query: Vec<(String, String)>,
    /// Request headers.
    pub headers: Vec<(String, String)>,
    /// The parts of the multipart form, in order.
    pub parts: Vec<FormPart>,
}

/// The mathematical value of an `UploadRequest`.
pub struct UploadRequestView {
    pub url: Seq<char>,
    pub query: Seq<(Seq<char>, Seq<char>)>,
    pub headers: Seq<(Seq<char>, Seq<char>)>,
    pub parts: Seq<FormPartView>,
}

impl View for UploadRequest {
    type V = UploadRequestView;

    open spec fn view(&self) -> UploadRequestView {
        UploadRequestView {
            url: self.url@,
            query: pairs_view(self.query@),
            headers: pairs_view(self.headers@),
            parts: parts_view(self.parts@),
        }
    }
}

/// A text part, if there is a value for it.
pub open spec fn optional_text(name: Seq<char>, value: Option<Seq<char>>) -> Seq<FormPartView> {
    match value {
        Some(text) => seq![FormPartView::Text { name, value: text }],
        None => Seq::empty(),
    }
}

/// An image part, if there is an image.
pub open spec fn optional_image(name: Seq<char>, fallback: Seq<char>, has_image: bool) -> Seq<
    FormPartView,
> {
    if has_image {
        seq![FormPartView::Image { name, fallback }]
    } else {
        Seq::empty()
    }
}

/// The name of the field for the tag at position `index`.
pub open spec fn tag_field_name(index: nat) -> Seq<char> {
    "tags-"@ + decimal_text(index) + "-tag"@
}

/// One text part for each tag, named by the tag's position.
pub open spec fn numbered_tags(tags: Seq<Seq<char>>) -> Seq<FormPartView> {
    Seq::new(
        tags.len(),
        |i: int| FormPartView::Text { name: tag_field_name(i as nat), value: tags[i] },
    )
}

/// The texts of `items` with `separator` between each two of them.
pub open spec fn joined(items: Seq<Seq<char>>, separator: Seq<char>) -> Seq<char>
    decreases items.len(),
{
    if items.len() == 0 {
        Seq::empty()
    } else if items.len() == 1 {
        items[0]
    } else {
        joined(items.drop_last(), separator) + separator + items.last()
    }
}

/// Writes the strings of `items` with `separator` between each two of them.
pub fn join(items: &Vec<String>, separator: &str) -> (s: String)
    ensures
        s@ == joined(texts(items@), separator@),
{
    let ghost all = texts(items@);
    let mut s = String::new();
    let mut i: usize = 0;
    while i < items.len()
        invariant
            i <= items@.len(),
            all == texts(items@),
            s@ == joined(all.take(i as int), separator@),
        decreases items@.len() - i,
    {
        if i > 0 {
            s.append(separator);
        }
        s.append(items[i].as_str());
        proof {
            assert(all.take(i + 1).drop_last() =~= all.take(i as int));
            assert(all.take(i + 1).last() == items@[i as int]@);
            if i == 0 {
                assert(s@ =~= all.take(1)[0]);
            }
        }
        i += 1;
    }
    assert(all.take(i as int) =~= all);
    s
}

/// Mixcloud's form: the audio file, the name, then what else was given: the
/// description, the picture, one field per tag, the publish date.
pub open spec fn mixcloud_parts(meta: UploadMetadataView) -> Seq<FormPartView> {
    seq![
        FormPartView::Audio { name: "mp3"@, mime: "audio/mpeg"@ },
        FormPartView::Text { name: "name"@, value: meta.title },
    ] + optional_text("description"@, meta.description) + optional_image(
        "picture"@,
        "cover.jpg"@,
        meta.has_image,
    ) + (match meta.tags {
        Some(tags) => numbered_tags(tags),
        None => Seq::empty(),
    }) + optional_text("publish_date"@, meta.publish_date)
}

/// SoundCloud's form: the audio file, the title, then what else was given:
/// the description, the artwork, the tags as one list; and at last the
/// sharing setting. A publish date is not sent.
pub open spec fn soundcloud_parts(meta: UploadMetadataView) -> Seq<FormPartView> {
    seq![
        FormPartView::Audio { name: "track[asset_data]"@, mime: "audio/mpeg"@ },
        FormPartView::Text { name: "track[title]"@, value: meta.title },
    ] + optional_text("track[description]"@, meta.description) + optional_image(
        "track[artwork_data]"@,
        "artwork.jpg"@,
        meta.has_image,
    ) + (match meta.tags {
        Some(tags) => seq![
            FormPartView::Text { name: "track[tag_list]"@, value: joined(tags, " "@) },
        ],
        None => Seq::empty(),
    }) + seq![FormPartView::Text { name: "track[sharing]"@, value: "public"@ }]
}

/// A text part.
fn text_part(name: &str, value: &str) -> (part: FormPart)
    ensures
        part@ == (FormPartView::Text { name: name@, value: value@ }),
{
    FormPart::Text { name: String::from_str(name), value: String::from_str(value) }
}

/// Adds a text part if there is a value for it.
fn push_optional_text(parts: &mut Vec<FormPart>, name: &str, value: &Option<String>)
    ensures
        parts_view(final(parts)@) == parts_view(old(parts)@) + optional_text(
            name@,
            option_text(*value),
        ),
{
    match value {
        Some(text) => {
            parts.push(text_part(name, text.as_str()));
        },
        None => {},
    }
    assert(parts_view(parts@) =~= parts_view(old(parts)@) + optional_text(
        name@,
        option_text(*value),
    ));
}

/// Adds an image part if there is an image.
fn push_optional_image(parts: &mut Vec<FormPart>, name: &str, fallback: &str, has_image: bool)
    ensures
        parts_view(final(parts)@) == parts_view(old(parts)@) + optional_image(
            name@,
            fallback@,
            has_image,
        ),
{
    if has_image {
        parts.push(
            FormPart::Image { name: String::from_str(name), fallback: String::from_str(fallback) },
        );
    }
    assert(parts_view(parts@) =~= parts_view(old(parts)@) + optional_image(
        name@,
        fallback@,
        has_image,
    ));
}

/// Adds one text part for each tag, named by the tag's position.
fn push_numbered_tags(parts: &mut Vec<FormPart>, tags: &Vec<String>)
    ensures
        parts_view(final(parts)@) == parts_view(old(parts)@) + numbered_tags(texts(tags@)),
{
    let ghost before = parts_view(parts@);
    let ghost all = numbered_tags(texts(tags@));
    let mut i: usize = 0;
    while i < tags.len()
        invariant
            i <= tags@.len(),
            all == numbered_tags(texts(tags@)),
            parts_view(parts@) == before + all.take(i as int),
        decreases tags@.len() - i,
    {
        let mut name = String::from_str("tags-");
        name.append(decimal(i as u128).as_str());
        name.append("-tag");
        assert(name@ =~= tag_field_name(i as nat));
        let ghost so_far = parts@;
        parts.push(FormPart::Text { name, value: tags[i].clone() });
        proof {
            assert(all[i as int] == (FormPartView::Text {
                name: tag_field_name(i as nat),
                value: tags@[i as int]@,
            }));
            assert(parts_view(parts@) =~= parts_view(so_far).push(all[i as int]));
            assert(all.take(i + 1) =~= all.take(i as int).push(all[i as int]));
        }
        i += 1;
    }
    assert(all.take(i as int) =~= all);
}

/// The parts of Mixcloud's upload form.
pub fn mixcloud_form(meta: &UploadMetadata) -> (parts: Vec<FormPart>)
    ensures
        parts_view(parts@) == mixcloud_parts(meta@),
{
    let mut parts: Vec<FormPart> = Vec::new();
    parts.push(FormPart::Audio { name: String::from_str("mp3"), mime: String::from_str("audio/mpeg") });
    parts.push(text_part("name", meta.title.as_str()));
    assert(parts_view(parts@) =~= seq![
        FormPartView::Audio { name: "mp3"@, mime: "audio/mpeg"@ },
        FormPartView::Text { name: "name"@, value: meta@.title },
    ]);
    push_optional_text(&mut parts, "description", &meta.description);
    push_optional_image(&mut parts, "picture", "cover.jpg", meta.has_image);
    match &meta.tags {
        Some(tags) => {
            push_numbered_tags(&mut parts, tags);
        },
        None => {
            assert(parts_view(parts@) + Seq::<FormPartView>::empty() =~= parts_view(parts@));
        },
    }
    push_optional_text(&mut parts, "publish_date", &meta.publish_date);
    parts
}

/// The parts of SoundCloud's upload form.
pub fn soundcloud_form(meta: &UploadMetadata) -> (parts: Vec<FormPart>)
    ensures
        parts_view(parts@) == soundcloud_parts(meta@),
{
    let mut parts: Vec<FormPart> = Vec::new();
    parts.push(
        FormPart::Audio {
            name: String::from_str("track[asset_data]"),
            mime: String::from_str("audio/mpeg"),
        },
    );
    parts.push(text_part("track[title]", meta.title.as_str()));
    assert(parts_view(parts@) =~= seq![
        FormPartView::Audio { name: "track[asset_data]"@, mime: "audio/mpeg"@ },
        FormPartView::Text { name: "track[title]"@, value: meta@.title },
    ]);
    push_optional_text(&mut parts, "track[description]", &meta.description);
    push_optional_image(&mut parts, "track[artwork_data]", "artwork.jpg", meta.has_image);
    let ghost middle = parts_view(parts@);
    match &meta.tags {
        Some(tags) => {
            let list = join(tags, " ");
            parts.push(text_part("track[tag_list]", list.as_str()));
            assert(parts_view(parts@) =~= middle + seq![
                FormPartView::Text { name: "track[tag_list]"@, value: joined(texts(tags@), " "@) },
            ]);
        },
        None => {
            assert(parts_view(parts@) =~= middle + Seq::<FormPartView>::empty());
        },
    }
    let ghost late = parts_view(parts@);
    parts.push(text_part("track[sharing]", "public"));
    assert(parts_view(parts@) =~= late + seq![
        FormPartView::Text { name: "track[sharing]"@, value: "public"@ },
    ]);
    parts
}

/// What has to happen for an upload.
#[derive(Debug, PartialEq, Eq)]
pub enum UploadStep {
    /// Nothing is stored for the platform: authorize, load the storage again
    /// and ask once more.
    Authorize,
    /// The token has to be renewed first: post `params` as a form to
    /// `token_url`, hand the outcome to `complete_refresh`, and make the request
    /// with the access token that it returns.
    Refresh { token_url: String, params: Vec<(String, String)> },
    /// Send this request.
    Send(UploadRequest),
    /// The upload cannot be made.
    Fail(AuthError),
}

/// The mathematical value of an `UploadStep`.
pub enum UploadStepView {
    Authorize,
    Refresh { token_url: Seq<char>, params: Seq<(Seq<char>, Seq<char>)> },
    Send(UploadRequestView),
    Fail(AuthErrorView),
}

impl View for UploadStep {
    type V = UploadStepView;

    open spec fn view(&self) -> UploadStepView {
        match self {
            UploadStep::Authorize => UploadStepView::Authorize,
            UploadStep::Refresh { token_url, params } => UploadStepView::Refresh {
                token_url: token_url@,
                params: pairs_view(params@),
            },
            UploadStep::Send(request) => UploadStepView::Send(request@),
            UploadStep::Fail(e) => UploadStepView::Fail(e@),
        }
    }
}

/// Why an upload failed after it was sent.
#[derive(Debug, PartialEq, Eq)]
pub enum UploadError {
    /// The platform answered with a failure status.
    Rejected { status: u16, body: String },
    /// The platform's answer did not have the expected shape.
    UnreadableAnswer,
}

/// The mathematical value of an `UploadError`.
pub enum UploadErrorView {
    Rejected { status: u16, body: Seq<char> },
    UnreadableAnswer,
}

impl View for UploadError {
    type V = UploadErrorView;

    open spec fn view(&self) -> UploadErrorView {
        match self {
            UploadError::Rejected { status, body } => UploadErrorView::Rejected {
                status: *status,
                body: body@,
            },
            UploadError::UnreadableAnswer => UploadErrorView::UnreadableAnswer,
        }
    }
}

/// Reads the platform's answer to an upload. `parsed` holds the body read as
/// the platform's upload response, if it has that shape.
pub fn read_upload_reply<R>(status: u16, body: String, parsed: Option<R>) -> (r: Result<
    R,
    UploadError,
>)
    ensures
        match r {
            Ok(response) => is_success(status) && parsed == Some(response),
            Err(e) => e@ == (if is_success(status) {
                UploadErrorView::UnreadableAnswer
            } else {
                UploadErrorView::Rejected { status, body: body@ }
            }) && (is_success(status) ==> parsed is None),
        },
{
    if status_is_success(status) {
        match parsed {
            Some(response) => Ok(response),
            None => Err(UploadError::UnreadableAnswer),
        }
    } else {
        Err(UploadError::Rejected { status, body })
    }
}

/// The step that belongs to a token plan, with `request` as the request to
/// send once the token is good.
pub open spec fn step_for(plan: TokenPlanView, request: UploadRequestView) -> UploadStepView {
    match plan {
        TokenPlanView::Authorize => UploadStepView::Authorize,
        TokenPlanView::Use { access_token } => UploadStepView::Send(request),
        TokenPlanView::Refresh { token_url, params } => UploadStepView::Refresh { token_url, params },
        TokenPlanView::Fail(e) => UploadStepView::Fail(e),
    }
}

} // verus!
