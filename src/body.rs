//! The request item collection and the assembly of its items into one body.
use vstd::prelude::*;
use crate::item::{ItemView, RequestItem, opt_view};
use crate::header::{header_value, header_value_ok};
use crate::media::{guess_type, guessed_type};
use crate::json::{
    json_entries, json_map_insert, json_map_is_empty, json_map_new, json_of, json_string,
    json_string_of, no_entries, parse_json,
};

verus! {

/// Media type of a form body.
pub const FORM_CONTENT_TYPE: &'static str = "application/x-www-form-urlencoded";

/// Media type of a JSON body.
pub const JSON_CONTENT_TYPE: &'static str = "application/json";

/// What a client that sends JSON accepts back.
pub const JSON_ACCEPT: &'static str = "application/json, */*;q=0.5";

/// How the surrounding client wants the data fields sent.
#[derive(Clone, Copy, Debug, PartialEq, Eq, Structural)]
pub enum RequestType {
    Json,
    Form,
    Multipart,
}

/// The HTTP method a request body calls for.
#[derive(Clone, Copy, Debug, PartialEq, Eq, Structural)]
pub enum Method {
    Get,
    Post,
}

/// The items of one request, in the order they were given.
pub struct RequestItems(pub Vec<RequestItem>);

/// One part of a multipart body.
#[derive(Debug, Clone, PartialEq)]
pub enum Part {
    /// a text field: name and value
    Text(String, String),
    /// a file to stream: part name, path and declared media type
    File { name: String, file_name: String, file_type: Option<String> },
}

/// The body of a request.
#[derive(Debug, PartialEq)]
pub enum Body {
    Json(serde_json::Map<String, serde_json::Value>),
    Form(Vec<(String, String)>),
    Multipart(Vec<Part>),
    Raw(Vec<u8>),
    /// the whole body streamed from a file, with its media type if known
    File { file_name: String, file_type: Option<String> },
}

/// Why the items cannot make a body.
#[derive(Debug)]
pub enum BodyError {
    /// a JSON field in a form body
    JsonInForm,
    /// a JSON field in a multipart body
    JsonInMultipart,
    /// a file field with a key in JSON mode
    FileFieldInJson,
    /// a whole-body file together with data fields
    MixedBodyFile,
    /// more than one whole-body file
    MultipleBodyFiles,
    /// a file could not be read: its path and the reason
    Read(String, String),
    /// a file's contents are not JSON: its path, the contents and the
    /// parser's error
    InvalidJsonFile(String, String, serde_json::Error),
    /// a media type that cannot stand in a header
    InvalidFileType(String),
}

pub enum PartView {
    Text(Seq<char>, Seq<char>),
    File { name: Seq<char>, file_name: Seq<char>, file_type: Option<Seq<char>> },
}

pub enum BodyView {
    Json(Map<Seq<char>, serde_json::Value>),
    Form(Seq<(Seq<char>, Seq<char>)>),
    Multipart(Seq<PartView>),
    Raw(Seq<u8>),
    File(Seq<char>, Option<Seq<char>>),
}

pub enum BodyErrorView {
    JsonInForm,
    JsonInMultipart,
    FileFieldInJson,
    MixedBodyFile,
    MultipleBodyFiles,
    Read(Seq<char>, Seq<char>),
    InvalidJsonFile(Seq<char>, Seq<char>),
    InvalidFileType(Seq<char>),
}

impl View for Part {
    type V = PartView;

    open spec fn view(&self) -> PartView {
        match self {
            Part::Text(k, v) => PartView::Text(k@, v@),
            Part::File { name, file_name, file_type } => PartView::File {
                name: name@,
                file_name: file_name@,
                file_type: opt_view(*file_type),
            },
        }
    }
}

pub open spec fn pairs_view(v: Seq<(String, String)>) -> Seq<(Seq<char>, Seq<char>)> {
    v.map_values(|p: (String, String)| (p.0@, p.1@))
}

pub open spec fn parts_view(v: Seq<Part>) -> Seq<PartView> {
    v.map_values(|p: Part| p@)
}

impl View for Body {
    type V = BodyView;

    open spec fn view(&self) -> BodyView {
        match self {
            Body::Json(m) => BodyView::Json(json_entries(*m)),
            Body::Form(v) => BodyView::Form(pairs_view(v@)),
            Body::Multipart(v) => BodyView::Multipart(parts_view(v@)),
            Body::Raw(v) => BodyView::Raw(v@),
            Body::File { file_name, file_type } => BodyView::File(
                file_name@,
                opt_view(*file_type),
            ),
        }
    }
}

impl View for BodyError {
    type V = BodyErrorView;

    open spec fn view(&self) -> BodyErrorView {
        match self {
            BodyError::JsonInForm => BodyErrorView::JsonInForm,
            BodyError::JsonInMultipart => BodyErrorView::JsonInMultipart,
            BodyError::FileFieldInJson => BodyErrorView::FileFieldInJson,
            BodyError::MixedBodyFile => BodyErrorView::MixedBodyFile,
            BodyError::MultipleBodyFiles => BodyErrorView::MultipleBodyFiles,
            BodyError::Read(p, r) => BodyErrorView::Read(p@, r@),
            BodyError::InvalidJsonFile(p, t, _) => BodyErrorView::InvalidJsonFile(p@, t@),
            BodyError::InvalidFileType(t) => BodyErrorView::InvalidFileType(t@),
        }
    }
}

pub open spec fn result_view(r: Result<Body, BodyError>) -> Result<BodyView, BodyErrorView> {
    match r {
        Ok(b) => Ok(b@),
        Err(e) => Err(e@),
    }
}

/// What reading a file gave: its text, or why it could not be read.
pub open spec fn text_view(t: Result<String, String>) -> Result<Seq<char>, Seq<char>> {
    match t {
        Ok(s) => Ok(s@),
        Err(e) => Err(e@),
    }
}

pub open spec fn items_view(items: Seq<RequestItem>) -> Seq<ItemView> {
    items.map_values(|x: RequestItem| x@)
}

pub open spec fn texts_view(texts: Seq<Result<String, String>>) -> Seq<Result<Seq<char>, Seq<char>>> {
    texts.map_values(|t: Result<String, String>| text_view(t))
}

pub open spec fn found_view(f: Option<(String, Option<String>)>) -> Option<(Seq<char>, Option<Seq<char>>)> {
    match f {
        Some((n, t)) => Some((n@, opt_view(t))),
        None => None,
    }
}

pub open spec fn is_form_file(item: ItemView) -> bool {
    item is FormFile
}

pub open spec fn has_form_files_spec(items: Seq<ItemView>) -> bool {
    exists|i: int| 0 <= i < items.len() && is_form_file(#[trigger] items[i])
}

/// A JSON body so far, and one more item (with what reading its file gave).
pub open spec fn json_step(
    acc: Map<Seq<char>, serde_json::Value>,
    item: ItemView,
    text: Result<Seq<char>, Seq<char>>,
) -> Result<Map<Seq<char>, serde_json::Value>, BodyErrorView> {
    match item {
        ItemView::JsonField(k, v) => Ok(acc.insert(k, v)),
        ItemView::JsonFieldFromFile(k, p) => match text {
            Err(r) => Err(BodyErrorView::Read(p, r)),
            Ok(t) => match json_of(t) {
                Some(v) => Ok(acc.insert(k, v)),
                None => Err(BodyErrorView::InvalidJsonFile(p, t)),
            },
        },
        ItemView::DataField(k, v) => Ok(acc.insert(k, json_string_of(v))),
        ItemView::DataFieldFromFile(k, p) => match text {
            Err(r) => Err(BodyErrorView::Read(p, r)),
            Ok(t) => Ok(acc.insert(k, json_string_of(t))),
        },
        _ => Ok(acc),
    }
}

pub open spec fn json_from(
    items: Seq<ItemView>,
    texts: Seq<Result<Seq<char>, Seq<char>>>,
    i: int,
    acc: Map<Seq<char>, serde_json::Value>,
) -> Result<Map<Seq<char>, serde_json::Value>, BodyErrorView>
    decreases items.len() - i,
{
    if i < 0 || i >= items.len() {
        Ok(acc)
    } else {
        match json_step(acc, items[i], texts[i]) {
            Err(e) => Err(e),
            Ok(next) => json_from(items, texts, i + 1, next),
        }
    }
}

/// A form body so far, and one more item.
pub open spec fn form_step(
    acc: Seq<(Seq<char>, Seq<char>)>,
    item: ItemView,
    text: Result<Seq<char>, Seq<char>>,
) -> Result<Seq<(Seq<char>, Seq<char>)>, BodyErrorView> {
    match item {
        ItemView::JsonField(..) => Err(BodyErrorView::JsonInForm),
        ItemView::JsonFieldFromFile(..) => Err(BodyErrorView::JsonInForm),
        ItemView::DataField(k, v) => Ok(acc.push((k, v))),
        ItemView::DataFieldFromFile(k, p) => match text {
            Err(r) => Err(BodyErrorView::Read(p, r)),
            Ok(t) => Ok(acc.push((k, t))),
        },
        _ => Ok(acc),
    }
}

pub open spec fn form_from(
    items: Seq<ItemView>,
    texts: Seq<Result<Seq<char>, Seq<char>>>,
    i: int,
    acc: Seq<(Seq<char>, Seq<char>)>,
) -> Result<Seq<(Seq<char>, Seq<char>)>, BodyErrorView>
    decreases items.len() - i,
{
    if i < 0 || i >= items.len() {
        Ok(acc)
    } else {
        match form_step(acc, items[i], texts[i]) {
            Err(e) => Err(e),
            Ok(next) => form_from(items, texts, i + 1, next),
        }
    }
}

/// A multipart body so far, and one more item.
pub open spec fn multipart_step(
    acc: Seq<PartView>,
    item: ItemView,
    text: Result<Seq<char>, Seq<char>>,
) -> Result<Seq<PartView>, BodyErrorView> {
    match item {
        ItemView::JsonField(..) => Err(BodyErrorView::JsonInMultipart),
        ItemView::JsonFieldFromFile(..) => Err(BodyErrorView::JsonInMultipart),
        ItemView::DataField(k, v) => Ok(acc.push(PartView::Text(k, v))),
        ItemView::DataFieldFromFile(k, p) => match text {
            Err(r) => Err(BodyErrorView::Read(p, r)),
            Ok(t) => Ok(acc.push(PartView::Text(k, t))),
        },
        ItemView::FormFile { key, file_name, file_type } => Ok(
            acc.push(PartView::File { name: key, file_name, file_type }),
        ),
        _ => Ok(acc),
    }
}

pub open spec fn multipart_from(
    items: Seq<ItemView>,
    texts: Seq<Result<Seq<char>, Seq<char>>>,
    i: int,
    acc: Seq<PartView>,
) -> Result<Seq<PartView>, BodyErrorView>
    decreases items.len() - i,
{
    if i < 0 || i >= items.len() {
        Ok(acc)
    } else {
        match multipart_step(acc, items[i], texts[i]) {
            Err(e) => Err(e),
            Ok(next) => multipart_from(items, texts, i + 1, next),
        }
    }
}

/// A file field that names a form part rather than the whole body.
pub open spec fn is_keyed_file(item: ItemView) -> bool {
    match item {
        ItemView::FormFile { key, .. } => key.len() > 0,
        _ => false,
    }
}

pub open spec fn has_keyed_file(items: Seq<ItemView>) -> bool {
    exists|i: int| 0 <= i < items.len() && is_keyed_file(#[trigger] items[i])
}

/// The media type of a whole-body file: the declared one, else the one its
/// extension suggests.
pub open spec fn resolved_type(file_name: Seq<char>, declared: Option<Seq<char>>) -> Option<
    Seq<char>,
> {
    match declared {
        Some(t) => Some(t),
        None => guessed_type(file_name),
    }
}

/// The whole-body file found so far, and one more item.
pub open spec fn file_step(acc: Option<(Seq<char>, Option<Seq<char>>)>, item: ItemView) -> Result<
    Option<(Seq<char>, Option<Seq<char>>)>,
    BodyErrorView,
> {
    match item {
        ItemView::DataField(..) => Err(BodyErrorView::MixedBodyFile),
        ItemView::DataFieldFromFile(..) => Err(BodyErrorView::MixedBodyFile),
        ItemView::JsonField(..) => Err(BodyErrorView::MixedBodyFile),
        ItemView::JsonFieldFromFile(..) => Err(BodyErrorView::MixedBodyFile),
        ItemView::FormFile { file_name, file_type, .. } => if acc is Some {
            Err(BodyErrorView::MultipleBodyFiles)
        } else {
            match resolved_type(file_name, file_type) {
                Some(t) => if header_value_ok(t) {
                    Ok(Some((file_name, Some(t))))
                } else {
                    Err(BodyErrorView::InvalidFileType(t))
                },
                None => Ok(Some((file_name, None))),
            }
        },
        _ => Ok(acc),
    }
}

pub open spec fn file_from(items: Seq<ItemView>, i: int, acc: Option<(Seq<char>, Option<Seq<char>>)>) -> Result<
    Option<(Seq<char>, Option<Seq<char>>)>,
    BodyErrorView,
>
    decreases items.len() - i,
{
    if i < 0 || i >= items.len() {
        Ok(acc)
    } else {
        match file_step(acc, items[i]) {
            Err(e) => Err(e),
            Ok(next) => file_from(items, i + 1, next),
        }
    }
}

/// The body that a file field with an empty key makes: the whole body is
/// that file.
pub open spec fn file_body_spec(items: Seq<ItemView>) -> Result<BodyView, BodyErrorView> {
    if has_keyed_file(items) {
        Err(BodyErrorView::FileFieldInJson)
    } else {
        match file_from(items, 0, None) {
            Ok(found) => Ok(BodyView::File(found->Some_0.0, found->Some_0.1)),
            Err(e) => Err(e),
        }
    }
}

pub open spec fn json_body_spec(items: Seq<ItemView>, texts: Seq<Result<Seq<char>, Seq<char>>>) -> Result<
    BodyView,
    BodyErrorView,
> {
    match json_from(items, texts, 0, no_entries()) {
        Ok(m) => Ok(BodyView::Json(m)),
        Err(e) => Err(e),
    }
}

pub open spec fn form_body_spec(items: Seq<ItemView>, texts: Seq<Result<Seq<char>, Seq<char>>>) -> Result<
    BodyView,
    BodyErrorView,
> {
    match form_from(items, texts, 0, Seq::empty()) {
        Ok(v) => Ok(BodyView::Form(v)),
        Err(e) => Err(e),
    }
}

pub open spec fn multipart_body_spec(
    items: Seq<ItemView>,
    texts: Seq<Result<Seq<char>, Seq<char>>>,
) -> Result<BodyView, BodyErrorView> {
    match multipart_from(items, texts, 0, Seq::empty()) {
        Ok(v) => Ok(BodyView::Multipart(v)),
        Err(e) => Err(e),
    }
}

/// The body that items make in a request type, given what reading each
/// item's file gave.
pub open spec fn body_spec(
    items: Seq<ItemView>,
    request_type: RequestType,
    texts: Seq<Result<Seq<char>, Seq<char>>>,
) -> Result<BodyView, BodyErrorView> {
    match request_type {
        RequestType::Multipart => multipart_body_spec(items, texts),
        RequestType::Form => if has_form_files_spec(items) {
            multipart_body_spec(items, texts)
        } else {
            form_body_spec(items, texts)
        },
        RequestType::Json => if has_form_files_spec(items) {
            file_body_spec(items)
        } else {
            json_body_spec(items, texts)
        },
    }
}

pub open spec fn is_multipart_spec(items: Seq<ItemView>, request_type: RequestType) -> bool {
    match request_type {
        RequestType::Multipart => true,
        RequestType::Form => has_form_files_spec(items),
        RequestType::Json => false,
    }
}

/// An item that goes into the body.
pub open spec fn carries_data(item: ItemView) -> bool {
    !(item is HttpHeader || item is HttpHeaderToUnset || item is UrlParam)
}

pub open spec fn pick_method_spec(items: Seq<ItemView>, request_type: RequestType) -> Method {
    if request_type == RequestType::Multipart || exists|i: int|
        0 <= i < items.len() && carries_data(#[trigger] items[i]) {
        Method::Post
    } else {
        Method::Get
    }
}

pub open spec fn body_is_empty(b: BodyView) -> bool {
    match b {
        BodyView::Json(m) => m == no_entries(),
        BodyView::Form(v) => v.len() == 0,
        BodyView::Raw(v) => v.len() == 0,
        BodyView::Multipart(..) => false,
        BodyView::File(..) => false,
    }
}

/// The query parameters, in order.
pub open spec fn query_spec(items: Seq<ItemView>) -> Seq<(Seq<char>, Seq<char>)>
    decreases items.len(),
{
    if items.len() == 0 {
        Seq::empty()
    } else {
        let rest = query_spec(items.drop_last());
        match items.last() {
            ItemView::UrlParam(k, v) => rest.push((k, v)),
            _ => rest,
        }
    }
}

impl Body {
    pub fn is_empty(&self) -> (r: bool)
        ensures
            r == body_is_empty(self@),
    {
        match self {
            Body::Json(map) => json_map_is_empty(map),
            Body::Form(items) => items.len() == 0,
            Body::Raw(data) => data.len() == 0,
            // A multipart body must match the boundary in its header, and a
            // whole-file body is streamed: neither is ever "nothing to send".
            Body::Multipart(..) => false,
            Body::File { .. } => false,
        }
    }

    pub fn pick_method(&self) -> (r: Method)
        ensures
            r == (if body_is_empty(self@) { Method::Get } else { Method::Post }),
    {
        if self.is_empty() {
            Method::Get
        } else {
            Method::Post
        }
    }

    pub fn is_multipart(&self) -> (r: bool)
        ensures
            r == (self@ is Multipart),
    {
        matches!(self, Body::Multipart(..))
    }
}

impl RequestItems {
    pub fn new(request_items: Vec<RequestItem>) -> (r: RequestItems)
        ensures
            r.0 == request_items,
    {
        RequestItems(request_items)
    }

    /// Whether any item is a file upload.
    pub fn has_form_files(&self) -> (r: bool)
        ensures
            r == has_form_files_spec(items_view(self.0@)),
    {
        let mut i: usize = 0;
        while i < self.0.len()
            invariant
                i <= self.0@.len(),
                forall|j: int| 0 <= j < i ==> !is_form_file(#[trigger] items_view(self.0@)[j]),
            decreases self.0@.len() - i,
        {
            if let RequestItem::FormFile { .. } = &self.0[i] {
                assert(is_form_file(items_view(self.0@)[i as int]));
                return true;
            }
            i = i + 1;
        }
        false
    }

    fn body_as_json(&self, texts: &Vec<Result<String, String>>) -> (r: Result<Body, BodyError>)
        requires
            texts@.len() == self.0@.len(),
            !has_form_files_spec(items_view(self.0@)),
        ensures
            result_view(r) == match json_from(items_view(self.0@), texts_view(texts@), 0, no_entries()) {
                Ok(m) => Ok(BodyView::Json(m)),
                Err(e) => Err(e),
            },
    {
        let mut body = json_map_new();
        let mut i: usize = 0;
        while i < self.0.len()
            invariant
                i <= self.0@.len() == texts@.len(),
                !has_form_files_spec(items_view(self.0@)),
                json_from(items_view(self.0@), texts_view(texts@), 0, no_entries()) == json_from(
                    items_view(self.0@),
                    texts_view(texts@),
                    i as int,
                    json_entries(body),
                ),
            decreases self.0@.len() - i,
        {
            let ghost before = json_entries(body);
            match &self.0[i] {
                RequestItem::JsonField(key, value) => {
                    json_map_insert(&mut body, key.clone(), value.clone());
                },
                RequestItem::JsonFieldFromFile(key, path) => match &texts[i] {
                    Ok(text) => match parse_json(text.as_str()) {
                        Ok(value) => {
                            json_map_insert(&mut body, key.clone(), value);
                        },
                        Err(e) => {
                            return Err(BodyError::InvalidJsonFile(path.clone(), text.clone(), e));
                        },
                    },
                    Err(reason) => {
                        return Err(BodyError::Read(path.clone(), reason.clone()));
                    },
                },
                RequestItem::DataField(key, value) => {
                    json_map_insert(&mut body, key.clone(), json_string(value.clone()));
                },
                RequestItem::DataFieldFromFile(key, path) => match &texts[i] {
                    Ok(text) => {
                        json_map_insert(&mut body, key.clone(), json_string(text.clone()));
                    },
                    Err(reason) => {
                        return Err(BodyError::Read(path.clone(), reason.clone()));
                    },
                },
                RequestItem::FormFile { .. } => {
                    // JSON bodies are only built from items without files.
                    assert(is_form_file(items_view(self.0@)[i as int]));
                    assert(false);
                },
                RequestItem::HttpHeader(..) => {},
                RequestItem::HttpHeaderToUnset(..) => {},
                RequestItem::UrlParam(..) => {},
            }
            i = i + 1;
        }
        Ok(Body::Json(body))
    }

    fn body_as_form(&self, texts: &Vec<Result<String, String>>) -> (r: Result<Body, BodyError>)
        requires
            texts@.len() == self.0@.len(),
        ensures
            result_view(r) == match form_from(items_view(self.0@), texts_view(texts@), 0, Seq::empty()) {
                Ok(v) => Ok(BodyView::Form(v)),
                Err(e) => Err(e),
            },
    {
        let mut fields: Vec<(String, String)> = Vec::new();
        assert(pairs_view(fields@) =~= Seq::empty());
        let mut i: usize = 0;
        while i < self.0.len()
            invariant
                i <= self.0@.len() == texts@.len(),
                form_from(items_view(self.0@), texts_view(texts@), 0, Seq::empty()) == form_from(
                    items_view(self.0@),
                    texts_view(texts@),
                    i as int,
                    pairs_view(fields@),
                ),
            decreases self.0@.len() - i,
        {
            let ghost before = fields@;
            match &self.0[i] {
                RequestItem::JsonField(..) => {
                    return Err(BodyError::JsonInForm);
                },
                RequestItem::JsonFieldFromFile(..) => {
                    return Err(BodyError::JsonInForm);
                },
                RequestItem::DataField(key, value) => {
                    fields.push((key.clone(), value.clone()));
                    assert(pairs_view(fields@) =~= pairs_view(before).push((key@, value@)));
                },
                RequestItem::DataFieldFromFile(key, path) => match &texts[i] {
                    Ok(text) => {
                        fields.push((key.clone(), text.clone()));
                        assert(pairs_view(fields@) =~= pairs_view(before).push((key@, text@)));
                    },
                    Err(reason) => {
                        return Err(BodyError::Read(path.clone(), reason.clone()));
                    },
                },
                _ => {},
            }
            i = i + 1;
        }
        Ok(Body::Form(fields))
    }

    fn body_as_multipart(&self, texts: &Vec<Result<String, String>>) -> (r: Result<
        Body,
        BodyError,
    >)
        requires
            texts@.len() == self.0@.len(),
        ensures
            result_view(r) == match multipart_from(items_view(self.0@), texts_view(texts@), 0, Seq::empty()) {
                Ok(v) => Ok(BodyView::Multipart(v)),
                Err(e) => Err(e),
            },
    {
        let mut parts: Vec<Part> = Vec::new();
        assert(parts_view(parts@) =~= Seq::empty());
        let mut i: usize = 0;
        while i < self.0.len()
            invariant
                i <= self.0@.len() == texts@.len(),
                multipart_from(items_view(self.0@), texts_view(texts@), 0, Seq::empty()) == multipart_from(
                    items_view(self.0@),
                    texts_view(texts@),
                    i as int,
                    parts_view(parts@),
                ),
            decreases self.0@.len() - i,
        {
            let ghost before = parts@;
            match &self.0[i] {
                RequestItem::JsonField(..) => {
                    return Err(BodyError::JsonInMultipart);
                },
                RequestItem::JsonFieldFromFile(..) => {
                    return Err(BodyError::JsonInMultipart);
                },
                RequestItem::DataField(key, value) => {
                    let part = Part::Text(key.clone(), value.clone());
                    parts.push(part);
                    assert(parts_view(parts@) =~= parts_view(before).push(part@));
                },
                RequestItem::DataFieldFromFile(key, path) => match &texts[i] {
                    Ok(text) => {
                        let part = Part::Text(key.clone(), text.clone());
                        parts.push(part);
                        assert(parts_view(parts@) =~= parts_view(before).push(part@));
                    },
                    Err(reason) => {
                        return Err(BodyError::Read(path.clone(), reason.clone()));
                    },
                },
                RequestItem::FormFile { key, file_name, file_type } => {
                    let t = match file_type {
                        Some(t) => Some(t.clone()),
                        None => None,
                    };
                    let part = Part::File { name: key.clone(), file_name: file_name.clone(), file_type: t };
                    parts.push(part);
                    assert(parts_view(parts@) =~= parts_view(before).push(part@));
                },
                _ => {},
            }
            i = i + 1;
        }
        Ok(Body::Multipart(parts))
    }
}

impl RequestItems {
    fn body_from_file(&self) -> (r: Result<Body, BodyError>)
        requires
            has_form_files_spec(items_view(self.0@)),
        ensures
            result_view(r) == file_body_spec(items_view(self.0@)),
    {
        let ghost items = items_view(self.0@);
        let mut i: usize = 0;
        while i < self.0.len()
            invariant
                items == items_view(self.0@),
                i <= self.0@.len(),
                forall|j: int| 0 <= j < i ==> !is_keyed_file(#[trigger] items[j]),
            decreases self.0@.len() - i,
        {
            if let RequestItem::FormFile { key, .. } = &self.0[i] {
                if !key.as_str().is_empty() {
                    assert(is_keyed_file(items[i as int]));
                    return Err(BodyError::FileFieldInJson);
                }
            }
            i = i + 1;
        }
        let mut found: Option<(String, Option<String>)> = None;
        let mut i: usize = 0;
        while i < self.0.len()
            invariant
                items == items_view(self.0@),
                i <= self.0@.len(),
                !has_keyed_file(items),
                has_form_files_spec(items),
                file_from(items, 0, None) == file_from(items, i as int, found_view(found)),
                (exists|j: int| 0 <= j < i && is_form_file(#[trigger] items[j])) ==> found is Some,
            decreases self.0@.len() - i,
        {
            match &self.0[i] {
                RequestItem::DataField(..) | RequestItem::JsonField(..)
                | RequestItem::DataFieldFromFile(..) | RequestItem::JsonFieldFromFile(..) => {
                    return Err(BodyError::MixedBodyFile);
                },
                RequestItem::FormFile { file_name, file_type, .. } => {
                    if found.is_some() {
                        return Err(BodyError::MultipleBodyFiles);
                    }
                    let t = match file_type {
                        Some(t) => Some(t.clone()),
                        None => guess_type(file_name.as_str()),
                    };
                    match t {
                        Some(t) => {
                            if header_value(t.as_str()).is_err() {
                                return Err(BodyError::InvalidFileType(t));
                            }
                            found = Some((file_name.clone(), Some(t)));
                        },
                        None => {
                            found = Some((file_name.clone(), None));
                        },
                    }
                    assert(is_form_file(items[i as int]));
                },
                _ => {},
            }
            i = i + 1;
        }
        match found {
            Some((file_name, file_type)) => Ok(Body::File { file_name, file_type }),
            None => {
                assert(false);
                Err(BodyError::MultipleBodyFiles)
            },
        }
    }

    /// Assembles the body; `texts[i]` is what reading the file of item `i`
    /// gave, where that item takes its value from a file (other entries are
    /// not looked at).
    pub fn body(self, request_type: RequestType, texts: &Vec<Result<String, String>>) -> (r: Result<
        Body,
        BodyError,
    >)
        requires
            texts@.len() == self.0@.len(),
        ensures
            result_view(r) == body_spec(items_view(self.0@), request_type, texts_view(texts@)),
    {
        match request_type {
            RequestType::Multipart => self.body_as_multipart(texts),
            RequestType::Form => if self.has_form_files() {
                self.body_as_multipart(texts)
            } else {
                self.body_as_form(texts)
            },
            RequestType::Json => if self.has_form_files() {
                self.body_from_file()
            } else {
                self.body_as_json(texts)
            },
        }
    }

    /// Whether `body` would make a multipart body.
    pub fn is_multipart(&self, request_type: RequestType) -> (r: bool)
        ensures
            r == is_multipart_spec(items_view(self.0@), request_type),
    {
        match request_type {
            RequestType::Multipart => true,
            RequestType::Form => self.has_form_files(),
            RequestType::Json => false,
        }
    }

    /// The method that fits the body these items make, without making it.
    pub fn pick_method(&self, request_type: RequestType) -> (r: Method)
        ensures
            r == pick_method_spec(items_view(self.0@), request_type),
    {
        if let RequestType::Multipart = request_type {
            return Method::Post;
        }
        let ghost items = items_view(self.0@);
        let mut i: usize = 0;
        while i < self.0.len()
            invariant
                items == items_view(self.0@),
                i <= self.0@.len(),
                forall|j: int| 0 <= j < i ==> !carries_data(#[trigger] items[j]),
            decreases self.0@.len() - i,
        {
            match &self.0[i] {
                RequestItem::HttpHeader(..) | RequestItem::HttpHeaderToUnset(..)
                | RequestItem::UrlParam(..) => {},
                _ => {
                    assert(carries_data(items[i as int]));
                    return Method::Post;
                },
            }
            i = i + 1;
        }
        Method::Get
    }

    /// The query parameters, in the order given.
    pub fn query(&self) -> (r: Vec<(&str, &str)>)
        ensures
            r@.map_values(|p: (&str, &str)| (p.0@, p.1@)) == query_spec(items_view(self.0@)),
    {
        let ghost items = items_view(self.0@);
        let mut query: Vec<(&str, &str)> = Vec::new();
        let mut i: usize = 0;
        while i < self.0.len()
            invariant
                items == items_view(self.0@),
                i <= self.0@.len(),
                query@.map_values(|p: (&str, &str)| (p.0@, p.1@)) == query_spec(items.subrange(0, i as int)),
            decreases self.0@.len() - i,
        {
            let ghost before = query@;
            assert(items.subrange(0, i + 1).drop_last() =~= items.subrange(0, i as int));
            if let RequestItem::UrlParam(key, value) = &self.0[i] {
                query.push((key.as_str(), value.as_str()));
                assert(query@.map_values(|p: (&str, &str)| (p.0@, p.1@)) =~= before.map_values(
                    |p: (&str, &str)| (p.0@, p.1@),
                ).push((key@, value@)));
            }
            i = i + 1;
        }
        assert(items.subrange(0, self.0@.len() as int) =~= items);
        query
    }
}

} // verus!
