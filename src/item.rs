//! Request items: one classified token of the item syntax.
use vstd::prelude::*;
use crate::json::{json_of, parse_json};
use crate::syntax::{occurs_at, split, split_spec, Separator, Split};
use crate::text::{chars_of, string_from};

verus! {

/// One request item, classified by its separator.
#[derive(Debug, Clone, PartialEq)]
pub enum RequestItem {
    HttpHeader(String, String),
    HttpHeaderToUnset(String),
    UrlParam(String, String),
    DataField(String, String),
    DataFieldFromFile(String, String),
    JsonField(String, serde_json::Value),
    JsonFieldFromFile(String, String),
    FormFile { key: String, file_name: String, file_type: Option<String> },
}

/// A request item with its texts as character sequences.
pub enum ItemView {
    HttpHeader(Seq<char>, Seq<char>),
    HttpHeaderToUnset(Seq<char>),
    UrlParam(Seq<char>, Seq<char>),
    DataField(Seq<char>, Seq<char>),
    DataFieldFromFile(Seq<char>, Seq<char>),
    JsonField(Seq<char>, serde_json::Value),
    JsonFieldFromFile(Seq<char>, Seq<char>),
    FormFile { key: Seq<char>, file_name: Seq<char>, file_type: Option<Seq<char>> },
}

pub open spec fn opt_view(o: Option<String>) -> Option<Seq<char>> {
    match o {
        Some(s) => Some(s@),
        None => None,
    }
}

impl View for RequestItem {
    type V = ItemView;

    open spec fn view(&self) -> ItemView {
        match self {
            RequestItem::HttpHeader(k, v) => ItemView::HttpHeader(k@, v@),
            RequestItem::HttpHeaderToUnset(k) => ItemView::HttpHeaderToUnset(k@),
            RequestItem::UrlParam(k, v) => ItemView::UrlParam(k@, v@),
            RequestItem::DataField(k, v) => ItemView::DataField(k@, v@),
            RequestItem::DataFieldFromFile(k, v) => ItemView::DataFieldFromFile(k@, v@),
            RequestItem::JsonField(k, v) => ItemView::JsonField(k@, *v),
            RequestItem::JsonFieldFromFile(k, v) => ItemView::JsonFieldFromFile(k@, v@),
            RequestItem::FormFile { key, file_name, file_type } => ItemView::FormFile {
                key: key@,
                file_name: file_name@,
                file_type: opt_view(*file_type),
            },
        }
    }
}

/// Why a token is not a request item.
#[derive(Debug)]
pub enum ParseError {
    /// no separator, and no trailing unprotected `;`; holds the token
    Syntax(String),
    /// the text after `:=` is not JSON; holds the token and the parser's error
    InvalidJson(String, serde_json::Error),
}

/// The suffix that gives a file upload its media type.
pub open spec fn type_marker() -> Seq<char> {
    seq![';', 't', 'y', 'p', 'e', '=']
}

/// The last index at or below `i` where the media-type suffix starts.
pub open spec fn last_marker_from(v: Seq<char>, i: int) -> Option<int>
    decreases i + 1,
{
    if i < 0 {
        None
    } else if occurs_at(v, i, type_marker()) {
        Some(i)
    } else {
        last_marker_from(v, i - 1)
    }
}

/// The last index where the media-type suffix starts in `v`.
pub open spec fn last_marker(v: Seq<char>) -> Option<int> {
    last_marker_from(v, v.len() as int)
}

/// The file upload that the value after `@` denotes: split at the last
/// media-type suffix, if there is one.
pub open spec fn form_file_spec(key: Seq<char>, v: Seq<char>) -> ItemView {
    match last_marker(v) {
        Some(i) => ItemView::FormFile {
            key,
            file_name: v.subrange(0, i),
            file_type: Some(v.subrange(i + 6, v.len() as int)),
        },
        None => ItemView::FormFile { key, file_name: v, file_type: None },
    }
}

/// The item that key, separator and value (both unescaped) make; `None` for
/// the empty-header form, and no result where the JSON text is not JSON.
pub open spec fn classify(key: Seq<char>, sep: Option<Separator>, v: Seq<char>) -> Option<
    ItemView,
> {
    match sep {
        None => Some(ItemView::HttpHeader(key, Seq::empty())),
        Some(Separator::Param) => Some(ItemView::UrlParam(key, v)),
        Some(Separator::Data) => Some(ItemView::DataField(key, v)),
        Some(Separator::Json) => match json_of(v) {
            Some(j) => Some(ItemView::JsonField(key, j)),
            None => None,
        },
        Some(Separator::File) => Some(form_file_spec(key, v)),
        Some(Separator::Header) => if v.len() == 0 {
            Some(ItemView::HttpHeaderToUnset(key))
        } else {
            Some(ItemView::HttpHeader(key, v))
        },
        Some(Separator::DataFile) => Some(ItemView::DataFieldFromFile(key, v)),
        Some(Separator::JsonFile) => Some(ItemView::JsonFieldFromFile(key, v)),
    }
}

/// Whether the token has a separator or the empty-header form.
pub open spec fn well_formed(s: Seq<char>) -> bool {
    split_spec(s).3
}

/// The item a token denotes, if any.
pub open spec fn parse_spec(s: Seq<char>) -> Option<ItemView> {
    let (k, sep, v, ok) = split_spec(s);
    if ok {
        classify(k, sep, v)
    } else {
        None
    }
}

/// Whether `v[i..]` starts with `t`.
fn occurs_exec(v: &Vec<char>, i: usize, t: &Vec<char>) -> (r: bool)
    requires
        i <= v@.len(),
    ensures
        r == occurs_at(v@, i as int, t@),
{
    if t.len() > v.len() - i {
        return false;
    }
    let mut k: usize = 0;
    while k < t.len()
        invariant
            i + t@.len() <= v@.len() <= usize::MAX,
            k <= t@.len(),
            forall|j: int| 0 <= j < k ==> v@[i + j] == t@[j],
        decreases t@.len() - k,
    {
        if v[i + k] != t[k] {
            assert(v@.subrange(i as int, i + t@.len())[k as int] == v@[i + k]);
            return false;
        }
        k = k + 1;
    }
    assert(v@.subrange(i as int, i + t@.len()) =~= t@);
    true
}

/// The file upload with key `key` and value `value` (text after `@`).
fn form_file(key: String, value: String) -> (r: RequestItem)
    ensures
        r@ == form_file_spec(key@, value@),
{
    let v = chars_of(value.as_str());
    let marker = vec![';', 't', 'y', 'p', 'e', '='];
    assert(marker@ =~= type_marker());
    let n = v.len();
    let mut i: usize = n;
    loop
        invariant
            i <= n == v@.len(),
            marker@ == type_marker(),
            v@ == value@,
            last_marker(v@) == last_marker_from(v@, i as int),
        decreases i,
    {
        if occurs_exec(&v, i, &marker) {
            return RequestItem::FormFile {
                key,
                file_name: string_from(&v, 0, i),
                file_type: Some(string_from(&v, i + 6, n)),
            };
        }
        if i == 0 {
            assert(last_marker_from(v@, -1) is None);
            return RequestItem::FormFile { key, file_name: value, file_type: None };
        }
        i = i - 1;
    }
}

impl RequestItem {
    /// Parses one token of the item syntax.
    pub fn parse(s: &str) -> (r: Result<RequestItem, ParseError>)
        ensures
            match r {
                Ok(item) => parse_spec(s@) == Some(item@),
                Err(ParseError::Syntax(t)) => t@ == s@ && !well_formed(s@),
                Err(ParseError::InvalidJson(t, _)) => t@ == s@ && well_formed(s@) && parse_spec(
                    s@,
                ) is None,
            },
    {
        let chars = chars_of(s);
        match split(&chars) {
            Split::Found(key, sep, value) => match sep {
                Separator::Param => Ok(RequestItem::UrlParam(key, value)),
                Separator::Data => Ok(RequestItem::DataField(key, value)),
                Separator::Json => match parse_json(value.as_str()) {
                    Ok(j) => Ok(RequestItem::JsonField(key, j)),
                    Err(e) => Err(ParseError::InvalidJson(s.to_owned(), e)),
                },
                Separator::File => Ok(form_file(key, value)),
                Separator::Header => if value.as_str().is_empty() {
                    Ok(RequestItem::HttpHeaderToUnset(key))
                } else {
                    Ok(RequestItem::HttpHeader(key, value))
                },
                Separator::DataFile => Ok(RequestItem::DataFieldFromFile(key, value)),
                Separator::JsonFile => Ok(RequestItem::JsonFieldFromFile(key, value)),
            },
            Split::EmptyHeader(key) => Ok(RequestItem::HttpHeader(key, String::new())),
            Split::Invalid => Err(ParseError::Syntax(s.to_owned())),
        }
    }
}

impl std::str::FromStr for RequestItem {
    type Err = ParseError;

    fn from_str(s: &str) -> (r: Result<RequestItem, ParseError>)
        ensures
            match r {
                Ok(item) => parse_spec(s@) == Some(item@),
                Err(ParseError::Syntax(t)) => t@ == s@ && !well_formed(s@),
                Err(ParseError::InvalidJson(t, _)) => t@ == s@ && well_formed(s@) && parse_spec(
                    s@,
                ) is None,
            },
    {
        RequestItem::parse(s)
    }
}

} // verus!
