//! Laws that relate the parser's and the assembler's contracts.
use vstd::prelude::*;
use crate::body::{
    body_spec, has_keyed_file, is_keyed_file, multipart_from, BodyErrorView, BodyView,
    PartView, items_view, result_view, texts_view, Body, BodyError, RequestItems, RequestType};
use crate::item::{parse_spec, ItemView};
use crate::syntax::{ends_with_open_semicolon, find_sep, unescape_spec};

verus! {

/// A token with no separator that ends in a `;` no backslash protects is a
/// header with an empty value, named by the unescaped text before the `;`.
pub proof fn lemma_trailing_semicolon_is_empty_header(s: Seq<char>)
    requires
        find_sep(s, 0) is None,
        ends_with_open_semicolon(s),
    ensures
        parse_spec(s) == Some(
            ItemView::HttpHeader(unescape_spec(s.subrange(0, s.len() - 1)), Seq::<char>::empty()),
        ),
{
}

/// Assembling two collections whose items are equal, in one request type and
/// with equal file contents, gives equal bodies or equal errors.
pub proof fn lemma_body_deterministic(
    a: RequestItems,
    b: RequestItems,
    request_type: RequestType,
    texts_a: Seq<Result<String, String>>,
    texts_b: Seq<Result<String, String>>,
    ra: Result<Body, BodyError>,
    rb: Result<Body, BodyError>,
)
    requires
        items_view(a.0@) == items_view(b.0@),
        texts_view(texts_a) == texts_view(texts_b),
        result_view(ra) == body_spec(items_view(a.0@), request_type, texts_view(texts_a)),
        result_view(rb) == body_spec(items_view(b.0@), request_type, texts_view(texts_b)),
    ensures
        result_view(ra) == result_view(rb),
{
}

/// A data field and a keyed file field: in JSON mode the file field is
/// refused; in multipart mode they make one text part and one file part.
pub proof fn lemma_field_and_file(
    items: Seq<ItemView>,
    texts: Seq<Result<Seq<char>, Seq<char>>>,
)
    requires
        items.len() == 2,
        texts.len() == 2,
        items[0] is DataField,
        items[1] is FormFile,
        is_keyed_file(items[1]),
    ensures
        body_spec(items, RequestType::Json, texts) == Err::<BodyView, BodyErrorView>(
            BodyErrorView::FileFieldInJson,
        ),
        body_spec(items, RequestType::Multipart, texts) == Ok::<BodyView, BodyErrorView>(
            BodyView::Multipart(
                seq![
                    PartView::Text(items[0]->DataField_0, items[0]->DataField_1),
                    PartView::File {
                        name: items[1]->key,
                        file_name: items[1]->file_name,
                        file_type: items[1]->file_type,
                    },
                ],
            ),
        ),
{
    assert(has_keyed_file(items));
    assert(crate::body::is_form_file(items[1]));
    reveal_with_fuel(multipart_from, 3);
    let text_part = PartView::Text(items[0]->DataField_0, items[0]->DataField_1);
    let file_part = PartView::File {
        name: items[1]->key,
        file_name: items[1]->file_name,
        file_type: items[1]->file_type,
    };
    let e = Seq::<PartView>::empty();
    assert(multipart_from(items, texts, 2, e.push(text_part).push(file_part)) == Ok::<Seq<PartView>, BodyErrorView>(e.push(text_part).push(file_part)));
    assert(multipart_from(items, texts, 1, e.push(text_part)) == multipart_from(items, texts, 2, e.push(text_part).push(file_part)));
    assert(multipart_from(items, texts, 0, e) == multipart_from(items, texts, 1, e.push(text_part)));
    assert(e.push(text_part).push(file_part) =~= seq![text_part, file_part]);
}

} // verus!
