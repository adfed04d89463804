//! The headers that request items set or remove.
use vstd::prelude::*;
use reqwest::header::{HeaderMap, HeaderName, HeaderValue};
use crate::body::{items_view, RequestItems};
use crate::header::{
    header_entries, header_map_new, header_map_try_insert, header_name, header_name_of,
    header_value, header_value_of, header_value_ok, no_headers,
};
use crate::item::{ItemView, RequestItem};

verus! {

/// A header item that the transport refuses.
#[derive(Debug, Clone, PartialEq)]
pub enum HeaderError {
    /// the name is not a valid header name
    InvalidName(String),
    /// the value is not a valid header value
    InvalidValue(String),
    /// the header map could not grow to take one more name
    TooManyHeaders,
}

pub enum HeaderErrorView {
    InvalidName(Seq<char>),
    InvalidValue(Seq<char>),
    TooManyHeaders,
}

impl View for HeaderError {
    type V = HeaderErrorView;

    open spec fn view(&self) -> HeaderErrorView {
        match self {
            HeaderError::InvalidName(n) => HeaderErrorView::InvalidName(n@),
            HeaderError::InvalidValue(v) => HeaderErrorView::InvalidValue(v@),
            HeaderError::TooManyHeaders => HeaderErrorView::TooManyHeaders,
        }
    }
}

/// Headers to set and names to remove, so far.
pub type HeadersView = (Map<HeaderName, HeaderValue>, Seq<HeaderName>);

/// The headers so far, and one more item.
pub open spec fn header_step(acc: HeadersView, item: ItemView) -> Result<HeadersView, HeaderErrorView> {
    match item {
        ItemView::HttpHeader(k, v) => match header_name_of(k) {
            None => Err(HeaderErrorView::InvalidName(k)),
            Some(n) => if header_value_ok(v) {
                Ok((acc.0.insert(n, header_value_of(v)), acc.1))
            } else {
                Err(HeaderErrorView::InvalidValue(v))
            },
        },
        ItemView::HttpHeaderToUnset(k) => match header_name_of(k) {
            None => Err(HeaderErrorView::InvalidName(k)),
            Some(n) => Ok((acc.0, acc.1.push(n))),
        },
        _ => Ok(acc),
    }
}

/// The headers that the first `n` items make.
pub open spec fn headers_upto(items: Seq<ItemView>, n: int) -> Result<HeadersView, HeaderErrorView>
    decreases n,
{
    if n <= 0 {
        Ok((no_headers(), Seq::empty()))
    } else {
        match headers_upto(items, n - 1) {
            Err(e) => Err(e),
            Ok(acc) => header_step(acc, items[n - 1]),
        }
    }
}

/// Later values of a header replace earlier ones; removals keep their order.
pub open spec fn headers_spec(items: Seq<ItemView>) -> Result<HeadersView, HeaderErrorView> {
    headers_upto(items, items.len() as int)
}

/// Once the items up to `n` fail, all the items fail the same way.
proof fn lemma_error_stays(items: Seq<ItemView>, n: int, m: int)
    requires
        n <= m,
        headers_upto(items, n) is Err,
    ensures
        headers_upto(items, m) == headers_upto(items, n),
    decreases m - n,
{
    if n < m {
        lemma_error_stays(items, n, m - 1);
    }
}

impl RequestItems {
    /// The headers to set, and the names of default headers to remove.
    /// `TooManyHeaders` comes only for a valid header, after every item
    /// before it was valid, when the map could not take it.
    pub fn headers(&self) -> (r: Result<(HeaderMap<HeaderValue>, Vec<HeaderName>), HeaderError>)
        ensures
            match r {
                Ok((m, unset)) => headers_spec(items_view(self.0@)) == Ok::<
                    HeadersView,
                    HeaderErrorView,
                >((header_entries(m), unset@)),
                Err(HeaderError::TooManyHeaders) => exists|i: int|
                    0 <= i < self.0@.len() && (#[trigger] items_view(self.0@)[i]) is HttpHeader
                        && headers_upto(items_view(self.0@), i + 1) is Ok,
                Err(e) => headers_spec(items_view(self.0@)) == Err::<HeadersView, HeaderErrorView>(
                    e@,
                ),
            },
    {
        let ghost items = items_view(self.0@);
        let mut headers = header_map_new();
        let mut unset: Vec<HeaderName> = Vec::new();
        let mut i: usize = 0;
        while i < self.0.len()
            invariant
                items == items_view(self.0@),
                i <= self.0@.len(),
                headers_upto(items, i as int) == Ok::<HeadersView, HeaderErrorView>(
                    (header_entries(headers), unset@),
                ),
            decreases self.0@.len() - i,
        {
            match &self.0[i] {
                RequestItem::HttpHeader(key, value) => {
                    let name = match header_name(key.as_str()) {
                        Ok(name) => name,
                        Err(_) => {
                            proof {
                                lemma_error_stays(items, i + 1, items.len() as int);
                            }
                            return Err(HeaderError::InvalidName(key.clone()));
                        },
                    };
                    let v = match header_value(value.as_str()) {
                        Ok(v) => v,
                        Err(_) => {
                            proof {
                                lemma_error_stays(items, i + 1, items.len() as int);
                            }
                            return Err(HeaderError::InvalidValue(value.clone()));
                        },
                    };
                    if header_map_try_insert(&mut headers, name, v).is_err() {
                        assert(items[i as int] is HttpHeader);
                        assert(headers_upto(items, i + 1) is Ok);
                        return Err(HeaderError::TooManyHeaders);
                    }
                },
                RequestItem::HttpHeaderToUnset(key) => {
                    match header_name(key.as_str()) {
                        Ok(name) => {
                            unset.push(name);
                        },
                        Err(_) => {
                            proof {
                                lemma_error_stays(items, i + 1, items.len() as int);
                            }
                            return Err(HeaderError::InvalidName(key.clone()));
                        },
                    }
                },
                _ => {},
            }
            i = i + 1;
        }
        assert(self.0@.len() == items.len());
        Ok((headers, unset))
    }
}

} // verus!
