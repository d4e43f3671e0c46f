//! What a handler answers: a status, headers, and perhaps a body.

use crate::named::{first_named, lemma_first_named, lemma_others_kept};
use vstd::prelude::*;

verus! {

/// The status of an answer that went well.
pub const OK: u16 = 200;

/// The status of an answer that says that something was created.
pub const CREATED: u16 = 201;

/// The value of the header `name` among `entries`: that of the first entry
/// with that name, if there is one.
pub open spec fn header_in(entries: Seq<(String, String)>, name: Seq<char>) -> Option<Seq<char>> {
    match first_named(entries, name) {
        Some(value) => Some(value@),
        None => None,
    }
}

/// Sets the header `name` to `value` among the entries: in the first entry
/// with that name, or in a new entry.
fn set_header(entries: &mut Vec<(String, String)>, name: String, value: String)
    ensures
        header_in(final(entries)@, name@) == Some(value@),
        forall|other: Seq<char>|
            other != name@ ==> #[trigger] header_in(final(entries)@, other) == header_in(
                old(entries)@,
                other,
            ),
{
    let ghost before = entries@;
    let ghost named = name@;
    let mut i: usize = 0;
    while i < entries.len()
        invariant
            i <= entries.len(),
            entries@ == before,
            old(entries)@ == before,
            named == name@,
            forall|j: int| 0 <= j < i ==> (#[trigger] entries@[j]).0@ != named,
        decreases entries.len() - i,
    {
        if str::eq(entries[i].0.as_str(), name.as_str()) {
            entries[i].1 = value;
            proof {
                let after = entries@;
                lemma_first_named(after, named, i as int);
                assert forall|other: Seq<char>| other != named implies header_in(after, other)
                    == header_in(before, other) by {
                    lemma_others_kept(before, after, named, other);
                }
            }
            return ;
        }
        i += 1;
    }
    entries.push((name, value));
    proof {
        let after = entries@;
        lemma_first_named(after, named, before.len() as int);
        assert forall|other: Seq<char>| other != named implies header_in(after, other)
            == header_in(before, other) by {
            lemma_others_kept(before, after, named, other);
        }
    }
}

/// An answer: a status, headers, and perhaps a value for the body.
pub struct Response<T> {
    value: Option<T>,
    status_code: u16,
    headers: Vec<(String, String)>,
}

impl<T> Response<T> {
    /// The value of the header `name`, if the answer has that header.
    pub closed spec fn header(&self, name: Seq<char>) -> Option<Seq<char>> {
        header_in(self.headers@, name)
    }

    /// The status of the answer.
    pub closed spec fn status(&self) -> u16 {
        self.status_code
    }

    /// The value for the body, if the answer has one.
    pub closed spec fn body(&self) -> Option<T> {
        self.value
    }

    /// The response headers, first set first.
    pub fn headers(&self) -> (headers: &Vec<(String, String)>)
        ensures
            forall|name: Seq<char>| #[trigger] header_in(headers@, name) == self.header(name),
    {
        &self.headers
    }

    /// The response status code.
    pub fn status_code(&self) -> (code: u16)
        ensures
            code == self.status(),
    {
        self.status_code
    }

    /// The response value.
    pub fn value(&self) -> (value: &Option<T>)
        ensures
            *value == self.body(),
    {
        &self.value
    }
}

/// An answer in the making: its status and its headers.
pub struct ResponseBuilder {
    status_code: u16,
    headers: Vec<(String, String)>,
}

impl ResponseBuilder {
    /// The value of the header `name`, if it was set.
    pub closed spec fn header_value(&self, name: Seq<char>) -> Option<Seq<char>> {
        header_in(self.headers@, name)
    }

    /// The status that the answer will have.
    pub closed spec fn status(&self) -> u16 {
        self.status_code
    }

    /// Create a new payload response builder with the given status code.
    pub fn new(status_code: u16) -> (builder: ResponseBuilder)
        ensures
            builder.status() == status_code,
            forall|name: Seq<char>| #[trigger] builder.header_value(name) is None,
    {
        ResponseBuilder { status_code, headers: Vec::new() }
    }

    /// Create a response with a 201 Created status code.
    pub fn created() -> (builder: ResponseBuilder)
        ensures
            builder.status() == 201,
            forall|name: Seq<char>| #[trigger] builder.header_value(name) is None,
    {
        ResponseBuilder::new(CREATED)
    }

    /// Create a response with a 200 OK status code.
    pub fn ok() -> (builder: ResponseBuilder)
        ensures
            builder.status() == 200,
            forall|name: Seq<char>| #[trigger] builder.header_value(name) is None,
    {
        ResponseBuilder::new(OK)
    }

    /// Set a response header. A header that was set before gets the new
    /// value; every other header stays as it is.
    pub fn header(self, header_name: String, header_value: String) -> (builder: ResponseBuilder)
        ensures
            builder.status() == self.status(),
            builder.header_value(header_name@) == Some(header_value@),
            forall|other: Seq<char>|
                other != header_name@ ==> #[trigger] builder.header_value(other)
                    == self.header_value(other),
    {
        let mut builder = self;
        set_header(&mut builder.headers, header_name, header_value);
        builder
    }

    /// Add a (relative) next-page URI header to the response.
    pub fn next_page_uri(self, uri: String) -> (builder: ResponseBuilder)
        ensures
            builder.status() == self.status(),
            builder.header_value("x-next"@) == Some(uri@),
            forall|other: Seq<char>|
                other != "x-next"@ ==> #[trigger] builder.header_value(other)
                    == self.header_value(other),
    {
        self.header("x-next".to_owned(), uri)
    }

    /// Add a Location URI header. Only makes sense with the Created or a
    /// Redirection status.
    pub fn content_uri(self, uri: String) -> (builder: ResponseBuilder)
        ensures
            builder.status() == self.status(),
            builder.header_value("Location"@) == Some(uri@),
            forall|other: Seq<char>|
                other != "Location"@ ==> #[trigger] builder.header_value(other)
                    == self.header_value(other),
    {
        self.header("Location".to_owned(), uri)
    }

    /// Build an empty response.
    pub fn empty<T>(self) -> (response: Response<T>)
        ensures
            response.body() is None,
            response.status() == self.status(),
            forall|name: Seq<char>| #[trigger] response.header(name) == self.header_value(name),
    {
        Response { value: None, status_code: self.status_code, headers: self.headers }
    }

    /// Build the payload response with the given value.
    pub fn body<T>(self, value: T) -> (response: Response<T>)
        ensures
            response.body() == Some(value),
            response.status() == self.status(),
            forall|name: Seq<char>| #[trigger] response.header(name) == self.header_value(name),
    {
        Response { value: Some(value), status_code: self.status_code, headers: self.headers }
    }
}

} // verus!
