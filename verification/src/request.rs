//! A request as plain values: where it goes and what it carries. Sending it
//! is left to whoever owns a transport; every request of this service is a
//! POST.

use vstd::prelude::*;

verus! {

/// A request to be sent with the POST method.
#[derive(Debug, PartialEq, Eq)]
pub struct Request {
    /// The full address of the endpoint.
    pub url: String,
    /// The header lines, name first, in the order they are to be set.
    pub headers: Vec<(String, String)>,
    /// The fields of the form-encoded body, or `None` for a request without
    /// a body.
    pub form: Option<Vec<(String, String)>>,
}

/// What a `Request` holds, as mathematical values.
#[verifier::ext_equal]
pub struct RequestView {
    pub url: Seq<char>,
    pub headers: Seq<(Seq<char>, Seq<char>)>,
    pub form: Option<Seq<(Seq<char>, Seq<char>)>>,
}

/// The text of each string of a sequence.
pub open spec fn texts(strings: Seq<String>) -> Seq<Seq<char>> {
    Seq::new(strings.len(), |i: int| strings[i]@)
}

/// The text of each pair of a sequence.
pub open spec fn pair_texts(pairs: Seq<(String, String)>) -> Seq<(Seq<char>, Seq<char>)> {
    Seq::new(pairs.len(), |i: int| (pairs[i].0@, pairs[i].1@))
}

impl View for Request {
    type V = RequestView;

    open spec fn view(&self) -> RequestView {
        RequestView {
            url: self.url@,
            headers: pair_texts(self.headers@),
            form: match self.form {
                Some(fields) => Some(pair_texts(fields@)),
                None => None,
            },
        }
    }
}

} // verus!
