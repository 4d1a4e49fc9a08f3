use vstd::prelude::*;

verus! {

/// What the window shows: a page fetched from a URL, or literal HTML.
pub enum Content<'a> {
    Url(&'a str),
    Html(&'a str),
}

} // verus!
