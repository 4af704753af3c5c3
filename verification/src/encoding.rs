//! The two ways in which text enters a link: a type that stands for one fixed
//! token, and a value that renders itself as a URL piece.
use vstd::prelude::*;

verus! {

/// A singleton type that stands for one string.
///
/// The string belongs to the type, not to a value of it: every call of
/// `as_str` returns the same text.
pub trait KnownString: Copy + Default {
    /// The string that the type stands for. An implementation in verified code
    /// says what it is. One in plain Rust cannot: it leaves the string
    /// unspecified, and is trusted to return one and the same string from
    /// every call of `as_str`.
    open spec fn token() -> Seq<char> {
        arbitrary()
    }

    fn as_str(self) -> (s: &'static str)
        ensures
            s@ == Self::token(),
    ;
}

/// A value that can be written into a URL.
///
/// Rendering is total and depends on the value alone.
pub trait ToHttpApiData {
    /// The text that the value renders to. An implementation in verified code
    /// says what it is. One in plain Rust cannot: it leaves the text
    /// unspecified, and is trusted to render a value to the same text every
    /// time.
    open spec fn url_piece(&self) -> Seq<char> {
        arbitrary()
    }

    fn to_url_piece(&self) -> (piece: String)
        ensures
            piece@ == self.url_piece(),
    ;
}

/// The URL pieces of a list of values, in order.
pub open spec fn url_pieces<Ty: ToHttpApiData>(tys: Seq<Ty>) -> Seq<Seq<char>> {
    tys.map_values(|ty: Ty| ty.url_piece())
}

impl ToHttpApiData for String {
    open spec fn url_piece(&self) -> Seq<char> {
        self@
    }

    /// A string renders to itself.
    fn to_url_piece(&self) -> (piece: String) {
        self.clone()
    }
}

/// The string `foo`.
#[derive(Debug, Copy, Clone, Default)]
pub struct Foo;

impl KnownString for Foo {
    open spec fn token() -> Seq<char> {
        "foo"@
    }

    fn as_str(self) -> (s: &'static str) {
        "foo"
    }
}

} // verus!
