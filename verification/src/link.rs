//! The link accumulator: escaped path segments, query parameters and an
//! optional fragment, each kept in the order it was added.
use vstd::prelude::*;
use vstd::std_specs::convert::FromSpecImpl;
use crate::escape::{percent_encoded, Escaped};

verus! {

/// One query parameter.
#[derive(Debug, PartialEq, Eq)]
pub enum Param {
    /// A key with one value.
    Single(String, String),
    /// A key with one element of an array value.
    ArrayElem(String, String),
    /// A key without a value.
    Flag(String),
}

/// The text of a [`Param`].
pub enum ParamView {
    /// A key with one value.
    Single(Seq<char>, Seq<char>),
    /// A key with one element of an array value.
    ArrayElem(Seq<char>, Seq<char>),
    /// A key without a value.
    Flag(Seq<char>),
}

impl View for Param {
    type V = ParamView;

    open spec fn view(&self) -> ParamView {
        match *self {
            Param::Single(key, value) => ParamView::Single(key@, value@),
            Param::ArrayElem(key, value) => ParamView::ArrayElem(key@, value@),
            Param::Flag(key) => ParamView::Flag(key@),
        }
    }
}

impl From<(&str, &str)> for Param {
    /// The key/value parameter made of the pair, both taken as they are.
    fn from(pair: (&str, &str)) -> (p: Param)
        ensures
            p@ == ParamView::Single(pair.0@, pair.1@),
    {
        Param::Single(pair.0.to_owned(), pair.1.to_owned())
    }
}

/// What `from` returns is stated by its own `ensures`, over the view.
impl FromSpecImpl<(&str, &str)> for Param {
    open spec fn obeys_from_spec() -> bool {
        false
    }

    open spec fn from_spec(pair: (&str, &str)) -> Param {
        arbitrary()
    }
}

/// A link under construction or finished.
#[derive(Debug, PartialEq, Eq)]
pub struct Link {
    pub segments: Vec<Escaped>,
    pub query_params: Vec<Param>,
    pub fragment: Option<String>,
}

/// The text of a [`Link`], field for field.
pub struct LinkView {
    pub segments: Seq<Seq<char>>,
    pub query_params: Seq<ParamView>,
    pub fragment: Option<Seq<char>>,
}

impl LinkView {
    /// The link with nothing in it.
    pub open spec fn empty() -> LinkView {
        LinkView { segments: Seq::empty(), query_params: Seq::empty(), fragment: None }
    }

    /// This link with one more segment at the end of its path.
    pub open spec fn add_segment(self, seg: Seq<char>) -> LinkView {
        LinkView { segments: self.segments.push(seg), ..self }
    }

    /// This link after each of `pieces` has been escaped and appended to its
    /// path, first to last.
    pub open spec fn add_pieces(self, pieces: Seq<Seq<char>>) -> LinkView
        decreases pieces.len(),
    {
        if pieces.len() == 0 {
            self
        } else {
            self.add_segment(percent_encoded(pieces[0])).add_pieces(pieces.drop_first())
        }
    }

    /// This link with one more parameter at the end of its query.
    pub open spec fn add_query_param(self, query_param: ParamView) -> LinkView {
        LinkView { query_params: self.query_params.push(query_param), ..self }
    }
}

impl View for Link {
    type V = LinkView;

    open spec fn view(&self) -> LinkView {
        LinkView {
            segments: self.segments@.map_values(|e: Escaped| e@),
            query_params: self.query_params@.map_values(|p: Param| p@),
            fragment: match self.fragment {
                Some(text) => Some(text@),
                None => None,
            },
        }
    }
}

impl Default for Link {
    /// The empty link, from which every walk starts.
    fn default() -> (link: Link)
        ensures
            link@ == LinkView::empty(),
    {
        let link = Link { segments: Vec::new(), query_params: Vec::new(), fragment: None };
        assert(link@.segments =~= Seq::empty());
        assert(link@.query_params =~= Seq::empty());
        link
    }
}

impl Link {
    /// Appends an escaped segment to the path. Nothing else changes, and the
    /// segment's text is stored as it stands.
    pub fn add_segment(self, seg: Escaped) -> (r: Link)
        ensures
            r@ == self@.add_segment(seg@),
    {
        let mut link = self;
        link.segments.push(seg);
        assert(link@.segments =~= self@.segments.push(seg@));
        link
    }

    /// Appends a parameter to the query. Nothing else changes; a key that is
    /// already there stays, and the new one follows it.
    pub fn add_query_param(self, query_param: Param) -> (r: Link)
        ensures
            r@ == self@.add_query_param(query_param@),
    {
        let mut link = self;
        link.query_params.push(query_param);
        assert(link@.query_params =~= self@.query_params.push(query_param@));
        link
    }
}

} // verus!
