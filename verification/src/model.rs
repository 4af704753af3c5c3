//! The mathematical model of a route and of a walk over it.
//!
//! A typed descriptor describes a [`Route`]: a chain of [`Element`]s that ends
//! in a terminal. A walk absorbs the literal elements by itself and stops at
//! each dynamic one until its argument is supplied; [`Progress`] says where it
//! stands. The contracts of the executable walk are stated over these
//! functions.
use vstd::prelude::*;
use crate::escape::percent_encoded;
use crate::link::{LinkView, ParamView};

verus! {

/// One element of a route, as far as link generation can tell elements apart.
pub enum Element {
    /// A fixed path token.
    Segment(Seq<char>),
    /// A named path position, filled at generation time.
    Capture(Seq<char>),
    /// The rest of the path, filled at generation time.
    CaptureAll,
    /// A request body: part of the route, absent from its links.
    ReqBody,
    /// A query key whose value is given at generation time.
    QueryParam(Seq<char>),
}

/// What is supplied for one dynamic element, already rendered as text.
pub enum Argument {
    /// The URL piece of one value.
    Piece(Seq<char>),
    /// The URL pieces of a list of values, in order.
    Pieces(Seq<Seq<char>>),
}

/// A route: nothing but a terminal, or an element followed by a route.
pub enum Route {
    /// The end of a route at an endpoint.
    Verb,
    /// The end of a route at an endpoint about which nothing more is said.
    Raw,
    /// The end of a route that has no link.
    EmptyAPI,
    /// An element and the route that follows it.
    Sequence(Element, Box<Route>),
}

/// Where a walk stands.
pub enum Progress {
    /// The walk reached a `Verb` or `Raw` with this link, which is what the
    /// continuation receives.
    Done(LinkView),
    /// The walk reached an `EmptyAPI`: there is no link, and the continuation
    /// is not called.
    Unlinkable,
    /// The walk stands before the dynamic element `element`, with the route
    /// `rest` that follows it and the link built so far.
    Awaiting { element: Element, rest: Route, link: LinkView },
}

impl Element {
    /// Whether the element takes a value at generation time.
    pub open spec fn is_dynamic(self) -> bool {
        self is Capture || self is CaptureAll || self is QueryParam
    }

    /// Whether `arg` has the form that the element takes: a list for
    /// `CaptureAll`, one piece for `Capture` and `QueryParam`, nothing for a
    /// literal element.
    pub open spec fn accepts(self, arg: Argument) -> bool {
        match self {
            Element::Capture(_) | Element::QueryParam(_) => arg is Piece,
            Element::CaptureAll => arg is Pieces,
            Element::Segment(_) | Element::ReqBody => false,
        }
    }

    /// The path segments that the element contributes: its escaped token for
    /// a `Segment`, the escaped piece for a `Capture`, each escaped piece in
    /// turn for a `CaptureAll`, none otherwise.
    pub open spec fn segments(self, arg: Argument) -> Seq<Seq<char>> {
        match (self, arg) {
            (Element::Segment(token), _) => seq![percent_encoded(token)],
            (Element::Capture(_), Argument::Piece(piece)) => seq![percent_encoded(piece)],
            (Element::CaptureAll, Argument::Pieces(pieces)) => pieces.map_values(
                |piece: Seq<char>| percent_encoded(piece),
            ),
            _ => Seq::empty(),
        }
    }

    /// The query parameters that the element contributes: key and piece, both
    /// as they are, for a `QueryParam`; none otherwise.
    pub open spec fn query_params(self, arg: Argument) -> Seq<ParamView> {
        match (self, arg) {
            (Element::QueryParam(key), Argument::Piece(piece)) => seq![
                ParamView::Single(key, piece),
            ],
            _ => Seq::empty(),
        }
    }

    /// `link` after the element has made its contribution: a `Segment`
    /// appends its escaped token to the path and a `Capture` the escaped
    /// piece, a `CaptureAll` appends each escaped piece in turn, a
    /// `QueryParam` appends key and piece to the query, and a `ReqBody`
    /// changes nothing.
    pub open spec fn applied(self, link: LinkView, arg: Argument) -> LinkView {
        match (self, arg) {
            (Element::Segment(token), _) => link.add_segment(percent_encoded(token)),
            (Element::Capture(_), Argument::Piece(piece)) => link.add_segment(
                percent_encoded(piece),
            ),
            (Element::CaptureAll, Argument::Pieces(pieces)) => link.add_pieces(pieces),
            (Element::QueryParam(key), Argument::Piece(piece)) => link.add_query_param(
                ParamView::Single(key, piece),
            ),
            _ => link,
        }
    }
}

/// What a literal element is applied with: it reads no argument.
pub open spec fn no_argument() -> Argument {
    Argument::Pieces(Seq::empty())
}

impl Route {
    /// Whether the route ends in a `Verb` or a `Raw`, so that a walk over it
    /// ends in a link.
    pub open spec fn is_linkable(self) -> bool
        decreases self,
    {
        match self {
            Route::Verb | Route::Raw => true,
            Route::EmptyAPI => false,
            Route::Sequence(_, rest) => rest.is_linkable(),
        }
    }

    /// The dynamic elements of the route, in the order of their declaration.
    pub open spec fn dynamic_elements(self) -> Seq<Element>
        decreases self,
    {
        match self {
            Route::Sequence(element, rest) => if element.is_dynamic() {
                seq![element] + rest.dynamic_elements()
            } else {
                rest.dynamic_elements()
            },
            _ => Seq::empty(),
        }
    }

    /// The number of values that the route asks for.
    pub open spec fn arity(self) -> nat {
        self.dynamic_elements().len()
    }

    /// The tokens of the route's literal segments, in the order of their
    /// declaration.
    pub open spec fn literal_tokens(self) -> Seq<Seq<char>>
        decreases self,
    {
        match self {
            Route::Sequence(Element::Segment(token), rest) => seq![token] + rest.literal_tokens(),
            Route::Sequence(_, rest) => rest.literal_tokens(),
            _ => Seq::empty(),
        }
    }

    /// Whether `args` can be supplied to the route one after the other: there
    /// are no more of them than dynamic elements, and each has the form that
    /// its element takes.
    pub open spec fn takes_prefix(self, args: Seq<Argument>) -> bool {
        &&& args.len() <= self.arity()
        &&& forall|i: int| 0 <= i < args.len() ==> (#[trigger] self.dynamic_elements()[i]).accepts(args[i])
    }

    /// Whether `args` are exactly the arguments of the route.
    pub open spec fn takes(self, args: Seq<Argument>) -> bool {
        self.takes_prefix(args) && args.len() == self.arity()
    }

    /// The path segments of a link over the route, in order: each element's
    /// contribution where the element was declared, the dynamic elements
    /// reading `args` from left to right.
    pub open spec fn segments(self, args: Seq<Argument>) -> Seq<Seq<char>>
        recommends
            self.takes(args),
        decreases self,
    {
        match self {
            Route::Sequence(element, rest) => if element.is_dynamic() {
                element.segments(args[0]) + rest.segments(args.drop_first())
            } else {
                element.segments(no_argument()) + rest.segments(args)
            },
            _ => Seq::empty(),
        }
    }

    /// The query parameters of a link over the route, in order.
    pub open spec fn query_params(self, args: Seq<Argument>) -> Seq<ParamView>
        recommends
            self.takes(args),
        decreases self,
    {
        match self {
            Route::Sequence(element, rest) => if element.is_dynamic() {
                element.query_params(args[0]) + rest.query_params(args.drop_first())
            } else {
                rest.query_params(args)
            },
            _ => Seq::empty(),
        }
    }

    /// The link that a walk over the whole route makes of `link`, given all
    /// its arguments: what was there stays in front, the route's contributions
    /// follow, and the fragment is untouched.
    pub open spec fn link(self, link: LinkView, args: Seq<Argument>) -> LinkView
        recommends
            self.takes(args),
    {
        LinkView {
            segments: link.segments + self.segments(args),
            query_params: link.query_params + self.query_params(args),
            fragment: link.fragment,
        }
    }

    /// Walks from the start of the route as far as no value is needed: every
    /// literal element makes its contribution to `link`, and the walk stops at
    /// the first dynamic element or at the terminal.
    pub open spec fn advance(self, link: LinkView) -> Progress
        decreases self,
    {
        match self {
            Route::Verb | Route::Raw => Progress::Done(link),
            Route::EmptyAPI => Progress::Unlinkable,
            Route::Sequence(element, rest) => if element.is_dynamic() {
                Progress::Awaiting { element, rest: *rest, link }
            } else {
                rest.advance(element.applied(link, no_argument()))
            },
        }
    }
}

impl Progress {
    /// The link that the walk holds where it stands, if it holds one.
    pub open spec fn link(self) -> Option<LinkView> {
        match self {
            Progress::Done(link) => Some(link),
            Progress::Unlinkable => None,
            Progress::Awaiting { link, .. } => Some(link),
        }
    }

    /// The next stand of a walk that is given `arg`: the awaited element makes
    /// its contribution and the walk goes on in the route that follows. There
    /// is no next stand where the walk awaits nothing, or not an argument of
    /// this form.
    pub open spec fn supply(self, arg: Argument) -> Option<Progress> {
        match self {
            Progress::Awaiting { element, rest, link } => if element.accepts(arg) {
                Some(rest.advance(element.applied(link, arg)))
            } else {
                None
            },
            _ => None,
        }
    }

    /// The stand of a walk after `args` have been supplied one by one.
    pub open spec fn run(self, args: Seq<Argument>) -> Option<Progress>
        decreases args.len(),
    {
        if args.len() == 0 {
            Some(self)
        } else {
            match self.supply(args[0]) {
                Some(next) => next.run(args.drop_first()),
                None => None,
            }
        }
    }
}

} // verus!
