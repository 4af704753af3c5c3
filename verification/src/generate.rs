//! The walk from a route description to its link.
//!
//! `to_link` goes through a description once. Literal elements are absorbed on
//! the way; at a dynamic element the walk hands back a [`Generator`], which
//! takes that element's value and goes on. What comes back therefore has a
//! type that follows from the description: the continuation's result where
//! nothing is asked for, and otherwise one generator per value, nested in the
//! order in which the description declares them.
use vstd::prelude::*;
use crate::encoding::{url_pieces, KnownString, ToHttpApiData};
use crate::escape::Escaped;
use crate::link::{Link, LinkView, Param};
use crate::model::{Argument, Element, Progress, Route};
use crate::route::{
    Capture, CaptureAll, EmptyAPI, Or, QueryParam, Raw, ReqBody, Segment, Sequence, Verb,
};

verus! {

/// Whether `f` can be called on every link.
pub open spec fn takes_every_link<A, F: FnOnce(Link) -> A>(f: F) -> bool {
    forall|link: Link| call_requires(f, (link,))
}

/// A continuation as the contracts of a walk see it: the function itself, and
/// which results it may return for which link.
#[verifier::reject_recursive_types(A)]
pub struct Continuation<A, F> {
    pub f: F,
    pub post: spec_fn(Link, A) -> bool,
}

/// The continuation `f` with what it ensures.
pub open spec fn continuation<A, F: FnOnce(Link) -> A>(f: F) -> Continuation<A, F> {
    Continuation { f, post: |link: Link, result: A| call_ensures(f, (link,), result) }
}

impl<A, F> Continuation<A, F> {
    /// Whether `result` is what the continuation returns for a link with the
    /// text of the link at which the walk ended.
    pub open spec fn delivered(self, progress: Progress, result: A) -> bool {
        &&& progress is Done
        &&& exists|link: Link| link@ == progress->Done_0 && #[trigger] (self.post)(link, result)
    }
}

/// A route description for which a link can be generated, with a continuation
/// `F` from the finished link to an `A`.
///
/// The continuation's type is a parameter of the trait because the generators
/// that a walk hands back hold the continuation. That `F` is a function is
/// asked of `to_link` alone, so that `stands_at` unfolds for the type of a
/// closure as for any other.
pub trait HasLink<A, F>: View<V = Route> + Sized {
    /// What generation returns for a description of this type.
    type MkLink;

    /// Whether `made` is what a walk that ends in `k` hands back when it stands
    /// at `progress`. Where the walk has ended, `made` is what the
    /// continuation returns for the finished link; where it awaits a value,
    /// `made` is the generator that holds the continuation and stands at
    /// `progress`; where the route has no link, `made` says so.
    spec fn stands_at(made: Self::MkLink, k: Continuation<A, F>, progress: Progress) -> bool;

    /// Walks the description from `link`, and hands back what stands where the
    /// walk first needs a value, or where it ends.
    fn to_link(self, f: F, link: Link) -> (made: Self::MkLink) where F: FnOnce(Link) -> A
        requires
            takes_every_link(f),
        ensures
            Self::stands_at(made, continuation(f), self@.advance(link@)),
    ;
}

impl<A, F, Method, StatusCode, CTy, Ty> HasLink<A, F> for Verb<Method, StatusCode, CTy, Ty> {
    type MkLink = A;

    open spec fn stands_at(made: A, k: Continuation<A, F>, progress: Progress) -> bool {
        k.delivered(progress, made)
    }

    /// The walk ends: the continuation receives the link.
    fn to_link(self, f: F, link: Link) -> (made: A) where F: FnOnce(Link) -> A {
        let made = f(link);
        assert((continuation(f).post)(link, made));
        made
    }
}

impl<A, F> HasLink<A, F> for Raw {
    type MkLink = A;

    open spec fn stands_at(made: A, k: Continuation<A, F>, progress: Progress) -> bool {
        k.delivered(progress, made)
    }

    /// The walk ends: the continuation receives the link.
    fn to_link(self, f: F, link: Link) -> (made: A) where F: FnOnce(Link) -> A {
        let made = f(link);
        assert((continuation(f).post)(link, made));
        made
    }
}

impl<A, F> HasLink<A, F> for EmptyAPI {
    type MkLink = EmptyAPI;

    open spec fn stands_at(made: EmptyAPI, k: Continuation<A, F>, progress: Progress) -> bool {
        progress is Unlinkable
    }

    /// There is no link: the continuation is not called and the link built so
    /// far is dropped.
    fn to_link(self, _f: F, _link: Link) -> (made: EmptyAPI) where F: FnOnce(Link) -> A {
        EmptyAPI
    }
}

impl<A, F, TStr: KnownString, Path: HasLink<A, F>> HasLink<A, F> for Sequence<Segment<TStr>, Path> {
    type MkLink = Path::MkLink;

    open spec fn stands_at(made: Path::MkLink, k: Continuation<A, F>, progress: Progress) -> bool {
        Path::stands_at(made, k, progress)
    }

    /// The token is escaped and appended to the path; the walk goes on.
    fn to_link(self, f: F, link: Link) -> (made: Path::MkLink) where F: FnOnce(Link) -> A {
        let seg = Escaped::from(self.component.tstr.as_str());
        self.path.to_link(f, link.add_segment(seg))
    }
}

impl<A, F, CTy, Ty, Path: HasLink<A, F>> HasLink<A, F> for Sequence<ReqBody<CTy, Ty>, Path> {
    type MkLink = Path::MkLink;

    open spec fn stands_at(made: Path::MkLink, k: Continuation<A, F>, progress: Progress) -> bool {
        Path::stands_at(made, k, progress)
    }

    /// A body is no part of a link: the walk goes on with the link as it is.
    fn to_link(self, f: F, link: Link) -> (made: Path::MkLink) where F: FnOnce(Link) -> A {
        self.path.to_link(f, link)
    }
}

/// A walk that has stopped before the dynamic element `Component`. It holds
/// the rest of the description, the continuation and the link built so far,
/// and does nothing until the element's value is supplied. Only a walk makes
/// one, so the continuation it holds is the one that the walk was given.
pub struct Generator<Component, Path, F> {
    component: Component,
    path: Path,
    f: F,
    link: Link,
}

impl<Component, Path, F> Generator<Component, Path, F> {
    /// The description of what follows the awaited element.
    pub closed spec fn path(&self) -> Path {
        self.path
    }

    /// The continuation that the walk will end in.
    pub closed spec fn continuation(&self) -> F {
        self.f
    }

    /// The text of the link built so far.
    pub closed spec fn link(&self) -> LinkView {
        self.link@
    }
}

impl<A, F, Name: KnownString, Ty: ToHttpApiData, Path: HasLink<A, F>> HasLink<A, F> for Sequence<
    QueryParam<Name, Ty>,
    Path,
> {
    type MkLink = Generator<QueryParam<Name, Ty>, Path, F>;

    open spec fn stands_at(
        made: Generator<QueryParam<Name, Ty>, Path, F>,
        k: Continuation<A, F>,
        progress: Progress,
    ) -> bool {
        made.continuation() == k.f && made.progress() == progress
    }

    /// The walk stops: it needs the parameter's value.
    fn to_link(self, f: F, link: Link) -> (made: Generator<QueryParam<Name, Ty>, Path, F>) where
        F: FnOnce(Link) -> A,
     {
        Generator { component: self.component, path: self.path, f, link }
    }
}

impl<Name: KnownString, Ty: ToHttpApiData, Path: View<V = Route>, F> Generator<
    QueryParam<Name, Ty>,
    Path,
    F,
> {
    /// Where the walk stands: before the query parameter.
    pub open spec fn progress(&self) -> Progress {
        Progress::Awaiting {
            element: Element::QueryParam(Name::token()),
            rest: self.path()@,
            link: self.link(),
        }
    }

    /// Takes the parameter's value: the key and the value's URL piece are
    /// appended to the query as they are, and the walk goes on.
    pub fn supply<A>(self, ty: Ty) -> (made: Path::MkLink) where
        F: FnOnce(Link) -> A,
        Path: HasLink<A, F>,

        requires
            takes_every_link(self.continuation()),
        ensures
            self.progress().supply(Argument::Piece(ty.url_piece())) matches Some(next)
                && Path::stands_at(made, continuation(self.continuation()), next),
    {
        let piece = ty.to_url_piece();
        let query_param = Param::from((self.component.name.as_str(), piece.as_str()));
        self.path.to_link(self.f, self.link.add_query_param(query_param))
    }
}

impl<A, F, Name: KnownString, Ty: ToHttpApiData, Path: HasLink<A, F>> HasLink<A, F> for Sequence<
    Capture<Name, Ty>,
    Path,
> {
    type MkLink = Generator<Capture<Name, Ty>, Path, F>;

    open spec fn stands_at(
        made: Generator<Capture<Name, Ty>, Path, F>,
        k: Continuation<A, F>,
        progress: Progress,
    ) -> bool {
        made.continuation() == k.f && made.progress() == progress
    }

    /// The walk stops: it needs the captured value.
    fn to_link(self, f: F, link: Link) -> (made: Generator<Capture<Name, Ty>, Path, F>) where
        F: FnOnce(Link) -> A,
     {
        Generator { component: self.component, path: self.path, f, link }
    }
}

impl<Name: KnownString, Ty: ToHttpApiData, Path: View<V = Route>, F> Generator<
    Capture<Name, Ty>,
    Path,
    F,
> {
    /// Where the walk stands: before the capture.
    pub open spec fn progress(&self) -> Progress {
        Progress::Awaiting {
            element: Element::Capture(Name::token()),
            rest: self.path()@,
            link: self.link(),
        }
    }

    /// Takes the captured value: its URL piece is escaped and appended to the
    /// path, and the walk goes on.
    pub fn supply<A>(self, ty: Ty) -> (made: Path::MkLink) where
        F: FnOnce(Link) -> A,
        Path: HasLink<A, F>,

        requires
            takes_every_link(self.continuation()),
        ensures
            self.progress().supply(Argument::Piece(ty.url_piece())) matches Some(next)
                && Path::stands_at(made, continuation(self.continuation()), next),
    {
        let piece = ty.to_url_piece();
        let seg = Escaped::from(piece.as_str());
        self.path.to_link(self.f, self.link.add_segment(seg))
    }
}

impl<A, F, Ty: ToHttpApiData, Path: HasLink<A, F>> HasLink<A, F> for Sequence<
    CaptureAll<Ty>,
    Path,
> {
    type MkLink = Generator<CaptureAll<Ty>, Path, F>;

    open spec fn stands_at(
        made: Generator<CaptureAll<Ty>, Path, F>,
        k: Continuation<A, F>,
        progress: Progress,
    ) -> bool {
        made.continuation() == k.f && made.progress() == progress
    }

    /// The walk stops: it needs the captured values.
    fn to_link(self, f: F, link: Link) -> (made: Generator<CaptureAll<Ty>, Path, F>) where
        F: FnOnce(Link) -> A,
     {
        Generator { component: self.component, path: self.path, f, link }
    }
}

impl<Ty: ToHttpApiData, Path: View<V = Route>, F> Generator<CaptureAll<Ty>, Path, F> {
    /// Where the walk stands: before the capture of the remaining path.
    pub open spec fn progress(&self) -> Progress {
        Progress::Awaiting { element: Element::CaptureAll, rest: self.path()@, link: self.link() }
    }

    /// Takes the captured values: the URL piece of each is escaped and
    /// appended to the path, first to last, and the walk goes on.
    pub fn supply<A>(self, tys: Vec<Ty>) -> (made: Path::MkLink) where
        F: FnOnce(Link) -> A,
        Path: HasLink<A, F>,

        requires
            takes_every_link(self.continuation()),
        ensures
            self.progress().supply(Argument::Pieces(url_pieces(tys@))) matches Some(next)
                && Path::stands_at(made, continuation(self.continuation()), next),
    {
        let ghost start = self.link@;
        let ghost pieces = url_pieces(tys@);
        let mut link = self.link;
        let mut i: usize = 0;
        assert(pieces.skip(0) =~= pieces);
        while i < tys.len()
            invariant
                i <= tys.len(),
                pieces == url_pieces(tys@),
                link@.add_pieces(pieces.skip(i as int)) == start.add_pieces(pieces),
            decreases tys.len() - i,
        {
            let piece = tys[i].to_url_piece();
            let seg = Escaped::from(piece.as_str());
            proof {
                assert(pieces.skip(i as int).drop_first() =~= pieces.skip(i + 1));
            }
            link = link.add_segment(seg);
            i += 1;
        }
        self.path.to_link(self.f, link)
    }
}

impl<Path1, Path2> Or<Path1, Path2> {
    /// Generates the link of the left branch. The pair as a whole has no
    /// link: whoever wants one chooses the branch.
    pub fn left_link<A, F: FnOnce(Link) -> A>(self, f: F, link: Link) -> (made: Path1::MkLink) where
        Path1: HasLink<A, F>,

        requires
            takes_every_link(f),
        ensures
            Path1::stands_at(made, continuation(f), self.left@.advance(link@)),
    {
        self.left.to_link(f, link)
    }

    /// Generates the link of the right branch.
    pub fn right_link<A, F: FnOnce(Link) -> A>(self, f: F, link: Link) -> (made: Path2::MkLink) where
        Path2: HasLink<A, F>,

        requires
            takes_every_link(f),
        ensures
            Path2::stands_at(made, continuation(f), self.right@.advance(link@)),
    {
        self.right.to_link(f, link)
    }
}

} // verus!
