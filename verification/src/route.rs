//! The vocabulary of route descriptions.
//!
//! A route is written as a nesting of these types: a `Sequence` of an element
//! and the rest of the route, down to a `Verb`, a `Raw` or an `EmptyAPI`. The
//! type parameters carry what the route declares (names, value types, tags);
//! what cannot be nested has no link.
use vstd::prelude::*;
use crate::encoding::KnownString;
use crate::model::{Element, Route};

verus! {

/// An element followed by the rest of the route.
pub struct Sequence<Component, Path> {
    pub component: Component,
    pub path: Path,
}

/// Two routes side by side. A link is generated for one of them at a time.
pub struct Or<Path1, Path2> {
    pub left: Path1,
    pub right: Path2,
}

/// A named path position that holds a value of type `Ty`.
pub struct Capture<Name, Ty> {
    pub name: Name,
    pub ty: Ty,
}

/// The rest of the path, holding any number of values of type `Ty`.
pub struct CaptureAll<Ty> {
    pub ty: Ty,
}

/// A request body of type `Ty` in the content type `CTy`.
pub struct ReqBody<CTy, Ty> {
    pub cty: CTy,
    pub ty: Ty,
}

/// A query parameter named by `Name` with a value of type `Ty`.
pub struct QueryParam<Name, Ty> {
    pub name: Name,
    pub ty: Ty,
}

/// The end of a route: an endpoint answering `method` with `status_code` and a
/// `Ty` in the content type `CTy`.
pub struct Verb<Method, StatusCode, CTy, Ty> {
    pub method: Method,
    pub status_code: StatusCode,
    pub cty: CTy,
    pub ty: Ty,
}

/// A fixed path token, the string that `TStr` stands for.
pub struct Segment<TStr> {
    pub tstr: TStr,
}

/// The end of a route: an endpoint about which nothing more is said.
pub struct Raw;

/// The end of a route that has no link. It is also what generating a link for
/// such a route returns.
pub struct EmptyAPI;

impl<Method, StatusCode, CTy, Ty> View for Verb<Method, StatusCode, CTy, Ty> {
    type V = Route;

    open spec fn view(&self) -> Route {
        Route::Verb
    }
}

impl View for Raw {
    type V = Route;

    open spec fn view(&self) -> Route {
        Route::Raw
    }
}

impl View for EmptyAPI {
    type V = Route;

    open spec fn view(&self) -> Route {
        Route::EmptyAPI
    }
}

impl<TStr: KnownString, Path: View<V = Route>> View for Sequence<Segment<TStr>, Path> {
    type V = Route;

    open spec fn view(&self) -> Route {
        Route::Sequence(Element::Segment(TStr::token()), Box::new(self.path@))
    }
}

impl<Name: KnownString, Ty, Path: View<V = Route>> View for Sequence<Capture<Name, Ty>, Path> {
    type V = Route;

    open spec fn view(&self) -> Route {
        Route::Sequence(Element::Capture(Name::token()), Box::new(self.path@))
    }
}

impl<Ty, Path: View<V = Route>> View for Sequence<CaptureAll<Ty>, Path> {
    type V = Route;

    open spec fn view(&self) -> Route {
        Route::Sequence(Element::CaptureAll, Box::new(self.path@))
    }
}

impl<CTy, Ty, Path: View<V = Route>> View for Sequence<ReqBody<CTy, Ty>, Path> {
    type V = Route;

    open spec fn view(&self) -> Route {
        Route::Sequence(Element::ReqBody, Box::new(self.path@))
    }
}

impl<Name: KnownString, Ty, Path: View<V = Route>> View for Sequence<QueryParam<Name, Ty>, Path> {
    type V = Route;

    open spec fn view(&self) -> Route {
        Route::Sequence(Element::QueryParam(Name::token()), Box::new(self.path@))
    }
}

} // verus!
