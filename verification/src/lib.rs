//! Link generation for statically described web APIs.
//!
//! A route is described by nesting typed route elements; walking the
//! description yields a generator that asks for exactly the values the route
//! declares, in the order it declares them, and ends in a [`Link`].
pub mod encoding;
pub mod escape;
pub mod generate;
pub mod laws;
pub mod link;
pub mod model;
pub mod route;

pub use crate::encoding::{Foo, KnownString, ToHttpApiData};
pub use crate::escape::Escaped;
pub use crate::generate::{Generator, HasLink};
pub use crate::link::{Link, Param};
pub use crate::route::{
    Capture, CaptureAll, EmptyAPI, Or, QueryParam, Raw, ReqBody, Segment, Sequence, Verb,
};
