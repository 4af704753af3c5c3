//! What holds of every route: the laws of link generation, proved over the
//! model that the contracts of the walk are stated in.
use vstd::prelude::*;
use crate::escape::percent_encoded;
use crate::generate::Continuation;
use crate::link::{Link, LinkView};
use crate::model::{no_argument, Argument, Element, Progress, Route};

verus! {

/// The dynamic elements of the rest of a route are those of the route without
/// the first, and the rest takes what is left of the arguments.
proof fn rest_takes(element: Element, rest: Route, args: Seq<Argument>)
    requires
        element.is_dynamic(),
        args.len() > 0,
        Route::Sequence(element, Box::new(rest)).takes_prefix(args),
    ensures
        element.accepts(args[0]),
        rest.takes_prefix(args.drop_first()),
{
    let route = Route::Sequence(element, Box::new(rest));
    let tail = args.drop_first();
    assert(route.dynamic_elements() == seq![element] + rest.dynamic_elements());
    assert(route.dynamic_elements()[0].accepts(args[0]));
    assert forall|i: int| 0 <= i < tail.len() implies (#[trigger] rest.dynamic_elements()[i]).accepts(
        tail[i],
    ) by {
        assert(route.dynamic_elements()[i + 1] == rest.dynamic_elements()[i]);
        assert(route.dynamic_elements()[i + 1].accepts(args[i + 1]));
    }
}

/// Appending escaped pieces one by one puts them behind the path, in order,
/// and touches nothing else.
proof fn add_pieces_appends(link: LinkView, pieces: Seq<Seq<char>>)
    ensures
        link.add_pieces(pieces).segments == link.segments + pieces.map_values(
            |piece: Seq<char>| percent_encoded(piece),
        ),
        link.add_pieces(pieces).query_params == link.query_params,
        link.add_pieces(pieces).fragment == link.fragment,
    decreases pieces.len(),
{
    let escaped = pieces.map_values(|piece: Seq<char>| percent_encoded(piece));
    if pieces.len() == 0 {
        assert(link.segments + escaped =~= link.segments);
    } else {
        let next = link.add_segment(percent_encoded(pieces[0]));
        add_pieces_appends(next, pieces.drop_first());
        assert(next.segments + pieces.drop_first().map_values(
            |piece: Seq<char>| percent_encoded(piece),
        ) =~= link.segments + escaped);
    }
}

/// What an element does to a link is to put its segments behind the path and
/// its parameters behind the query.
proof fn applied_appends(element: Element, link: LinkView, arg: Argument)
    ensures
        element.applied(link, arg).segments == link.segments + element.segments(arg),
        element.applied(link, arg).query_params == link.query_params + element.query_params(arg),
        element.applied(link, arg).fragment == link.fragment,
{
    let applied = element.applied(link, arg);
    if let (Element::CaptureAll, Argument::Pieces(pieces)) = (element, arg) {
        add_pieces_appends(link, pieces);
    }
    assert(applied.segments =~= link.segments + element.segments(arg));
    assert(applied.query_params =~= link.query_params + element.query_params(arg));
}

/// Order preservation. A walk that is given the arguments of a route one by
/// one, in the order in which the route declares its dynamic elements, ends
/// with the link that holds every element's contribution at the place where
/// the element was declared: the segments and parameters that were there
/// before, then those of the route from left to right. A route that ends in
/// `EmptyAPI` ends without a link.
pub proof fn order_preserved(route: Route, link: LinkView, args: Seq<Argument>)
    requires
        route.takes(args),
    ensures
        route.advance(link).run(args) == Some(
            if route.is_linkable() {
                Progress::Done(route.link(link, args))
            } else {
                Progress::Unlinkable
            },
        ),
    decreases route,
{
    match route {
        Route::Sequence(element, rest) => {
            if element.is_dynamic() {
                assert(route.dynamic_elements() == seq![element] + rest.dynamic_elements());
                rest_takes(element, *rest, args);
                let next = element.applied(link, args[0]);
                applied_appends(element, link, args[0]);
                order_preserved(*rest, next, args.drop_first());
                assert(route.advance(link).supply(args[0]) == Some(rest.advance(next)));
                assert(rest.link(next, args.drop_first()).segments =~= route.link(
                    link,
                    args,
                ).segments);
                assert(rest.link(next, args.drop_first()).query_params =~= route.link(
                    link,
                    args,
                ).query_params);
            } else {
                let next = element.applied(link, no_argument());
                applied_appends(element, link, no_argument());
                order_preserved(*rest, next, args);
                assert(rest.link(next, args).segments =~= route.link(link, args).segments);
                assert(rest.link(next, args).query_params =~= route.link(link, args).query_params);
            }
        },
        _ => {
            assert(args.len() == 0);
            assert(route.link(link, args).segments =~= link.segments);
            assert(route.link(link, args).query_params =~= link.query_params);
        },
    }
}

/// Whether `later` is `earlier` with segments and parameters added behind
/// what was there, and the same fragment.
pub open spec fn extends(later: LinkView, earlier: LinkView) -> bool {
    &&& earlier.segments.is_prefix_of(later.segments)
    &&& earlier.query_params.is_prefix_of(later.query_params)
    &&& earlier.fragment == later.fragment
}

/// A walk only appends. Wherever a walk stands after any number of arguments,
/// the link it holds begins with the link it started from: no segment and no
/// parameter is removed or moved once it is there, and the fragment stays.
pub proof fn only_appended(route: Route, link: LinkView, args: Seq<Argument>)
    requires
        route.advance(link).run(args) matches Some(stand) && stand.link() is Some,
    ensures
        extends(route.advance(link).run(args)->Some_0.link()->Some_0, link),
    decreases route,
{
    match route {
        Route::Sequence(element, rest) => {
            if element.is_dynamic() {
                if args.len() > 0 {
                    let next = element.applied(link, args[0]);
                    applied_appends(element, link, args[0]);
                    only_appended(*rest, next, args.drop_first());
                }
            } else {
                let next = element.applied(link, no_argument());
                applied_appends(element, link, no_argument());
                only_appended(*rest, next, args);
            }
        },
        _ => {
            if args.len() > 0 {
                assert(route.advance(link).supply(args[0]) is None);
            }
        },
    }
}

/// Arity exactness. Arguments can be supplied to a walk one by one exactly as
/// long as there are dynamic elements left to take them, each in the form its
/// element asks for. While fewer have been supplied than the route has
/// dynamic elements, the walk stands inert before the next of them; once all
/// have been supplied it has ended, and nothing accepts another.
pub proof fn arity_exact(route: Route, link: LinkView, args: Seq<Argument>)
    ensures
        route.advance(link).run(args) is Some <==> route.takes_prefix(args),
        route.takes_prefix(args) && args.len() < route.arity() ==> {
            &&& route.advance(link).run(args)->Some_0 is Awaiting
            &&& route.advance(link).run(args)->Some_0->element == route.dynamic_elements()[args.len() as int]
        },
        route.takes_prefix(args) && args.len() == route.arity() ==> {
            &&& !(route.advance(link).run(args)->Some_0 is Awaiting)
            &&& forall|arg: Argument| route.advance(link).run(args.push(arg)) is None
        },
    decreases route,
{
    match route {
        Route::Sequence(element, rest) => {
            if element.is_dynamic() {
                assert(route.dynamic_elements() == seq![element] + rest.dynamic_elements());
                if args.len() > 0 {
                    let tail = args.drop_first();
                    if element.accepts(args[0]) {
                        let next = element.applied(link, args[0]);
                        arity_exact(*rest, next, tail);
                        assert(route.advance(link).supply(args[0]) == Some(rest.advance(next)));
                        if rest.takes_prefix(tail) {
                            assert forall|i: int| 0 <= i < args.len() implies (
                            #[trigger] route.dynamic_elements()[i]).accepts(args[i]) by {
                                if i > 0 {
                                    assert(route.dynamic_elements()[i] == rest.dynamic_elements()[i
                                        - 1]);
                                    assert(args[i] == tail[i - 1]);
                                }
                            }
                        }
                        if route.takes_prefix(args) {
                            rest_takes(element, *rest, args);
                        }
                        assert forall|arg: Argument|
                            route.advance(link).run(args.push(arg)) == rest.advance(next).run(
                                tail.push(arg),
                            ) by {
                            assert(args.push(arg).drop_first() =~= tail.push(arg));
                        }
                    } else {
                        assert(route.advance(link).supply(args[0]) is None);
                        assert(!route.dynamic_elements()[0].accepts(args[0]));
                    }
                } else {
                    assert(route.takes_prefix(args));
                }
            } else {
                arity_exact(*rest, element.applied(link, no_argument()), args);
            }
        },
        _ => {
            assert(route.arity() == 0);
            if args.len() > 0 {
                assert(route.advance(link).supply(args[0]) is None);
            }
            assert forall|arg: Argument| route.advance(link).run(args.push(arg)) is None by {
                assert(route.advance(link).supply(args.push(arg)[0]) is None);
            }
        },
    }
}

/// A route without dynamic elements that ends in a `Verb` or a `Raw` is walked
/// in one go, up to the link that appending its literal tokens makes.
proof fn literals_walked_at_once(route: Route, link: LinkView)
    requires
        route.arity() == 0,
        route.is_linkable(),
    ensures
        route.advance(link) == Progress::Done(link.add_pieces(route.literal_tokens())),
    decreases route,
{
    match route {
        Route::Sequence(element, rest) => {
            assert(!element.is_dynamic()) by {
                if element.is_dynamic() {
                    assert(route.dynamic_elements() == seq![element] + rest.dynamic_elements());
                }
            }
            literals_walked_at_once(*rest, element.applied(link, no_argument()));
            if element is Segment {
                assert(route.literal_tokens().drop_first() =~= rest.literal_tokens());
            }
        },
        _ => {},
    }
}

/// Whether a continuation hands back the link it is given, as the identity
/// does.
pub open spec fn hands_back<F>(k: Continuation<Link, F>) -> bool {
    forall|link: Link, result: Link| #[trigger] (k.post)(link, result) ==> result@ == link@
}

/// Terminal transparency. A route without dynamic elements that ends in a
/// `Verb` or a `Raw` is walked in one go, and with a continuation that hands
/// the link back, what the walk delivers is the link built by hand from the
/// same start: the route's literal tokens, escaped and appended one after the
/// other, and nothing else.
pub proof fn terminal_transparent<F>(
    route: Route,
    link: LinkView,
    k: Continuation<Link, F>,
    made: Link,
)
    requires
        route.arity() == 0,
        route.is_linkable(),
        hands_back(k),
        k.delivered(route.advance(link), made),
    ensures
        route.advance(link) == Progress::Done(link.add_pieces(route.literal_tokens())),
        made@ == link.add_pieces(route.literal_tokens()),
{
    literals_walked_at_once(route, link);
}

/// Determinism. Two walks over the same route, from the same link and with
/// the same arguments, each with a continuation that hands the link back,
/// deliver the same link, field for field: it is the one at which the walk
/// over the model ends.
pub proof fn link_determined<F, G>(
    route: Route,
    link: LinkView,
    args: Seq<Argument>,
    first: (Continuation<Link, F>, Link),
    second: (Continuation<Link, G>, Link),
)
    requires
        hands_back(first.0),
        hands_back(second.0),
        route.advance(link).run(args) matches Some(end) && first.0.delivered(end, first.1)
            && second.0.delivered(end, second.1),
    ensures
        route.advance(link).run(args) == Some(Progress::Done(first.1@)),
        first.1@ == second.1@,
{
}

} // verus!
