use route_links::{
    Capture, CaptureAll, EmptyAPI, Escaped, Foo, HasLink, KnownString, Link, Or, Param,
    QueryParam, Raw, ReqBody, Segment, Sequence, ToHttpApiData, Verb,
};

#[derive(Debug, Copy, Clone, Default)]
struct Users;

impl KnownString for Users {
    fn as_str(self) -> &'static str {
        "users"
    }
}

#[derive(Debug, Copy, Clone, Default)]
struct MyFiles;

impl KnownString for MyFiles {
    fn as_str(self) -> &'static str {
        "my files"
    }
}

#[derive(Debug, Copy, Clone, Default)]
struct Page;

impl KnownString for Page {
    fn as_str(self) -> &'static str {
        "page"
    }
}

#[derive(Debug, Copy, Clone, Default)]
struct Sort;

impl KnownString for Sort {
    fn as_str(self) -> &'static str {
        "sort by"
    }
}

struct Number(u32);

impl ToHttpApiData for Number {
    fn to_url_piece(&self) -> String {
        format!("{}", self.0)
    }
}

fn verb() -> Verb<(), (), (), u32> {
    Verb { method: (), status_code: (), cty: (), ty: 0 }
}

fn texts(link: &Link) -> Vec<&str> {
    link.segments.iter().map(|s| s.as_str()).collect()
}

fn single(key: &str, value: &str) -> Param {
    Param::Single(String::from(key), String::from(value))
}

#[test]
fn a_segment_before_a_verb_gives_one_segment() {
    let api = Sequence { component: Segment { tstr: Foo }, path: verb() };
    let link: Link = api.to_link(|l| l, Link::default());
    assert_eq!(texts(&link), vec!["foo"]);
    assert_eq!(link.query_params, vec![]);
    assert_eq!(link.fragment, None);
}

#[test]
fn a_query_parameter_after_a_segment_asks_for_one_value() {
    let api = Sequence {
        component: Segment { tstr: Foo },
        path: Sequence {
            component: QueryParam { name: Foo, ty: String::new() },
            path: verb(),
        },
    };
    let generator = api.to_link(|l| l, Link::default());
    let link: Link = generator.supply(String::from("baloney"));
    assert_eq!(texts(&link), vec!["foo"]);
    assert_eq!(link.query_params, vec![single("foo", "baloney")]);
    assert_eq!(link.fragment, None);
}

#[test]
fn verb_alone_hands_the_link_to_the_continuation() {
    let start = Link::default().add_segment(Escaped::from("x"));
    let link: Link = verb().to_link(|l| l, start);
    assert_eq!(texts(&link), vec!["x"]);
}

#[test]
fn raw_alone_hands_the_link_to_the_continuation() {
    let start = Link::default().add_query_param(Param::Flag(String::from("f")));
    let link: Link = Raw.to_link(|l| l, start);
    assert_eq!(link.segments, vec![]);
    assert_eq!(link.query_params, vec![Param::Flag(String::from("f"))]);
}

#[test]
fn the_continuation_decides_what_comes_back() {
    let api = Sequence {
        component: Segment { tstr: Foo },
        path: Sequence { component: Segment { tstr: Users }, path: Raw },
    };
    let count: usize = api.to_link(|l: Link| l.segments.len(), Link::default());
    assert_eq!(count, 2);
}

#[test]
fn empty_api_has_no_link_and_never_calls_the_continuation() {
    let api = Sequence { component: Segment { tstr: Foo }, path: EmptyAPI };
    let _made: EmptyAPI = api.to_link(|_l: Link| -> Link { panic!("called") }, Link::default());

    let api = Sequence {
        component: QueryParam { name: Page, ty: Number(0) },
        path: EmptyAPI,
    };
    let generator = api.to_link(|_l: Link| -> Link { panic!("called") }, Link::default());
    let _made: EmptyAPI = generator.supply(Number(3));
}

#[test]
fn a_literal_token_is_escaped_once() {
    let api = Sequence { component: Segment { tstr: MyFiles }, path: Raw };
    let link: Link = api.to_link(|l| l, Link::default());
    assert_eq!(texts(&link), vec!["my%20files"]);
    assert_eq!(link.segments, vec![Escaped::from("my files")]);
}

#[test]
fn a_captured_value_becomes_one_escaped_segment() {
    let api = Sequence {
        component: Segment { tstr: Users },
        path: Sequence {
            component: Capture { name: Foo, ty: String::new() },
            path: verb(),
        },
    };
    let link: Link = api.to_link(|l| l, Link::default()).supply(String::from("jane doe/ii"));
    assert_eq!(texts(&link), vec!["users", "jane%20doe%2Fii"]);
    assert_eq!(link.query_params, vec![]);
}

#[test]
fn capture_all_appends_each_value_in_order() {
    let api = Sequence {
        component: Segment { tstr: MyFiles },
        path: Sequence { component: CaptureAll { ty: String::new() }, path: Raw },
    };
    let link: Link = api
        .to_link(|l| l, Link::default())
        .supply(vec![String::from("a"), String::from("b c"), String::from("a")]);
    assert_eq!(texts(&link), vec!["my%20files", "a", "b%20c", "a"]);
}

#[test]
fn capture_all_of_nothing_appends_nothing() {
    let api = Sequence { component: CaptureAll { ty: Number(0) }, path: Raw };
    let link: Link = api.to_link(|l| l, Link::default()).supply(vec![]);
    assert_eq!(link.segments, vec![]);
    assert_eq!(link.query_params, vec![]);
}

#[test]
fn a_query_parameter_is_taken_as_it_is() {
    let api = Sequence {
        component: QueryParam { name: Sort, ty: String::new() },
        path: verb(),
    };
    let link: Link = api.to_link(|l| l, Link::default()).supply(String::from("a&b c"));
    assert_eq!(link.segments, vec![]);
    assert_eq!(link.query_params, vec![single("sort by", "a&b c")]);
}

#[test]
fn a_request_body_leaves_the_link_alone() {
    let api = Sequence {
        component: Segment { tstr: Users },
        path: Sequence {
            component: ReqBody { cty: (), ty: Number(7) },
            path: Sequence { component: Segment { tstr: Foo }, path: verb() },
        },
    };
    let link: Link = api.to_link(|l| l, Link::default());
    assert_eq!(texts(&link), vec!["users", "foo"]);
    assert_eq!(link.query_params, vec![]);
    assert_eq!(link.fragment, None);
}

#[test]
fn values_are_asked_for_and_placed_in_declaration_order() {
    let api = Sequence {
        component: Segment { tstr: Users },
        path: Sequence {
            component: Capture { name: Foo, ty: Number(0) },
            path: Sequence {
                component: QueryParam { name: Page, ty: Number(0) },
                path: Sequence {
                    component: Segment { tstr: MyFiles },
                    path: Sequence {
                        component: QueryParam { name: Sort, ty: String::new() },
                        path: Sequence {
                            component: CaptureAll { ty: String::new() },
                            path: Sequence {
                                component: QueryParam { name: Page, ty: Number(0) },
                                path: verb(),
                            },
                        },
                    },
                },
            },
        },
    };
    let link: Link = api
        .to_link(|l| l, Link::default())
        .supply(Number(42))
        .supply(Number(2))
        .supply(String::from("name"))
        .supply(vec![String::from("x y"), String::from("z")])
        .supply(Number(3));
    assert_eq!(texts(&link), vec!["users", "42", "my%20files", "x%20y", "z"]);
    assert_eq!(
        link.query_params,
        vec![single("page", "2"), single("sort by", "name"), single("page", "3")]
    );
    assert_eq!(link.fragment, None);
}

#[test]
fn a_walk_extends_the_link_it_starts_from() {
    let start = Link {
        segments: vec![Escaped::from("api"), Escaped::from("v1")],
        query_params: vec![Param::Flag(String::from("debug"))],
        fragment: Some(String::from("top")),
    };
    let api = Sequence {
        component: Segment { tstr: Users },
        path: Sequence { component: QueryParam { name: Page, ty: Number(0) }, path: Raw },
    };
    let link: Link = api.to_link(|l| l, start).supply(Number(9));
    assert_eq!(texts(&link), vec!["api", "v1", "users"]);
    assert_eq!(
        link.query_params,
        vec![Param::Flag(String::from("debug")), single("page", "9")]
    );
    assert_eq!(link.fragment, Some(String::from("top")));
}

#[test]
fn a_partly_supplied_generator_is_inert_until_the_next_value() {
    let api = Sequence {
        component: Capture { name: Foo, ty: Number(0) },
        path: Sequence { component: Capture { name: Foo, ty: Number(0) }, path: Raw },
    };
    let calls = std::cell::Cell::new(0u32);
    let first = api.to_link(
        |l: Link| {
            calls.set(calls.get() + 1);
            l
        },
        Link::default(),
    );
    assert_eq!(calls.get(), 0);
    let second = first.supply(Number(1));
    assert_eq!(calls.get(), 0);
    let link: Link = second.supply(Number(2));
    assert_eq!(calls.get(), 1);
    assert_eq!(texts(&link), vec!["1", "2"]);
}

#[test]
fn generating_twice_gives_the_same_link() {
    let make = || Sequence {
        component: Segment { tstr: MyFiles },
        path: Sequence {
            component: Capture { name: Foo, ty: String::new() },
            path: Sequence { component: QueryParam { name: Page, ty: Number(0) }, path: verb() },
        },
    };
    let first: Link =
        make().to_link(|l| l, Link::default()).supply(String::from("a/b")).supply(Number(5));
    let second: Link =
        make().to_link(|l| l, Link::default()).supply(String::from("a/b")).supply(Number(5));
    assert_eq!(first, second);
    assert_eq!(texts(&first), vec!["my%20files", "a%2Fb"]);
    assert_eq!(first.query_params, vec![single("page", "5")]);
}

#[test]
fn a_route_of_literals_equals_the_link_built_by_hand() {
    let api = Sequence {
        component: Segment { tstr: Users },
        path: Sequence {
            component: Segment { tstr: MyFiles },
            path: Sequence {
                component: ReqBody { cty: (), ty: () },
                path: Sequence { component: Segment { tstr: Foo }, path: Raw },
            },
        },
    };
    let walked: Link = api.to_link(|l| l, Link::default());
    let by_hand = Link::default()
        .add_segment(Escaped::from("users"))
        .add_segment(Escaped::from("my files"))
        .add_segment(Escaped::from("foo"));
    assert_eq!(walked, by_hand);
}

#[test]
fn or_generates_the_link_of_the_chosen_branch() {
    let make = || Or {
        left: Sequence { component: Segment { tstr: Users }, path: verb() },
        right: Sequence {
            component: Segment { tstr: MyFiles },
            path: Sequence { component: Capture { name: Foo, ty: Number(0) }, path: Raw },
        },
    };
    let left: Link = make().left_link(|l| l, Link::default());
    assert_eq!(texts(&left), vec!["users"]);
    let right: Link = make().right_link(|l| l, Link::default()).supply(Number(8));
    assert_eq!(texts(&right), vec!["my%20files", "8"]);
}

#[test]
fn or_branches_can_be_reached_through_the_fields() {
    let api = Or {
        left: Sequence { component: Segment { tstr: Foo }, path: Raw },
        right: EmptyAPI,
    };
    let link: Link = api.left.to_link(|l| l, Link::default());
    assert_eq!(texts(&link), vec!["foo"]);
    let _none: EmptyAPI = api.right.to_link(|l: Link| l, Link::default());
}

#[test]
fn a_string_renders_to_itself() {
    assert_eq!(String::from("a b/c").to_url_piece(), "a b/c");
    assert_eq!(String::new().to_url_piece(), "");
}

#[test]
fn foo_stands_for_foo() {
    assert_eq!(Foo.as_str(), "foo");
    assert_eq!(Foo::default().as_str(), "foo");
}
