use route_links::{
    Escaped, Foo, HasLink, Link, Param, QueryParam, Segment, Sequence, ToHttpApiData, Verb,
};

#[test]
fn example_0() {
    type API = Sequence<Segment<Foo>, Verb<(), (), (), u32>>;

    let api: API = Sequence {
        component: Segment { tstr: Foo },
        path: Verb {
            method: (),
            status_code: (),
            cty: (),
            ty: 100,
        },
    };
    let l0: Link = api.to_link(|e| e, Default::default());
    assert_eq!(l0.segments, vec![Escaped::from("foo")]);

    struct Baloney;

    let api = Sequence {
        component: Segment { tstr: Foo },
        path: Sequence {
            component: QueryParam {
                name: Foo,
                ty: Baloney,
            },
            path: Verb {
                method: (),
                status_code: (),
                cty: (),
                ty: 100usize,
            },
        },
    };

    impl ToHttpApiData for Baloney {
        fn to_url_piece(&self) -> String {
            String::from("baloney")
        }
    }

    let l1 = api.to_link(|e| e, Default::default()).supply(Baloney);

    assert_eq!(l1.segments, vec![Escaped::from("foo")]);
    assert_eq!(
        l1.query_params,
        vec![Param::Single(String::from("foo"), String::from("baloney"))]
    );
}
