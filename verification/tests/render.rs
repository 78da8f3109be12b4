use amqp_client_cli::render_pretty;

#[test]
fn pretty_rendering_indents_the_payload() {
    let lines = render_pretty("{\"id\":1}").expect("well-formed payload");
    assert_eq!(lines, vec!["{".to_string(), "  \"id\": 1".to_string(), "}".to_string()]);
}

#[test]
fn malformed_payload_renders_to_nothing() {
    assert!(render_pretty("{\"id\":").is_none());
    assert!(render_pretty("not json at all {").is_none());
}

#[test]
fn pretty_rendering_is_idempotent() {
    let payload = "{\"b\":[1,2,{\"c\":null}],\"a\":\"x\\ny\",\"n\":-3.5}";
    let once = render_pretty(payload).expect("well-formed payload");
    let rejoined = once.join("\n");
    let twice = render_pretty(&rejoined).expect("rendered text is well-formed");
    assert_eq!(once, twice);
}

#[test]
fn idempotent_on_nested_structures() {
    let payload = "[true,false,null,{\"k\":{\"kk\":[[]]}},\"\"]";
    let once = render_pretty(payload).expect("well-formed payload");
    let twice = render_pretty(&once.join("\n")).expect("rendered text is well-formed");
    assert_eq!(once, twice);
}

#[test]
fn idempotent_on_floats_needing_the_roundtrip_parser() {
    // these shortest float renderings are not inverted by serde_json's
    // default parser; the crate builds with the correctly-rounding one
    let payload = "[51.248178375505404,-93.31137037688033,2.0030397744267762e-253,7.101215824554616e260]";
    let once = render_pretty(payload).expect("well-formed payload");
    let twice = render_pretty(&once.join("\n")).expect("rendered text is well-formed");
    assert_eq!(once, twice);
    let thrice = render_pretty(&twice.join("\n")).expect("rendered text is well-formed");
    assert_eq!(twice, thrice);
}

#[test]
fn scalar_payloads_render_on_one_line() {
    assert_eq!(render_pretty("42").unwrap(), vec!["42".to_string()]);
    assert_eq!(render_pretty("\"hi\"").unwrap(), vec!["\"hi\"".to_string()]);
}
