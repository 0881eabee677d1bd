use markup_escape::markup::MarkupDisplay;

#[test]
fn a_wrapped_value_starts_unsafe() {
    assert_eq!(MarkupDisplay::from("<b>"), MarkupDisplay::Unsafe("<b>"));
    assert_eq!(MarkupDisplay::from(7), MarkupDisplay::Unsafe(7));
    let wrapped: MarkupDisplay<String> = "x".to_string().into();
    assert_eq!(wrapped, MarkupDisplay::Unsafe("x".to_string()));
}

#[test]
fn mark_safe_moves_to_safe_and_keeps_the_value() {
    assert_eq!(MarkupDisplay::from("<b>").mark_safe(), MarkupDisplay::Safe("<b>"));
    assert_eq!(MarkupDisplay::Unsafe(12).mark_safe(), MarkupDisplay::Safe(12));
}

#[test]
fn mark_safe_twice_is_mark_safe_once() {
    let once = MarkupDisplay::from("<i>&</i>").mark_safe();
    let twice = MarkupDisplay::from("<i>&</i>").mark_safe().mark_safe();
    assert_eq!(twice, once);
    assert_eq!(twice, MarkupDisplay::Safe("<i>&</i>"));
    assert_eq!(twice.render(), once.render());
    assert_eq!(twice.unsafe_string(), once.unsafe_string());
    assert_eq!(MarkupDisplay::Safe(1).mark_safe(), MarkupDisplay::Safe(1));
}

#[test]
fn safe_and_unsafe_are_different_states() {
    assert_ne!(MarkupDisplay::Safe("a"), MarkupDisplay::Unsafe("a"));
    assert_ne!(MarkupDisplay::Unsafe("a"), MarkupDisplay::Unsafe("b"));
}

#[test]
fn unsafe_string_is_the_value_as_it_displays() {
    assert_eq!(MarkupDisplay::Unsafe("<b>").unsafe_string(), "<b>");
    assert_eq!(MarkupDisplay::Safe("<b>").unsafe_string(), "<b>");
    assert_eq!(MarkupDisplay::from(-42).unsafe_string(), "-42");
    assert_eq!(MarkupDisplay::from('&').unsafe_string(), "&");
    assert_eq!(MarkupDisplay::from(true).mark_safe().unsafe_string(), "true");
}

#[test]
fn rendering_an_unsafe_value_escapes_it() {
    assert_eq!(MarkupDisplay::from("<b>").render(), "&lt;b&gt;");
    assert_eq!(MarkupDisplay::Unsafe("<b>").render(), "&lt;b&gt;");
    assert_eq!(MarkupDisplay::from("a & b".to_string()).render(), "a &amp; b");
    assert_eq!(MarkupDisplay::from('/').render(), "&#x2F;");
    assert_eq!(MarkupDisplay::from(15).render(), "15");
}

#[test]
fn rendering_a_safe_value_leaves_it_alone() {
    assert_eq!(MarkupDisplay::from("<b>").mark_safe().render(), "<b>");
    assert_eq!(MarkupDisplay::Safe("&<>\"'/`").render(), "&<>\"'/`");
    assert_eq!(MarkupDisplay::Safe(15).render(), "15");
}

#[test]
fn render_text_goes_by_the_state_alone() {
    let safe = MarkupDisplay::Safe(0);
    let raw = MarkupDisplay::Unsafe(0);
    assert_eq!(safe.render_text("<&>".to_string()), "<&>");
    assert_eq!(raw.render_text("<&>".to_string()), "&lt;&amp;&gt;");
    assert_eq!(safe.render_text(String::new()), "");
    assert_eq!(raw.render_text(String::new()), "");
    assert_eq!(raw.render_text("plain".to_string()), "plain");
}

#[test]
fn rendering_does_not_change_the_wrapper() {
    let wrapped = MarkupDisplay::from("<b>");
    assert_eq!(wrapped.render(), "&lt;b&gt;");
    assert_eq!(wrapped.render(), "&lt;b&gt;");
    assert_eq!(wrapped, MarkupDisplay::Unsafe("<b>"));
    let marked = wrapped.mark_safe();
    assert_eq!(marked.render(), "<b>");
    assert_eq!(marked, MarkupDisplay::Safe("<b>"));
}
