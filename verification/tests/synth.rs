use calculagraph::target::parse_body;
use calculagraph::{
    builder, synthesize, timer_log_debug, timer_log_info, timer_log_trace, timer_println,
    Directive, DirectiveArg, FunctionParts, Sink, SourceItem, TimeUnit, TimerError,
};
use proc_macro2::TokenStream;

const NOW: &str = "now_x7bf707c839bc2554fa3f1913a8dc699b68236726c5da18b31f660948ca7f542a267de9b";
const RESULT: &str =
    "result_x7bf707c839bc2554fa3f1913a8dc699b68236726c5da18b31f660948ca7f542a267de9b";

fn stream(src: &str) -> TokenStream {
    src.parse().unwrap()
}

fn function(attrs: &[&str], vis: &str, sig: &str, name: &str, stmts: &[&str]) -> SourceItem {
    SourceItem::Function(FunctionParts {
        attrs: attrs.iter().map(|a| stream(a)).collect(),
        vis: stream(vis),
        sig: stream(sig),
        name: name.to_string(),
        stmts: stmts.iter().map(|s| stream(s)).collect(),
    })
}

fn token(name: &str) -> DirectiveArg {
    DirectiveArg::Path { global: false, segments: vec![name.to_string()] }
}

fn literal(text: &str) -> DirectiveArg {
    DirectiveArg::Str(text.to_string())
}

/// The replacement as source text: `head` is the declaration up to the body.
fn replacement(head: &str, stmts: &str, sink: &str, format: &str, accessor: &str) -> String {
    let src = format!(
        "{head} {{ \
           let {NOW} = std::time::Instant::now(); \
           let {RESULT} = (move || {{ {stmts} }})(); \
           {sink}({format}, {NOW}.elapsed().{accessor}()); \
           return {RESULT}; \
         }}"
    );
    stream(&src).to_string()
}

#[test]
fn bare_directive_wraps_with_milliseconds() {
    let item = function(&[], "", "fn func()", "func", &[]);
    let out = timer_println(&vec![], &item).unwrap();
    assert_eq!(
        out.to_string(),
        replacement("fn func()", "", "println!", "\"fn:func cost {}ms\"", "as_millis")
    );
}

#[test]
fn unit_selects_the_accessor_and_the_default_format() {
    let cases = [
        ("s", "\"fn:f cost {}s\"", "as_secs"),
        ("ms", "\"fn:f cost {}ms\"", "as_millis"),
        ("us", "\"fn:f cost {}us\"", "as_micros"),
        ("ns", "\"fn:f cost {}ns\"", "as_nanos"),
        ("NS", "\"fn:f cost {}ns\"", "as_nanos"),
    ];
    for (unit, format, accessor) in cases {
        let item = function(&[], "", "fn f() -> u32", "f", &["work();", "7"]);
        let out = timer_println(&vec![token(unit)], &item).unwrap();
        assert_eq!(
            out.to_string(),
            replacement("fn f() -> u32", "work(); 7", "println!", format, accessor)
        );
    }
}

#[test]
fn explicit_format_is_emitted_as_a_string_literal() {
    let item = function(&[], "", "fn func2()", "func2", &[]);
    let args = vec![token("ns"), literal("func2() execution time: {}ns")];
    let out = timer_println(&args, &item).unwrap();
    assert_eq!(
        out.to_string(),
        replacement("fn func2()", "", "println!", "\"func2() execution time: {}ns\"", "as_nanos")
    );
}

#[test]
fn format_text_is_escaped_where_the_literal_needs_it() {
    let item = function(&[], "", "fn f()", "f", &[]);
    let text = "say \"{}\"\\ on\ttwo\nlines";
    let out = timer_println(&vec![token("us"), literal(text)], &item).unwrap();
    assert_eq!(
        out.to_string(),
        replacement("fn f()", "", "println!", "\"say \\\"{}\\\"\\\\ on\\ttwo\\nlines\"", "as_micros")
    );
    let parsed: syn::ItemFn = syn::parse2(out).unwrap();
    let call = match &parsed.block.stmts[2] {
        syn::Stmt::Semi(syn::Expr::Macro(call), _) => call,
        other => panic!("unexpected statement {:?}", quote::ToTokens::to_token_stream(other)),
    };
    let first = call.mac.tokens.clone().into_iter().next().unwrap();
    let lit: syn::LitStr = syn::parse2(TokenStream::from(first)).unwrap();
    assert_eq!(lit.value(), text);
}

#[test]
fn attributes_visibility_and_signature_pass_through() {
    let item = function(
        &["#[inline]", "#[doc = \"adds\"]", "#[allow(unused)]"],
        "pub(crate)",
        "async unsafe fn add<'a, T: Copy>(a: &'a T, b: u8) -> Option<T> where T: Send",
        "add",
        &["let c = *a;", "if b > 0 { return None; }", "Some(c)"],
    );
    let out = timer_log_info(&vec![token("us")], &item).unwrap();
    assert_eq!(
        out.to_string(),
        replacement(
            "#[inline] #[doc = \"adds\"] #[allow(unused)] pub(crate) \
             async unsafe fn add<'a, T: Copy>(a: &'a T, b: u8) -> Option<T> where T: Send",
            "let c = *a; if b > 0 { return None; } Some(c)",
            "log::info!",
            "\"fn:add cost {}us\"",
            "as_micros"
        )
    );
}

#[test]
fn each_entry_point_fixes_its_sink() {
    let item = function(&[], "pub", "fn job()", "job", &["run();"]);
    let args = vec![token("s")];
    let head = "pub fn job()";
    let format = "\"fn:job cost {}s\"";
    assert_eq!(
        timer_println(&args, &item).unwrap().to_string(),
        replacement(head, "run();", "println!", format, "as_secs")
    );
    assert_eq!(
        timer_log_info(&args, &item).unwrap().to_string(),
        replacement(head, "run();", "log::info!", format, "as_secs")
    );
    assert_eq!(
        timer_log_debug(&args, &item).unwrap().to_string(),
        replacement(head, "run();", "log::debug!", format, "as_secs")
    );
    assert_eq!(
        timer_log_trace(&args, &item).unwrap().to_string(),
        replacement(head, "run();", "log::trace!", format, "as_secs")
    );
}

#[test]
fn synthesize_wraps_the_parts_as_the_directive_says() {
    let parts = FunctionParts {
        attrs: vec![stream("#[inline]")],
        vis: stream("pub"),
        sig: stream("fn twice(x: u64) -> u64"),
        name: "twice".to_string(),
        stmts: vec![stream("let y = x * 2;"), stream("y")],
    };
    let directive = Directive { unit: TimeUnit::S, format: "twice: {} s".to_string() };
    let out = synthesize(&directive, &parts, &stream("log::trace!"));
    assert_eq!(
        out.to_string(),
        replacement(
            "#[inline] pub fn twice(x: u64) -> u64",
            "let y = x * 2; y",
            "log::trace!",
            "\"twice: {} s\"",
            "as_secs"
        )
    );
    // The name in the parts plays no part once the directive is resolved.
    let renamed = FunctionParts { name: "other".to_string(), ..parts };
    assert_eq!(synthesize(&directive, &renamed, &stream("log::trace!")).to_string(), out.to_string());
}

#[test]
fn synthesize_of_nothing_is_the_bare_body() {
    let parts = FunctionParts {
        attrs: Vec::new(),
        vis: TokenStream::new(),
        sig: TokenStream::new(),
        name: String::new(),
        stmts: Vec::new(),
    };
    let directive = Directive { unit: TimeUnit::NS, format: String::new() };
    let out = synthesize(&directive, &parts, &TokenStream::new());
    assert_eq!(out.to_string(), replacement("", "", "", "\"\"", "as_nanos"));
}

#[test]
fn sink_tokens_invoke_the_macro() {
    assert_eq!(Sink::Println.quote().to_string(), stream("println!").to_string());
    assert_eq!(Sink::LogInfo.quote().to_string(), stream("log::info!").to_string());
    assert_eq!(Sink::LogDebug.quote().to_string(), stream("log::debug!").to_string());
    assert_eq!(Sink::LogTrace.quote().to_string(), stream("log::trace!").to_string());
}

#[test]
fn builder_takes_any_sink() {
    let item = function(&[], "", "fn g()", "g", &["step();"]);
    let out = builder(&vec![token("ns"), literal("took {} nanoseconds")], &item, &stream("emit"))
        .unwrap();
    assert_eq!(
        out.to_string(),
        replacement("fn g()", "step();", "emit", "\"took {} nanoseconds\"", "as_nanos")
    );
    let out = builder(&vec![], &item, &stream("crate::report::to_file!")).unwrap();
    assert_eq!(
        out.to_string(),
        replacement("fn g()", "step();", "crate::report::to_file!", "\"fn:g cost {}ms\"", "as_millis")
    );
}

#[test]
fn replacement_is_a_function_with_the_same_declaration() {
    let item = function(
        &["#[must_use]"],
        "pub",
        "fn area(w: u32, h: u32) -> u32",
        "area",
        &["let a = w * h;", "a"],
    );
    let out = timer_log_trace(&vec![], &item).unwrap();
    let parsed: syn::ItemFn = syn::parse2(out).unwrap();
    assert_eq!(parsed.sig.ident.to_string(), "area");
    assert_eq!(parsed.attrs.len(), 1);
    assert!(matches!(parsed.vis, syn::Visibility::Public(_)));
    assert_eq!(parsed.sig.inputs.len(), 2);
    assert_eq!(parsed.block.stmts.len(), 4);
}

#[test]
fn injected_variables_carry_the_fixed_suffix() {
    let item = function(&[], "", "fn f()", "f", &[]);
    let text = timer_println(&vec![], &item).unwrap().to_string();
    assert_eq!(text.matches(NOW).count(), 2);
    assert_eq!(text.matches(RESULT).count(), 2);
    assert_ne!(NOW, RESULT);
}

#[test]
fn synthesis_gives_the_same_output_for_the_same_input() {
    let make = || {
        function(
            &["#[inline]"],
            "pub",
            "fn f(x: u8) -> u8",
            "f",
            &["let y = x + 1;", "y"],
        )
    };
    let args = || vec![token("us"), literal("f took {}us")];
    let first = builder(&args(), &make(), &stream("log::info!")).unwrap().to_string();
    let second = builder(&args(), &make(), &stream("log::info!")).unwrap().to_string();
    assert_eq!(first, second);
    let item = make();
    let third = timer_log_info(&args(), &item).unwrap().to_string();
    let fourth = timer_log_info(&args(), &item).unwrap().to_string();
    assert_eq!(third, fourth);
    assert_eq!(first, third);
}

#[test]
fn synthesis_fails_the_same_way_for_the_same_input() {
    let item = function(&[], "", "fn f()", "f", &[]);
    let args = vec![token("minutes")];
    assert_eq!(timer_println(&args, &item).unwrap_err(), TimerError::InvalidTimeUnit);
    assert_eq!(timer_println(&args, &item).unwrap_err(), TimerError::InvalidTimeUnit);
}

#[test]
fn item_that_is_no_function_is_refused() {
    let lists = vec![
        vec![],
        vec![token("ms")],
        vec![token("ns"), literal("{}")],
        vec![token("bogus")],
        vec![token("ms"), token("ms")],
        vec![token("ms"), literal("{}"), literal("extra")],
    ];
    for args in lists {
        assert_eq!(
            timer_println(&args, &SourceItem::Other).unwrap_err(),
            TimerError::UnsupportedTargetKind
        );
        assert_eq!(
            timer_log_info(&args, &SourceItem::Other).unwrap_err(),
            TimerError::UnsupportedTargetKind
        );
        assert_eq!(
            timer_log_debug(&args, &SourceItem::Other).unwrap_err(),
            TimerError::UnsupportedTargetKind
        );
        assert_eq!(
            timer_log_trace(&args, &SourceItem::Other).unwrap_err(),
            TimerError::UnsupportedTargetKind
        );
        assert_eq!(
            builder(&args, &SourceItem::Other, &stream("emit")).unwrap_err(),
            TimerError::UnsupportedTargetKind
        );
    }
}

#[test]
fn parse_body_hands_out_the_parts_of_a_function() {
    let item = function(&["#[test]"], "pub", "fn f()", "f", &["a();", "b()"]);
    let parts = parse_body(&item).unwrap();
    assert_eq!(parts.name, "f");
    assert_eq!(parts.attrs.len(), 1);
    assert_eq!(parts.attrs[0].to_string(), stream("#[test]").to_string());
    assert_eq!(parts.vis.to_string(), "pub");
    assert_eq!(parts.sig.to_string(), stream("fn f()").to_string());
    assert_eq!(parts.stmts.len(), 2);
    assert_eq!(parts.stmts[0].to_string(), stream("a();").to_string());
    assert_eq!(parts.stmts[1].to_string(), stream("b()").to_string());
}

#[test]
fn parse_body_refuses_other_items() {
    assert_eq!(parse_body(&SourceItem::Other).unwrap_err(), TimerError::UnsupportedTargetKind);
}

#[test]
fn directive_errors_reach_the_caller_unchanged() {
    let item = function(&[], "", "fn f()", "f", &[]);
    assert_eq!(
        timer_println(&vec![token("ms"), literal("a"), literal("b")], &item).unwrap_err(),
        TimerError::TooManyArguments
    );
    assert_eq!(
        timer_log_info(&vec![literal("ms")], &item).unwrap_err(),
        TimerError::InvalidTimeUnit
    );
    assert_eq!(
        timer_log_debug(&vec![token("ms"), token("fmt")], &item).unwrap_err(),
        TimerError::InvalidFormatLiteral
    );
    assert_eq!(
        timer_log_trace(&vec![DirectiveArg::Other, DirectiveArg::Other, DirectiveArg::Other], &item)
            .unwrap_err(),
        TimerError::TooManyArguments
    );
}
