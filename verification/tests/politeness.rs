use tankovault_console::politeness::{
    denotes_real, emulation_field, emulation_token, politeness_body, BrowserEmulation,
    PolitenessInput, EMULATION_CHOICES,
};

fn body(emulation: &str) -> PolitenessInput {
    politeness_body("1.5", "4", "250", "TankoVault/1.0", emulation)
        .expect("the numeric fields parse")
}

#[test]
fn choosing_no_emulation_omits_the_key() {
    assert_eq!(
        body("").emulation,
        None,
        "the profile must be absent: that is how this request shape spells \"no emulation\""
    );
}

#[test]
fn a_chosen_profile_is_sent_as_its_token() {
    assert_eq!(body("ok_http").emulation.map(BrowserEmulation::token), Some("ok_http"));
}

#[test]
fn an_unrecognised_token_is_not_quietly_turned_into_no_emulation() {
    assert_eq!(
        politeness_body("1", "4", "250", "", "netscape").unwrap_err(),
        "console.providers.badEmulation"
    );
}

#[test]
fn the_picker_token_round_trips_through_the_body() {
    let cases = ["", "chrome", "firefox", "safari", "edge", "ok_http"];
    for token in cases {
        let politeness = politeness_body("1", "1", "0", "", token).expect("fields parse");
        assert_eq!(
            emulation_token(politeness.emulation.as_ref()),
            token,
            "`{token}` did not survive the editor's own round trip"
        );
    }
}

#[test]
fn no_stored_emulation_seeds_the_no_emulation_option() {
    assert_eq!(emulation_token(None), "");
}

#[test]
fn each_unparseable_field_names_itself() {
    assert_eq!(
        politeness_body("x", "4", "250", "", "").unwrap_err(),
        "console.providers.badRps"
    );
    assert_eq!(
        politeness_body("1", "-1", "250", "", "").unwrap_err(),
        "console.providers.badConcurrency"
    );
    assert_eq!(
        politeness_body("1", "4", "2.5", "", "").unwrap_err(),
        "console.providers.badCrawlDelay"
    );
}

#[test]
fn the_body_holds_what_was_typed() {
    let body = politeness_body(" 1.5 ", "\t4", "250\n", " agent ", "ok_http").expect("a body");
    assert_eq!(body.rps.as_deref(), Some("1.5"));
    assert_eq!(body.concurrency, Some(4));
    assert_eq!(body.crawl_delay_ms, Some(250));
    assert_eq!(body.user_agent.as_deref(), Some(" agent "));
    assert_eq!(body.emulation, Some(BrowserEmulation::OkHttp));
}

#[test]
fn the_figures_stop_at_the_widths_of_their_fields() {
    assert!(politeness_body("1", "2147483647", "9223372036854775807", "", "").is_ok());
    assert_eq!(
        politeness_body("1", "2147483648", "0", "", "").unwrap_err(),
        "console.providers.badConcurrency"
    );
    assert_eq!(
        politeness_body("1", "1", "9223372036854775808", "", "").unwrap_err(),
        "console.providers.badCrawlDelay"
    );
    assert!(politeness_body("1", "+7", "0", "", "").is_ok());
}

#[test]
fn a_real_number_is_what_the_parser_of_one_accepts() {
    let texts = [
        "", "+", "-", ".", "1", "1.", ".5", "1.5", "+1.5", "-1.5", "1e5", "1E-5", "1.e+5", "e5",
        "1e", "1e+", "inf", "-Infinity", "NaN", "nanx", "1 ", "1_0", "0x1", "١", "1..2", "1.2.3",
        "--1", "+-1", ".e1", "5e1.2", "infinit", "INF",
    ];
    for text in texts {
        assert_eq!(denotes_real(text), text.parse::<f64>().is_ok(), "{text:?}");
    }
}

#[test]
fn the_picker_lists_every_profile() {
    for (profile, _) in EMULATION_CHOICES {
        assert_eq!(emulation_field(profile.token()), Ok(Some(profile)));
        assert_eq!(BrowserEmulation::parse(profile.token()), Some(profile));
    }
    assert_eq!(emulation_field(""), Ok(None));
    assert_eq!(emulation_field("Chrome"), Err("console.providers.badEmulation"));
}
