use pixelbuds::anc;
use pixelbuds::verb::{parse_bool, parse_trimmed_verb, parse_verb, quoted_message, Verb};

#[test]
fn parses_anc_verbs() {
    assert_eq!(parse_verb("anc:off").unwrap(), Verb::Anc(anc::OFF));
    assert_eq!(parse_verb("anc:adaptive").unwrap(), Verb::Anc(anc::ADAPTIVE));
    assert!(parse_verb("anc:sideways").is_err());
}

#[test]
fn parses_bool_verbs() {
    assert_eq!(parse_verb("multipoint:on").unwrap(), Verb::Multipoint(true));
    assert_eq!(parse_verb("ohd:off").unwrap(), Verb::OnHeadDetection(false));
    assert!(parse_verb("speech:maybe").is_err());
}

#[test]
fn parses_refresh_with_no_payload() {
    assert_eq!(parse_verb("refresh").unwrap(), Verb::Refresh);
}

#[test]
fn rejects_verbs_with_no_colon() {
    assert!(parse_verb("anc").is_err());
    assert!(parse_verb("").is_err());
}

#[test]
fn parses_every_documented_verb() {
    assert_eq!(parse_verb("anc:active").unwrap(), Verb::Anc(anc::ACTIVE));
    assert_eq!(parse_verb("anc:aware").unwrap(), Verb::Anc(anc::AWARE));
    assert_eq!(parse_verb("multipoint:off").unwrap(), Verb::Multipoint(false));
    assert_eq!(parse_verb("ohd:on").unwrap(), Verb::OnHeadDetection(true));
    assert_eq!(parse_verb("speech:on").unwrap(), Verb::SpeechDetection(true));
    assert_eq!(parse_verb("speech:off").unwrap(), Verb::SpeechDetection(false));
    assert_eq!(parse_verb("volumeexposure:on").unwrap(), Verb::VolumeExposureNotifications(true));
    assert_eq!(parse_verb("volumeexposure:off").unwrap(), Verb::VolumeExposureNotifications(false));
}

#[test]
fn refresh_with_a_payload_is_still_refresh() {
    assert_eq!(parse_verb("refresh:now").unwrap(), Verb::Refresh);
}

#[test]
fn surrounding_whitespace_is_ignored() {
    assert_eq!(parse_verb("  anc:aware\n").unwrap(), Verb::Anc(anc::AWARE));
    assert_eq!(parse_verb("\trefresh \r\n").unwrap(), Verb::Refresh);
    assert_eq!(parse_verb("\u{3000}ohd:on\u{a0}").unwrap(), Verb::OnHeadDetection(true));
}

#[test]
fn inner_whitespace_is_not_ignored() {
    assert_eq!(
        parse_verb("anc: off").unwrap_err(),
        "unknown anc mode: \" off\"".to_string()
    );
}

#[test]
fn splits_at_the_first_colon() {
    assert_eq!(
        parse_verb("multipoint:on:off").unwrap_err(),
        "expected \"on\" or \"off\", got \"on:off\"".to_string()
    );
}

#[test]
fn error_messages_quote_the_offending_part() {
    assert_eq!(
        parse_verb(" anc ").unwrap_err(),
        "malformed verb (expected \"name:value\"): \"anc\"".to_string()
    );
    assert_eq!(
        parse_verb("").unwrap_err(),
        "malformed verb (expected \"name:value\"): \"\"".to_string()
    );
    assert_eq!(
        parse_verb("anc:sideways").unwrap_err(),
        "unknown anc mode: \"sideways\"".to_string()
    );
    assert_eq!(
        parse_verb("speech:maybe").unwrap_err(),
        "expected \"on\" or \"off\", got \"maybe\"".to_string()
    );
    assert_eq!(parse_verb("eq:flat").unwrap_err(), "unknown verb: \"eq\"".to_string());
    assert_eq!(
        parse_verb("say:\"hi\"").unwrap_err(),
        "unknown verb: \"say\"".to_string()
    );
    assert_eq!(
        parse_verb("x\ny:on").unwrap_err(),
        "unknown verb: \"x\\ny\"".to_string()
    );
}

#[test]
fn names_are_case_sensitive() {
    assert!(parse_verb("ANC:off").is_err());
    assert!(parse_verb("anc:Off").is_err());
    assert!(parse_verb("Refresh").is_err());
}

#[test]
fn parse_bool_accepts_only_on_and_off() {
    assert_eq!(parse_bool("on"), Ok(true));
    assert_eq!(parse_bool("off"), Ok(false));
    assert_eq!(parse_bool("true"), Err("expected \"on\" or \"off\", got \"true\"".to_string()));
    assert_eq!(parse_bool(""), Err("expected \"on\" or \"off\", got \"\"".to_string()));
}

#[test]
fn trimmed_parse_keeps_whitespace() {
    assert_eq!(parse_trimmed_verb("anc:off").unwrap(), Verb::Anc(anc::OFF));
    assert_eq!(parse_trimmed_verb(" anc:off").unwrap_err(), "unknown verb: \" anc\"".to_string());
    assert_eq!(
        parse_trimmed_verb("refresh\n").unwrap_err(),
        "malformed verb (expected \"name:value\"): \"refresh\\n\"".to_string()
    );
}

#[test]
fn trims_exactly_unicode_white_space() {
    assert_eq!(parse_verb("\u{85}\u{2028}refresh\u{205f}\u{1680}").unwrap(), Verb::Refresh);
    assert_eq!(parse_verb("\u{2000}\u{200a}ohd:on\u{b}\u{c}").unwrap(), Verb::OnHeadDetection(true));
    assert_eq!(
        parse_verb("\u{200b}refresh").unwrap_err(),
        "malformed verb (expected \"name:value\"): \"\\u{200b}refresh\"".to_string()
    );
}

#[test]
fn quoted_messages_put_the_prefix_first() {
    assert_eq!(
        quoted_message("unknown verb: ", "\"eq\"".to_string()),
        "unknown verb: \"eq\"".to_string()
    );
    assert_eq!(quoted_message("", String::new()), String::new());
}
