use get_newsblur::errors::RunError;
use get_newsblur::form::{login_body, starred_stories_body, encode_pairs};
use get_newsblur::pages::{decode_page, render_output};
use get_newsblur::text::{join_strings, u64_to_decimal};

#[test]
fn login_body_with_password() {
    assert_eq!(login_body("user", Some("hunter2")), "username=user&password=hunter2");
}

#[test]
fn login_body_escapes_reserved_characters() {
    assert_eq!(login_body("a b", Some("c&d=e")), "username=a+b&password=c%26d%3De");
}

#[test]
fn empty_password_sends_no_password_field() {
    assert_eq!(login_body("user", Some("")), "username=user");
    assert_eq!(login_body("user", None), "username=user");
    assert_eq!(login_body("user", Some("")), login_body("user", None));
}

#[test]
fn page_body_carries_the_page_index() {
    assert_eq!(starred_stories_body(Some(0), None), "page=0");
    assert_eq!(starred_stories_body(Some(1234567890), None), "page=1234567890");
}

#[test]
fn story_hashes_become_repeated_h_fields() {
    let hashes = vec!["aa:11".to_string(), "bb:22".to_string()];
    assert_eq!(starred_stories_body(None, Some(hashes)), "h=aa%3A11&h=bb%3A22");
}

#[test]
fn page_and_hashes_combine_in_order() {
    let hashes = vec!["x".to_string()];
    assert_eq!(starred_stories_body(Some(2), Some(hashes)), "page=2&h=x");
}

#[test]
fn no_parameters_give_an_empty_body() {
    assert_eq!(starred_stories_body(None, None), "");
    assert_eq!(encode_pairs(&Vec::new()), "");
}

#[test]
fn decode_page_returns_the_stories_in_order() {
    let stories = decode_page("{\"stories\":[{\"id\":1},{\"id\":2}]}").unwrap();
    assert_eq!(stories, vec!["{\"id\":1}".to_string(), "{\"id\":2}".to_string()]);
}

#[test]
fn decode_page_reads_real_json_not_the_raw_text() {
    let stories = decode_page("{ \"stories\" : [ 1, \"two\", [3] ] }").unwrap();
    assert_eq!(stories, vec!["1".to_string(), "\"two\"".to_string(), "[3]".to_string()]);
}

#[test]
fn decode_page_rejects_a_missing_stories_field() {
    assert_eq!(decode_page("{\"not_stories\": []}").unwrap_err(), RunError::Decode);
}

#[test]
fn decode_page_rejects_a_non_array_stories_field() {
    assert_eq!(decode_page("{\"stories\": 3}").unwrap_err(), RunError::Decode);
}

#[test]
fn decode_page_rejects_non_json_text() {
    assert_eq!(decode_page("<html>no</html>").unwrap_err(), RunError::Decode);
}

#[test]
fn render_output_frames_the_stories() {
    let acc = vec!["{\"id\":7}".to_string(), "{\"id\":8}".to_string()];
    assert_eq!(render_output(&acc), "{\"stories\":[{\"id\":7},{\"id\":8}]}");
}

#[test]
fn render_output_is_byte_identical_across_calls() {
    let acc = vec!["{\"id\":7}".to_string()];
    assert_eq!(render_output(&acc), render_output(&acc));
    assert_eq!(render_output(&Vec::new()), "{\"stories\":[]}");
}

#[test]
fn rendering_a_decoded_page_reproduces_its_array() {
    let body = "{\"stories\":[{\"id\":1},{\"id\":2}]}";
    let stories = decode_page(body).unwrap();
    assert_eq!(render_output(&stories), body);
}

#[test]
fn decimal_formatting_matches_std() {
    for n in [0u64, 1, 9, 10, 99, 100, 4294967295, u64::MAX] {
        assert_eq!(u64_to_decimal(n), n.to_string());
    }
}

#[test]
fn join_strings_places_the_separator_between_parts() {
    let parts = vec!["a".to_string(), "b".to_string(), "c".to_string()];
    assert_eq!(join_strings(&parts, "; "), "a; b; c");
    assert_eq!(join_strings(&vec!["solo".to_string()], "; "), "solo");
    assert_eq!(join_strings(&Vec::new(), "; "), "");
}

#[test]
fn stage_names_identify_the_failing_stage() {
    assert_eq!(RunError::DestinationExists.stage_name(), "pre-flight");
    assert_eq!(RunError::Auth.stage_name(), "auth");
    assert_eq!(RunError::Fetch.stage_name(), "fetch");
    assert_eq!(RunError::Decode.stage_name(), "decode");
    assert_eq!(RunError::Persist.stage_name(), "persist");
}
