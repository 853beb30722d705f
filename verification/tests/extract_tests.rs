use aspen::errors::AspenError;
use aspen::extract::extract_session_tokens;
use aspen::AspenInfo;

fn good_page() -> String {
    let mut page = String::new();
    page.push_str("<html><head>\n");
    page.push_str("<script language=\"JavaScript\">sessionId='ABC123';</script>\n");
    page.push_str("<input type=\"hidden\" name=\"org.apache.struts.taglib.html.TOKEN\" value=\"tok-xyz\">\n");
    page.push_str("</head><body></body></html>\n");
    page
}

#[test]
fn extracts_both_tokens() {
    let page = good_page();
    let (session_id, apache_token) = extract_session_tokens(&page).unwrap();
    assert_eq!(session_id, "ABC123");
    assert_eq!(apache_token, "tok-xyz");
}

#[test]
fn info_new_extracts_both_tokens() {
    let page = good_page();
    let info = AspenInfo::new(&page).unwrap();
    assert_eq!(info.session_id, "ABC123");
    assert_eq!(info.apache_token, "tok-xyz");
}

#[test]
fn missing_session_id_is_no_session() {
    let page = "<html>\n<input type=\"hidden\" name=\"org.apache.struts.taglib.html.TOKEN\" value=\"tok-xyz\">\n</html>";
    assert_eq!(extract_session_tokens(page), Err(AspenError::NoSession));
}

#[test]
fn missing_token_is_no_session_even_with_session_id() {
    let page = "<html>\n<script>sessionId='ABC123';</script>\n</html>";
    assert_eq!(extract_session_tokens(page), Err(AspenError::NoSession));
}

#[test]
fn empty_page_is_no_session() {
    assert_eq!(extract_session_tokens(""), Err(AspenError::NoSession));
}

#[test]
fn empty_session_id_is_no_session() {
    // The capture needs at least one character: `sessionId='';` matches nothing.
    let page = "<script>sessionId='';</script>\n<input name=\"org.apache.struts.taglib.html.TOKEN\" value=\"tok\">\n";
    assert_eq!(extract_session_tokens(page), Err(AspenError::NoSession));
}

#[test]
fn session_id_capture_is_greedy_within_its_line() {
    // Two closing `';` on the same line: the capture runs to the last one.
    let page = "<script>sessionId='AB';CD';</script>\n<input name=\"org.apache.struts.taglib.html.TOKEN\" value=\"tok\">\n";
    let (session_id, _) = extract_session_tokens(page).unwrap();
    assert_eq!(session_id, "AB';CD");
}

#[test]
fn session_id_match_is_leftmost() {
    let page = "<script>sessionId='first';\nsessionId='second';</script>\n<input name=\"org.apache.struts.taglib.html.TOKEN\" value=\"tok\">\n";
    let (session_id, _) = extract_session_tokens(page).unwrap();
    assert_eq!(session_id, "first");
}

#[test]
fn capture_cannot_cross_a_newline() {
    let page = "<script>sessionId='AB\n';</script>\n<input name=\"org.apache.struts.taglib.html.TOKEN\" value=\"tok\">\n";
    assert_eq!(extract_session_tokens(page), Err(AspenError::NoSession));
}

#[test]
fn token_capture_is_greedy_within_its_line() {
    // A further quote later on the same line extends the token capture.
    let page = "<script>sessionId='sid';</script>\n<input name=\"org.apache.struts.taglib.html.TOKEN\" value=\"tok\" id=\"x\">\n";
    let (_, apache_token) = extract_session_tokens(page).unwrap();
    assert_eq!(apache_token, "tok\" id=\"x");
}

#[test]
fn token_name_must_match_exactly() {
    let page = "<script>sessionId='sid';</script>\n<input name=\"org.apache.struts.taglib.html.token\" value=\"tok\">\n";
    assert_eq!(extract_session_tokens(page), Err(AspenError::NoSession));
}

#[test]
fn error_messages() {
    assert_eq!(
        AspenError::NoSession.message(),
        "NoSession Error, Invalid Response Returned"
    );
    assert_eq!(
        AspenError::InvalidLogin.message(),
        "InvalidLogin Error, Please Try Again"
    );
}
