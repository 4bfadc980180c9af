use blog::error::BlogError;

#[test]
fn template_error_message() {
    let error = BlogError::TemplateError("boom".to_string());
    assert_eq!(error.message(), "Template Error: \"boom\"");
}

#[test]
fn missing_content_message() {
    let error = BlogError::MissingContent("no article with that name found".to_string());
    assert_eq!(error.message(), "Missing content: \"no article with that name found\"");
}

#[test]
fn io_error_message() {
    let error = BlogError::IOError("permission denied".to_string());
    assert_eq!(error.message(), "I/O Error: \"permission denied\"");
}

#[test]
fn message_escapes_the_detail() {
    let error = BlogError::IOError("line\n\"quoted\"".to_string());
    assert_eq!(error.message(), "I/O Error: \"line\\n\\\"quoted\\\"\"");
}

#[test]
fn label_goes_before_what_is_quoted() {
    let error = BlogError::MissingContent("x".to_string());
    assert_eq!(error.text(), "x");
    assert_eq!(error.labelled("'x'"), "Missing content: 'x'");
    assert_eq!(BlogError::IOError(String::new()).labelled(""), "I/O Error: ");
    assert_eq!(BlogError::TemplateError(String::new()).labelled("!"), "Template Error: !");
}

#[test]
fn message_of_an_empty_detail() {
    let error = BlogError::TemplateError(String::new());
    assert_eq!(error.message(), "Template Error: \"\"");
}
