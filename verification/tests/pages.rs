use ripalt::pages::{error_template, needs_error_page};

#[test]
fn error_pages_for_client_and_server_errors() {
    assert!(!needs_error_page(200));
    assert!(!needs_error_page(301));
    assert!(!needs_error_page(399));
    assert!(needs_error_page(400));
    assert!(needs_error_page(404));
    assert!(needs_error_page(499));
    assert!(needs_error_page(500));
    assert!(needs_error_page(599));
    assert!(!needs_error_page(600));
}

#[test]
fn error_template_by_status_class() {
    assert_eq!(error_template(500), "error/5xx.html");
    assert_eq!(error_template(503), "error/5xx.html");
    assert_eq!(error_template(599), "error/5xx.html");
    assert_eq!(error_template(404), "error/4xx.html");
    assert_eq!(error_template(400), "error/4xx.html");
    assert_eq!(error_template(600), "error/4xx.html");
}
