//! Host name sanitising and status line parsing.

use smugglex::utils::{export_file_name, parse_status_code, sanitize_hostname};

#[test]
fn utils_tests_test_sanitize_hostname_dots() {
    let result = sanitize_hostname("example.com");
    assert_eq!(
        result, "example_com",
        "Dots should be replaced with underscores"
    );
}

#[test]
fn utils_tests_test_sanitize_hostname_colons() {
    let result = sanitize_hostname("example.com:8080");
    assert_eq!(
        result, "example_com_8080",
        "Colons should be replaced with underscores"
    );
}

#[test]
fn utils_tests_test_sanitize_hostname_slashes() {
    let result = sanitize_hostname("example.com/path");
    assert_eq!(
        result, "example_com_path",
        "Slashes should be replaced with underscores"
    );
}

#[test]
fn utils_tests_test_sanitize_hostname_multiple_special_chars() {
    let result = sanitize_hostname("sub.example.com:8080/path");
    assert_eq!(
        result, "sub_example_com_8080_path",
        "All special characters should be replaced with underscores"
    );
}

#[test]
fn utils_tests_test_sanitize_hostname_no_special_chars() {
    let result = sanitize_hostname("localhost");
    assert_eq!(
        result, "localhost",
        "Should remain unchanged if no special chars"
    );
}

#[test]
fn test_parse_status_code_http11_200() {
    assert_eq!(parse_status_code("HTTP/1.1 200 OK"), Some(200));
}

#[test]
fn test_parse_status_code_http10_404() {
    assert_eq!(parse_status_code("HTTP/1.0 404 Not Found"), Some(404));
}

#[test]
fn test_parse_status_code_http2() {
    assert_eq!(parse_status_code("HTTP/2 301 Moved Permanently"), Some(301));
}

#[test]
fn test_parse_status_code_invalid() {
    assert_eq!(parse_status_code("not a status line"), None);
}

#[test]
fn test_parse_status_code_empty() {
    assert_eq!(parse_status_code(""), None);
}

#[test]
fn test_parse_status_code_partial() {
    assert_eq!(parse_status_code("HTTP/1.1"), None);
}

#[test]
fn utils_tests_test_export_payload_sanitizes_hostname() {
    let filename = export_file_name("exports", "sub.example.com:8080", "TECL", 1, false);

    // Verify filename contains sanitized components
    assert!(
        filename.contains("sub_example_com_8080"),
        "Filename should sanitize dots and colons to underscores"
    );
    assert!(
        filename.contains("http_"),
        "Filename should indicate HTTP protocol"
    );
    assert!(
        filename.contains("TECL"),
        "Filename should include check type"
    );
    assert!(
        filename.contains("_1.txt"),
        "Filename should include payload index"
    );
}

#[test]
fn utils_tests_test_export_payload_with_https() {
    let filename = export_file_name("exports", "secure.example.com", "CL.TE", 0, true);
    assert!(
        filename.contains("https_"),
        "Filename should indicate HTTPS protocol"
    );
}

#[test]
fn utils_tests_test_export_payload_multiple_files() {
    let file1 = export_file_name("exports", "example.com", "CL.TE", 0, true);
    let file2 = export_file_name("exports", "example.com", "CL.TE", 1, true);
    let file3 = export_file_name("exports", "example.com", "TE.CL", 0, true);

    assert_ne!(file1, file2, "Files should have different names");
    assert_ne!(file1, file3, "Files should have different names");
    assert_ne!(file2, file3, "Files should have different names");
}
