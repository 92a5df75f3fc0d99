use entry_cli::error::CliError;

#[test]
fn test_error_creation() {
    let config_err = CliError::config("Invalid config");
    assert!(matches!(config_err, CliError::Config(_)));
    assert_eq!(config_err.to_string(), "Configuration error: Invalid config");

    let input_err = CliError::invalid_input("Bad input");
    assert!(matches!(input_err, CliError::InvalidInput(_)));
    assert_eq!(input_err.to_string(), "Invalid input: Bad input");

    let api_err = CliError::api_error(404, "Not found");
    assert!(matches!(api_err, CliError::ApiError { .. }));
    assert_eq!(api_err.to_string(), "API error: 404 - Not found");
}

#[test]
fn test_error_display() {
    let auth_err = CliError::Authentication;
    assert_eq!(auth_err.to_string(), "Authentication failed");

    let entry_err = CliError::EntryNotFound("Entry 123".to_string());
    assert_eq!(entry_err.to_string(), "Entry not found: Entry 123");
}

#[test]
fn transport_and_decoding_errors_have_their_prefix() {
    assert_eq!(CliError::Request("timed out".to_string()).to_string(), "HTTP request failed: timed out");
    assert_eq!(CliError::Serialization("eof".to_string()).to_string(), "Serialization failed: eof");
    assert_eq!(CliError::Io("denied".to_string()).to_string(), "IO error: denied");
    assert_eq!(CliError::api_error(0, "").to_string(), "API error: 0 - ");
}
