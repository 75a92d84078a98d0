use stock_bars::cli::{DatabaseArgs, DatabaseCommands};
use stock_bars::errors::EnrichError;

#[test]
fn test_error_descriptions() {
    assert_eq!(EnrichError::Computation.describe(), "invalid indicator parameters");
    assert_eq!(EnrichError::MalformedTimestamp.describe(), "malformed bar timestamp");
}

#[test]
fn test_database_command_uri() {
    let create = DatabaseCommands::CreateDatabase { uri: "sqlite://a.db".to_string() };
    assert_eq!(create.uri(), "sqlite://a.db");
    let test = DatabaseCommands::TestConnection { uri: "sqlite://b.db".to_string() };
    assert_eq!(test.uri(), "sqlite://b.db");
    let args = DatabaseArgs { subcommand: create };
    assert_eq!(args.subcommand.uri(), "sqlite://a.db");
}
