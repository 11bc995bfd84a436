use brocode::cli::{Cli, Commands};

#[test]
fn commit_subcommand_carries_the_manual_message() {
    let cli = Cli { command: Commands::Commit { message: Some("msg".to_string()) } };
    match cli.command {
        Commands::Commit { message } => assert_eq!(message, Some("msg".to_string())),
    }
    let cli = Cli { command: Commands::Commit { message: None } };
    assert_eq!(cli, Cli { command: Commands::Commit { message: None } });
}
