use rooney::commands::{Command, Commands, Error, Kind};

fn custom(name: &str, kind: Kind) -> Command {
    Command { name: name.to_string(), help: format!("{} helps", name), kind, window: None }
}

#[test]
fn usual_registry_holds_the_nine_commands_in_order() {
    let commands = Commands::new();
    assert_eq!(commands.len(), 9);
    let names: Vec<String> = (0..9).map(|i| commands.get(i).name.clone()).collect();
    assert_eq!(
        names,
        vec!["!advice", "!ats", "!diff", "!fiat", "!bulls", "!bears", "!coin", "!coin24", "!stats"]
    );
    assert_eq!(commands.get(0).window, Some(180));
    for i in 1..9 {
        assert_eq!(commands.get(i).window, None);
    }
    assert_eq!(commands.get(6).kind, Kind::Coin);
    assert_eq!(commands.get(6).help, "!coin [coin|ticker]: Get current price for a coin. Defaults to btc.");
}

#[test]
fn finds_commands_by_their_exact_name() {
    let commands = Commands::new();
    assert_eq!(commands.find_command("!advice"), Some(0));
    assert_eq!(commands.find_command("!coin"), Some(6));
    assert_eq!(commands.find_command("!coin24"), Some(7));
    assert_eq!(commands.find_command("!stats"), Some(8));
    assert_eq!(commands.find_command("!co"), None);
    assert_eq!(commands.find_command("!coins"), None);
    assert_eq!(commands.find_command("!Coin"), None);
    assert_eq!(commands.find_command("coin"), None);
    assert_eq!(commands.find_command(""), None);
    assert_eq!(commands.find_command("!help"), None);
}

#[test]
fn registration_refuses_a_name_that_is_taken() {
    let mut commands = Commands::empty();
    assert_eq!(commands.len(), 0);
    assert!(commands.register(custom("!price", Kind::Coin)).is_ok());
    assert!(commands.register(custom("!low", Kind::Ats)).is_ok());
    let refused = commands.register(custom("!price", Kind::Stats)).unwrap_err();
    assert_eq!(refused.command.name, "!price");
    assert_eq!(refused.command.kind, Kind::Stats);
    assert_eq!(commands.len(), 2);
    assert_eq!(commands.find_command("!price"), Some(0));
    assert_eq!(commands.get(0).kind, Kind::Coin);
    assert_eq!(commands.find_command("!low"), Some(1));
}

#[test]
fn usual_registry_refuses_its_own_names() {
    let mut commands = Commands::new();
    assert!(commands.register(Command::usual(Kind::Coin)).is_err());
    assert!(commands.register(custom("!moon", Kind::Bulls)).is_ok());
    assert_eq!(commands.len(), 10);
    assert_eq!(commands.find_command("!moon"), Some(9));
}

#[test]
fn errors_say_what_they_are() {
    assert_eq!(Error::Contact.message(), "Cannot contact database");
    assert_eq!(Error::Cooldown.message(), "Command is on cooldown");
    assert_eq!(Error::NoReply.message(), "No reply");
    assert_eq!(Error::Unknown.message(), "Unknown command");
}

#[test]
fn general_help_lists_the_commands() {
    assert_eq!(
        Commands::new().help(),
        "Commands: !help !advice !ats !diff !fiat !bulls !bears !coin !coin24 !stats. \
         !help [command] for more information on a specific command."
    );
}

#[test]
fn general_help_names_every_registered_command() {
    let commands = Commands::new();
    let help = commands.help();
    assert!(help.contains("!help"));
    for i in 0..commands.len() {
        assert!(help.contains(commands.get(i).name.as_str()), "{}", commands.get(i).name);
    }
    assert!(help.contains("!coin24"));
}

#[test]
fn general_help_follows_the_registry() {
    let mut commands = Commands::empty();
    assert_eq!(
        commands.help(),
        "Commands: !help. !help [command] for more information on a specific command."
    );
    assert!(commands.register(custom("!price", Kind::Coin)).is_ok());
    assert!(commands.register(custom("!low", Kind::Ats)).is_ok());
    assert!(commands.register(custom("!price", Kind::Stats)).is_err());
    assert_eq!(
        commands.help(),
        "Commands: !help !price !low. !help [command] for more information on a specific command."
    );
}
