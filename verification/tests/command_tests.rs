use enki::command::{client_command, Command};

fn args(list: &[&str]) -> Vec<String> {
    list.iter().map(|s| s.to_string()).collect()
}

#[test]
fn invocations() {
    let empty: Command<&str> = Command::Empty;
    assert_eq!(empty.invocation(), None);
    assert_eq!(Command::Single("kitty").invocation(), Some(("kitty", vec![])));
    assert_eq!(
        Command::WithArgs(vec!["foot", "-e", "htop"]).invocation(),
        Some(("foot", vec!["-e", "htop"]))
    );
}

#[test]
fn client_command_from_arguments() {
    assert_eq!(client_command(&args(&["enki"])), "kitty");
    assert_eq!(client_command(&args(&["enki", "-c", "foot"])), "foot");
    assert_eq!(client_command(&args(&["enki", "--command", "alacritty", "x"])), "alacritty");
    assert_eq!(client_command(&args(&["enki", "-c"])), "kitty");
    assert_eq!(client_command(&args(&["enki", "-x", "foot"])), "kitty");
}
