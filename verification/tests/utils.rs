use jointhedots::utils::{hash_command_vec, split_command};

#[test]
fn test_hash_command_vec() {
    let command_vec = vec![
        String::from("echo \"Hi!\""),
        String::from("echo \"This is a vector of shell commands!\""),
        String::from("echo \"Farewell!\""),
    ];

    assert_eq!(
        hash_command_vec(&command_vec),
        "b51a85b8eeee922159d23463ffc057ab25fbaf9b".to_string()
    );
}

#[test]
fn test_hash_command_vec_of_nothing() {
    assert_eq!(
        hash_command_vec(&[]),
        "da39a3ee5e6b4b0d3255bfef95601890afd80709"
    );
    assert_eq!(
        hash_command_vec(&[String::new()]),
        "da39a3ee5e6b4b0d3255bfef95601890afd80709"
    );
}

#[test]
fn test_hash_command_vec_known_digest() {
    assert_eq!(
        hash_command_vec(&[String::from("abc")]),
        "a9993e364706816aba3e25717850c26c9cd0d89d"
    );
}

#[test]
fn test_hash_command_vec_is_stable() {
    let commands = vec![String::from("echo"), String::from("ls"), String::from("cat")];
    let first = hash_command_vec(&commands);
    let second = hash_command_vec(&commands);
    assert_eq!(first, second);
    assert_eq!(first, "1ef98a8d0946d6512ca5da8242eb7a52a506de54");
    assert_eq!(first.len(), 40);
}

#[test]
fn test_hash_command_vec_tells_order_and_commands_apart() {
    let commands = vec![String::from("echo"), String::from("ls"), String::from("cat")];
    let reordered = vec![String::from("ls"), String::from("echo"), String::from("cat")];
    let edited = vec![String::from("echo"), String::from("ls -l"), String::from("cat")];
    assert_ne!(hash_command_vec(&commands), hash_command_vec(&reordered));
    assert_ne!(hash_command_vec(&commands), hash_command_vec(&edited));
}

#[test]
fn test_hash_command_vec_joins_without_separator() {
    let split = vec![String::from("ab"), String::from("c")];
    let moved = vec![String::from("a"), String::from("bc")];
    assert_eq!(hash_command_vec(&split), hash_command_vec(&moved));
    assert_eq!(
        hash_command_vec(&split),
        "a9993e364706816aba3e25717850c26c9cd0d89d"
    );
}

#[test]
fn test_hash_command_vec_takes_bytes_of_any_text() {
    assert_eq!(
        hash_command_vec(&[String::from("\u{e9}")]),
        "bf15be717ac1b080b4f1c456692825891ff5073d"
    );
}

#[test]
fn test_split_command() {
    assert_eq!(split_command("touch /tmp/file"), vec!["touch", "/tmp/file"]);
    assert_eq!(split_command("ls"), vec!["ls"]);
    assert_eq!(split_command(""), vec![""]);
    assert_eq!(split_command("a  b"), vec!["a", "", "b"]);
    assert_eq!(split_command(" a "), vec!["", "a", ""]);
    assert_eq!(split_command("cp ~/a ~/b"), vec!["cp", "~/a", "~/b"]);
    assert_eq!(split_command("echo \u{1F501} ok"), vec!["echo", "\u{1F501}", "ok"]);
}

#[test]
fn test_split_command_joins_back() {
    for command in ["git commit -m x", "  ", "one", "tab\tstays together"] {
        assert_eq!(split_command(command).join(" "), command);
    }
}
