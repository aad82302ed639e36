use rush::tokens::{
    is_background_marker, split_words, tokenize, CommandChain, CommandGroup, DependentCommand,
};

fn strings(words: &[&str]) -> Vec<String> {
    words.iter().map(|w| w.to_string()).collect()
}

fn command(words: &[&str], background: bool) -> DependentCommand {
    DependentCommand { tokens: strings(words), background }
}

fn group(commands: Vec<DependentCommand>) -> CommandGroup {
    CommandGroup { chain: CommandChain { commands } }
}

#[test]
fn plain_line_is_one_command() {
    let groups = tokenize("ls -la /tmp");
    assert_eq!(groups, vec![group(vec![command(&["ls", "-la", "/tmp"], false)])]);
}

#[test]
fn plain_line_tokens_are_the_whitespace_split_words() {
    for line in ["echo  hello   world", "  leading", "trailing  ", "\ttabs\tand\nnewlines\r", "one"] {
        let groups = tokenize(line);
        assert_eq!(groups.len(), 1);
        assert_eq!(groups[0].chain.commands.len(), 1);
        let expected: Vec<String> = line.split_whitespace().map(|w| w.to_string()).collect();
        assert_eq!(groups[0].chain.commands[0].tokens, expected);
        assert!(!groups[0].chain.commands[0].background);
    }
}

#[test]
fn trailing_ampersand_marks_background() {
    let groups = tokenize("ls -la &");
    assert_eq!(groups, vec![group(vec![command(&["ls", "-la"], true)])]);
}

#[test]
fn ampersand_inside_a_command_is_an_argument() {
    let groups = tokenize("echo & now");
    assert_eq!(groups, vec![group(vec![command(&["echo", "&", "now"], false)])]);
}

#[test]
fn ampersand_glued_to_a_word_is_no_marker() {
    let groups = tokenize("sleep 5&");
    assert_eq!(groups, vec![group(vec![command(&["sleep", "5&"], false)])]);
}

#[test]
fn only_the_last_ampersand_is_taken_off() {
    let groups = tokenize("ls & &");
    assert_eq!(groups, vec![group(vec![command(&["ls", "&"], true)])]);
}

#[test]
fn lone_ampersand_leaves_no_tokens() {
    let groups = tokenize("&");
    assert_eq!(groups, vec![group(vec![command(&[], true)])]);
}

#[test]
fn double_ampersand_is_no_operator() {
    let groups = tokenize("false && true");
    assert_eq!(groups, vec![group(vec![command(&["false", "&&", "true"], false)])]);
}

#[test]
fn semicolon_separates_groups() {
    let groups = tokenize("echo a; echo b ;pwd");
    assert_eq!(
        groups,
        vec![
            group(vec![command(&["echo", "a"], false)]),
            group(vec![command(&["echo", "b"], false)]),
            group(vec![command(&["pwd"], false)]),
        ]
    );
}

#[test]
fn bar_separates_the_commands_of_a_chain() {
    let groups = tokenize("cd /tmp | ls -l|pwd");
    assert_eq!(
        groups,
        vec![group(vec![
            command(&["cd", "/tmp"], false),
            command(&["ls", "-l"], false),
            command(&["pwd"], false),
        ])]
    );
}

#[test]
fn groups_and_chains_nest() {
    let groups = tokenize("make | make test & ; echo done");
    assert_eq!(
        groups,
        vec![
            group(vec![command(&["make"], false), command(&["make", "test"], true)]),
            group(vec![command(&["echo", "done"], false)]),
        ]
    );
}

#[test]
fn empty_line_is_one_command_without_tokens() {
    assert_eq!(tokenize(""), vec![group(vec![command(&[], false)])]);
    assert_eq!(tokenize("   \t "), vec![group(vec![command(&[], false)])]);
}

#[test]
fn doubled_delimiters_give_commands_without_tokens() {
    assert_eq!(
        tokenize("a;;b"),
        vec![
            group(vec![command(&["a"], false)]),
            group(vec![command(&[], false)]),
            group(vec![command(&["b"], false)]),
        ]
    );
    assert_eq!(
        tokenize("a||b"),
        vec![group(vec![command(&["a"], false), command(&[], false), command(&["b"], false)])]
    );
    assert_eq!(
        tokenize(";"),
        vec![group(vec![command(&[], false)]), group(vec![command(&[], false)])]
    );
}

#[test]
fn unicode_white_space_separates_words() {
    let groups = tokenize("echo\u{00a0}caf\u{00e9}\u{3000}\u{2003}na\u{00ef}ve");
    assert_eq!(groups, vec![group(vec![command(&["echo", "caf\u{00e9}", "na\u{00ef}ve"], false)])]);
}

#[test]
fn tokens_read_back_as_the_same_foreground_command() {
    for line in ["ls -la &", "  grep   -r  needle  . ", "false && true", "&"] {
        let first = tokenize(line);
        let tokens = first[0].chain.commands[0].tokens.clone();
        let again = tokenize(&tokens.join(" "));
        assert_eq!(again, vec![group(vec![DependentCommand { tokens, background: false }])]);
    }
}

#[test]
fn from_words_takes_the_marker_off() {
    let c = DependentCommand::from_words(strings(&["sleep", "9", "&"]));
    assert_eq!(c, command(&["sleep", "9"], true));
    let c = DependentCommand::from_words(strings(&["sleep", "9"]));
    assert_eq!(c, command(&["sleep", "9"], false));
    let c = DependentCommand::from_words(Vec::new());
    assert_eq!(c, command(&[], false));
}

#[test]
fn background_marker_is_a_lone_ampersand() {
    assert!(is_background_marker("&"));
    assert!(!is_background_marker("&&"));
    assert!(!is_background_marker(""));
    assert!(!is_background_marker("a"));
    assert!(!is_background_marker("a&"));
}

#[test]
fn split_words_agrees_with_std() {
    for s in ["", " ", "a", " a ", "a b", "a\u{2028}b\u{0085}c", "x\u{200b}y", "tab\tsep"] {
        let expected: Vec<String> = s.split_whitespace().map(|w| w.to_string()).collect();
        assert_eq!(split_words(s), expected);
    }
}

#[test]
fn semicolon_joins_the_groups_of_two_lines() {
    for (a, b) in [("ls", "pwd"), ("", ""), ("a | b &", " c ;d"), ("x;", ";y"), ("echo &", "&")] {
        let mut expected = tokenize(a);
        expected.extend(tokenize(b));
        assert_eq!(tokenize(&format!("{};{}", a, b)), expected);
    }
}

#[test]
fn bar_joins_the_commands_of_two_chains() {
    for (a, b) in [("ls", "pwd"), ("", ""), ("a | b &", " c |d"), ("x|", "|y"), ("echo &", "&")] {
        let mut expected = tokenize(a)[0].chain.commands.clone();
        expected.extend(tokenize(b)[0].chain.commands.clone());
        let joined = tokenize(&format!("{}|{}", a, b));
        assert_eq!(joined.len(), 1);
        assert_eq!(joined[0].chain.commands, expected);
    }
}

#[test]
fn every_line_has_a_group_and_every_group_a_command() {
    for line in ["", ";", ";;", "|", "a;|;b", " ; | ", "ls -la &"] {
        let groups = tokenize(line);
        assert!(!groups.is_empty());
        for group in &groups {
            assert!(!group.chain.commands.is_empty());
            for command in &group.chain.commands {
                for token in &command.tokens {
                    assert!(!token.is_empty());
                    assert!(!token.contains(|c: char| c.is_whitespace() || c == ';' || c == '|'));
                }
            }
        }
    }
}
