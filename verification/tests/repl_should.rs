use tiny_repl::{eval, print, read, repl, Ast, Unreadable};

fn assert_repl(given: &str, expected: &str) {
    let mut output = String::new();

    repl(given, &mut output).expect("not a number");

    assert_eq!(expected, &output);
}

#[test]
fn eval_should_output_its_input() {
    assert_repl(":foo", ":foo\n");
    assert_repl("   42  ", "42\n");
    assert_repl("4807", "4807\n");
    assert_repl("()", "()\n");
}

#[test]
fn repl_answers_the_known_call_as_a_list() {
    assert_repl("(- 42)", "()\n");
    assert_repl("  (- 42)\n", "()\n");
}

#[test]
fn repl_ignores_the_line_terminator() {
    assert_repl("42\n", "42\n");
    assert_repl(":foo\r\n", ":foo\n");
    assert_repl("-7\n", "-7\n");
}

#[test]
fn repl_is_insensitive_to_padding() {
    let mut padded = String::new();
    let mut bare = String::new();
    repl("   42  ", &mut padded).unwrap();
    repl("42", &mut bare).unwrap();
    assert_eq!(padded, bare);
    assert_eq!("42\n", padded);
    assert_eq!(read("   42  "), read("42"));
}

#[test]
fn repl_appends_one_line_per_turn() {
    let mut output = String::new();
    repl(":a\n", &mut output).unwrap();
    repl("12\n", &mut output).unwrap();
    repl("()\n", &mut output).unwrap();
    assert_eq!(":a\n12\n()\n", output);
}

#[test]
fn repl_writes_nothing_for_an_unreadable_line() {
    let mut output = String::from("kept\n");
    let r = repl("forty two\n", &mut output);
    assert_eq!(Err(Unreadable { line: "forty two\n".to_string() }), r);
    assert_eq!("kept\n", output);
}

#[test]
fn repl_rejects_the_empty_line() {
    let mut output = String::new();
    assert_eq!(Err(Unreadable { line: String::new() }), repl("", &mut output));
    assert_eq!(Err(Unreadable { line: "\n".to_string() }), repl("\n", &mut output));
    assert_eq!("", output);
}

#[test]
fn eval_displays_a_number_in_decimal() {
    assert_eq!("42", eval(Ast::Number(42)));
    assert_eq!("-42", eval(Ast::Number(-42)));
    assert_eq!("0", eval(Ast::Number(0)));
    assert_eq!("9223372036854775807", eval(Ast::Number(i64::MAX)));
    assert_eq!("-9223372036854775808", eval(Ast::Number(i64::MIN)));
}

#[test]
fn eval_displays_a_symbol_unchanged() {
    assert_eq!(":foo", eval(Ast::Symbol(":foo".to_string())));
    assert_eq!(":a b", eval(Ast::Symbol(":a b".to_string())));
}

#[test]
fn eval_displays_every_list_as_empty() {
    assert_eq!("()", eval(Ast::List(vec![])));
    assert_eq!(
        "()",
        eval(Ast::List(vec![Ast::Function("-".to_string()), Ast::Number(42)]))
    );
    assert_eq!(
        "()",
        eval(Ast::List(vec![Ast::List(vec![Ast::Number(1)]), Ast::Symbol(":x".to_string())]))
    );
}

#[test]
fn eval_round_trips_numbers() {
    let samples: [i64; 12] = [
        0, 1, -1, 9, 10, -10, 99, 100, 4807, -4807, i64::MAX, i64::MIN,
    ];
    for n in samples {
        let text = eval(Ast::Number(n));
        assert_eq!(n.to_string(), text);
        assert_eq!(Ok(Ast::Number(n)), read(&text));
        assert_eq!(Ok(Ast::Number(n)), read(&format!("  {}\t\n", text)));
    }
}

#[test]
fn print_ends_the_line() {
    let mut output = String::new();
    print(&mut output, "abc".to_string());
    assert_eq!("abc\n", output);
    print(&mut output, String::new());
    assert_eq!("abc\n\n", output);
    print(&mut output, ":d".to_string());
    assert_eq!("abc\n\n:d\n", output);
}
