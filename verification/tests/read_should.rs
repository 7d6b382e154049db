use tiny_repl::{read, Ast, Unreadable};

#[test]
fn read_an_int() {
    assert_eq!(Ok(Ast::Number(42)), read("42"));
    assert_eq!(Ok(Ast::Number(4807)), read("4807"))
}

#[test]
fn read_a_symbol() {
    assert_eq!(Ok(Ast::Symbol(":foo".to_string())), read("  :foo"));
    assert_eq!(Ok(Ast::Symbol(":bar".to_string())), read(":bar"));
}

#[test]
fn read_a_list() {
    assert_eq!(Ok(Ast::List(vec![])), read("()"));
    assert_eq!(
        Ok(Ast::List(vec![Ast::Function("-".to_string()), Ast::Number(42)])),
        read("(- 42)")
    )
}

#[test]
fn trim_its_entry() {
    assert_eq!(Ok(Ast::Number(42)), read("   42   "));
}

#[test]
fn read_the_known_call_whatever_surrounds_it() {
    let expected = Ok(Ast::List(vec![Ast::Function("-".to_string()), Ast::Number(42)]));
    assert_eq!(expected, read("  (- 42)"));
    assert_eq!(expected, read("(- 42)  \n"));
    assert_eq!(expected, read("\t(- 42)\r\n"));
}

#[test]
fn read_only_the_known_call() {
    assert!(read("(-  42)").is_err());
    assert!(read("(- 43)").is_err());
    assert!(read("( )").is_err());
    assert!(read("(+ 3 4)").is_err());
}

#[test]
fn read_a_symbol_keeps_what_is_inside() {
    assert_eq!(Ok(Ast::Symbol(":".to_string())), read(":"));
    assert_eq!(Ok(Ast::Symbol(":a b".to_string())), read(" :a b \n"));
    assert_eq!(Ok(Ast::Symbol(":42".to_string())), read(":42"));
    assert_eq!(Ok(Ast::Symbol(":()".to_string())), read(":()"));
    assert_eq!(Ok(Ast::Symbol(":h\u{e9}\u{4e16}".to_string())), read("\u{3000}:h\u{e9}\u{4e16}\u{a0}"));
}

#[test]
fn read_signed_integers() {
    assert_eq!(Ok(Ast::Number(-42)), read("-42"));
    assert_eq!(Ok(Ast::Number(42)), read("+42"));
    assert_eq!(Ok(Ast::Number(0)), read("-0"));
    assert_eq!(Ok(Ast::Number(7)), read("007"));
    assert_eq!(Ok(Ast::Number(i64::MAX)), read("9223372036854775807"));
    assert_eq!(Ok(Ast::Number(i64::MIN)), read("-9223372036854775808"));
    assert_eq!(Ok(Ast::Number(i64::MAX)), read("+0000000000000000000009223372036854775807"));
}

#[test]
fn read_rejects_what_is_no_integer() {
    let lines = [
        "", " ", "\n", "-", "+", "--1", "+-1", "1-", "4 2", "12a", "a12", "1.5", "0x10",
        "9223372036854775808", "-9223372036854775809", "99999999999999999999999",
        "\u{661}\u{662}", "(", ")", "foo", "1_000",
    ];
    for line in lines {
        assert_eq!(Err(Unreadable { line: line.to_string() }), read(line));
    }
}

#[test]
fn read_agrees_with_the_standard_integer_parser() {
    let lines = [
        "0", "00", "-00", "+0", "5", "-5", "+5", " 17 ", "\t-17\n", "18446744073709551615",
        "9223372036854775806", "-9223372036854775807", "922337203685477580", "92233720368547758070",
        "9223372036854775807 ", "-", "", "+", "1 2", "١٢", "1e3", "٣", "-+1", "++1",
    ];
    for line in lines {
        let expected = line.trim().parse::<i64>().ok().map(Ast::Number);
        assert_eq!(expected, read(line).ok(), "line {:?}", line);
    }
}

#[test]
fn unreadable_message_holds_the_raw_line() {
    let e = read("  nope \n").unwrap_err();
    assert_eq!("  nope \n", e.line);
    assert_eq!("not a number   nope \n", e.message());
}
