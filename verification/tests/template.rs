use pkger::strmap::StrMap;
use pkger::template::lexer::Lexer;
use pkger::template::parser::Parser;
use pkger::template::{render, Token, Variable};

fn vars() -> StrMap<String> {
    let mut vars = StrMap::new();
    vars.insert("PKGER_BLD_DIR".to_string(), "/tmp/test".to_string());
    vars.insert("RECIPE".to_string(), "pkger-test".to_string());
    vars.insert("RECIPE_VERSION".to_string(), "0.1.0".to_string());
    vars
}

#[test]
fn lexer_simple_case() {
    let text = "this is my super ${ cool } text.";
    let mut lexer = Lexer::new(text);
    assert_eq!(lexer.next_token(), Token::Text("this is my super "));
    assert_eq!(
        lexer.next_token(),
        Token::Variable(Variable::new("${ cool }", "cool"))
    );
    assert_eq!(lexer.next_token(), Token::Text(" text."));
    assert_eq!(lexer.next_token(), Token::EOF);
    assert_eq!(lexer.next_token(), Token::EOF);
    lexer.restart();
    assert_eq!(lexer.next_token(), Token::Text("this is my super "));
    assert_eq!(
        lexer.next_token(),
        Token::Variable(Variable::new("${ cool }", "cool"))
    );
    assert_eq!(lexer.next_token(), Token::Text(" text."));
    assert_eq!(lexer.next_token(), Token::EOF);
    assert_eq!(lexer.next_token(), Token::EOF);
}

#[test]
fn lexer_multiple_vars() {
    let text = r#"this is a ${much} more ${ complex } case.
        It includes multiple ${lines} and ${ variables }."#;

    let mut lexer = Lexer::new(text);
    assert_eq!(lexer.next_token(), Token::Text("this is a "));
    assert_eq!(
        lexer.next_token(),
        Token::Variable(Variable::new("${much}", "much"))
    );
    assert_eq!(lexer.next_token(), Token::Text(" more "));
    assert_eq!(
        lexer.next_token(),
        Token::Variable(Variable::new("${ complex }", "complex"))
    );
    assert_eq!(
        lexer.next_token(),
        Token::Text(" case.\n        It includes multiple ")
    );
    assert_eq!(
        lexer.next_token(),
        Token::Variable(Variable::new("${lines}", "lines"))
    );
    assert_eq!(lexer.next_token(), Token::Text(" and "));
    assert_eq!(
        lexer.next_token(),
        Token::Variable(Variable::new("${ variables }", "variables"))
    );
    assert_eq!(lexer.next_token(), Token::Text("."));
    assert_eq!(lexer.next_token(), Token::EOF);
}

#[test]
fn lexer_corner_cases() {
    let text = "this ${should be just text$}${123this_is-CorrecT }${}";
    let mut lexer = Lexer::new(text);
    assert_eq!(lexer.next_token(), Token::Text("this "));
    assert_eq!(lexer.next_token(), Token::Text("${should"));
    assert_eq!(lexer.next_token(), Token::Text(" be just text"));
    assert_eq!(lexer.next_token(), Token::Text("$}"));
    assert_eq!(
        lexer.next_token(),
        Token::Variable(Variable::new(
            "${123this_is-CorrecT }",
            "123this_is-CorrecT"
        )),
    );
    assert_eq!(
        lexer.next_token(),
        Token::Variable(Variable::new("${}", ""))
    );
    assert_eq!(lexer.next_token(), Token::EOF);
}

#[test]
fn renders_braced_vars() {
    let text = "cd $TEST_VAR/${PKGER_BLD_DIR}/${ RECIPE }/${ RECIPE_VERSION}${DOESNT_EXIST}";
    let vars = vars();
    assert_eq!(
        render(text, &vars),
        "cd $TEST_VAR//tmp/test/pkger-test/0.1.0${DOESNT_EXIST}".to_string()
    );
}

#[test]
fn renders_unbraced_vars() {
    let text = "cd $TEST_VAR/$PKGER_BLD_DIR/$RECIPE/$RECIPE_VERSION$DOESNT_EXIST";
    let vars = vars();
    assert_eq!(
        render(text, &vars),
        "cd $TEST_VAR//tmp/test/pkger-test/0.1.0$DOESNT_EXIST".to_string()
    );
}

#[test]
fn parser_simple_case() {
    let text = "this is my super ${ cool } text.";
    let mut parser = Parser::new(text);
    assert_eq!(parser.next_token(), Token::Text("this is my super "));
    assert_eq!(
        parser.next_token(),
        Token::Variable(Variable::new("${ cool }", "cool"))
    );
    assert_eq!(parser.next_token(), Token::Text(" text."));
    assert_eq!(parser.next_token(), Token::EOF);
    assert_eq!(parser.next_token(), Token::EOF);
}

#[test]
fn parser_multiple_vars() {
    let text = r#"this is a ${much} more ${ complex } case.
        It includes multiple ${lines} and ${ variables }."#;

    let mut parser = Parser::new(text);
    assert_eq!(parser.next_token(), Token::Text("this is a "));
    assert_eq!(
        parser.next_token(),
        Token::Variable(Variable::new("${much}", "much"))
    );
    assert_eq!(parser.next_token(), Token::Text(" more "));
    assert_eq!(
        parser.next_token(),
        Token::Variable(Variable::new("${ complex }", "complex"))
    );
    assert_eq!(
        parser.next_token(),
        Token::Text(" case.\n        It includes multiple ")
    );
    assert_eq!(
        parser.next_token(),
        Token::Variable(Variable::new("${lines}", "lines"))
    );
    assert_eq!(parser.next_token(), Token::Text(" and "));
    assert_eq!(
        parser.next_token(),
        Token::Variable(Variable::new("${ variables }", "variables"))
    );
    assert_eq!(parser.next_token(), Token::Text("."));
    assert_eq!(parser.next_token(), Token::EOF);
}

#[test]
fn parser_corner_cases() {
    let text = "this ${should be just text$}${123this_is-CorrecT }${}";
    let mut parser = Parser::new(text);
    assert_eq!(parser.next_token(), Token::Text("this "));
    assert_eq!(parser.next_token(), Token::Text("${should"));
    assert_eq!(parser.next_token(), Token::Text(" be just text"));
    assert_eq!(parser.next_token(), Token::Text("$"));
    assert_eq!(parser.next_token(), Token::Text("}"));
    assert_eq!(
        parser.next_token(),
        Token::Variable(Variable::new(
            "${123this_is-CorrecT }",
            "123this_is-CorrecT"
        )),
    );
    assert_eq!(
        parser.next_token(),
        Token::Variable(Variable::new("${}", ""))
    );
    assert_eq!(parser.next_token(), Token::EOF);
}

#[test]
fn no_braces() {
    let text = "this is my super $COOL_ $} text.";
    let mut parser = Parser::new(text);
    assert_eq!(parser.next_token(), Token::Text("this is my super "));
    assert_eq!(
        parser.next_token(),
        Token::Variable(Variable::new("$COOL_", "COOL_"))
    );
    assert_eq!(parser.next_token(), Token::Text(" "));
    assert_eq!(parser.next_token(), Token::Text("$"));
    assert_eq!(parser.next_token(), Token::Text("} text."));
    assert_eq!(parser.next_token(), Token::EOF);
}

#[test]
fn empty_text() {
    let text = "";
    let mut parser = Parser::new(text);
    assert_eq!(parser.next_token(), Token::EOF);
}

#[test]
fn render_without_variables_keeps_text() {
    let text = "make install DESTDIR=$OUT";
    let vars = StrMap::new();
    assert_eq!(render(text, &vars), text.to_string());
}

#[test]
fn variable_accessors() {
    let v = Variable::new("${ NAME }", "NAME");
    assert_eq!(v.name(), "NAME");
    assert_eq!(v.text(), "${ NAME }");
    assert!(Variable::is_valid_name_char('_'));
    assert!(Variable::is_valid_name_char('a'));
    assert!(!Variable::is_valid_name_char('$'));
}

#[test]
fn unfinished_braced_variable_at_the_end_stays_text() {
    let vars = vars();
    assert_eq!(render("${a ", &vars), "${a ".to_string());
    assert_eq!(render("x ${RECIPE ", &vars), "x ${RECIPE ".to_string());
    let mut parser = Parser::new("${a ");
    assert_eq!(parser.next_token(), Token::Text("${a"));
    assert_eq!(parser.next_token(), Token::Text(" "));
    assert_eq!(parser.next_token(), Token::EOF);
}
