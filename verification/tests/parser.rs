use ethbot::command::Command;
use ethbot::command::parse;
use ethbot::command::tokenize;

#[test]
fn empty_query_is_usage() {
    assert_eq!(parse(""), Command::Usage);
}

#[test]
fn gas_is_gas_price() {
    assert_eq!(parse("gas"), Command::GasPrice);
}

#[test]
fn bare_balance_is_missing_arg() {
    assert_eq!(parse("balance"), Command::BalanceMissingArg);
}

#[test]
fn balance_with_token_carries_it() {
    assert_eq!(
        parse("balance 0xabc"),
        Command::Balance(String::from("0xabc"))
    );
    assert_eq!(
        parse("balance 0x0000000000000000000000000000000000000000"),
        Command::Balance(String::from("0x0000000000000000000000000000000000000000"))
    );
}

#[test]
fn three_tokens_are_unknown() {
    assert_eq!(parse("foo bar baz"), Command::Unknown { tokens: 3 });
}

#[test]
fn double_space_shifts_tokenization() {
    // Two consecutive spaces produce an empty token, so this is not
    // Balance("x"): the extra token routes the query to Unknown.
    assert_eq!(parse("balance  x"), Command::Unknown { tokens: 3 });
}

#[test]
fn single_unknown_token() {
    assert_eq!(parse("foo"), Command::Unknown { tokens: 1 });
}

#[test]
fn two_tokens_unknown_verb() {
    assert_eq!(parse("foo bar"), Command::Unknown { tokens: 2 });
}

#[test]
fn single_space_is_two_empty_tokens() {
    assert_eq!(parse(" "), Command::Unknown { tokens: 2 });
}

#[test]
fn trailing_space_after_gas_is_unknown() {
    assert_eq!(parse("gas "), Command::Unknown { tokens: 2 });
}

#[test]
fn uppercase_verb_is_unknown() {
    assert_eq!(parse("Gas"), Command::Unknown { tokens: 1 });
}

#[test]
fn tokenize_empty_yields_no_tokens() {
    assert_eq!(tokenize(""), Vec::<String>::new());
}

#[test]
fn tokenize_splits_on_every_single_space() {
    assert_eq!(tokenize("a b"), vec![String::from("a"), String::from("b")]);
    assert_eq!(
        tokenize(" "),
        vec![String::from(""), String::from("")]
    );
    assert_eq!(
        tokenize("a  b"),
        vec![String::from("a"), String::from(""), String::from("b")]
    );
}
