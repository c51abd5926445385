use vstd::prelude::*;

verus! {

/// What a raw command-line token is: the subcommand word itself, a flag,
/// or a flag's value.
#[derive(Clone, Copy, Debug, PartialEq, Eq, Structural)]
pub enum TokenType {
    SubCommand,
    Argument,
    ArgumentValue,
}

/// One raw command-line token, with its position in the argument list.
#[derive(Clone, Debug, PartialEq)]
pub struct Token {
    pub of_type: TokenType,
    pub value: String,
    pub position: usize,
}

/// The argument standing `argc` places before the end of the list: the
/// hand-rolled argument walker reads the list front to back while counting
/// `argc` down.
pub fn next_arg(argc: &usize, argv: &Vec<Token>) -> (r: Token)
    requires
        0 < *argc <= argv@.len(),
    ensures
        r.of_type == argv@[argv@.len() - *argc].of_type,
        r.value@ == argv@[argv@.len() - *argc].value@,
        r.position == argv@[argv@.len() - *argc].position,
{
    let arg_len: usize = argv.len();
    let t = &argv[arg_len - *argc];
    Token { of_type: t.of_type, value: t.value.clone(), position: t.position }
}

} // verus!
