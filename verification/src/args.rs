//! The command line: whether the window is to stay hidden.

use vstd::prelude::*;

verus! {

/// The characters of each argument, in order.
pub open spec fn argument_views(args: Seq<String>) -> Seq<Seq<char>> {
    args.map_values(|arg: String| arg@)
}

/// What the command line says of `--hidden`: `Some(None)` where the option
/// does not occur, `Some(Some(b))` where the argument after its first
/// occurrence is `true` or `false`, and `None` where that argument is
/// missing or is anything else.
pub open spec fn hidden_option(args: Seq<Seq<char>>) -> Option<Option<bool>> {
    match args.index_of_first("--hidden"@) {
        None => Some(None),
        Some(position) => if position + 1 < args.len() && args[position + 1] == "true"@ {
            Some(Some(true))
        } else if position + 1 < args.len() && args[position + 1] == "false"@ {
            Some(Some(false))
        } else {
            None
        },
    }
}

/// The visibility preference that a reading of the command line stands
/// for: the value given; no preference where the option does not occur, so
/// that the stored one holds; and hidden where the option is malformed.
pub open spec fn preference_of(parsed: Option<Option<bool>>) -> Option<bool> {
    match parsed {
        Some(given) => given,
        None => Some(true),
    }
}

/// Reads the option `--hidden` with `pico_args`: `Arguments::from_vec` on
/// the arguments, then `opt_value_from_str` for a `bool`, its error turned
/// into `None`. The contract restates what the parser does without any of
/// its optional features: it takes the first argument equal to the key,
/// fails if nothing follows it, and parses what follows as `bool` does,
/// which accepts `true` and `false` and nothing else.
#[verifier::external_body]
fn parse_hidden(args: Vec<String>) -> (parsed: Option<Option<bool>>)
    ensures
        parsed == hidden_option(argument_views(args@)),
{
    let mut parser = pico_args::Arguments::from_vec(args.into_iter().map(Into::into).collect());
    parser.opt_value_from_str("--hidden").ok()
}

/// The visibility preference for a reading of the command line.
pub fn hidden_preference(parsed: Option<Option<bool>>) -> (hidden: Option<bool>)
    ensures
        hidden == preference_of(parsed),
{
    match parsed {
        Some(given) => given,
        None => Some(true),
    }
}

/// The visibility preference that the command line gives. `args` are the
/// arguments after the program's name.
pub fn hidden_from_args(args: Vec<String>) -> (hidden: Option<bool>)
    ensures
        hidden == preference_of(hidden_option(argument_views(args@))),
{
    hidden_preference(parse_hidden(args))
}

} // verus!
