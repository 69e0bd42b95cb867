//! The command grammar: from the text of one message to a typed command.
//!
//! Matching is by literal prefix, in a fixed order; the first prefix that
//! matches decides, and no later one is looked at.

use crate::decimal::{parsed_quantity, Decimal, Quantity};
use crate::text::{split_at_space, split_once, starts_with};
use vstd::prelude::*;

verus! {

/// Why the text after a recognised prefix was turned down.
#[derive(Clone, Copy, Debug, PartialEq, Eq, Structural)]
pub enum ParseError {
    /// An argument is missing.
    Usage,
    /// The amount is no decimal, is out of range, or is not above zero.
    InvalidAmount,
}

/// One command, as read out of a message.
#[derive(Clone, Debug)]
pub enum Command {
    /// `!help`
    Help,
    /// `!list`
    ListContacts,
    /// `!bal [name]`: the balance of `target`, or the sender's own.
    Balance { target: Option<String> },
    /// `!give <amount> <name>`: move `amount` from the sender to `recipient`.
    Transfer { amount: Decimal, recipient: String },
    /// `!issue <amount> <name>`: credit `amount` to `target`.
    Issue { amount: Decimal, target: String },
    /// `!tag oh`: answered with a fixed text.
    Tag,
    /// `!ym`: answered with a joke fetched from outside.
    Joke,
    /// Anything else: not answered at all.
    Unrecognized,
}

/// What a `Command` stands for.
pub enum CommandView {
    Help,
    ListContacts,
    Balance { target: Option<Seq<char>> },
    Transfer { amount: Quantity, recipient: Seq<char> },
    Issue { amount: Quantity, target: Seq<char> },
    Tag,
    Joke,
    Unrecognized,
}

impl View for Command {
    type V = CommandView;

    open spec fn view(&self) -> CommandView {
        match *self {
            Command::Help => CommandView::Help,
            Command::ListContacts => CommandView::ListContacts,
            Command::Balance { target } => CommandView::Balance {
                target: match target {
                    Some(name) => Some(name@),
                    None => None,
                },
            },
            Command::Transfer { amount, recipient } => CommandView::Transfer {
                amount: amount@,
                recipient: recipient@,
            },
            Command::Issue { amount, target } => CommandView::Issue {
                amount: amount@,
                target: target@,
            },
            Command::Tag => CommandView::Tag,
            Command::Joke => CommandView::Joke,
            Command::Unrecognized => CommandView::Unrecognized,
        }
    }
}

/// What a parse yields, with the command taken by its view.
pub open spec fn outcome_view(r: Result<Command, ParseError>) -> Result<CommandView, ParseError> {
    match r {
        Ok(command) => Ok(command@),
        Err(e) => Err(e),
    }
}

/// The amount that a token stands for: a decimal in range and above zero.
pub open spec fn amount_of(token: Seq<char>) -> Result<Quantity, ParseError> {
    match parsed_quantity(token) {
        Some(amount) => if amount.unscaled > 0 {
            Ok(amount)
        } else {
            Err(ParseError::InvalidAmount)
        },
        None => Err(ParseError::InvalidAmount),
    }
}

/// The arguments of `!give` and `!issue`. The text is cut at its first two
/// spaces into command, amount and name; the name keeps any further spaces.
pub open spec fn payment_arguments(text: Seq<char>) -> Result<(Quantity, Seq<char>), ParseError> {
    match split_at_space(text) {
        None => Err(ParseError::Usage),
        Some((_, rest)) => match split_at_space(rest) {
            None => Err(ParseError::Usage),
            Some((token, name)) => match amount_of(token) {
                Ok(amount) => Ok((amount, name)),
                Err(e) => Err(e),
            },
        },
    }
}

/// The grammar: what each text parses to.
pub open spec fn parsed_command(text: Seq<char>) -> Result<CommandView, ParseError> {
    if "!help"@.is_prefix_of(text) {
        Ok(CommandView::Help)
    } else if "!list"@.is_prefix_of(text) {
        Ok(CommandView::ListContacts)
    } else if "!bal"@.is_prefix_of(text) {
        Ok(
            CommandView::Balance {
                target: match split_at_space(text) {
                    Some((_, name)) => Some(name),
                    None => None,
                },
            },
        )
    } else if "!give"@.is_prefix_of(text) {
        match payment_arguments(text) {
            Ok((amount, recipient)) => Ok(CommandView::Transfer { amount, recipient }),
            Err(e) => Err(e),
        }
    } else if "!issue"@.is_prefix_of(text) {
        match payment_arguments(text) {
            Ok((amount, target)) => Ok(CommandView::Issue { amount, target }),
            Err(e) => Err(e),
        }
    } else if "!tag oh"@.is_prefix_of(text) {
        Ok(CommandView::Tag)
    } else if "!ym"@.is_prefix_of(text) {
        Ok(CommandView::Joke)
    } else {
        Ok(CommandView::Unrecognized)
    }
}

/// Accepts a parsed amount that is above zero and turns down the rest.
pub fn accept_amount(parsed: Option<Decimal>) -> (r: Result<Decimal, ParseError>)
    requires
        parsed is Some ==> parsed.unwrap().wf(),
    ensures
        r is Ok <==> parsed is Some && parsed.unwrap()@.unscaled > 0,
        r is Ok ==> r.unwrap() == parsed.unwrap(),
        r is Err ==> r.unwrap_err() == ParseError::InvalidAmount,
{
    match parsed {
        Some(amount) => {
            if amount.is_positive() {
                Ok(amount)
            } else {
                Err(ParseError::InvalidAmount)
            }
        },
        None => Err(ParseError::InvalidAmount),
    }
}

/// Reads the amount of a payment out of one token.
pub fn parse_amount(token: &str) -> (r: Result<Decimal, ParseError>)
    ensures
        match amount_of(token@) {
            Ok(amount) => r is Ok && r.unwrap()@ == amount && r.unwrap().wf(),
            Err(e) => r == Err::<Decimal, ParseError>(e),
        },
{
    accept_amount(Decimal::parse(token))
}

/// Reads the amount and the name out of a `!give` or `!issue` message.
pub fn parse_payment(text: &str) -> (r: Result<(Decimal, String), ParseError>)
    ensures
        match payment_arguments(text@) {
            Ok((amount, name)) => r is Ok && r.unwrap().0@ == amount && r.unwrap().0.wf()
                && r.unwrap().1@ == name,
            Err(e) => r == Err::<(Decimal, String), ParseError>(e),
        },
{
    match split_once(text) {
        None => Err(ParseError::Usage),
        Some((_, rest)) => match split_once(rest) {
            None => Err(ParseError::Usage),
            Some((token, name)) => match parse_amount(token) {
                Ok(amount) => Ok((amount, name.to_owned())),
                Err(e) => Err(e),
            },
        },
    }
}

/// Parses the text of one message. Every text has an outcome: a command,
/// `Unrecognized` among them, or the reason why a recognised command was
/// turned down.
pub fn parse_command(text: &str) -> (r: Result<Command, ParseError>)
    ensures
        outcome_view(r) == parsed_command(text@),
        r is Ok ==> r.unwrap().wf(),
{
    if starts_with(text, "!help") {
        Ok(Command::Help)
    } else if starts_with(text, "!list") {
        Ok(Command::ListContacts)
    } else if starts_with(text, "!bal") {
        match split_once(text) {
            Some((_, name)) => Ok(Command::Balance { target: Some(name.to_owned()) }),
            None => Ok(Command::Balance { target: None }),
        }
    } else if starts_with(text, "!give") {
        match parse_payment(text) {
            Ok((amount, recipient)) => Ok(Command::Transfer { amount, recipient }),
            Err(e) => Err(e),
        }
    } else if starts_with(text, "!issue") {
        match parse_payment(text) {
            Ok((amount, target)) => Ok(Command::Issue { amount, target }),
            Err(e) => Err(e),
        }
    } else if starts_with(text, "!tag oh") {
        Ok(Command::Tag)
    } else if starts_with(text, "!ym") {
        Ok(Command::Joke)
    } else {
        Ok(Command::Unrecognized)
    }
}

impl Command {
    /// Whether the amount that the command carries, if any, is in range.
    pub open spec fn wf(&self) -> bool {
        match *self {
            Command::Transfer { amount, .. } => amount.wf(),
            Command::Issue { amount, .. } => amount.wf(),
            _ => true,
        }
    }
}

} // verus!
