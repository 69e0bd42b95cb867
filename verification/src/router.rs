//! From a parsed command to a ledger operation and a reply.
//!
//! Handling one event is a step from the ledger as it is to the ledger as it
//! will be, together with at most one reply. What a command needs from
//! outside before it can be answered (the stored accounts, the contact list,
//! a joke) the caller fetches and hands in.

use crate::accounting::{
    ensure_account_keeps_total, scales_within, total_at, transfer_conserves_total,
};
use crate::command::{outcome_view, parse_command, parsed_command, Command, CommandView, ParseError};
use crate::ledger::{
    account_named, ensured, ensured_balance, issued, transfer_admitted, transferred, AccountView,
    Ledger,
};
use crate::reply::{
    balance_text, contact_views, help_text, invalid_amount_text, issue_done_text,
    issue_refused_text, joke_failed_text, joke_text, listing_text, own_balance_text,
    transfer_done_text, transfer_refused_text, unknown_account_text, usage_text, write_balance,
    write_help, write_issue_done, write_joke, write_joke_failed, write_listing, write_own_balance,
    write_transfer_done, write_transfer_refused, write_unknown_account, Contact, ContactView,
    TAG_REPLY,
};
use vstd::prelude::*;
use vstd::string::StringExecFns;

verus! {

/// One inbound message.
#[derive(Clone, Debug)]
pub struct MessageEvent {
    /// The sender's stable identifier.
    pub sender: String,
    /// The sender's display name.
    pub sender_name: String,
    /// The group in which the message was sent; empty for a direct message.
    pub group_id: Vec<u8>,
    /// The text of the message.
    pub text: String,
    /// When the message was sent.
    pub timestamp: i64,
}

/// Where a reply goes.
#[derive(Clone, Debug)]
pub enum Destination {
    /// To one participant, by identifier.
    Direct(String),
    /// To a group.
    Group(Vec<u8>),
}

/// What a `Destination` stands for.
pub enum DestinationView {
    Direct(Seq<char>),
    Group(Seq<u8>),
}

impl View for Destination {
    type V = DestinationView;

    open spec fn view(&self) -> DestinationView {
        match *self {
            Destination::Direct(identifier) => DestinationView::Direct(identifier@),
            Destination::Group(group) => DestinationView::Group(group@),
        }
    }
}

/// A reply: where it goes and what it says.
#[derive(Clone, Debug)]
pub struct Reply {
    pub destination: Destination,
    pub text: String,
}

/// What an optional reply says, if there is one.
pub open spec fn text_of(reply: Option<Reply>) -> Option<Seq<char>> {
    match reply {
        Some(r) => Some(r.text@),
        None => None,
    }
}

/// A joke, as the joke provider hands it out.
#[derive(Clone, Debug)]
pub struct Joke {
    pub joke: String,
    pub category: String,
}

/// What a command needs from outside before it can be answered.
#[derive(Clone, Copy, Debug, PartialEq, Eq, Structural)]
pub enum Need {
    Nothing,
    /// The accounts, as the store holds them.
    Ledger,
    /// The contacts of the gateway, each with its resolved name.
    Contacts,
    /// A joke from the joke provider.
    Joke,
}

/// What the caller fetched from outside for one event.
#[derive(Clone, Debug)]
pub enum Supplied {
    Nothing,
    Contacts(Vec<Contact>),
    Joke(Joke),
    /// The joke provider failed, for the given reason.
    JokeFailed(String),
}

/// What a `Supplied` stands for.
pub enum SuppliedView {
    Nothing,
    Contacts(Seq<ContactView>),
    Joke { joke: Seq<char>, category: Seq<char> },
    JokeFailed(Seq<char>),
}

impl View for Supplied {
    type V = SuppliedView;

    open spec fn view(&self) -> SuppliedView {
        match *self {
            Supplied::Nothing => SuppliedView::Nothing,
            Supplied::Contacts(contacts) => SuppliedView::Contacts(contact_views(contacts@)),
            Supplied::Joke(joke) => SuppliedView::Joke {
                joke: joke.joke@,
                category: joke.category@,
            },
            Supplied::JokeFailed(reason) => SuppliedView::JokeFailed(reason@),
        }
    }
}

/// Where the reply to a message goes: to the group where the message came
/// with one, else to the sender.
pub open spec fn destination_for(sender: Seq<char>, group_id: Seq<u8>) -> DestinationView {
    if group_id.len() > 0 {
        DestinationView::Group(group_id)
    } else {
        DestinationView::Direct(sender)
    }
}

/// What must be fetched from outside before the outcome of a parse can be
/// answered.
pub open spec fn needed(parsed: Result<CommandView, ParseError>) -> Need {
    match parsed {
        Ok(CommandView::Balance { .. }) => Need::Ledger,
        Ok(CommandView::Transfer { .. }) => Need::Ledger,
        Ok(CommandView::Issue { .. }) => Need::Ledger,
        Ok(CommandView::ListContacts) => Need::Contacts,
        Ok(CommandView::Joke) => Need::Joke,
        _ => Need::Nothing,
    }
}

/// Whether the message is acknowledged as read: every message is, but one
/// that holds no command.
pub open spec fn acknowledged(parsed: Result<CommandView, ParseError>) -> bool {
    parsed != Ok::<CommandView, ParseError>(CommandView::Unrecognized)
}

/// The ledger after the outcome of a parse was routed.
pub open spec fn routed_ledger(
    parsed: Result<CommandView, ParseError>,
    sender: Seq<char>,
    sender_name: Seq<char>,
    l: Seq<AccountView>,
) -> Seq<AccountView> {
    match parsed {
        Ok(CommandView::Balance { target: None }) => ensured(l, sender, sender_name),
        Ok(CommandView::Transfer { amount, recipient }) => transferred(
            l,
            sender,
            recipient,
            amount,
        ),
        Ok(CommandView::Issue { amount, target }) => issued(l, target, amount),
        _ => l,
    }
}

/// The text of the reply to the outcome of a parse, if it gets one.
pub open spec fn routed_text(
    parsed: Result<CommandView, ParseError>,
    sender: Seq<char>,
    sender_name: Seq<char>,
    l: Seq<AccountView>,
    supplied: SuppliedView,
) -> Option<Seq<char>> {
    match parsed {
        Err(ParseError::Usage) => Some(usage_text()),
        Err(ParseError::InvalidAmount) => Some(invalid_amount_text()),
        Ok(CommandView::Help) => Some(help_text(sender_name)),
        Ok(CommandView::ListContacts) => match supplied {
            SuppliedView::Contacts(contacts) => Some(listing_text(contacts)),
            _ => None,
        },
        Ok(CommandView::Balance { target: None }) => Some(
            own_balance_text(sender_name, ensured_balance(l, sender)),
        ),
        Ok(CommandView::Balance { target: Some(name) }) => match account_named(l, name) {
            Some(i) => Some(balance_text(name, l[i].balance)),
            None => Some(unknown_account_text(name)),
        },
        Ok(CommandView::Transfer { amount, recipient }) => if transfer_admitted(
            l,
            sender,
            recipient,
            amount,
        ) {
            Some(transfer_done_text(sender_name, amount, recipient))
        } else {
            Some(transfer_refused_text(sender_name, recipient))
        },
        Ok(CommandView::Issue { amount, target }) => match account_named(l, target) {
            Some(_) => Some(issue_done_text(amount, target)),
            None => Some(issue_refused_text()),
        },
        Ok(CommandView::Tag) => Some(TAG_REPLY@),
        Ok(CommandView::Joke) => match supplied {
            SuppliedView::Joke { joke, category } => Some(joke_text(joke, category)),
            SuppliedView::JokeFailed(reason) => Some(joke_failed_text(reason)),
            _ => None,
        },
        Ok(CommandView::Unrecognized) => None,
    }
}

/// Picks the destination of the reply to a message.
pub fn destination_of(sender: &str, group_id: &Vec<u8>) -> (r: Destination)
    ensures
        r@ == destination_for(sender@, group_id@),
{
    if group_id.len() > 0 {
        Destination::Group(group_id.clone())
    } else {
        Destination::Direct(sender.to_owned())
    }
}

/// Says what the caller has to fetch before the event is handled.
pub fn needs(parsed: &Result<Command, ParseError>) -> (r: Need)
    ensures
        r == needed(outcome_view(*parsed)),
{
    match parsed {
        Ok(Command::Balance { .. }) => Need::Ledger,
        Ok(Command::Transfer { .. }) => Need::Ledger,
        Ok(Command::Issue { .. }) => Need::Ledger,
        Ok(Command::ListContacts) => Need::Contacts,
        Ok(Command::Joke) => Need::Joke,
        _ => Need::Nothing,
    }
}

/// Says whether the message is to be acknowledged as read.
pub fn acknowledges(parsed: &Result<Command, ParseError>) -> (r: bool)
    ensures
        r == acknowledged(outcome_view(*parsed)),
{
    match parsed {
        Ok(Command::Unrecognized) => false,
        _ => true,
    }
}

/// Carries out the ledger operation that the command asks for, if any, and
/// writes the text of the reply, if there is one. At most one ledger
/// operation runs.
pub fn respond(
    parsed: &Result<Command, ParseError>,
    sender: &str,
    sender_name: &str,
    ledger: &mut Ledger,
    supplied: &Supplied,
) -> (r: Option<String>)
    requires
        old(ledger).wf(),
        parsed is Ok ==> parsed.unwrap().wf(),
    ensures
        final(ledger).wf(),
        final(ledger)@ == routed_ledger(outcome_view(*parsed), sender@, sender_name@, old(ledger)@),
        match routed_text(outcome_view(*parsed), sender@, sender_name@, old(ledger)@, supplied@) {
            Some(text) => r is Some && r.unwrap()@ == text,
            None => r is None,
        },
{
    match parsed {
        Err(ParseError::Usage) => Some(String::from_str("Usage: !issue [amount] [name]")),
        Err(ParseError::InvalidAmount) => Some(String::from_str("Invalid amount")),
        Ok(Command::Help) => Some(write_help(sender_name)),
        Ok(Command::ListContacts) => match supplied {
            Supplied::Contacts(contacts) => Some(write_listing(contacts)),
            _ => None,
        },
        Ok(Command::Balance { target: None }) => {
            let balance = ledger.ensure_account(sender, sender_name);
            Some(write_own_balance(sender_name, &balance))
        },
        Ok(Command::Balance { target: Some(name) }) => {
            match ledger.lookup_balance_by_name(name.as_str()) {
                Ok(balance) => Some(write_balance(name.as_str(), &balance)),
                Err(_) => Some(write_unknown_account(name.as_str())),
            }
        },
        Ok(Command::Transfer { amount, recipient }) => {
            match ledger.transfer(sender, recipient.as_str(), amount) {
                Ok(_) => Some(write_transfer_done(sender_name, amount, recipient.as_str())),
                Err(_) => Some(write_transfer_refused(sender_name, recipient.as_str())),
            }
        },
        Ok(Command::Issue { amount, target }) => {
            match ledger.issue(target.as_str(), amount) {
                Ok(_) => Some(write_issue_done(amount, target.as_str())),
                Err(_) => Some(String::from_str("That user didn't run !bal yet")),
            }
        },
        Ok(Command::Tag) => Some(String::from_str(TAG_REPLY)),
        Ok(Command::Joke) => match supplied {
            Supplied::Joke(joke) => Some(write_joke(joke.joke.as_str(), joke.category.as_str())),
            Supplied::JokeFailed(reason) => Some(write_joke_failed(reason.as_str())),
            _ => None,
        },
        Ok(Command::Unrecognized) => None,
    }
}

/// Routes the outcome of a parse: the ledger operation, the text of the
/// reply and where it goes.
pub fn route(
    parsed: &Result<Command, ParseError>,
    sender: &str,
    sender_name: &str,
    group_id: &Vec<u8>,
    ledger: &mut Ledger,
    supplied: &Supplied,
) -> (r: Option<Reply>)
    requires
        old(ledger).wf(),
        parsed is Ok ==> parsed.unwrap().wf(),
    ensures
        final(ledger).wf(),
        final(ledger)@ == routed_ledger(outcome_view(*parsed), sender@, sender_name@, old(ledger)@),
        text_of(r) == routed_text(
            outcome_view(*parsed),
            sender@,
            sender_name@,
            old(ledger)@,
            supplied@,
        ),
        r is Some ==> r.unwrap().destination@ == destination_for(sender@, group_id@),
{
    match respond(parsed, sender, sender_name, ledger, supplied) {
        Some(text) => Some(Reply { destination: destination_of(sender, group_id), text }),
        None => None,
    }
}

/// Handles one event: parses its text and routes the outcome.
pub fn handle_event(event: &MessageEvent, ledger: &mut Ledger, supplied: &Supplied) -> (r: Option<
    Reply,
>)
    requires
        old(ledger).wf(),
    ensures
        final(ledger).wf(),
        final(ledger)@ == routed_ledger(
            parsed_command(event.text@),
            event.sender@,
            event.sender_name@,
            old(ledger)@,
        ),
        text_of(r) == routed_text(
            parsed_command(event.text@),
            event.sender@,
            event.sender_name@,
            old(ledger)@,
            supplied@,
        ),
        r is Some ==> r.unwrap().destination@ == destination_for(event.sender@, event.group_id@),
{
    let parsed = parse_command(event.text.as_str());
    route(
        &parsed,
        event.sender.as_str(),
        event.sender_name.as_str(),
        &event.group_id,
        ledger,
        supplied,
    )
}

/// Of all commands only an issue changes the sum of all balances: routing
/// any other outcome of a parse leaves the sum as it was.
pub proof fn only_issue_changes_total(
    parsed: Result<CommandView, ParseError>,
    sender: Seq<char>,
    sender_name: Seq<char>,
    l: Seq<AccountView>,
    s: int,
)
    requires
        scales_within(l, s),
        parsed matches Ok(CommandView::Transfer { amount, .. }) ==> amount.scale <= s,
        !(parsed matches Ok(CommandView::Issue { .. })),
    ensures
        total_at(routed_ledger(parsed, sender, sender_name, l), s) == total_at(l, s),
{
    match parsed {
        Ok(CommandView::Balance { target: None }) => {
            ensure_account_keeps_total(l, sender, sender_name, s);
        },
        Ok(CommandView::Transfer { amount, recipient }) => {
            transfer_conserves_total(l, sender, recipient, amount, s);
        },
        _ => {},
    }
}

/// A command that does not need the ledger neither changes it nor reads
/// it: the reply is the same whatever the accounts hold.
pub proof fn ledger_matters_only_where_needed(
    parsed: Result<CommandView, ParseError>,
    sender: Seq<char>,
    sender_name: Seq<char>,
    l: Seq<AccountView>,
    other: Seq<AccountView>,
    supplied: SuppliedView,
)
    requires
        needed(parsed) != Need::Ledger,
    ensures
        routed_ledger(parsed, sender, sender_name, l) == l,
        routed_text(parsed, sender, sender_name, l, supplied) == routed_text(
            parsed,
            sender,
            sender_name,
            other,
            supplied,
        ),
{
}

/// Every message that gets a reply is also acknowledged as read.
pub proof fn reply_implies_acknowledgment(
    parsed: Result<CommandView, ParseError>,
    sender: Seq<char>,
    sender_name: Seq<char>,
    l: Seq<AccountView>,
    supplied: SuppliedView,
)
    requires
        routed_text(parsed, sender, sender_name, l, supplied) is Some,
    ensures
        acknowledged(parsed),
{
}

} // verus!
