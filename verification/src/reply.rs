//! The texts of the replies.

use crate::decimal::{Decimal, Quantity};
use vstd::prelude::*;
use vstd::string::StringExecFns;

verus! {

/// The answer to `!tag oh`.
pub const TAG_REPLY: &'static str = "OHOHOHOHOHOHOHOOHOHOHOHOOHOHOHOHOOHOHOHOHOOHOHOHOHOOHOHOHOHOOHOHOHOHOOHOHOHOHOOHOHOHOHOOHOHOHOHOOHOHOHOHOOHOHOHOHOOHOHOHOHOOHOHOHOHOOHOHOHOHOOHOHOHOHOOHOHOHOHOOHOHOHOHOOHOHOHOHOOHOHOHOHOOHOHOHOHOOHOHOHOHOOHOHOHOHOOHOHOHOHOOHOHOHOHOOHOHOHOHOOHOHOHOHOOHOHOHOHOOHOHOHOHOOHOHOHOHOOHOHOHOHOOHOHOHOHOOHOHOHOHOOHOHOHOHOOHOHOHOHOOHOHOHOHOOHOHOHOHOOHOHOHOHOOHOHOHOHOOHOHOHOHOOHOHOHOHOOHOHOHOHOOHOHOHOHOOHOHOHOHOOHOHOHOHOOHOHOHOHOOHOHOHOHOOHOHOHOHOOHOHOHOHOOHOHOHOHOOHOHOHOHOOHOHOHOHOOHOHOHOHOOHOHOHOHOOHOHOHOHOOHOHOHOHOOHOHOHOHOOHOHOHOHOOHOHOHOHOOHOHOHOHOOHOHOHOHOOHOHOHOHOOHOHOHOHOOHOHOHOHOOHOHOHOHOOHOHOHOHOOHOHOHOHOOHOHOHOHOOHOHOHOHOOHOHOHOHOOHOHOHOHOOHOHOHOHOOHOHOHOHOOHOHOHOHOOHOHOHOHOOHOHOHOHOOHOHOHOHOOHOHOHOHOOHOHOHOHOOHOHOHOHOOHOHOHOHOOHOHOHOHOOHOHOHOHOOHOHOHOHOOHOHOHOHOOHOHOHOHOOHOHOHOHOOHOHOHOHOOHOHOHOHOOHOHOHOHOOHOHOHOHOOHOHOHOHOOHOHOHOHOOHOHOHOHOOHOHOHOHOOHOHOHOHOOHOHOHOHOOHOHOHOHOOHOHOHOHOOHOHOHOHOOHOHOHOHOOHOHOHOHOOHOHOHOHOOHOHOHOHOOHOHOHOHOOHOHOHOHOOHOHOHOHOOHOHOHOHOOHOHOHOHOOHOHOHOHOOHOHOHOHOOHOHOHOHOOHOHOHOHOOHOHOHOHOOHOHOHOHOOHO";

/// A contact of the messaging gateway: a number and the name it resolves to.
#[derive(Clone, Debug)]
pub struct Contact {
    pub number: String,
    pub name: String,
}

/// What a `Contact` stands for.
pub struct ContactView {
    pub number: Seq<char>,
    pub name: Seq<char>,
}

impl View for Contact {
    type V = ContactView;

    open spec fn view(&self) -> ContactView {
        ContactView { number: self.number@, name: self.name@ }
    }
}

/// The contacts by their views.
pub open spec fn contact_views(contacts: Seq<Contact>) -> Seq<ContactView> {
    contacts.map_values(|c: Contact| c@)
}

/// The answer to `!help`.
pub open spec fn help_text(name: Seq<char>) -> Seq<char> {
    "Hello "@ + name + ", SkyBot is currently useless."@
}

/// The answer to `!list`: one line for each contact, name first.
pub open spec fn listing_text(contacts: Seq<ContactView>) -> Seq<char>
    decreases contacts.len(),
{
    if contacts.len() == 0 {
        Seq::empty()
    } else {
        listing_text(contacts.drop_last()) + contacts.last().name + ": "@ + contacts.last().number
            + "\n"@
    }
}

/// The answer to `!bal` without a name.
pub open spec fn own_balance_text(name: Seq<char>, balance: Quantity) -> Seq<char> {
    "Hello "@ + name + ", your balance is "@ + balance.text()
}

/// The answer to `!bal` with the name of an account.
pub open spec fn balance_text(name: Seq<char>, balance: Quantity) -> Seq<char> {
    name + "'s balance is "@ + balance.text()
}

/// The answer to `!bal` with a name that no account carries.
pub open spec fn unknown_account_text(name: Seq<char>) -> Seq<char> {
    name + " is not in the database"@
}

/// The answer to a transfer that went through.
pub open spec fn transfer_done_text(sender: Seq<char>, amount: Quantity, recipient: Seq<char>) -> Seq<
    char,
> {
    sender + ", you gave "@ + amount.text() + " to "@ + recipient + "!"@
}

/// The answer to a transfer that was refused. It does not say why.
pub open spec fn transfer_refused_text(sender: Seq<char>, recipient: Seq<char>) -> Seq<char> {
    sender + " does not have enough money or "@ + recipient + " doesn't exist"@
}

/// The answer to an issue that went through.
pub open spec fn issue_done_text(amount: Quantity, name: Seq<char>) -> Seq<char> {
    "Added "@ + amount.text() + " to "@ + name + "'s balance"@
}

/// The answer to an issue for a name that no account carries.
pub open spec fn issue_refused_text() -> Seq<char> {
    "That user didn't run !bal yet"@
}

/// The answer to a payment command with an argument missing.
pub open spec fn usage_text() -> Seq<char> {
    "Usage: !issue [amount] [name]"@
}

/// The answer to a payment command with an amount that was turned down.
pub open spec fn invalid_amount_text() -> Seq<char> {
    "Invalid amount"@
}

/// The answer to `!ym` when a joke was fetched.
pub open spec fn joke_text(joke: Seq<char>, category: Seq<char>) -> Seq<char> {
    joke + " (Category: "@ + category + ")"@
}

/// The answer to `!ym` when no joke could be fetched.
pub open spec fn joke_failed_text(reason: Seq<char>) -> Seq<char> {
    "Failed to fetch joke: "@ + reason
}

/// Writes the answer to `!help`.
pub fn write_help(name: &str) -> (r: String)
    ensures
        r@ == help_text(name@),
{
    let mut text = String::from_str("Hello ");
    text.append(name);
    text.append(", SkyBot is currently useless.");
    text
}

/// Writes the answer to `!list`.
pub fn write_listing(contacts: &Vec<Contact>) -> (r: String)
    ensures
        r@ == listing_text(contact_views(contacts@)),
{
    let mut text = String::new();
    let mut i: usize = 0;
    while i < contacts.len()
        invariant
            i <= contacts.len(),
            text@ == listing_text(contact_views(contacts@).take(i as int)),
        decreases contacts.len() - i,
    {
        proof {
            let views = contact_views(contacts@);
            assert(views.take(i + 1).drop_last() =~= views.take(i as int));
            assert(views.take(i + 1).last() == contacts@[i as int]@);
        }
        text.append(contacts[i].name.as_str());
        text.append(": ");
        text.append(contacts[i].number.as_str());
        text.append("\n");
        i += 1;
    }
    assert(contact_views(contacts@).take(i as int) =~= contact_views(contacts@));
    text
}

/// Writes the answer to `!bal` without a name.
pub fn write_own_balance(name: &str, balance: &Decimal) -> (r: String)
    requires
        balance.wf(),
    ensures
        r@ == own_balance_text(name@, balance@),
{
    let mut text = String::from_str("Hello ");
    text.append(name);
    text.append(", your balance is ");
    text.append(balance.to_text().as_str());
    text
}

/// Writes the answer to `!bal` with the name of an account.
pub fn write_balance(name: &str, balance: &Decimal) -> (r: String)
    requires
        balance.wf(),
    ensures
        r@ == balance_text(name@, balance@),
{
    let mut text = String::from_str(name);
    text.append("'s balance is ");
    text.append(balance.to_text().as_str());
    text
}

/// Writes the answer to `!bal` with a name that no account carries.
pub fn write_unknown_account(name: &str) -> (r: String)
    ensures
        r@ == unknown_account_text(name@),
{
    let mut text = String::from_str(name);
    text.append(" is not in the database");
    text
}

/// Writes the answer to a transfer that went through.
pub fn write_transfer_done(sender: &str, amount: &Decimal, recipient: &str) -> (r: String)
    requires
        amount.wf(),
    ensures
        r@ == transfer_done_text(sender@, amount@, recipient@),
{
    let mut text = String::from_str(sender);
    text.append(", you gave ");
    text.append(amount.to_text().as_str());
    text.append(" to ");
    text.append(recipient);
    text.append("!");
    text
}

/// Writes the answer to a transfer that was refused.
pub fn write_transfer_refused(sender: &str, recipient: &str) -> (r: String)
    ensures
        r@ == transfer_refused_text(sender@, recipient@),
{
    let mut text = String::from_str(sender);
    text.append(" does not have enough money or ");
    text.append(recipient);
    text.append(" doesn't exist");
    text
}

/// Writes the answer to an issue that went through.
pub fn write_issue_done(amount: &Decimal, name: &str) -> (r: String)
    requires
        amount.wf(),
    ensures
        r@ == issue_done_text(amount@, name@),
{
    let mut text = String::from_str("Added ");
    text.append(amount.to_text().as_str());
    text.append(" to ");
    text.append(name);
    text.append("'s balance");
    text
}

/// Writes the answer to `!ym` when a joke was fetched.
pub fn write_joke(joke: &str, category: &str) -> (r: String)
    ensures
        r@ == joke_text(joke@, category@),
{
    let mut text = String::from_str(joke);
    text.append(" (Category: ");
    text.append(category);
    text.append(")");
    text
}

/// Writes the answer to `!ym` when no joke could be fetched.
pub fn write_joke_failed(reason: &str) -> (r: String)
    ensures
        r@ == joke_failed_text(reason@),
{
    let mut text = String::from_str("Failed to fetch joke: ");
    text.append(reason);
    text
}

} // verus!
