use skybot::command::{parse_command, ParseError};
use skybot::decimal::Decimal;
use skybot::ledger::Ledger;
use skybot::reply::{write_listing, Contact, TAG_REPLY};
use skybot::router::{
    acknowledges, destination_of, handle_event, needs, respond, route, Destination, Joke,
    MessageEvent, Need, Reply, Supplied,
};

fn dec(text: &str) -> Decimal {
    Decimal::parse(text).expect("a decimal")
}

fn event(sender: &str, name: &str, text: &str) -> MessageEvent {
    MessageEvent {
        sender: sender.to_string(),
        sender_name: name.to_string(),
        group_id: Vec::new(),
        text: text.to_string(),
        timestamp: 1_700_000_000_000,
    }
}

fn two_accounts() -> Ledger {
    let mut ledger = Ledger::new();
    ledger.ensure_account("+100", "A");
    ledger.ensure_account("+200", "B");
    ledger.issue("A", &dec("100.00")).unwrap();
    ledger.issue("B", &dec("5.00")).unwrap();
    ledger
}

fn balances(ledger: &Ledger) -> Vec<String> {
    (0..ledger.len()).map(|i| ledger.account(i).balance.to_text()).collect()
}

fn text_of(reply: Option<Reply>) -> String {
    reply.expect("a reply").text
}

fn direct(reply: &Reply) -> Option<&str> {
    match &reply.destination {
        Destination::Direct(identifier) => Some(identifier.as_str()),
        Destination::Group(_) => None,
    }
}

#[test]
fn give_moves_the_amount_and_confirms_it() {
    let mut ledger = two_accounts();
    let reply = handle_event(&event("+100", "A", "!give 30 B"), &mut ledger, &Supplied::Nothing)
        .expect("a reply");
    assert_eq!(reply.text, "A, you gave 30 to B!");
    assert_eq!(direct(&reply), Some("+100"));
    assert_eq!(balances(&ledger), vec!["70.00", "35.00"]);
}

#[test]
fn issue_to_someone_without_an_account_changes_nothing() {
    let mut ledger = two_accounts();
    let reply = handle_event(&event("+100", "A", "!issue 50 C"), &mut ledger, &Supplied::Nothing);
    assert_eq!(text_of(reply), "That user didn't run !bal yet");
    assert_eq!(balances(&ledger), vec!["100.00", "5.00"]);
    assert_eq!(ledger.len(), 2);
}

#[test]
fn issue_confirms_amount_and_name() {
    let mut ledger = two_accounts();
    let reply = handle_event(&event("+100", "A", "!issue 50 B"), &mut ledger, &Supplied::Nothing);
    assert_eq!(text_of(reply), "Added 50 to B's balance");
    assert_eq!(balances(&ledger), vec!["100.00", "55.00"]);
}

#[test]
fn give_beyond_the_balance_is_refused_without_saying_why() {
    let mut ledger = two_accounts();
    let overdrawn = handle_event(&event("+200", "B", "!give 75.00 A"), &mut ledger, &Supplied::Nothing);
    assert_eq!(text_of(overdrawn), "B does not have enough money or A doesn't exist");
    let unknown = handle_event(&event("+200", "B", "!give 1 Z"), &mut ledger, &Supplied::Nothing);
    assert_eq!(text_of(unknown), "B does not have enough money or Z doesn't exist");
    assert_eq!(balances(&ledger), vec!["100.00", "5.00"]);
}

#[test]
fn own_balance_opens_the_account_on_first_use() {
    let mut ledger = two_accounts();
    let reply = handle_event(&event("+300", "C", "!bal"), &mut ledger, &Supplied::Nothing);
    assert_eq!(text_of(reply), "Hello C, your balance is 0");
    assert_eq!(ledger.len(), 3);
    assert_eq!(ledger.account(2).identifier, "+300");
    assert_eq!(ledger.account(2).name, "C");
    let again = handle_event(&event("+100", "A", "!bal"), &mut ledger, &Supplied::Nothing);
    assert_eq!(text_of(again), "Hello A, your balance is 100.00");
    assert_eq!(ledger.len(), 3);
    assert_eq!(balances(&ledger), vec!["100.00", "5.00", "0"]);
}

#[test]
fn balance_by_name_reads_without_opening() {
    let mut ledger = two_accounts();
    let known = handle_event(&event("+300", "C", "!bal B"), &mut ledger, &Supplied::Nothing);
    assert_eq!(text_of(known), "B's balance is 5.00");
    let unknown = handle_event(&event("+300", "C", "!bal C"), &mut ledger, &Supplied::Nothing);
    assert_eq!(text_of(unknown), "C is not in the database");
    assert_eq!(ledger.len(), 2);
}

#[test]
fn parse_errors_are_answered() {
    let mut ledger = two_accounts();
    let usage = handle_event(&event("+100", "A", "!give 10"), &mut ledger, &Supplied::Nothing);
    assert_eq!(text_of(usage), "Usage: !issue [amount] [name]");
    let invalid = handle_event(&event("+100", "A", "!give abc B"), &mut ledger, &Supplied::Nothing);
    assert_eq!(text_of(invalid), "Invalid amount");
    let negative = handle_event(&event("+100", "A", "!issue -5 B"), &mut ledger, &Supplied::Nothing);
    assert_eq!(text_of(negative), "Invalid amount");
    assert_eq!(balances(&ledger), vec!["100.00", "5.00"]);
}

#[test]
fn plain_text_gets_no_reply() {
    let mut ledger = two_accounts();
    assert!(handle_event(&event("+100", "A", "good morning"), &mut ledger, &Supplied::Nothing).is_none());
    assert!(handle_event(&event("+100", "A", ""), &mut ledger, &Supplied::Nothing).is_none());
    assert_eq!(balances(&ledger), vec!["100.00", "5.00"]);
}

#[test]
fn help_greets_the_sender() {
    let mut ledger = Ledger::new();
    let reply = handle_event(&event("+100", "A", "!help"), &mut ledger, &Supplied::Nothing);
    assert_eq!(text_of(reply), "Hello A, SkyBot is currently useless.");
    assert_eq!(ledger.len(), 0);
}

#[test]
fn tag_is_answered_with_the_fixed_text() {
    let mut ledger = Ledger::new();
    let reply = text_of(handle_event(&event("+100", "A", "!tag oh"), &mut ledger, &Supplied::Nothing));
    assert_eq!(reply, TAG_REPLY);
    assert_eq!(reply.len(), 1044);
    assert!(reply.starts_with("OHOHOHOHOHOHOHOOHOHOHOHOOHOHOHOHO"));
    assert!(reply.ends_with("OHOHOHOHOOHO"));
    assert!(reply.chars().all(|c| c == 'O' || c == 'H'));
}

#[test]
fn list_names_each_contact_on_a_line() {
    let contacts = vec![
        Contact { number: "+100".to_string(), name: "A".to_string() },
        Contact { number: "+200".to_string(), name: "B".to_string() },
    ];
    assert_eq!(write_listing(&contacts), "A: +100\nB: +200\n");
    assert_eq!(write_listing(&Vec::new()), "");
    let mut ledger = Ledger::new();
    let reply = handle_event(&event("+100", "A", "!list"), &mut ledger, &Supplied::Contacts(contacts));
    assert_eq!(text_of(reply), "A: +100\nB: +200\n");
    let empty = handle_event(&event("+100", "A", "!list"), &mut ledger, &Supplied::Contacts(Vec::new()));
    assert_eq!(text_of(empty), "");
}

#[test]
fn list_without_contacts_supplied_is_dropped() {
    let mut ledger = Ledger::new();
    assert!(handle_event(&event("+100", "A", "!list"), &mut ledger, &Supplied::Nothing).is_none());
    let joke = Supplied::JokeFailed("down".to_string());
    assert!(handle_event(&event("+100", "A", "!list"), &mut ledger, &joke).is_none());
}

#[test]
fn joke_is_answered_with_joke_and_category() {
    let mut ledger = Ledger::new();
    let joke = Supplied::Joke(Joke { joke: "Yo mama".to_string(), category: "old".to_string() });
    let reply = handle_event(&event("+100", "A", "!ym"), &mut ledger, &joke);
    assert_eq!(text_of(reply), "Yo mama (Category: old)");
    let failed = Supplied::JokeFailed("API request failed with status: 503".to_string());
    let reply = handle_event(&event("+100", "A", "!ym"), &mut ledger, &failed);
    assert_eq!(text_of(reply), "Failed to fetch joke: API request failed with status: 503");
    assert!(handle_event(&event("+100", "A", "!ym"), &mut ledger, &Supplied::Nothing).is_none());
}

#[test]
fn replies_go_to_the_group_where_there_is_one() {
    let mut ledger = two_accounts();
    let mut in_group = event("+100", "A", "!bal B");
    in_group.group_id = vec![7, 8, 9];
    let reply = handle_event(&in_group, &mut ledger, &Supplied::Nothing).expect("a reply");
    match reply.destination {
        Destination::Group(group) => assert_eq!(group, vec![7, 8, 9]),
        Destination::Direct(_) => panic!("expected the group"),
    }
    match destination_of("+100", &Vec::new()) {
        Destination::Direct(identifier) => assert_eq!(identifier, "+100"),
        Destination::Group(_) => panic!("expected the sender"),
    }
}

#[test]
fn needs_says_what_to_fetch() {
    assert_eq!(needs(&parse_command("!list")), Need::Contacts);
    assert_eq!(needs(&parse_command("!ym")), Need::Joke);
    assert_eq!(needs(&parse_command("!bal")), Need::Ledger);
    assert_eq!(needs(&parse_command("!bal bob")), Need::Ledger);
    assert_eq!(needs(&parse_command("!give 1 bob")), Need::Ledger);
    assert_eq!(needs(&parse_command("!issue 1 bob")), Need::Ledger);
    assert_eq!(needs(&parse_command("!give 1")), Need::Nothing);
    assert_eq!(needs(&parse_command("!help")), Need::Nothing);
    assert_eq!(needs(&parse_command("!tag oh")), Need::Nothing);
    assert_eq!(needs(&parse_command("hello")), Need::Nothing);
}

#[test]
fn every_command_is_acknowledged_and_plain_text_is_not() {
    assert!(acknowledges(&parse_command("!help")));
    assert!(acknowledges(&parse_command("!give 1")));
    assert!(acknowledges(&parse_command("!give abc bob")));
    assert!(acknowledges(&parse_command("!ym")));
    assert!(!acknowledges(&parse_command("hello")));
    assert!(acknowledges(&Err(ParseError::Usage)));
}

#[test]
fn respond_and_route_agree() {
    let mut first = two_accounts();
    let mut second = two_accounts();
    let parsed = parse_command("!give 0.5 B");
    let text = respond(&parsed, "+100", "A", &mut first, &Supplied::Nothing).unwrap();
    let reply = route(&parsed, "+100", "A", &vec![1], &mut second, &Supplied::Nothing).unwrap();
    assert_eq!(text, "A, you gave 0.5 to B!");
    assert_eq!(reply.text, text);
    assert_eq!(balances(&first), vec!["99.50", "5.50"]);
    assert_eq!(balances(&first), balances(&second));
    assert!(matches!(reply.destination, Destination::Group(_)));
}

#[test]
fn the_reply_names_the_sender_by_display_name() {
    let mut ledger = two_accounts();
    let reply = handle_event(&event("+100", "Alice", "!give 1 B"), &mut ledger, &Supplied::Nothing);
    assert_eq!(text_of(reply), "Alice, you gave 1 to B!");
    assert_eq!(balances(&ledger), vec!["99.00", "6.00"]);
}
