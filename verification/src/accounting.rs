//! What the ledger operations keep: the sum of all balances, the set of
//! accounts, and the state of the ledger when an operation is refused.
//!
//! Balances carry different scales, so their sum is taken at a scale `s`
//! that none of them exceeds: each balance counts as the integer it is with
//! `s` digits after the decimal point. The sum as a number is that integer
//! times `10^(-s)`, and two ledgers hold the same total exactly when their
//! sums agree at one such scale.

use crate::decimal::{common_scale, Quantity};
use crate::ledger::{
    account_named, account_of, credited, debited, ensured, ensured_balance, identifiers, issued,
    names, transfer_admitted, transferred, AccountView,
};
use crate::occurrence::{lemma_first_occurrence, lemma_occurrence_facts};
use vstd::arithmetic::power::{lemma_pow0, lemma_pow_adds, lemma_pow_positive, pow};
use vstd::prelude::*;

verus! {

/// The sum of all balances at the scale `s`.
pub open spec fn total_at(l: Seq<AccountView>, s: int) -> int
    decreases l.len(),
{
    if l.len() == 0 {
        0
    } else {
        total_at(l.drop_last(), s) + l.last().balance.scaled(s)
    }
}

/// Whether no balance has a scale above `s`.
pub open spec fn scales_within(l: Seq<AccountView>, s: int) -> bool {
    forall|i: int| 0 <= i < l.len() ==> (#[trigger] l[i]).balance.scale <= s
}

/// One request to move `amount` from `sender` to `recipient`.
pub struct TransferRequest {
    pub sender: Seq<char>,
    pub recipient: Seq<char>,
    pub amount: Quantity,
}

/// The ledger after the requests were handled one after the other, each
/// carried out or refused on the ledger that the ones before it left.
pub open spec fn after_transfers(l: Seq<AccountView>, requests: Seq<TransferRequest>) -> Seq<
    AccountView,
>
    decreases requests.len(),
{
    if requests.len() == 0 {
        l
    } else {
        let last = requests.last();
        transferred(
            after_transfers(l, requests.drop_last()),
            last.sender,
            last.recipient,
            last.amount,
        )
    }
}

/// Writing a quantity with more digits after the point multiplies its
/// integer by the matching power of ten.
pub proof fn lemma_scaled_further(q: Quantity, s1: int, s2: int)
    requires
        q.scale <= s1 <= s2,
    ensures
        q.scaled(s2) == q.scaled(s1) * pow(10, (s2 - s1) as nat),
{
    let a = pow(10, (s1 - q.scale) as nat);
    let b = pow(10, (s2 - s1) as nat);
    lemma_pow_adds(10, (s1 - q.scale) as nat, (s2 - s1) as nat);
    assert((s1 - q.scale) as nat + (s2 - s1) as nat == (s2 - q.scale) as nat);
    assert(q.unscaled * (a * b) == (q.unscaled * a) * b) by (nonlinear_arith);
}

/// Written at its own scale, a quantity is its digits.
pub proof fn lemma_scaled_same(q: Quantity)
    ensures
        q.scaled(q.scale) == q.unscaled,
{
    lemma_pow0(10);
}

/// Writing a quantity with more digits after the point keeps its sign.
pub proof fn lemma_scaled_sign(q: Quantity, s: int)
    requires
        q.scale <= s,
    ensures
        q.unscaled >= 0 <==> q.scaled(s) >= 0,
        q.unscaled == 0 <==> q.scaled(s) == 0,
{
    let p = pow(10, (s - q.scale) as nat);
    lemma_pow_positive(10, (s - q.scale) as nat);
    assert((q.unscaled >= 0 <==> q.unscaled * p >= 0) && (q.unscaled == 0 <==> q.unscaled * p
        == 0)) by (nonlinear_arith)
        requires
            p > 0,
    ;
}

/// At a scale that holds both, a sum is the sum of its parts.
pub proof fn lemma_plus_scaled(a: Quantity, b: Quantity, s: int)
    requires
        a.scale <= s,
        b.scale <= s,
    ensures
        a.plus(b).scale <= s,
        a.plus(b).scaled(s) == a.scaled(s) + b.scaled(s),
{
    let c = common_scale(a, b);
    let p = pow(10, (s - c) as nat);
    lemma_scaled_further(a, c, s);
    lemma_scaled_further(b, c, s);
    assert((a.scaled(c) + b.scaled(c)) * p == a.scaled(c) * p + b.scaled(c) * p)
        by (nonlinear_arith);
}

/// At a scale that holds both, a difference is the difference of its parts.
pub proof fn lemma_minus_scaled(a: Quantity, b: Quantity, s: int)
    requires
        a.scale <= s,
        b.scale <= s,
    ensures
        a.minus(b).scale <= s,
        a.minus(b).scaled(s) == a.scaled(s) - b.scaled(s),
{
    if b.unscaled == 0 {
        assert(0 * pow(10, (s - b.scale) as nat) == 0);
    } else if a.unscaled == 0 {
        let p = pow(10, (s - b.scale) as nat);
        assert(0 * pow(10, (s - a.scale) as nat) == 0);
        assert((-b.unscaled) * p == -(b.unscaled * p)) by (nonlinear_arith);
    } else {
        let c = common_scale(a, b);
        let p = pow(10, (s - c) as nat);
        lemma_scaled_further(a, c, s);
        lemma_scaled_further(b, c, s);
        assert((a.scaled(c) - b.scaled(c)) * p == a.scaled(c) * p - b.scaled(c) * p)
            by (nonlinear_arith);
    }
}

/// Replacing one account changes the total by what its balance changed.
pub proof fn lemma_total_after_update(l: Seq<AccountView>, i: int, account: AccountView, s: int)
    requires
        0 <= i < l.len(),
    ensures
        total_at(l.update(i, account), s) == total_at(l, s) - l[i].balance.scaled(s)
            + account.balance.scaled(s),
    decreases l.len(),
{
    let after = l.update(i, account);
    if i == l.len() - 1 {
        assert(after.drop_last() =~= l.drop_last());
    } else {
        assert(after.drop_last() =~= l.drop_last().update(i, account));
        lemma_total_after_update(l.drop_last(), i, account, s);
    }
}

/// A credit raises the total by the amount and keeps every scale within `s`.
pub proof fn lemma_credit(l: Seq<AccountView>, i: int, amount: Quantity, s: int)
    requires
        0 <= i < l.len(),
        scales_within(l, s),
        amount.scale <= s,
    ensures
        scales_within(credited(l, i, amount), s),
        total_at(credited(l, i, amount), s) == total_at(l, s) + amount.scaled(s),
{
    let account = AccountView { balance: l[i].balance.plus(amount), ..l[i] };
    lemma_plus_scaled(l[i].balance, amount, s);
    lemma_total_after_update(l, i, account, s);
    let after = credited(l, i, amount);
    assert forall|j: int| 0 <= j < after.len() implies (#[trigger] after[j]).balance.scale
        <= s by {
        if j != i {
            assert(after[j] == l[j]);
        }
    }
}

/// A debit lowers the total by the amount and keeps every scale within `s`.
pub proof fn lemma_debit(l: Seq<AccountView>, i: int, amount: Quantity, s: int)
    requires
        0 <= i < l.len(),
        scales_within(l, s),
        amount.scale <= s,
    ensures
        scales_within(debited(l, i, amount), s),
        total_at(debited(l, i, amount), s) == total_at(l, s) - amount.scaled(s),
{
    let account = AccountView { balance: l[i].balance.minus(amount), ..l[i] };
    lemma_minus_scaled(l[i].balance, amount, s);
    lemma_total_after_update(l, i, account, s);
    let after = debited(l, i, amount);
    assert forall|j: int| 0 <= j < after.len() implies (#[trigger] after[j]).balance.scale
        <= s by {
        if j != i {
            assert(after[j] == l[j]);
        }
    }
}

/// A transfer moves value and neither makes nor destroys it: whether it is
/// carried out or refused, the sum of all balances after it equals the sum
/// before it.
pub proof fn transfer_conserves_total(
    l: Seq<AccountView>,
    sender: Seq<char>,
    recipient: Seq<char>,
    amount: Quantity,
    s: int,
)
    requires
        scales_within(l, s),
        amount.scale <= s,
    ensures
        scales_within(transferred(l, sender, recipient, amount), s),
        total_at(transferred(l, sender, recipient, amount), s) == total_at(l, s),
{
    if transfer_admitted(l, sender, recipient, amount) {
        lemma_occurrence_facts(identifiers(l), sender);
        lemma_occurrence_facts(names(l), recipient);
        let from = account_of(l, sender).unwrap();
        let to = account_named(l, recipient).unwrap();
        lemma_credit(l, to, amount, s);
        lemma_debit(credited(l, to, amount), from, amount, s);
    }
}

/// Conservation: after any finite sequence of transfers, the sum of all
/// balances equals the sum before the first of them.
pub proof fn transfers_conserve_total(
    l: Seq<AccountView>,
    requests: Seq<TransferRequest>,
    s: int,
)
    requires
        scales_within(l, s),
        forall|k: int| 0 <= k < requests.len() ==> (#[trigger] requests[k]).amount.scale <= s,
    ensures
        scales_within(after_transfers(l, requests), s),
        total_at(after_transfers(l, requests), s) == total_at(l, s),
    decreases requests.len(),
{
    if requests.len() > 0 {
        let earlier = requests.drop_last();
        let last = requests.last();
        assert forall|k: int| 0 <= k < earlier.len() implies (#[trigger] earlier[k]).amount.scale
            <= s by {
            assert(earlier[k] == requests[k]);
        }
        transfers_conserve_total(l, earlier, s);
        transfer_conserves_total(
            after_transfers(l, earlier),
            last.sender,
            last.recipient,
            last.amount,
            s,
        );
    }
}

/// Whether no account owes anything: every balance is zero or above.
pub open spec fn no_debt(l: Seq<AccountView>) -> bool {
    forall|i: int| 0 <= i < l.len() ==> (#[trigger] l[i]).balance.unscaled >= 0
}

/// A transfer never overdraws: in a ledger without debt, moving an amount
/// that is not negative leaves no account in debt, the sender's included.
pub proof fn transfer_never_overdraws(
    l: Seq<AccountView>,
    sender: Seq<char>,
    recipient: Seq<char>,
    amount: Quantity,
)
    requires
        no_debt(l),
        amount.unscaled >= 0,
    ensures
        no_debt(transferred(l, sender, recipient, amount)),
{
    if transfer_admitted(l, sender, recipient, amount) {
        lemma_occurrence_facts(identifiers(l), sender);
        lemma_occurrence_facts(names(l), recipient);
        let from = account_of(l, sender).unwrap();
        let to = account_named(l, recipient).unwrap();
        let raised = credited(l, to, amount);
        let after = debited(raised, from, amount);
        let held = l[from].balance;
        let c = common_scale(held, amount);
        assert(held.unscaled >= 0);
        assert(l[to].balance.unscaled >= 0);
        lemma_scaled_sign(l[to].balance, common_scale(l[to].balance, amount));
        lemma_scaled_sign(amount, common_scale(l[to].balance, amount));
        lemma_scaled_sign(amount, c);
        lemma_scaled_sign(held, c);
        assert(raised[to].balance.unscaled >= 0);
        assert(after[from].balance.unscaled >= 0) by {
            if from == to {
                assert(raised[from].balance == held.plus(amount));
                assert(common_scale(held.plus(amount), amount) == c);
                lemma_scaled_same(held.plus(amount));
            } else {
                assert(raised[from].balance == held);
            }
        }
        assert forall|i: int| 0 <= i < after.len() implies (#[trigger] after[i]).balance.unscaled
            >= 0 by {
            if i != from {
                assert(after[i] == raised[i]);
                if i != to {
                    assert(raised[i] == l[i]);
                }
            }
        }
    }
}

/// A refused transfer is atomic: where the sender has no account or too
/// little in it, or the recipient's name is unknown, the ledger stays as
/// it was, every balance included.
pub proof fn refused_transfer_changes_nothing(
    l: Seq<AccountView>,
    sender: Seq<char>,
    recipient: Seq<char>,
    amount: Quantity,
)
    requires
        !transfer_admitted(l, sender, recipient, amount),
    ensures
        transferred(l, sender, recipient, amount) == l,
{
}

/// A transfer to a name that no account carries is refused, whatever the
/// sender holds, and leaves the ledger as it was.
pub proof fn unknown_recipient_is_refused(
    l: Seq<AccountView>,
    sender: Seq<char>,
    recipient: Seq<char>,
    amount: Quantity,
)
    requires
        account_named(l, recipient) is None,
    ensures
        !transfer_admitted(l, sender, recipient, amount),
        transferred(l, sender, recipient, amount) == l,
{
}

/// A transfer opens no account and touches no identifier or name.
pub proof fn transfer_keeps_accounts(
    l: Seq<AccountView>,
    sender: Seq<char>,
    recipient: Seq<char>,
    amount: Quantity,
)
    ensures
        identifiers(transferred(l, sender, recipient, amount)) == identifiers(l),
        names(transferred(l, sender, recipient, amount)) == names(l),
{
    let after = transferred(l, sender, recipient, amount);
    if transfer_admitted(l, sender, recipient, amount) {
        lemma_occurrence_facts(identifiers(l), sender);
        lemma_occurrence_facts(names(l), recipient);
    }
    assert(identifiers(after) =~= identifiers(l));
    assert(names(after) =~= names(l));
}

/// Asking for an account twice is the same as asking once: the second
/// request returns the balance that the first returned and leaves the
/// ledger as the first left it, whatever name it gives.
pub proof fn ensure_account_is_idempotent(
    l: Seq<AccountView>,
    identifier: Seq<char>,
    name: Seq<char>,
    again: Seq<char>,
)
    ensures
        ensured(ensured(l, identifier, name), identifier, again) == ensured(l, identifier, name),
        ensured_balance(ensured(l, identifier, name), identifier) == ensured_balance(
            l,
            identifier,
        ),
{
    if account_of(l, identifier) is None {
        let once = ensured(l, identifier, name);
        lemma_occurrence_facts(identifiers(l), identifier);
        assert forall|j: int| 0 <= j < l.len() implies identifiers(once)[j] != identifier by {
            assert(identifiers(once)[j] == identifiers(l)[j]);
        }
        lemma_first_occurrence(identifiers(once), identifier, l.len() as int);
    }
}

/// Asking for an account changes no balance that exists and leaves the sum
/// of all balances as it was.
pub proof fn ensure_account_keeps_total(
    l: Seq<AccountView>,
    identifier: Seq<char>,
    name: Seq<char>,
    s: int,
)
    ensures
        forall|i: int| 0 <= i < l.len() ==> ensured(l, identifier, name)[i] == l[i],
        total_at(ensured(l, identifier, name), s) == total_at(l, s),
{
    if account_of(l, identifier) is None {
        let once = ensured(l, identifier, name);
        assert(once.drop_last() =~= l);
        assert(0 * pow(10, (s - 0) as nat) == 0);
    }
}

/// An issue never opens an account: the ledger has as many accounts after
/// it as before, under the same identifiers and names, and where no account
/// carries the name nothing changes at all.
pub proof fn issue_opens_no_account(l: Seq<AccountView>, name: Seq<char>, amount: Quantity)
    ensures
        issued(l, name, amount).len() == l.len(),
        identifiers(issued(l, name, amount)) == identifiers(l),
        names(issued(l, name, amount)) == names(l),
        account_named(l, name) is None ==> issued(l, name, amount) == l,
{
    lemma_occurrence_facts(names(l), name);
    assert(identifiers(issued(l, name, amount)) =~= identifiers(l));
    assert(names(issued(l, name, amount)) =~= names(l));
}

/// An issue to a known name raises the sum of all balances by the amount.
pub proof fn issue_raises_total(l: Seq<AccountView>, name: Seq<char>, amount: Quantity, s: int)
    requires
        scales_within(l, s),
        amount.scale <= s,
        account_named(l, name) is Some,
    ensures
        scales_within(issued(l, name, amount), s),
        total_at(issued(l, name, amount), s) == total_at(l, s) + amount.scaled(s),
{
    lemma_occurrence_facts(names(l), name);
    lemma_credit(l, account_named(l, name).unwrap(), amount, s);
}

} // verus!
