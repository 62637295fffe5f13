//! Lookups from the current selection to the entity it stands for. Each one
//! resolves the parent first and the child inside it, so a selection that is
//! missing or stale anywhere on the way gives nothing.

use crate::account::{Account, AccountView};
use crate::account_change::{AccountChange, AccountChangeView};
use crate::id_map::IdMap;
use crate::journal::{Journal, JournalView};
use crate::transaction::{Transaction, TransactionView};
use crate::utility::{key_view, lookup, OptionalKey};
use vstd::prelude::*;

verus! {

/// The ledger as a value: every journal under its identifier.
pub type Ledger = Map<Seq<char>, JournalView>;

/// The journal that `journal_id` selects.
pub open spec fn journal_of(ledger: Ledger, journal_id: Option<Seq<char>>) -> Option<JournalView> {
    lookup(ledger, journal_id)
}

/// The accounts of the journal that `journal_id` selects.
pub open spec fn accounts_of(ledger: Ledger, journal_id: Option<Seq<char>>) -> Option<
    Map<Seq<char>, AccountView>,
> {
    match journal_of(ledger, journal_id) {
        Some(journal) => Some(journal.accounts),
        None => None,
    }
}

/// The account that `account_id` selects in the selected journal.
pub open spec fn account_of(
    ledger: Ledger,
    journal_id: Option<Seq<char>>,
    account_id: Option<Seq<char>>,
) -> Option<AccountView> {
    match accounts_of(ledger, journal_id) {
        Some(accounts) => lookup(accounts, account_id),
        None => None,
    }
}

/// The transactions of the journal that `journal_id` selects.
pub open spec fn transactions_of(ledger: Ledger, journal_id: Option<Seq<char>>) -> Option<
    Map<Seq<char>, TransactionView>,
> {
    match journal_of(ledger, journal_id) {
        Some(journal) => Some(journal.transactions),
        None => None,
    }
}

/// The transaction that `transaction_id` selects in the selected journal.
pub open spec fn transaction_of(
    ledger: Ledger,
    journal_id: Option<Seq<char>>,
    transaction_id: Option<Seq<char>>,
) -> Option<TransactionView> {
    match transactions_of(ledger, journal_id) {
        Some(transactions) => lookup(transactions, transaction_id),
        None => None,
    }
}

/// The account changes of the selected transaction.
pub open spec fn account_changes_of(
    ledger: Ledger,
    journal_id: Option<Seq<char>>,
    transaction_id: Option<Seq<char>>,
) -> Option<Map<Seq<char>, AccountChangeView>> {
    match transaction_of(ledger, journal_id, transaction_id) {
        Some(transaction) => Some(transaction.account_changes),
        None => None,
    }
}

/// The account change that `account_change_id` selects in the selected
/// transaction.
pub open spec fn account_change_of(
    ledger: Ledger,
    journal_id: Option<Seq<char>>,
    transaction_id: Option<Seq<char>>,
    account_change_id: Option<Seq<char>>,
) -> Option<AccountChangeView> {
    match account_changes_of(ledger, journal_id, transaction_id) {
        Some(changes) => lookup(changes, account_change_id),
        None => None,
    }
}

/// The ledger with `accounts` in place of the accounts of one journal.
pub open spec fn with_accounts(
    ledger: Ledger,
    journal_id: Seq<char>,
    accounts: Map<Seq<char>, AccountView>,
) -> Ledger {
    ledger.insert(journal_id, JournalView { accounts, ..ledger[journal_id] })
}

/// The ledger with `account` under `account_id` in one journal.
pub open spec fn with_account(
    ledger: Ledger,
    journal_id: Seq<char>,
    account_id: Seq<char>,
    account: AccountView,
) -> Ledger {
    with_accounts(ledger, journal_id, ledger[journal_id].accounts.insert(account_id, account))
}

/// The ledger with `transactions` in place of the transactions of one journal.
pub open spec fn with_transactions(
    ledger: Ledger,
    journal_id: Seq<char>,
    transactions: Map<Seq<char>, TransactionView>,
) -> Ledger {
    ledger.insert(journal_id, JournalView { transactions, ..ledger[journal_id] })
}

/// The ledger with `transaction` under `transaction_id` in one journal.
pub open spec fn with_transaction(
    ledger: Ledger,
    journal_id: Seq<char>,
    transaction_id: Seq<char>,
    transaction: TransactionView,
) -> Ledger {
    with_transactions(
        ledger,
        journal_id,
        ledger[journal_id].transactions.insert(transaction_id, transaction),
    )
}

/// The ledger with `changes` in place of the account changes of one
/// transaction.
pub open spec fn with_account_changes(
    ledger: Ledger,
    journal_id: Seq<char>,
    transaction_id: Seq<char>,
    changes: Map<Seq<char>, AccountChangeView>,
) -> Ledger {
    with_transaction(
        ledger,
        journal_id,
        transaction_id,
        TransactionView {
            account_changes: changes,
            ..ledger[journal_id].transactions[transaction_id]
        },
    )
}

/// The ledger with `change` under `account_change_id` in one transaction.
pub open spec fn with_account_change(
    ledger: Ledger,
    journal_id: Seq<char>,
    transaction_id: Seq<char>,
    account_change_id: Seq<char>,
    change: AccountChangeView,
) -> Ledger {
    with_account_changes(
        ledger,
        journal_id,
        transaction_id,
        ledger[journal_id].transactions[transaction_id].account_changes.insert(
            account_change_id,
            change,
        ),
    )
}

/// A selection resolves to an account change exactly when every identifier
/// on the way is given and bound, and then to the account change that is
/// bound under the last one, inside the transaction and the journal bound
/// under the others. So a lookup never gives an entity from another place.
pub proof fn lemma_resolution_is_exact(
    ledger: Ledger,
    journal_id: Option<Seq<char>>,
    account_id: Option<Seq<char>>,
    transaction_id: Option<Seq<char>>,
    account_change_id: Option<Seq<char>>,
)
    ensures
        journal_of(ledger, journal_id) is Some <==> journal_id is Some && ledger.contains_key(
            journal_id->0,
        ),
        journal_of(ledger, journal_id) is Some ==> journal_of(ledger, journal_id)->0
            == ledger[journal_id->0],
        account_of(ledger, journal_id, account_id) is Some <==> journal_of(ledger, journal_id)
            is Some && account_id is Some && ledger[journal_id->0].accounts.contains_key(
            account_id->0,
        ),
        account_of(ledger, journal_id, account_id) is Some ==> account_of(
            ledger,
            journal_id,
            account_id,
        )->0 == ledger[journal_id->0].accounts[account_id->0],
        transaction_of(ledger, journal_id, transaction_id) is Some <==> journal_of(
            ledger,
            journal_id,
        ) is Some && transaction_id is Some && ledger[journal_id->0].transactions.contains_key(
            transaction_id->0,
        ),
        transaction_of(ledger, journal_id, transaction_id) is Some ==> transaction_of(
            ledger,
            journal_id,
            transaction_id,
        )->0 == ledger[journal_id->0].transactions[transaction_id->0],
        account_change_of(ledger, journal_id, transaction_id, account_change_id) is Some
            <==> transaction_of(ledger, journal_id, transaction_id) is Some && account_change_id
            is Some
            && ledger[journal_id->0].transactions[transaction_id->0].account_changes.contains_key(
            account_change_id->0,
        ),
        account_change_of(ledger, journal_id, transaction_id, account_change_id) is Some
            ==> account_change_of(ledger, journal_id, transaction_id, account_change_id)->0
            == ledger[journal_id->0].transactions[transaction_id->0].account_changes[account_change_id->0],
{
}

/// Once a journal is deleted, nothing resolves through it any more: not the
/// journal, nor its accounts and transactions, nor their account changes,
/// whatever is selected below it.
pub proof fn lemma_journal_deletion_cascades(
    ledger: Ledger,
    deleted: Seq<char>,
    account_id: Option<Seq<char>>,
    transaction_id: Option<Seq<char>>,
    account_change_id: Option<Seq<char>>,
)
    ensures
        journal_of(ledger.remove(deleted), Some(deleted)) is None,
        accounts_of(ledger.remove(deleted), Some(deleted)) is None,
        account_of(ledger.remove(deleted), Some(deleted), account_id) is None,
        transactions_of(ledger.remove(deleted), Some(deleted)) is None,
        transaction_of(ledger.remove(deleted), Some(deleted), transaction_id) is None,
        account_changes_of(ledger.remove(deleted), Some(deleted), transaction_id) is None,
        account_change_of(ledger.remove(deleted), Some(deleted), transaction_id, account_change_id)
            is None,
{
}

/// Deleting a journal leaves what resolves through any other journal as it
/// was.
pub proof fn lemma_journal_deletion_spares_others(
    ledger: Ledger,
    deleted: Seq<char>,
    journal_id: Option<Seq<char>>,
    account_id: Option<Seq<char>>,
    transaction_id: Option<Seq<char>>,
    account_change_id: Option<Seq<char>>,
)
    requires
        journal_id != Some(deleted),
    ensures
        journal_of(ledger.remove(deleted), journal_id) == journal_of(ledger, journal_id),
        accounts_of(ledger.remove(deleted), journal_id) == accounts_of(ledger, journal_id),
        account_of(ledger.remove(deleted), journal_id, account_id) == account_of(
            ledger,
            journal_id,
            account_id,
        ),
        transactions_of(ledger.remove(deleted), journal_id) == transactions_of(ledger, journal_id),
        transaction_of(ledger.remove(deleted), journal_id, transaction_id) == transaction_of(
            ledger,
            journal_id,
            transaction_id,
        ),
        account_changes_of(ledger.remove(deleted), journal_id, transaction_id)
            == account_changes_of(ledger, journal_id, transaction_id),
        account_change_of(ledger.remove(deleted), journal_id, transaction_id, account_change_id)
            == account_change_of(ledger, journal_id, transaction_id, account_change_id),
{
}

/// Once a transaction is deleted from a journal that is there, nothing
/// resolves through it any more: not the transaction, nor its account
/// changes. The journal and its accounts resolve as before.
pub proof fn lemma_transaction_deletion_cascades(
    ledger: Ledger,
    journal_id: Seq<char>,
    deleted: Seq<char>,
    account_id: Option<Seq<char>>,
    account_change_id: Option<Seq<char>>,
)
    requires
        ledger.contains_key(journal_id),
    ensures
        ({
            let after = with_transactions(
                ledger,
                journal_id,
                ledger[journal_id].transactions.remove(deleted),
            );
            &&& transaction_of(after, Some(journal_id), Some(deleted)) is None
            &&& account_changes_of(after, Some(journal_id), Some(deleted)) is None
            &&& account_change_of(after, Some(journal_id), Some(deleted), account_change_id)
                is None
            &&& accounts_of(after, Some(journal_id)) == accounts_of(ledger, Some(journal_id))
            &&& account_of(after, Some(journal_id), account_id) == account_of(
                ledger,
                Some(journal_id),
                account_id,
            )
        }),
{
}

/// `found` is the entity that `model` describes, or nothing where there is
/// no model.
pub open spec fn resolved<T: View>(found: Option<&T>, model: Option<T::V>) -> bool {
    match found {
        Some(entity) => model == Some(entity@),
        None => model is None,
    }
}

/// The selected journal, for changing in place.
pub fn get_journal_mut<'a>(
    journals: &'a mut IdMap<Journal>,
    journal_id: &Option<String>,
) -> (found: Option<&'a mut Journal>)
    ensures
        match found {
            Some(journal) => journal_of(old(journals)@, key_view(*journal_id)) == Some(journal@)
                && final(journals)@ == old(journals)@.insert(journal_id->0@, final(journal)@),
            None => journal_of(old(journals)@, key_view(*journal_id)) is None && final(journals)@
                == old(journals)@,
        },
{
    journals.get_optional_mut(journal_id.clone())
}

/// The selected journal.
pub fn get_journal<'a>(
    journals: &'a IdMap<Journal>,
    journal_id: &Option<String>,
) -> (found: Option<&'a Journal>)
    ensures
        resolved(found, journal_of(journals@, key_view(*journal_id))),
{
    journals.get_optional(journal_id.clone())
}

/// The accounts of the selected journal, for changing in place.
pub fn get_accounts_mut<'a>(
    journals: &'a mut IdMap<Journal>,
    journal_id: &Option<String>,
) -> (found: Option<&'a mut IdMap<Account>>)
    ensures
        match found {
            Some(accounts) => accounts_of(old(journals)@, key_view(*journal_id)) == Some(accounts@)
                && final(journals)@ == with_accounts(
                old(journals)@,
                journal_id->0@,
                final(accounts)@,
            ),
            None => accounts_of(old(journals)@, key_view(*journal_id)) is None && final(journals)@
                == old(journals)@,
        },
{
    match get_journal_mut(journals, journal_id) {
        Some(journal) => Some(&mut journal.accounts),
        None => None,
    }
}

/// The accounts of the selected journal.
pub fn get_accounts<'a>(
    journals: &'a IdMap<Journal>,
    journal_id: &Option<String>,
) -> (found: Option<&'a IdMap<Account>>)
    ensures
        resolved(found, accounts_of(journals@, key_view(*journal_id))),
{
    match get_journal(journals, journal_id) {
        Some(journal) => Some(&journal.accounts),
        None => None,
    }
}

/// The selected account, for changing in place.
pub fn get_account_mut<'a>(
    journals: &'a mut IdMap<Journal>,
    journal_id: &Option<String>,
    account_id: &Option<String>,
) -> (found: Option<&'a mut Account>)
    ensures
        match found {
            Some(account) => account_of(
                old(journals)@,
                key_view(*journal_id),
                key_view(*account_id),
            ) == Some(account@) && final(journals)@ == with_account(
                old(journals)@,
                journal_id->0@,
                account_id->0@,
                final(account)@,
            ),
            None => account_of(old(journals)@, key_view(*journal_id), key_view(*account_id))
                is None && final(journals)@ == old(journals)@,
        },
{
    match get_accounts_mut(journals, journal_id) {
        Some(accounts) => {
            proof {
                assert(with_accounts(old(journals)@, journal_id->0@, accounts@) =~= old(
                    journals,
                )@);
            }
            accounts.get_optional_mut(account_id.clone())
        },
        None => None,
    }
}

/// The selected account.
pub fn get_account<'a>(
    journals: &'a IdMap<Journal>,
    journal_id: &Option<String>,
    account_id: &Option<String>,
) -> (found: Option<&'a Account>)
    ensures
        resolved(found, account_of(journals@, key_view(*journal_id), key_view(*account_id))),
{
    match get_accounts(journals, journal_id) {
        Some(accounts) => accounts.get_optional(account_id.clone()),
        None => None,
    }
}

/// The transactions of the selected journal, for changing in place.
pub fn get_transactions_mut<'a>(
    journals: &'a mut IdMap<Journal>,
    journal_id: &Option<String>,
) -> (found: Option<&'a mut IdMap<Transaction>>)
    ensures
        match found {
            Some(transactions) => transactions_of(old(journals)@, key_view(*journal_id)) == Some(
                transactions@,
            ) && final(journals)@ == with_transactions(
                old(journals)@,
                journal_id->0@,
                final(transactions)@,
            ),
            None => transactions_of(old(journals)@, key_view(*journal_id)) is None
                && final(journals)@ == old(journals)@,
        },
{
    match get_journal_mut(journals, journal_id) {
        Some(journal) => Some(&mut journal.transactions),
        None => None,
    }
}

/// The transactions of the selected journal.
pub fn get_transactions<'a>(
    journals: &'a IdMap<Journal>,
    journal_id: &Option<String>,
) -> (found: Option<&'a IdMap<Transaction>>)
    ensures
        resolved(found, transactions_of(journals@, key_view(*journal_id))),
{
    match get_journal(journals, journal_id) {
        Some(journal) => Some(&journal.transactions),
        None => None,
    }
}

/// The selected transaction, for changing in place.
pub fn get_transaction_mut<'a>(
    journals: &'a mut IdMap<Journal>,
    journal_id: &Option<String>,
    transaction_id: &Option<String>,
) -> (found: Option<&'a mut Transaction>)
    ensures
        match found {
            Some(transaction) => transaction_of(
                old(journals)@,
                key_view(*journal_id),
                key_view(*transaction_id),
            ) == Some(transaction@) && final(journals)@ == with_transaction(
                old(journals)@,
                journal_id->0@,
                transaction_id->0@,
                final(transaction)@,
            ),
            None => transaction_of(
                old(journals)@,
                key_view(*journal_id),
                key_view(*transaction_id),
            ) is None && final(journals)@ == old(journals)@,
        },
{
    match get_journal_mut(journals, journal_id) {
        Some(journal) => {
            proof {
                assert(with_transactions(old(journals)@, journal_id->0@, journal.transactions@)
                    =~= old(journals)@);
            }
            journal.transactions.get_optional_mut(transaction_id.clone())
        },
        None => None,
    }
}

/// The selected transaction.
pub fn get_transaction<'a>(
    journals: &'a IdMap<Journal>,
    journal_id: &Option<String>,
    transaction_id: &Option<String>,
) -> (found: Option<&'a Transaction>)
    ensures
        resolved(
            found,
            transaction_of(journals@, key_view(*journal_id), key_view(*transaction_id)),
        ),
{
    match get_journal(journals, journal_id) {
        Some(journal) => journal.transactions.get_optional(transaction_id.clone()),
        None => None,
    }
}

/// The account changes of the selected transaction, for changing in place.
pub fn get_account_changes_mut<'a>(
    journals: &'a mut IdMap<Journal>,
    journal_id: &Option<String>,
    transaction_id: &Option<String>,
) -> (found: Option<&'a mut IdMap<AccountChange>>)
    ensures
        match found {
            Some(changes) => account_changes_of(
                old(journals)@,
                key_view(*journal_id),
                key_view(*transaction_id),
            ) == Some(changes@) && final(journals)@ == with_account_changes(
                old(journals)@,
                journal_id->0@,
                transaction_id->0@,
                final(changes)@,
            ),
            None => account_changes_of(
                old(journals)@,
                key_view(*journal_id),
                key_view(*transaction_id),
            ) is None && final(journals)@ == old(journals)@,
        },
{
    match get_transaction_mut(journals, journal_id, transaction_id) {
        Some(transaction) => Some(&mut transaction.account_changes),
        None => None,
    }
}

/// The account changes of the selected transaction.
pub fn get_account_changes<'a>(
    journals: &'a IdMap<Journal>,
    journal_id: &Option<String>,
    transaction_id: &Option<String>,
) -> (found: Option<&'a IdMap<AccountChange>>)
    ensures
        resolved(
            found,
            account_changes_of(journals@, key_view(*journal_id), key_view(*transaction_id)),
        ),
{
    match get_transaction(journals, journal_id, transaction_id) {
        Some(transaction) => Some(&transaction.account_changes),
        None => None,
    }
}

/// The selected account change, for changing in place.
pub fn get_account_change_mut<'a>(
    journals: &'a mut IdMap<Journal>,
    journal_id: &Option<String>,
    transaction_id: &Option<String>,
    account_change_id: &Option<String>,
) -> (found: Option<&'a mut AccountChange>)
    ensures
        match found {
            Some(change) => account_change_of(
                old(journals)@,
                key_view(*journal_id),
                key_view(*transaction_id),
                key_view(*account_change_id),
            ) == Some(change@) && final(journals)@ == with_account_change(
                old(journals)@,
                journal_id->0@,
                transaction_id->0@,
                account_change_id->0@,
                final(change)@,
            ),
            None => account_change_of(
                old(journals)@,
                key_view(*journal_id),
                key_view(*transaction_id),
                key_view(*account_change_id),
            ) is None && final(journals)@ == old(journals)@,
        },
{
    match get_account_changes_mut(journals, journal_id, transaction_id) {
        Some(changes) => {
            proof {
                let ledger = old(journals)@;
                let journal = ledger[journal_id->0@];
                let transaction = journal.transactions[transaction_id->0@];
                assert(journal.transactions.insert(transaction_id->0@, transaction)
                    =~= journal.transactions);
                assert(with_account_changes(ledger, journal_id->0@, transaction_id->0@, changes@)
                    =~= ledger);
            }
            changes.get_optional_mut(account_change_id.clone())
        },
        None => None,
    }
}

/// The selected account change.
pub fn get_account_change<'a>(
    journals: &'a IdMap<Journal>,
    journal_id: &Option<String>,
    transaction_id: &Option<String>,
    account_change_id: &Option<String>,
) -> (found: Option<&'a AccountChange>)
    ensures
        resolved(
            found,
            account_change_of(
                journals@,
                key_view(*journal_id),
                key_view(*transaction_id),
                key_view(*account_change_id),
            ),
        ),
{
    match get_account_changes(journals, journal_id, transaction_id) {
        Some(changes) => changes.get_optional(account_change_id.clone()),
        None => None,
    }
}

} // verus!
