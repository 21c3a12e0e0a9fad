//! The accounts that an instruction names.
//!
//! The host resolves every account before it calls the ledger and persists
//! what the ledger leaves in them. Of an account the ledger reads who it
//! belongs to, whether that identity signed the transaction, and the bytes
//! stored in it; it writes only the bytes, and never changes their count.

use vstd::prelude::*;
use crate::state::Pubkey;

verus! {

/// One account, as the host hands it to the ledger.
#[derive(Clone, Debug, PartialEq, Eq)]
pub struct AccountInfo {
    /// The identity of the account.
    pub key: Pubkey,
    /// Whether that identity authorized the transaction.
    pub is_signer: bool,
    /// The bytes stored in the account.
    pub data: Vec<u8>,
}

/// What an [`AccountInfo`] holds, with its data as a byte sequence.
pub struct AccountView {
    pub key: Pubkey,
    pub is_signer: bool,
    pub data: Seq<u8>,
}

impl View for AccountInfo {
    type V = AccountView;

    open spec fn view(&self) -> AccountView {
        AccountView { key: self.key, is_signer: self.is_signer, data: self.data@ }
    }
}

/// The views of a list of accounts, in order.
pub open spec fn account_views(accounts: Seq<AccountInfo>) -> Seq<AccountView> {
    accounts.map_values(|account: AccountInfo| account@)
}

/// The data of an account after `bytes` has been written over its front:
/// `bytes`, then what the account held beyond them.
pub open spec fn overwritten(data: Seq<u8>, bytes: Seq<u8>) -> Seq<u8> {
    bytes + data.skip(bytes.len() as int)
}

/// The accounts after `bytes` has been written over the front of the data
/// of the account at `index`. No other account changes, and of that account
/// only the data.
pub open spec fn stored(accounts: Seq<AccountView>, index: int, bytes: Seq<u8>) -> Seq<
    AccountView,
> {
    accounts.update(
        index,
        AccountView { data: overwritten(accounts[index].data, bytes), ..accounts[index] },
    )
}

/// Writes `bytes` over the front of the data of the account at `index`.
pub fn store(accounts: &mut Vec<AccountInfo>, index: usize, bytes: Vec<u8>)
    requires
        index < old(accounts)@.len(),
        bytes@.len() <= old(accounts)@[index as int].data@.len(),
    ensures
        account_views(final(accounts)@) == stored(
            account_views(old(accounts)@),
            index as int,
            bytes@,
        ),
        final(accounts)@.len() == old(accounts)@.len(),
{
    let account = &accounts[index];
    let key = account.key;
    let is_signer = account.is_signer;
    let held = account.data.as_slice();
    let mut data = bytes;
    data.extend_from_slice(vstd::slice::slice_subrange(held, data.len(), held.len()));
    assert(data@ == overwritten(held@, bytes@));
    accounts.set(index, AccountInfo { key, is_signer, data });
    proof {
        let before = account_views(old(accounts)@);
        let after = account_views(accounts@);
        assert(after.len() == before.len());
        assert forall|i: int| 0 <= i < after.len() implies after[i] == stored(
            before,
            index as int,
            bytes@,
        )[i] by {
            if i == index {
                assert(accounts@[i]@.data == overwritten(before[i].data, bytes@));
            } else {
                assert(accounts@[i] == old(accounts)@[i]);
            }
        }
        assert(after =~= stored(before, index as int, bytes@));
    }
}

} // verus!
