//! What the front end knows of an account: its identity, its kind and the
//! metadata that the list and the dialogs show. No secret is held here.

use vstd::prelude::*;
use vstd::std_specs::cmp::PartialEqSpec;

verus! {

/// Stable identity of an account.
#[derive(Clone, Copy, Debug, Eq, Hash)]
pub struct AccountId {
    /// The 128 bits of the identifier.
    pub bits: u128,
}

impl View for AccountId {
    type V = u128;

    open spec fn view(&self) -> u128 {
        self.bits
    }
}

impl PartialEq for AccountId {
    fn eq(&self, other: &Self) -> (r: bool) {
        self.bits == other.bits
    }
}

impl vstd::std_specs::cmp::PartialEqSpecImpl for AccountId {
    open spec fn obeys_eq_spec() -> bool {
        true
    }

    open spec fn eq_spec(&self, other: &Self) -> bool {
        self.bits == other.bits
    }
}

/// Kind of a one-time-password account.
#[derive(Clone, Copy, Debug, PartialEq, Eq, Structural)]
pub enum AccountKindSummary {
    /// Time-based codes.
    Totp,
    /// Counter-based codes.
    Hotp,
}

/// Display metadata of an account.
#[derive(Debug, PartialEq, Eq)]
pub struct AccountSummary {
    /// Stable identity.
    pub id: AccountId,
    /// Label as stored.
    pub label: String,
    /// Issuer as stored; `Some("")` means the same as `None`.
    pub issuer: Option<String>,
    /// Icon slug, if any.
    pub icon_hint: Option<String>,
    /// Kind of the account.
    pub kind: AccountKindSummary,
}

impl Clone for AccountSummary {
    fn clone(&self) -> (r: Self)
        ensures
            r == *self,
    {
        AccountSummary {
            id: self.id,
            label: self.label.clone(),
            issuer: copy_optional(&self.issuer),
            icon_hint: copy_optional(&self.icon_hint),
            kind: self.kind,
        }
    }
}

/// A copy of an optional text.
pub fn copy_optional(t: &Option<String>) -> (r: Option<String>)
    ensures
        r == *t,
{
    match t {
        Some(s) => Some(s.clone()),
        None => None,
    }
}

/// One row of the account list, as projected from the vault.
#[derive(Debug)]
pub struct AccountRowModel {
    /// Stable identity.
    pub id: AccountId,
    /// Issuer as stored.
    pub issuer: Option<String>,
    /// `<issuer>:<label>` text of the row.
    pub display_label: String,
    /// Icon slug, if any.
    pub icon_hint: Option<String>,
    /// Kind of the account.
    pub kind: AccountKindSummary,
}

/// Position of the first summary of `id`, if there is one.
pub open spec fn summary_position(summaries: Seq<AccountSummary>, id: AccountId) -> Option<int>
    decreases summaries.len(),
{
    if summaries.len() == 0 {
        None
    } else if summaries[0].id == id {
        Some(0)
    } else {
        match summary_position(summaries.drop_first(), id) {
            Some(k) => Some(k + 1),
            None => None,
        }
    }
}

proof fn lemma_summary_position(summaries: Seq<AccountSummary>, id: AccountId, k: int)
    requires
        0 <= k <= summaries.len(),
        forall|i: int| 0 <= i < k ==> (#[trigger] summaries[i]).id != id,
        k < summaries.len() ==> summaries[k].id == id,
    ensures
        summary_position(summaries, id) == (if k < summaries.len() {
            Some(k)
        } else {
            None
        }),
    decreases k,
{
    if k > 0 {
        let rest = summaries.drop_first();
        assert forall|i: int| 0 <= i < k - 1 implies (#[trigger] rest[i]).id != id by {
            assert(rest[i] == summaries[i + 1]);
        }
        assert(summaries[0].id != id);
        lemma_summary_position(rest, id, k - 1);
    }
}

/// What is found is the first summary of the account, and nothing is found only
/// where there is none.
pub proof fn first_summary_is_found(summaries: Seq<AccountSummary>, id: AccountId)
    ensures
        match summary_position(summaries, id) {
            Some(k) => {
                &&& 0 <= k < summaries.len()
                &&& summaries[k].id.bits == id.bits
                &&& forall|i: int| 0 <= i < k ==> (#[trigger] summaries[i]).id.bits != id.bits
            },
            None => forall|i: int|
                0 <= i < summaries.len() ==> (#[trigger] summaries[i]).id.bits != id.bits,
        },
    decreases summaries.len(),
{
    if summaries.len() > 0 && summaries[0].id != id {
        let rest = summaries.drop_first();
        first_summary_is_found(rest, id);
        assert forall|i: int|
            0 < i < summaries.len() && (summary_position(rest, id) is Some ==> i
                <= summary_position(rest, id)->0) implies (#[trigger] summaries[i]).id.bits
            != id.bits by {
            assert(rest[i - 1] == summaries[i]);
        }
        if let Some(k) = summary_position(rest, id) {
            assert(rest[k] == summaries[k + 1]);
        }
    }
}

/// The first summary of `id`, if there is one.
pub fn find_summary<'a>(summaries: &'a [AccountSummary], id: AccountId) -> (r: Option<
    &'a AccountSummary,
>)
    ensures
        match summary_position(summaries@, id) {
            Some(k) => 0 <= k < summaries@.len() && r == Some(&summaries@[k]) && summaries@[k].id
                == id,
            None => r is None,
        },
{
    let mut i: usize = 0;
    while i < summaries.len()
        invariant
            i <= summaries.len(),
            forall|k: int| 0 <= k < i ==> (#[trigger] summaries@[k]).id != id,
        decreases summaries.len() - i,
    {
        if summaries[i].id == id {
            proof {
                lemma_summary_position(summaries@, id, i as int);
            }
            return Some(&summaries[i]);
        }
        i = i + 1;
    }
    proof {
        lemma_summary_position(summaries@, id, i as int);
    }
    None
}

/// Accounts are told apart by every bit of their identity.
pub proof fn identities_are_compared_whole(a: AccountId, b: AccountId)
    ensures
        a.eq_spec(&b) <==> a.bits == b.bits,
        a@ == a.bits,
{
}

} // verus!
