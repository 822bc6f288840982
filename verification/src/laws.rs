use crate::errors::ErrorCode;
use crate::identity::lemma_remove_keeps_distinct;
use crate::key::Key;
use crate::state::{IdentityView, MAX_RECOVERY_ACCOUNTS};
use vstd::prelude::*;

verus! {

/// Whether two records agree in what is fixed when an identity is created.
pub open spec fn same_origin(before: IdentityView, after: IdentityView) -> bool {
    &&& after.did_method == before.did_method
    &&& after.did_identifier == before.did_identifier
    &&& after.created_at == before.created_at
}

/// The record after a run of requests to enroll guardians, each a signer and
/// the key it wants enrolled, taken in order. A refused request leaves the
/// record as it was.
pub open spec fn after_enrollments(start: IdentityView, requests: Seq<(Key, Key)>) -> IdentityView
    decreases requests.len(),
{
    if requests.len() == 0 {
        start
    } else {
        let before = after_enrollments(start, requests.drop_last());
        match before.add_recovery_account(requests.last().0, requests.last().1) {
            Ok(next) => next,
            Err(_) => before,
        }
    }
}

/// No run of enrollments, by whomever and of whichever keys, takes an
/// identity beyond three guardians; nor does it enroll a key twice or enroll
/// the owner, if the identity was well formed to begin with.
pub proof fn lemma_enrollments_keep_guardian_limit(start: IdentityView, requests: Seq<(Key, Key)>)
    ensures
        start.recovery_accounts.len() <= MAX_RECOVERY_ACCOUNTS ==> after_enrollments(
            start,
            requests,
        ).recovery_accounts.len() <= MAX_RECOVERY_ACCOUNTS,
        start.well_formed() ==> after_enrollments(start, requests).well_formed(),
    decreases requests.len(),
{
    if requests.len() > 0 {
        lemma_enrollments_keep_guardian_limit(start, requests.drop_last());
    }
}

/// The owner's request to enroll itself is refused, and for that reason.
pub proof fn lemma_owner_cannot_enroll_itself(identity: IdentityView)
    ensures
        identity.add_recovery_account(identity.owner, identity.owner) == Err::<
            IdentityView,
            ErrorCode,
        >(ErrorCode::RecoveryAccountIsOwner),
{
}

/// Once a key has been enrolled and there is still room for another
/// guardian, a second request to enroll it is refused because it is there.
pub proof fn lemma_second_enrollment_refused(identity: IdentityView, payer: Key, account: Key)
    requires
        identity.add_recovery_account(payer, account) is Ok,
        identity.recovery_accounts.len() + 1 < MAX_RECOVERY_ACCOUNTS,
    ensures
        identity.add_recovery_account(payer, account)->Ok_0.add_recovery_account(payer, account)
            == Err::<IdentityView, ErrorCode>(ErrorCode::RecoveryAccountAlreadyExists),
{
    let next = identity.add_recovery_account(payer, account)->Ok_0;
    assert(next.recovery_accounts.last() == account);
}

/// Whoever is not the owner can neither replace the metadata, nor enroll a
/// guardian, nor dismiss one: each such request is refused as unauthorized.
pub proof fn lemma_only_owner_changes_identity(
    identity: IdentityView,
    payer: Key,
    account: Key,
    metadata_uri: Seq<char>,
    metadata_merkle_root: Seq<u8>,
    bump: u8,
    now: i64,
)
    requires
        payer != identity.owner,
    ensures
        identity.update(payer, metadata_uri, metadata_merkle_root, bump, now) == Err::<
            IdentityView,
            ErrorCode,
        >(ErrorCode::Unauthorized),
        identity.add_recovery_account(payer, account) == Err::<IdentityView, ErrorCode>(
            ErrorCode::Unauthorized,
        ),
        identity.remove_recovery_account(payer, account) == Err::<IdentityView, ErrorCode>(
            ErrorCode::Unauthorized,
        ),
{
}

/// Dismissing a guardian of a well-formed identity takes exactly that key out
/// of the list: it is no guardian afterwards, and every other key is one
/// afterwards exactly if it was one before.
pub proof fn lemma_dismissal_takes_one_guardian_out(
    identity: IdentityView,
    payer: Key,
    account: Key,
)
    requires
        identity.well_formed(),
        identity.remove_recovery_account(payer, account) is Ok,
    ensures
        ({
            let before = identity.recovery_accounts;
            let after = identity.remove_recovery_account(payer, account)->Ok_0.recovery_accounts;
            &&& before.contains(account)
            &&& !after.contains(account)
            &&& after.len() + 1 == before.len()
            &&& forall|other: Key| other != account ==> (after.contains(other) <==> before.contains(other))
        }),
{
    let before = identity.recovery_accounts;
    let after = identity.remove_recovery_account(payer, account)->Ok_0.recovery_accounts;
    before.index_of_first_ensures(account);
    let i = before.index_of_first(account)->Some_0;
    lemma_remove_keeps_distinct(before, i);
    assert(!after.contains(account)) by {
        if after.contains(account) {
            let j = choose|j: int| 0 <= j < after.len() && after[j] == account;
            let j0 = if j < i { j } else { j + 1 };
            assert(before[j0] == account && before[i] == account && j0 != i);
        }
    }
    assert forall|other: Key| other != account && before.contains(other) implies after.contains(
        other,
    ) by {
        let j = choose|j: int| 0 <= j < before.len() && before[j] == other;
        let j0 = if j < i { j } else { j - 1 };
        assert(after[j0] == other);
    }
}

/// Replacing the metadata, enrolling a guardian and dismissing one leave the
/// owner as it is; these and a take-over leave the DID method, the DID
/// identifier and the time of creation as they are.
pub proof fn lemma_identifier_is_permanent(
    identity: IdentityView,
    payer: Key,
    account: Key,
    metadata_uri: Seq<char>,
    metadata_merkle_root: Seq<u8>,
    bump: u8,
    now: i64,
)
    ensures
        identity.update(payer, metadata_uri, metadata_merkle_root, bump, now) matches Ok(next)
            ==> same_origin(identity, next) && next.owner == identity.owner,
        identity.add_recovery_account(payer, account) matches Ok(next) ==> same_origin(
            identity,
            next,
        ) && next.owner == identity.owner,
        identity.remove_recovery_account(payer, account) matches Ok(next) ==> same_origin(
            identity,
            next,
        ) && next.owner == identity.owner,
        identity.recover(account) matches Ok(next) ==> same_origin(identity, next),
{
}

/// A take-over that goes through leaves the guardian that asked for it as
/// owner, and no guardian.
pub proof fn lemma_recovery_resets_guardians(identity: IdentityView, guardian: Key)
    requires
        identity.recover(guardian) is Ok,
    ensures
        identity.recover(guardian)->Ok_0.owner == guardian,
        identity.recover(guardian)->Ok_0.recovery_accounts == Seq::<Key>::empty(),
        identity.recovery_accounts.contains(guardian),
{
}

/// A request that changes an identity once it exists.
pub enum Request {
    Update {
        payer: Key,
        metadata_uri: Seq<char>,
        metadata_merkle_root: Seq<u8>,
        bump: u8,
        now: i64,
    },
    AddRecoveryAccount { payer: Key, account: Key },
    RemoveRecoveryAccount { payer: Key, account: Key },
    Recover { new_owner: Key },
}

/// The record after one request: the new record if the request goes through,
/// the record from before if it is refused.
pub open spec fn after_request(identity: IdentityView, request: Request) -> IdentityView {
    let outcome = match request {
        Request::Update { payer, metadata_uri, metadata_merkle_root, bump, now } => identity.update(
            payer,
            metadata_uri,
            metadata_merkle_root,
            bump,
            now,
        ),
        Request::AddRecoveryAccount { payer, account } => identity.add_recovery_account(
            payer,
            account,
        ),
        Request::RemoveRecoveryAccount { payer, account } => identity.remove_recovery_account(
            payer,
            account,
        ),
        Request::Recover { new_owner } => identity.recover(new_owner),
    };
    match outcome {
        Ok(next) => next,
        Err(_) => identity,
    }
}

/// The record after a run of requests, taken in order.
pub open spec fn after_requests(start: IdentityView, requests: Seq<Request>) -> IdentityView
    decreases requests.len(),
{
    if requests.len() == 0 {
        start
    } else {
        after_request(after_requests(start, requests.drop_last()), requests.last())
    }
}

/// Whatever is asked of a well-formed identity, in whatever order, it stays
/// well formed, and its DID method, DID identifier and time of creation stay
/// as they are.
pub proof fn lemma_requests_keep_identity_well_formed(start: IdentityView, requests: Seq<Request>)
    requires
        start.well_formed(),
    ensures
        after_requests(start, requests).well_formed(),
        same_origin(start, after_requests(start, requests)),
    decreases requests.len(),
{
    if requests.len() > 0 {
        lemma_requests_keep_identity_well_formed(start, requests.drop_last());
        let before = after_requests(start, requests.drop_last());
        match requests.last() {
            Request::RemoveRecoveryAccount { payer, account } => {
                if before.remove_recovery_account(payer, account) is Ok {
                    before.recovery_accounts.index_of_first_ensures(account);
                    lemma_remove_keeps_distinct(
                        before.recovery_accounts,
                        before.recovery_accounts.index_of_first(account)->Some_0,
                    );
                }
            },
            _ => {},
        }
    }
}

} // verus!
