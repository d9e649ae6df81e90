//! Properties of the vault that span several calls, stated over the
//! transition functions that the calls' contracts use.
use vstd::prelude::*;

use crate::model::{
    accept_admin_error, accept_admin_post, admin_only_error, authorized_deduct_caller,
    authorized_depositor, depositor_list, init_check, init_error, init_post, max_deduct_of,
    migrate_post, no_duplicates, or_default, owner_only_error, set_admin_post,
    set_allowed_depositor_post, set_authorized_caller_post, set_price_error,
    set_max_deduct_error, set_max_deduct_post, set_settlement_error, VaultModel,
};
use crate::calls::{accepted, auth_step, call_error, invoke, invoke_outcome, run, step, Outcome, VaultCall};
use crate::offerings::{set_price_post, set_settlement_post};
use crate::types::{VaultError, DEFAULT_MAX_DEDUCT, DEFAULT_MIN_DEPOSIT};

verus! {

/// A vault is initialised at most once: after a successful `init`, every
/// further `init` is refused as already initialised.
pub proof fn lemma_init_only_once(
    m: VaultModel,
    owner: Seq<u8>,
    usdc_token: Seq<u8>,
    initial_balance: Option<i128>,
    authorized_caller: Option<Seq<u8>>,
    min_deposit: Option<i128>,
    revenue_pool: Option<Seq<u8>>,
    max_deduct: Option<i128>,
    ledger_balance: i128,
    usdc_token2: Seq<u8>,
    initial_balance2: Option<i128>,
    authorized_caller2: Option<Seq<u8>>,
    min_deposit2: Option<i128>,
    revenue_pool2: Option<Seq<u8>>,
    max_deduct2: Option<i128>,
    ledger_balance2: i128,
)
    requires
        init_error(m, usdc_token, initial_balance, authorized_caller, min_deposit, revenue_pool, max_deduct, ledger_balance) is None,
    ensures
        init_error(
            init_post(m, owner, usdc_token, initial_balance, authorized_caller, min_deposit, revenue_pool, max_deduct),
            usdc_token2,
            initial_balance2,
            authorized_caller2,
            min_deposit2,
            revenue_pool2,
            max_deduct2,
            ledger_balance2,
        ) == Some(VaultError::AlreadyInitialized),
{
}

/// After a successful `init`: the owner is admin and passes the owner check,
/// the token is recorded, the balance is the initial balance (0 when none
/// was given), the cap is the given one (`i128::MAX` when none was given),
/// the minimum deposit does not exceed the cap, and the balance is
/// non-negative and covered by the on-ledger balance.
pub proof fn lemma_init_establishes(
    m: VaultModel,
    owner: Seq<u8>,
    usdc_token: Seq<u8>,
    initial_balance: Option<i128>,
    authorized_caller: Option<Seq<u8>>,
    min_deposit: Option<i128>,
    revenue_pool: Option<Seq<u8>>,
    max_deduct: Option<i128>,
    ledger_balance: i128,
)
    requires
        init_error(m, usdc_token, initial_balance, authorized_caller, min_deposit, revenue_pool, max_deduct, ledger_balance) is None,
    ensures
        ({
            let p = init_post(m, owner, usdc_token, initial_balance, authorized_caller, min_deposit, revenue_pool, max_deduct);
            &&& p.admin == Some(owner)
            &&& owner_only_error(p, owner) is None
            &&& authorized_depositor(p, owner)
            &&& authorized_deduct_caller(p, owner)
            &&& p.usdc_token == Some(usdc_token)
            &&& p.usdc_token != Some(m.address)
            &&& p.meta->Some_0.balance == or_default(initial_balance, 0)
            &&& p.meta->Some_0.balance >= 0
            &&& (p.meta->Some_0.balance > 0 ==> p.meta->Some_0.balance <= ledger_balance)
            &&& max_deduct_of(p) == or_default(max_deduct, DEFAULT_MAX_DEDUCT)
            &&& 0 < p.meta->Some_0.min_deposit <= max_deduct_of(p)
        }),
{
}

/// The admin changes in two steps: nominating leaves the admin as it was,
/// and the nominee's acceptance then makes it admin and clears the pending
/// nomination; from then on the former admin is no longer admin (authority
/// comes from the admin slot, not from the record's owner).
pub proof fn lemma_admin_transfer(m: VaultModel, caller: Seq<u8>, new_admin: Seq<u8>)
    requires
        admin_only_error(m, caller) is None,
    ensures
        set_admin_post(m, new_admin).admin == m.admin,
        accept_admin_error(set_admin_post(m, new_admin)) is None,
        accept_admin_post(set_admin_post(m, new_admin)).admin == Some(new_admin),
        accept_admin_post(set_admin_post(m, new_admin)).pending_admin is None,
        accept_admin_error(accept_admin_post(set_admin_post(m, new_admin))) == Some(
            VaultError::NoAdminTransferPending,
        ),
        caller != new_admin ==> admin_only_error(accept_admin_post(set_admin_post(m, new_admin)), caller)
            == Some(VaultError::CallerNotAdmin),
{
}

/// An address the owner allows as depositor is then authorised to deposit,
/// and everyone who was authorised stays so.
pub proof fn lemma_allowed_depositor_is_authorized(m: VaultModel, caller: Seq<u8>, d: Seq<u8>)
    requires
        owner_only_error(m, caller) is None,
    ensures
        authorized_depositor(set_allowed_depositor_post(m, Some(d)), d),
        forall|x: Seq<u8>| authorized_depositor(m, x) ==> authorized_depositor(set_allowed_depositor_post(m, Some(d)), x),
{
    let l = depositor_list(m);
    if !l.contains(d) {
        assert(l.push(d)[l.len() as int] == d);
        assert forall|x: Seq<u8>| l.contains(x) implies #[trigger] l.push(d).contains(x) by {
            let k = choose|k: int| 0 <= k < l.len() && l[k] == x;
            assert(l.push(d)[k] == x);
        }
    }
}

/// Allowing the same depositor twice is the same as allowing it once.
pub proof fn lemma_allow_depositor_idempotent(m: VaultModel, d: Seq<u8>)
    ensures
        set_allowed_depositor_post(set_allowed_depositor_post(m, Some(d)), Some(d)) == set_allowed_depositor_post(m, Some(d)),
{
    let l = depositor_list(m);
    if !l.contains(d) {
        assert(l.push(d)[l.len() as int] == d);
    }
}

/// Allowing a depositor never makes an address occur twice in the list.
pub proof fn lemma_depositor_list_stays_distinct(m: VaultModel, d: Option<Seq<u8>>)
    requires
        no_duplicates(depositor_list(m)),
    ensures
        no_duplicates(depositor_list(set_allowed_depositor_post(m, d))),
{
    let l = depositor_list(m);
    match d {
        Some(x) => if !l.contains(x) {
            let a = l.push(x);
            assert forall|i: int, j: int| 0 <= i < a.len() && 0 <= j < a.len() && i != j implies a[i] != a[j] by {
                if i == l.len() {
                    assert(l[j] == a[j]);
                } else if j == l.len() {
                    assert(l[i] == a[i]);
                }
            }
        },
        None => {},
    }
}

/// Once the list is emptied, the owner is the only authorised depositor.
pub proof fn lemma_cleared_list_leaves_owner(m: VaultModel, x: Seq<u8>)
    requires
        m.meta is Some,
    ensures
        authorized_depositor(set_allowed_depositor_post(m, None), x) <==> x == m.meta->Some_0.owner,
{
}

/// The authorised caller set by the owner may deduct, as may the owner;
/// with no authorised caller, only the owner may.
pub proof fn lemma_authorized_caller_may_deduct(m: VaultModel, c: Option<Seq<u8>>, x: Seq<u8>)
    requires
        m.meta is Some,
    ensures
        authorized_deduct_caller(set_authorized_caller_post(m, c), m.meta->Some_0.owner),
        c matches Some(a) ==> authorized_deduct_caller(set_authorized_caller_post(m, c), a),
        c is None ==> (authorized_deduct_caller(set_authorized_caller_post(m, c), x) <==> x == m.meta->Some_0.owner),
{
}

/// Migrating twice is migrating once, and a migrated initialised vault has
/// an admin.
pub proof fn lemma_migrate_idempotent(m: VaultModel)
    ensures
        migrate_post(migrate_post(m)) == migrate_post(m),
        m.meta is Some ==> migrate_post(m).admin is Some,
        m.admin is Some ==> migrate_post(m) == m,
{
}

/// A settlement that was accepted is neither the vault, nor the USDC token,
/// nor the revenue pool at the time it is set, and it is what
/// `get_settlement` then returns. (A later `set_revenue_pool` may still name
/// the settlement as pool.)
pub proof fn lemma_settlement_is_separate(m: VaultModel, caller: Seq<u8>, s: Seq<u8>)
    requires
        set_settlement_error(m, caller, s) is None,
    ensures
        set_settlement_post(m, s).settlement == Some(s),
        s != m.address,
        m.usdc_token != Some(s),
        m.revenue_pool != Some(s),
{
}

/// A price that was set is what `get_price` returns for that offering, and
/// the prices of other offerings are unchanged.
pub proof fn lemma_price_roundtrip(m: VaultModel, caller: Seq<u8>, id: Seq<u8>, price: Seq<u8>, other: Seq<u8>)
    requires
        set_price_error(m, caller, id, price) is None,
    ensures
        set_price_post(m, id, price).prices.contains_key(id),
        set_price_post(m, id, price).prices[id] == price,
        other != id ==> (set_price_post(m, id, price).prices.contains_key(other) == m.prices.contains_key(other)),
        other != id && m.prices.contains_key(other) ==> set_price_post(m, id, price).prices[other] == m.prices[other],
{
}

/// Before `init`, no check of an admin or owner can pass.
pub proof fn lemma_uninitialized_refuses(m: VaultModel, caller: Seq<u8>)
    requires
        m.meta is None,
        m.admin is None,
    ensures
        owner_only_error(m, caller) == Some(VaultError::NotInitialized),
        admin_only_error(m, caller) == Some(VaultError::NotInitialized),
        !authorized_depositor(m, caller),
        !authorized_deduct_caller(m, caller),
{
}

/// One call on an initialised vault leaves it initialised with the same
/// owner, balance and minimum deposit; only `set_authorized_caller` changes
/// the authorised caller (to its argument), and only an accepted
/// `set_max_deduct` changes the cap.
pub proof fn lemma_step_keeps_record(m: VaultModel, c: VaultCall)
    requires
        m.meta is Some,
    ensures
        step(m, c).meta is Some,
        step(m, c).meta->Some_0.owner == m.meta->Some_0.owner,
        step(m, c).meta->Some_0.balance == m.meta->Some_0.balance,
        step(m, c).meta->Some_0.min_deposit == m.meta->Some_0.min_deposit,
        step(m, c).meta->Some_0.authorized_caller == (if c is SetAuthorizedCaller {
            c->new_caller
        } else {
            m.meta->Some_0.authorized_caller
        }),
        step(m, c).max_deduct == (if c is SetMaxDeduct && call_error(m, c) is None {
            Some(c->max)
        } else {
            m.max_deduct
        }),
{
    reveal(step);
}

/// Whether the `i`-th of `calls` is accepted is decided by the calls before
/// it: dropping the last call does not change it for the earlier ones.
proof fn lemma_accepted_prefix(m: VaultModel, calls: Seq<VaultCall>, i: int)
    requires
        0 <= i < calls.len(),
    ensures
        i < calls.len() - 1 ==> accepted(m, calls, i) == accepted(m, calls.drop_last(), i),
        i == calls.len() - 1 ==> accepted(m, calls, i) == (call_error(run(m, calls.drop_last()), calls.last()) is None),
{
    if i < calls.len() - 1 {
        assert(calls.take(i) =~= calls.drop_last().take(i));
    } else {
        assert(calls.take(i) =~= calls.drop_last());
    }
}

/// Once initialised, the vault stays initialised, and the owner, balance and
/// minimum deposit of its record never change, whatever calls follow.
pub proof fn lemma_record_kept(m: VaultModel, calls: Seq<VaultCall>)
    requires
        m.meta is Some,
    ensures
        run(m, calls).meta is Some,
        run(m, calls).meta->Some_0.owner == m.meta->Some_0.owner,
        run(m, calls).meta->Some_0.balance == m.meta->Some_0.balance,
        run(m, calls).meta->Some_0.min_deposit == m.meta->Some_0.min_deposit,
    decreases calls.len(),
{
    if calls.len() > 0 {
        lemma_record_kept(m, calls.drop_last());
        lemma_step_keeps_record(run(m, calls.drop_last()), calls.last());
    }
}

/// Whether the `i`-th of `calls` is an accepted `set_authorized_caller`.
pub open spec fn sets_caller(m: VaultModel, calls: Seq<VaultCall>, i: int) -> bool {
    calls[i] is SetAuthorizedCaller && accepted(m, calls, i)
}

/// Whether the `i`-th of `calls` is an accepted `set_max_deduct`.
pub open spec fn sets_cap(m: VaultModel, calls: Seq<VaultCall>, i: int) -> bool {
    calls[i] is SetMaxDeduct && accepted(m, calls, i)
}

/// On an initialised vault, `set_authorized_caller` is always accepted.
proof fn lemma_sets_caller_iff(m: VaultModel, calls: Seq<VaultCall>, i: int)
    requires
        m.meta is Some,
        0 <= i < calls.len(),
    ensures
        sets_caller(m, calls, i) == (calls[i] is SetAuthorizedCaller),
{
    lemma_record_kept(m, calls.take(i));
}

/// The authorised caller after `calls` is the argument of the last
/// `set_authorized_caller` among them, or, if there is none, the one `m` had.
proof fn lemma_caller_is_last_call(m: VaultModel, calls: Seq<VaultCall>)
    requires
        m.meta is Some,
    ensures
        (forall|i: int| 0 <= i < calls.len() ==> !(#[trigger] calls[i] is SetAuthorizedCaller))
            ==> run(m, calls).meta->Some_0.authorized_caller == m.meta->Some_0.authorized_caller,
        forall|i: int|
            0 <= i < calls.len() && #[trigger] calls[i] is SetAuthorizedCaller && (forall|j: int|
                i < j < calls.len() ==> !(#[trigger] calls[j] is SetAuthorizedCaller))
                ==> run(m, calls).meta->Some_0.authorized_caller == calls[i]->new_caller,
    decreases calls.len(),
{
    if calls.len() > 0 {
        let p = calls.drop_last();
        let n = calls.len() - 1;
        lemma_caller_is_last_call(m, p);
        lemma_record_kept(m, p);
        lemma_step_keeps_record(run(m, p), calls.last());
        assert(run(m, calls) == step(run(m, p), calls.last()));
        assert forall|i: int| 0 <= i < p.len() implies #[trigger] p[i] == calls[i] by {}
        assert forall|i: int|
            0 <= i < calls.len() && #[trigger] calls[i] is SetAuthorizedCaller && (forall|j: int|
                i < j < calls.len() ==> !(#[trigger] calls[j] is SetAuthorizedCaller))
            implies run(m, calls).meta->Some_0.authorized_caller == calls[i]->new_caller by {
            if i < n {
                assert(!(calls[n] is SetAuthorizedCaller));
                assert(p[i] is SetAuthorizedCaller);
                assert forall|j: int| i < j < p.len() implies !(#[trigger] p[j] is SetAuthorizedCaller) by {
                    assert(p[j] == calls[j]);
                }
            }
        }
        if forall|i: int| 0 <= i < calls.len() ==> !(#[trigger] calls[i] is SetAuthorizedCaller) {
            assert forall|i: int| 0 <= i < p.len() implies !(#[trigger] p[i] is SetAuthorizedCaller) by {
                assert(p[i] == calls[i]);
            }
            assert(!(calls[n] is SetAuthorizedCaller));
        }
    }
}

/// On an initialised vault, the authorised caller after any calls is the
/// argument of the last accepted `set_authorized_caller`, or, if none was
/// accepted, the one it had before.
pub proof fn lemma_authorized_caller_is_last_set(m: VaultModel, calls: Seq<VaultCall>)
    requires
        m.meta is Some,
    ensures
        (forall|i: int| 0 <= i < calls.len() ==> !#[trigger] sets_caller(m, calls, i))
            ==> run(m, calls).meta->Some_0.authorized_caller == m.meta->Some_0.authorized_caller,
        forall|i: int|
            0 <= i < calls.len() && #[trigger] sets_caller(m, calls, i) && (forall|j: int|
                i < j < calls.len() ==> !#[trigger] sets_caller(m, calls, j))
                ==> run(m, calls).meta->Some_0.authorized_caller == calls[i]->new_caller,
{
    lemma_caller_is_last_call(m, calls);
    if forall|i: int| 0 <= i < calls.len() ==> !#[trigger] sets_caller(m, calls, i) {
        assert forall|i: int| 0 <= i < calls.len() implies !(#[trigger] calls[i] is SetAuthorizedCaller) by {
            lemma_sets_caller_iff(m, calls, i);
        }
    }
    assert forall|i: int|
        0 <= i < calls.len() && #[trigger] sets_caller(m, calls, i) && (forall|j: int|
            i < j < calls.len() ==> !#[trigger] sets_caller(m, calls, j))
        implies run(m, calls).meta->Some_0.authorized_caller == calls[i]->new_caller by {
        lemma_sets_caller_iff(m, calls, i);
        assert forall|j: int| i < j < calls.len() implies !(#[trigger] calls[j] is SetAuthorizedCaller) by {
            lemma_sets_caller_iff(m, calls, j);
        }
    }
}

/// On an initialised vault, the deduction cap is kept by every call but an
/// accepted `set_max_deduct`.
pub proof fn lemma_cap_kept(m: VaultModel, calls: Seq<VaultCall>)
    requires
        m.meta is Some,
        forall|i: int| 0 <= i < calls.len() ==> !#[trigger] sets_cap(m, calls, i),
    ensures
        run(m, calls).max_deduct == m.max_deduct,
    decreases calls.len(),
{
    if calls.len() > 0 {
        let p = calls.drop_last();
        let n = calls.len() - 1;
        assert forall|i: int| 0 <= i < p.len() implies !#[trigger] sets_cap(m, p, i) by {
            lemma_accepted_prefix(m, calls, i);
            assert(!sets_cap(m, calls, i));
        }
        lemma_cap_kept(m, p);
        lemma_record_kept(m, p);
        lemma_accepted_prefix(m, calls, n);
        assert(!sets_cap(m, calls, n));
        lemma_step_keeps_record(run(m, p), calls.last());
    }
}

/// A cap set by `set_max_deduct` is what `get_max_deduct` returns until the
/// next accepted `set_max_deduct`, whatever other calls come in between.
pub proof fn lemma_cap_persists(m: VaultModel, max: i128, calls: Seq<VaultCall>)
    requires
        set_max_deduct_error(m, max) is None,
        forall|i: int| 0 <= i < calls.len() ==> !#[trigger] sets_cap(set_max_deduct_post(m, max), calls, i),
    ensures
        max_deduct_of(run(set_max_deduct_post(m, max), calls)) == max,
{
    lemma_cap_kept(set_max_deduct_post(m, max), calls);
}

/// After a successful `init`, whatever calls follow: the record keeps the
/// owner, balance and minimum deposit that `init` gave it, and the owner
/// stays an authorised depositor.
pub proof fn lemma_owner_and_record_after_init(
    m: VaultModel,
    owner: Seq<u8>,
    usdc_token: Seq<u8>,
    initial_balance: Option<i128>,
    authorized_caller: Option<Seq<u8>>,
    min_deposit: Option<i128>,
    revenue_pool: Option<Seq<u8>>,
    max_deduct: Option<i128>,
    ledger_balance: i128,
    calls: Seq<VaultCall>,
)
    requires
        init_error(m, usdc_token, initial_balance, authorized_caller, min_deposit, revenue_pool, max_deduct, ledger_balance) is None,
    ensures
        ({
            let p = run(
                init_post(m, owner, usdc_token, initial_balance, authorized_caller, min_deposit, revenue_pool, max_deduct),
                calls,
            );
            &&& p.meta is Some
            &&& p.meta->Some_0.owner == owner
            &&& p.meta->Some_0.balance == or_default(initial_balance, 0)
            &&& p.meta->Some_0.min_deposit == or_default(min_deposit, DEFAULT_MIN_DEPOSIT)
            &&& authorized_depositor(p, owner)
        }),
{
    lemma_record_kept(
        init_post(m, owner, usdc_token, initial_balance, authorized_caller, min_deposit, revenue_pool, max_deduct),
        calls,
    );
}

/// Authorisation comes first: when the address whose authorisation a call
/// demands has not authorised the invocation, the call fails as
/// unauthorised and changes nothing, whatever its other arguments and
/// whatever its own checks would say; a refusal that comes before the
/// demand also changes nothing.
pub proof fn lemma_unauthorized_changes_nothing(m: VaultModel, c: VaultCall, signed: Set<Seq<u8>>)
    ensures
        auth_step(m, c) matches Ok(Some(a)) && !signed.contains(a) ==> invoke_outcome(m, c, signed) is Unauthorized
            && invoke(m, c, signed) == m,
        auth_step(m, c) matches Err(e) ==> invoke_outcome(m, c, signed) == Outcome::Refused(e) && invoke(m, c, signed) == m,
{
}

/// With the demanded authorisation given, an invocation does what the call's
/// own contract says.
pub proof fn lemma_authorized_invocation(m: VaultModel, c: VaultCall, signed: Set<Seq<u8>>)
    requires
        auth_step(m, c) is Ok,
        auth_step(m, c) matches Ok(Some(a)) ==> signed.contains(a),
    ensures
        invoke(m, c, signed) == step(m, c),
        invoke_outcome(m, c, signed) is Done <==> call_error(m, c) is None,
{
    reveal(step);
}

/// `init`, `set_admin`, the depositor setters and the settlement, pool and
/// price setters demand the authorisation of an argument (the owner for
/// `init`, the caller otherwise) before they read any storage: which
/// address is asked does not depend on the storage.
pub proof fn lemma_argument_authorizer(m1: VaultModel, m2: VaultModel, c: VaultCall)
    requires
        !(c is AcceptAdmin || c is SetAuthorizedCaller || c is SetMaxDeduct || c is Migrate),
    ensures
        auth_step(m1, c) == auth_step(m2, c),
        c matches VaultCall::Init { owner, .. } ==> auth_step(m1, c) == Ok::<Option<Seq<u8>>, VaultError>(Some(owner)),
        c matches VaultCall::SetAdmin { caller, .. } ==> auth_step(m1, c) == Ok::<Option<Seq<u8>>, VaultError>(Some(caller)),
        c matches VaultCall::SetAllowedDepositor { caller, .. } ==> auth_step(m1, c) == Ok::<Option<Seq<u8>>, VaultError>(Some(caller)),
        c matches VaultCall::ClearAllowedDepositors { caller } ==> auth_step(m1, c) == Ok::<Option<Seq<u8>>, VaultError>(Some(caller)),
{
}

/// `init` by an owner who has not authorised the invocation fails and
/// changes nothing, whatever the other arguments and the storage.
pub proof fn lemma_init_needs_owner(m: VaultModel, c: VaultCall, signed: Set<Seq<u8>>)
    requires
        c matches VaultCall::Init { owner, .. } && !signed.contains(owner),
    ensures
        invoke_outcome(m, c, signed) is Unauthorized,
        invoke(m, c, signed) == m,
{
}

/// `init` on an uninitialised vault succeeds for every non-negative initial
/// balance (none given means 0, and an explicit 0 is accepted too) that the
/// on-ledger balance covers, provided the token, pool and caller are not the
/// vault and `0 < min_deposit <= max_deduct` (defaults 1 and `i128::MAX`).
/// A negative initial balance is refused, and that is the only refusal that
/// depends on the balance alone.
pub proof fn lemma_init_accepts_valid_arguments(
    m: VaultModel,
    usdc_token: Seq<u8>,
    initial_balance: Option<i128>,
    authorized_caller: Option<Seq<u8>>,
    min_deposit: Option<i128>,
    revenue_pool: Option<Seq<u8>>,
    max_deduct: Option<i128>,
    ledger_balance: i128,
)
    requires
        m.meta is None,
        usdc_token != m.address,
        revenue_pool != Some(m.address),
        authorized_caller != Some(m.address),
        ({
            let min = match min_deposit {
                Some(v) => v,
                None => 1i128,
            };
            let max = match max_deduct {
                Some(v) => v,
                None => i128::MAX,
            };
            0 < min <= max
        }),
    ensures
        ({
            let b = match initial_balance {
                Some(v) => v,
                None => 0i128,
            };
            &&& (0 <= b && (b > 0 ==> b <= ledger_balance)) ==> init_error(
                m,
                usdc_token,
                initial_balance,
                authorized_caller,
                min_deposit,
                revenue_pool,
                max_deduct,
                ledger_balance,
            ) is None
            &&& b < 0 ==> init_error(
                m,
                usdc_token,
                initial_balance,
                authorized_caller,
                min_deposit,
                revenue_pool,
                max_deduct,
                ledger_balance,
            ) == Some(VaultError::NegativeInitialBalance)
            &&& init_check(m, usdc_token, initial_balance, authorized_caller, min_deposit, revenue_pool, max_deduct)
                is None <==> 0 <= b
        }),
{
}

/// A caller is an authorised depositor of an initialised vault exactly when
/// it is the record's owner or occurs in the stored depositor list: an
/// address that is neither is not, whatever else the list holds.
pub proof fn lemma_depositor_membership(m: VaultModel, x: Seq<u8>)
    requires
        m.meta is Some,
    ensures
        x == m.meta->Some_0.owner ==> authorized_depositor(m, x),
        m.depositors matches Some(l) && l.contains(x) ==> authorized_depositor(m, x),
        x != m.meta->Some_0.owner && !(m.depositors matches Some(l) && l.contains(x)) ==> !authorized_depositor(m, x),
{
}

/// Allowing depositor `d` changes the answer for `d` alone: every other
/// address is authorised afterwards exactly when it was before.
pub proof fn lemma_allowing_one_depositor_affects_only_it(m: VaultModel, d: Seq<u8>, x: Seq<u8>)
    requires
        m.meta is Some,
        x != d,
    ensures
        authorized_depositor(set_allowed_depositor_post(m, Some(d)), x) == authorized_depositor(m, x),
{
    let l = depositor_list(m);
    if !l.contains(d) {
        if l.push(d).contains(x) {
            let k = choose|k: int| 0 <= k < l.push(d).len() && l.push(d)[k] == x;
            assert(k < l.len());
            assert(l[k] == x);
        }
        if l.contains(x) {
            let k = choose|k: int| 0 <= k < l.len() && l[k] == x;
            assert(l.push(d)[k] == x);
        }
    }
}

/// Only the address in the admin slot may nominate a new admin: any other
/// caller, a pending nominee included, is refused as not admin (or, with no
/// admin slot, as not initialised).
pub proof fn lemma_only_admin_nominates(m: VaultModel, caller: Seq<u8>, n: Seq<u8>)
    ensures
        admin_only_error(m, caller) is None <==> m.admin == Some(caller),
        m.admin is Some && m.admin != Some(caller) ==> admin_only_error(m, caller) == Some(VaultError::CallerNotAdmin),
        m.admin is None ==> admin_only_error(m, caller) == Some(VaultError::NotInitialized),
        m.admin is Some && m.admin != Some(n) ==> admin_only_error(set_admin_post(m, n), n) == Some(
            VaultError::CallerNotAdmin,
        ),
{
}

/// A cap change succeeds on an initialised vault exactly for a positive
/// cap; every cap `<= 0` is refused as not positive.
pub proof fn lemma_cap_must_be_positive(m: VaultModel, max: i128)
    requires
        m.meta is Some,
    ensures
        set_max_deduct_error(m, max) is None <==> max > 0,
        max <= 0 ==> set_max_deduct_error(m, max) == Some(VaultError::MaxDeductNotPositive),
{
}

/// Whether the stored cap, if any, is positive.
pub open spec fn stored_cap_positive(m: VaultModel) -> bool {
    m.max_deduct matches Some(v) ==> v > 0
}

/// No call makes the stored cap non-positive: a vault whose stored cap is
/// positive (or absent) keeps it so after any sequence of calls, so
/// `get_max_deduct` always returns a positive cap.
pub proof fn lemma_cap_stays_positive(m: VaultModel, calls: Seq<VaultCall>)
    requires
        stored_cap_positive(m),
    ensures
        stored_cap_positive(run(m, calls)),
        run(m, calls).max_deduct matches Some(v) ==> v > 0,
        max_deduct_of(run(m, calls)) > 0,
    decreases calls.len(),
{
    reveal(step);
    if calls.len() > 0 {
        lemma_cap_stays_positive(m, calls.drop_last());
    }
}

/// The owner check passes exactly when the vault is initialised and the
/// caller is the owner in its record; the admin slot plays no part, so an
/// admin who is not the owner is refused as not owner.
pub proof fn lemma_owner_check(m: VaultModel, caller: Seq<u8>, admin: Option<Seq<u8>>)
    ensures
        owner_only_error(m, caller) is None <==> (m.meta matches Some(r) && r.owner == caller),
        m.meta matches Some(r) && r.owner != caller ==> owner_only_error(m, caller) == Some(VaultError::CallerNotOwner),
        m.meta is None ==> owner_only_error(m, caller) == Some(VaultError::NotInitialized),
        owner_only_error(VaultModel { admin, ..m }, caller) == owner_only_error(m, caller),
{
}

/// After an admin transfer to someone other than the owner, the new admin
/// still fails the owner check.
pub proof fn lemma_admin_is_not_owner(m: VaultModel, caller: Seq<u8>, n: Seq<u8>)
    requires
        admin_only_error(m, caller) is None,
        m.meta matches Some(r) && r.owner != n,
    ensures
        owner_only_error(accept_admin_post(set_admin_post(m, n)), n) == Some(VaultError::CallerNotOwner),
        !authorized_depositor(accept_admin_post(set_admin_post(m, n)), n) || depositor_list(m).contains(n),
{
}

/// What a successful `init` records, in terms of its arguments: the owner
/// as record owner and as admin, the initial balance (0 when none is
/// given), the minimum deposit (1 when none is given), the token, the cap
/// (`i128::MAX` when none is given), the pool only when one is given, and
/// nothing else of the storage changes.
pub proof fn lemma_init_records_arguments(
    m: VaultModel,
    owner: Seq<u8>,
    usdc_token: Seq<u8>,
    initial_balance: Option<i128>,
    authorized_caller: Option<Seq<u8>>,
    min_deposit: Option<i128>,
    revenue_pool: Option<Seq<u8>>,
    max_deduct: Option<i128>,
)
    ensures
        ({
            let p = init_post(m, owner, usdc_token, initial_balance, authorized_caller, min_deposit, revenue_pool, max_deduct);
            &&& p.meta matches Some(r) && r.owner == owner && r.authorized_caller == authorized_caller
            &&& p.meta->Some_0.balance == (match initial_balance {
                Some(v) => v,
                None => 0i128,
            })
            &&& p.meta->Some_0.min_deposit == (match min_deposit {
                Some(v) => v,
                None => 1i128,
            })
            &&& p.max_deduct == Some(match max_deduct {
                Some(v) => v,
                None => i128::MAX,
            })
            &&& p.admin == Some(owner)
            &&& p.usdc_token == Some(usdc_token)
            &&& p.revenue_pool == (if revenue_pool is Some { revenue_pool } else { m.revenue_pool })
            &&& p.address == m.address && p.settlement == m.settlement && p.paused == m.paused
            &&& p.pending_admin == m.pending_admin && p.pending_owner == m.pending_owner
            &&& p.depositors == m.depositors && p.metadata == m.metadata && p.prices == m.prices
        }),
{
}

} // verus!
