//! Accounts, temporary credentials, the directory/identity port, and the
//! role reference builders.
use vstd::prelude::*;
use vstd::string::StringExecFns;

verus! {

/// One sub-account of the organization.
#[derive(Debug)]
pub struct Account {
    pub id: String,
    pub name: String,
    pub status: String,
}

impl Account {
    /// Whether this account's status is exactly the literal "ACTIVE".
    pub open spec fn is_active_spec(self) -> bool {
        self.status@ == "ACTIVE"@
    }

    /// Tests whether this account's status is exactly "ACTIVE".
    pub fn is_active(&self) -> (b: bool)
        ensures
            b == self.is_active_spec(),
    {
        let active: String = "ACTIVE".to_owned();
        self.status == active
    }
}

impl Clone for Account {
    fn clone(&self) -> (r: Self)
        ensures
            r == *self,
    {
        Account { id: self.id.clone(), name: self.name.clone(), status: self.status.clone() }
    }
}

/// The temporary credential triple for one account, exclusively owned by
/// that account's pipeline.
#[derive(Debug)]
pub struct Credentials {
    pub access_key_id: String,
    pub secret_access_key: String,
    pub session_token: String,
}

impl Clone for Credentials {
    fn clone(&self) -> (r: Self)
        ensures
            r == *self,
    {
        Credentials {
            access_key_id: self.access_key_id.clone(),
            secret_access_key: self.secret_access_key.clone(),
            session_token: self.session_token.clone(),
        }
    }
}

/// The directory and identity port. Implementations perform the external
/// calls; the orchestrator assumes nothing of what they return.
pub trait Aws {
    /// Lists the organization's sub accounts; `Err` carries the listing
    /// call's diagnostic and is fatal to the whole run.
    fn accounts(&self) -> Result<Vec<Account>, String>;

    /// Assumes a role within the given account; `Ok` carries the temporary
    /// credential triple, `Err` the identity exchange's diagnostic verbatim.
    fn assume_role(&self, account_id: String, role: String) -> Result<Credentials, String>;
}

/// The predicate an account must meet to reach the pipeline stage.
pub open spec fn active_pred() -> spec_fn(Account) -> bool {
    |a: Account| a.is_active_spec()
}

/// Keeps exactly the accounts whose status is "ACTIVE", in their original
/// order.
pub fn filter_active(accounts: Vec<Account>) -> (r: Vec<Account>)
    ensures
        r@ == accounts@.filter(active_pred()),
{
    let ghost orig = accounts@;
    let mut rest = accounts;
    let mut r: Vec<Account> = Vec::new();
    proof {
        assert(orig.subrange(0, 0) =~= Seq::<Account>::empty());
        reveal(Seq::filter);
    }
    while rest.len() > 0
        invariant
            rest@.len() <= orig.len(),
            rest@ =~= orig.subrange(orig.len() - rest@.len(), orig.len() as int),
            r@ == orig.subrange(0, orig.len() - rest@.len()).filter(active_pred()),
        decreases rest@.len(),
    {
        let ghost prev = rest@;
        let ghost k = orig.len() - prev.len();
        let a = rest.remove(0);
        proof {
            assert(prev[0] == orig.subrange(k as int, orig.len() as int)[0]);
            assert(a == orig[k as int]);
            assert(rest@ =~= orig.subrange(orig.len() - rest@.len(), orig.len() as int));
            let done = orig.subrange(0, k as int);
            assert(orig.subrange(0, k + 1) =~= done.push(a));
            reveal(Seq::filter);
            assert(done.push(a).drop_last() =~= done);
            assert(done.push(a).last() == a);
            assert(done.push(a).filter(active_pred()) == if active_pred()(a) {
                done.filter(active_pred()).push(a)
            } else {
                done.filter(active_pred())
            });
        }
        if a.is_active() {
            r.push(a);
        }
    }
    proof {
        assert(orig.subrange(0, orig.len() as int) =~= orig);
    }
    r
}

/// The fully-qualified role reference for `role` within `account_id`.
pub open spec fn role_arn_spec(account_id: Seq<char>, role: Seq<char>) -> Seq<char> {
    "arn:aws:iam::"@ + account_id + ":role/"@ + role
}

/// Builds the fully-qualified role reference from the account id and the
/// bare role name.
pub fn role_arn(account_id: &str, role: &str) -> (r: String)
    ensures
        r@ == role_arn_spec(account_id@, role@),
{
    let mut s: String = "arn:aws:iam::".to_owned();
    s.append(account_id);
    s.append(":role/");
    s.append(role);
    proof {
        assert(s@ =~= role_arn_spec(account_id@, role@));
    }
    s
}

/// The per-account session name used for the identity exchange.
pub open spec fn session_name_spec(account_id: Seq<char>) -> Seq<char> {
    account_id + "-session-access"@
}

/// Builds the session name for the identity exchange in `account_id`.
pub fn session_name(account_id: &str) -> (r: String)
    ensures
        r@ == session_name_spec(account_id@),
{
    let mut s: String = account_id.to_owned();
    s.append("-session-access");
    s
}

} // verus!
