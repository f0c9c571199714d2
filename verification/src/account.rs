//! Account tiers and how an account's rate limit record is found or created.

use vstd::prelude::*;
use vstd::string::*;

use crate::text::{
    before_first, chars_of, find_first_in, lemma_find_first_is, occurs_at, same_text,
};

verus! {

/// The tier of an account; it decides the account's request budget.
#[derive(Clone, Copy, Debug, PartialEq, Eq, Structural)]
pub enum AccountType {
    Basic,
    Premium,
    Enterprise,
}

/// The snake-case name of a tier, as stored with its rate limit.
pub open spec fn account_type_name(t: AccountType) -> Seq<char> {
    match t {
        AccountType::Basic => seq!['b', 'a', 's', 'i', 'c'],
        AccountType::Premium => seq!['p', 'r', 'e', 'm', 'i', 'u', 'm'],
        AccountType::Enterprise => seq!['e', 'n', 't', 'e', 'r', 'p', 'r', 'i', 's', 'e'],
    }
}

/// The tier whose name is exactly `s`, if any.
pub open spec fn account_type_named(s: Seq<char>) -> Option<AccountType> {
    if s == account_type_name(AccountType::Basic) {
        Some(AccountType::Basic)
    } else if s == account_type_name(AccountType::Premium) {
        Some(AccountType::Premium)
    } else if s == account_type_name(AccountType::Enterprise) {
        Some(AccountType::Enterprise)
    } else {
        None
    }
}

/// Requests allowed per window for a tier.
pub open spec fn tier_max_requests(t: AccountType) -> i32 {
    match t {
        AccountType::Basic => 20,
        AccountType::Premium => 100,
        AccountType::Enterprise => 500,
    }
}

/// Length of every tier's window, in seconds.
pub open spec fn tier_window_seconds() -> i32 {
    60
}

/// The tier an account id announces: the text before its first `_`, when that
/// text names a tier; `Basic` otherwise.
pub open spec fn account_type_for_id(id: Seq<char>) -> AccountType {
    match before_first(id, seq!['_']) {
        Some(prefix) => match account_type_named(prefix) {
            Some(t) => t,
            None => AccountType::Basic,
        },
        None => AccountType::Basic,
    }
}

impl AccountType {
    /// Requests allowed per window.
    pub fn max_requests(self) -> (r: i32)
        ensures
            r == tier_max_requests(self),
    {
        match self {
            AccountType::Basic => 20,
            AccountType::Premium => 100,
            AccountType::Enterprise => 500,
        }
    }

    /// Length of the window in seconds: all limits are per minute.
    pub fn window_seconds(self) -> (r: i32)
        ensures
            r == tier_window_seconds(),
    {
        60
    }

    /// The snake-case name of the tier.
    pub fn name(self) -> (s: &'static str)
        ensures
            s@ == account_type_name(self),
    {
        match self {
            AccountType::Basic => {
                proof {
                    reveal_strlit("basic");
                    assert("basic"@ =~= account_type_name(self));
                }
                "basic"
            },
            AccountType::Premium => {
                proof {
                    reveal_strlit("premium");
                    assert("premium"@ =~= account_type_name(self));
                }
                "premium"
            },
            AccountType::Enterprise => {
                proof {
                    reveal_strlit("enterprise");
                    assert("enterprise"@ =~= account_type_name(self));
                }
                "enterprise"
            },
        }
    }

    /// The tier whose snake-case name is exactly `s`.
    pub fn from_name(s: &str) -> (r: Option<AccountType>)
        ensures
            r == account_type_named(s@),
    {
        if same_text(s, AccountType::Basic.name()) {
            Some(AccountType::Basic)
        } else if same_text(s, AccountType::Premium.name()) {
            Some(AccountType::Premium)
        } else if same_text(s, AccountType::Enterprise.name()) {
            Some(AccountType::Enterprise)
        } else {
            None
        }
    }
}

impl Default for AccountType {
    fn default() -> (r: AccountType)
        ensures
            r == AccountType::Basic,
    {
        AccountType::Basic
    }
}

/// The tier an account id announces (see `account_type_for_id`).
pub fn account_type_for(account_id: &str) -> (t: AccountType)
    ensures
        t == account_type_for_id(account_id@),
{
    let chars = chars_of(account_id);
    let underscore = vec!['_'];
    assert(underscore@ =~= seq!['_']);
    match find_first_in(&chars, &underscore) {
        Some(i) => {
            let prefix = account_id.substring_char(0, i);
            assert(prefix@ =~= account_id@.take(i as int));
            match AccountType::from_name(prefix) {
                Some(t) => t,
                None => AccountType::default(),
            }
        },
        None => AccountType::default(),
    }
}

/// A stored rate limit: the budget that applies to one account.
pub struct RateLimitRecord {
    pub account_id: String,
    pub limit_type: String,
    pub max_requests: i32,
    pub window_seconds: i32,
}

/// The record to create for an account of the given tier.
pub fn new_rate_limit(account_id: &str, limit_type: AccountType) -> (r: RateLimitRecord)
    ensures
        r.account_id@ == account_id@,
        r.limit_type@ == account_type_name(limit_type),
        r.max_requests == tier_max_requests(limit_type),
        r.window_seconds == tier_window_seconds(),
{
    RateLimitRecord {
        account_id: String::from_str(account_id),
        limit_type: String::from_str(limit_type.name()),
        max_requests: limit_type.max_requests(),
        window_seconds: limit_type.window_seconds(),
    }
}


/// Where the search for an account's rate limit stands.
#[derive(Clone, Copy, Debug, PartialEq, Eq, Structural)]
pub enum RateLimitFetchStep {
    /// Looking the record up by account id and tier.
    Lookup,
    /// Inserting a fresh record, doing nothing on conflict.
    Insert,
}

/// What the store is asked to do next while an account's rate limit is
/// found or created.
pub enum RateLimitFetchAction {
    /// Read the record of this account and tier.
    Query { account_id: String, limit_type: String },
    /// Insert this record unless one exists already.
    Insert(RateLimitRecord),
    /// The search is over: this record applies.
    Return(RateLimitRecord),
}

/// Finding or creating the rate limit of one account: a lookup, and on a miss
/// an insert that does nothing on conflict; a conflict (a concurrent insert)
/// starts the lookup again.
pub struct RateLimitFetch {
    pub account_id: String,
    pub limit_type: AccountType,
    pub step: RateLimitFetchStep,
}

impl RateLimitFetch {
    /// Starts the search for the account's rate limit with a lookup under the
    /// tier that its id announces.
    pub fn start(account_id: &str) -> (r: (RateLimitFetch, RateLimitFetchAction))
        ensures
            r.0.account_id@ == account_id@,
            r.0.limit_type == account_type_for_id(account_id@),
            r.0.step == RateLimitFetchStep::Lookup,
            r.1 matches RateLimitFetchAction::Query { account_id: a, limit_type: l } && a@
                == account_id@ && l@ == account_type_name(account_type_for_id(account_id@)),
    {
        let limit_type = account_type_for(account_id);
        let fetch = RateLimitFetch {
            account_id: String::from_str(account_id),
            limit_type,
            step: RateLimitFetchStep::Lookup,
        };
        let action = RateLimitFetchAction::Query {
            account_id: String::from_str(account_id),
            limit_type: String::from_str(limit_type.name()),
        };
        (fetch, action)
    }

    /// Takes the store's reply to the last action: a record ends the search
    /// with that very record; a miss on lookup leads to an insert, and a miss
    /// on insert (a conflict) leads to a new lookup.
    pub fn on_reply(self, reply: Option<RateLimitRecord>) -> (r: (
        RateLimitFetch,
        RateLimitFetchAction,
    ))
        ensures
            r.0.account_id == self.account_id,
            r.0.limit_type == self.limit_type,
            match reply {
                Some(record) => r.0.step == self.step && r.1 == RateLimitFetchAction::Return(
                    record,
                ),
                None => match self.step {
                    RateLimitFetchStep::Lookup => {
                        &&& r.0.step == RateLimitFetchStep::Insert
                        &&& r.1 matches RateLimitFetchAction::Insert(rec)
                        &&& rec.account_id@ == self.account_id@
                        &&& rec.limit_type@ == account_type_name(self.limit_type)
                        &&& rec.max_requests == tier_max_requests(self.limit_type)
                        &&& rec.window_seconds == tier_window_seconds()
                    },
                    RateLimitFetchStep::Insert => {
                        &&& r.0.step == RateLimitFetchStep::Lookup
                        &&& r.1 matches RateLimitFetchAction::Query { account_id: a, limit_type: l }
                        &&& a@ == self.account_id@
                        &&& l@ == account_type_name(self.limit_type)
                    },
                },
            },
    {
        match reply {
            Some(record) => (self, RateLimitFetchAction::Return(record)),
            None => match self.step {
                RateLimitFetchStep::Lookup => {
                    let record = new_rate_limit(self.account_id.as_str(), self.limit_type);
                    let next = RateLimitFetch {
                        account_id: self.account_id,
                        limit_type: self.limit_type,
                        step: RateLimitFetchStep::Insert,
                    };
                    (next, RateLimitFetchAction::Insert(record))
                },
                RateLimitFetchStep::Insert => {
                    let action = RateLimitFetchAction::Query {
                        account_id: self.account_id.clone(),
                        limit_type: String::from_str(self.limit_type.name()),
                    };
                    let next = RateLimitFetch {
                        account_id: self.account_id,
                        limit_type: self.limit_type,
                        step: RateLimitFetchStep::Lookup,
                    };
                    (next, action)
                },
            },
        }
    }
}

/// Every tier's name reads back as that tier.
pub proof fn lemma_tier_name_round_trip(t: AccountType)
    ensures
        account_type_named(account_type_name(t)) == Some(t),
{
    assert(account_type_name(AccountType::Basic) != account_type_name(AccountType::Premium));
    assert(account_type_name(AccountType::Basic) != account_type_name(AccountType::Enterprise));
    assert(account_type_name(AccountType::Premium) != account_type_name(
        AccountType::Enterprise,
    ));
}

/// An account id made of a tier's name, `_` and anything at all announces
/// that tier.
pub proof fn lemma_prefixed_id_announces_tier(t: AccountType, rest: Seq<char>)
    ensures
        account_type_for_id(account_type_name(t) + seq!['_'] + rest) == t,
{
    let name = account_type_name(t);
    let id = name + seq!['_'] + rest;
    let pat = seq!['_'];
    let i = name.len() as int;
    assert(id.subrange(i, i + 1) =~= pat);
    assert forall|j: int| 0 <= j < i implies !occurs_at(id, pat, j) by {
        assert(id.subrange(j, j + 1)[0] == name[j]);
    }
    lemma_find_first_is(id, pat, i);
    assert(id.take(i) =~= name);
    lemma_tier_name_round_trip(t);
}

} // verus!
