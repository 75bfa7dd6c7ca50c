use vstd::prelude::*;

use crate::errors::OrchestratorError;
use crate::machine::Address;

verus! {

/// The balance a map records for `a`; an address without an entry holds 0.
pub open spec fn bal(b: Map<Address, u64>, a: Address) -> u64 {
    if b.dom().contains(a) {
        b[a]
    } else {
        0
    }
}

/// The allowance `owner` has granted `spender`; ungranted pairs hold 0.
pub open spec fn allowance_of(al: Map<(Address, Address), u64>, owner: Address, spender: Address) -> u64 {
    if al.dom().contains((owner, spender)) {
        al[(owner, spender)]
    } else {
        0
    }
}

/// When a token transfer of `amount` from `from` to `to` executes
/// successfully: the sender holds enough, and the recipient's balance does
/// not overflow.
pub open spec fn transfer_allowed(
    b: Map<Address, u64>,
    from: Address,
    to: Address,
    amount: u64,
) -> bool {
    bal(b, from) >= amount && (from == to || bal(b, to) + amount <= u64::MAX)
}

/// The balances after a successful transfer.
pub open spec fn transfer_effect(
    b: Map<Address, u64>,
    from: Address,
    to: Address,
    amount: u64,
) -> Map<Address, u64> {
    if from == to {
        b
    } else {
        b.insert(from, (bal(b, from) - amount) as u64).insert(to, (bal(b, to) + amount) as u64)
    }
}

/// When a transfer of `amount` from `from` to `to`, spent by `spender`
/// against `from`'s allowance, executes successfully.
pub open spec fn transfer_from_allowed(
    b: Map<Address, u64>,
    al: Map<(Address, Address), u64>,
    spender: Address,
    from: Address,
    to: Address,
    amount: u64,
) -> bool {
    allowance_of(al, from, spender) >= amount && transfer_allowed(b, from, to, amount)
}

/// The allowances after a successful allowance-spending transfer.
pub open spec fn spend_allowance_effect(
    al: Map<(Address, Address), u64>,
    spender: Address,
    from: Address,
    amount: u64,
) -> Map<(Address, Address), u64> {
    al.insert((from, spender), (allowance_of(al, from, spender) - amount) as u64)
}

#[derive(Clone, Copy, Debug, PartialEq, Eq, Structural)]
struct BalanceEntry {
    key: Address,
    value: u64,
}

spec fn balance_map(s: Seq<BalanceEntry>) -> Map<Address, u64>
    decreases s.len(),
{
    if s.len() == 0 {
        Map::empty()
    } else {
        balance_map(s.drop_last()).insert(s.last().key, s.last().value)
    }
}

/// The balances a token records, one entry per recorded write; a later
/// entry for the same address overrides an earlier one.
pub struct BalanceTable {
    entries: Vec<BalanceEntry>,
}

impl View for BalanceTable {
    type V = Map<Address, u64>;

    closed spec fn view(&self) -> Map<Address, u64> {
        balance_map(self.entries@)
    }
}

impl BalanceTable {
    pub fn new() -> (r: Self)
        ensures
            r@ == Map::<Address, u64>::empty(),
    {
        BalanceTable { entries: Vec::new() }
    }

    /// The balance recorded for `a`, 0 when none was ever recorded.
    pub fn get(&self, a: Address) -> (r: u64)
        ensures
            r == bal(self@, a),
    {
        let mut i: usize = self.entries.len();
        proof {
            assert(self.entries@.take(i as int) =~= self.entries@);
        }
        while i > 0
            invariant
                i <= self.entries@.len(),
                bal(balance_map(self.entries@), a) == bal(
                    balance_map(self.entries@.take(i as int)),
                    a,
                ),
            decreases i,
        {
            let e = self.entries[i - 1];
            proof {
                assert(self.entries@.take(i as int).drop_last() =~= self.entries@.take(i - 1));
                assert(self.entries@.take(i as int).last() == self.entries@[i - 1]);
            }
            if e.key == a {
                return e.value;
            }
            i -= 1;
        }
        proof {
            assert(self.entries@.take(0) =~= Seq::<BalanceEntry>::empty());
        }
        0
    }

    /// Records balance `v` for `a`.
    pub fn set(&mut self, a: Address, v: u64)
        ensures
            final(self)@ == old(self)@.insert(a, v),
    {
        self.entries.push(BalanceEntry { key: a, value: v });
        proof {
            assert(self.entries@.drop_last() =~= old(self).entries@);
        }
    }
}

#[derive(Clone, Copy, Debug, PartialEq, Eq, Structural)]
struct AllowanceEntry {
    owner: Address,
    spender: Address,
    value: u64,
}

spec fn allowance_map(s: Seq<AllowanceEntry>) -> Map<(Address, Address), u64>
    decreases s.len(),
{
    if s.len() == 0 {
        Map::empty()
    } else {
        allowance_map(s.drop_last()).insert((s.last().owner, s.last().spender), s.last().value)
    }
}

/// The allowances a token records, keyed by owner and spender.
pub struct AllowanceTable {
    entries: Vec<AllowanceEntry>,
}

impl View for AllowanceTable {
    type V = Map<(Address, Address), u64>;

    closed spec fn view(&self) -> Map<(Address, Address), u64> {
        allowance_map(self.entries@)
    }
}

impl AllowanceTable {
    pub fn new() -> (r: Self)
        ensures
            r@ == Map::<(Address, Address), u64>::empty(),
    {
        AllowanceTable { entries: Vec::new() }
    }

    /// The allowance `owner` has granted `spender`, 0 when none was granted.
    pub fn get(&self, owner: Address, spender: Address) -> (r: u64)
        ensures
            r == allowance_of(self@, owner, spender),
    {
        let mut i: usize = self.entries.len();
        proof {
            assert(self.entries@.take(i as int) =~= self.entries@);
        }
        while i > 0
            invariant
                i <= self.entries@.len(),
                allowance_of(allowance_map(self.entries@), owner, spender) == allowance_of(
                    allowance_map(self.entries@.take(i as int)),
                    owner,
                    spender,
                ),
            decreases i,
        {
            let e = self.entries[i - 1];
            proof {
                assert(self.entries@.take(i as int).drop_last() =~= self.entries@.take(i - 1));
                assert(self.entries@.take(i as int).last() == self.entries@[i - 1]);
            }
            if e.owner == owner && e.spender == spender {
                return e.value;
            }
            i -= 1;
        }
        proof {
            assert(self.entries@.take(0) =~= Seq::<AllowanceEntry>::empty());
        }
        0
    }

    /// Records allowance `v` from `owner` to `spender`.
    pub fn set(&mut self, owner: Address, spender: Address, v: u64)
        ensures
            final(self)@ == old(self)@.insert((owner, spender), v),
    {
        self.entries.push(AllowanceEntry { owner, spender, value: v });
        proof {
            assert(self.entries@.drop_last() =~= old(self).entries@);
        }
    }
}

/// The library's model of the token contract's recorded state: ERC20-style
/// balances and allowances. The real contract executes on the remote
/// ledger; this model states the semantics each confirmed call is checked
/// against, and the end-to-end balance law is proved over it.
pub struct TokenContract {
    balances: BalanceTable,
    allowances: AllowanceTable,
}

impl TokenContract {
    /// The balances the token records.
    pub closed spec fn balances(&self) -> Map<Address, u64> {
        self.balances@
    }

    /// The allowances the token records.
    pub closed spec fn allowances(&self) -> Map<(Address, Address), u64> {
        self.allowances@
    }

    /// A token deployed with total supply `supply`, all credited to
    /// `owner`, and no allowance granted.
    pub fn new(owner: Address, supply: u64) -> (r: Self)
        ensures
            r.balances() == Map::<Address, u64>::empty().insert(owner, supply),
            r.allowances() == Map::<(Address, Address), u64>::empty(),
    {
        let mut balances = BalanceTable::new();
        balances.set(owner, supply);
        TokenContract { balances, allowances: AllowanceTable::new() }
    }

    /// The balance recorded for `a`.
    pub fn balance_of(&self, a: Address) -> (r: u64)
        ensures
            r == bal(self.balances(), a),
    {
        self.balances.get(a)
    }

    /// The allowance `owner` has granted `spender`.
    pub fn allowance(&self, owner: Address, spender: Address) -> (r: u64)
        ensures
            r == allowance_of(self.allowances(), owner, spender),
    {
        self.allowances.get(owner, spender)
    }

    /// Moves `amount` from the caller to `to`. Succeeds exactly when the
    /// caller holds at least `amount` and the recipient's balance does not
    /// overflow; a failed call leaves the state unchanged.
    pub fn transfer(&mut self, caller: Address, to: Address, amount: u64) -> (r: Result<
        (),
        OrchestratorError,
    >)
        ensures
            r is Ok <==> transfer_allowed(old(self).balances(), caller, to, amount),
            r is Ok ==> final(self).balances() == transfer_effect(
                old(self).balances(),
                caller,
                to,
                amount,
            ),
            r is Err ==> final(self).balances() == old(self).balances(),
            final(self).allowances() == old(self).allowances(),
            r matches Err(e) ==> e == OrchestratorError::TransactionFailed,
    {
        let from_bal = self.balances.get(caller);
        if from_bal < amount {
            return Err(OrchestratorError::TransactionFailed);
        }
        if caller == to {
            return Ok(());
        }
        let to_bal = self.balances.get(to);
        if to_bal > u64::MAX - amount {
            return Err(OrchestratorError::TransactionFailed);
        }
        self.balances.set(caller, from_bal - amount);
        self.balances.set(to, to_bal + amount);
        Ok(())
    }

    /// Grants `spender` an allowance of exactly `amount` from the caller.
    /// Always succeeds and overwrites any earlier allowance.
    pub fn approve(&mut self, caller: Address, spender: Address, amount: u64) -> (r: Result<
        (),
        OrchestratorError,
    >)
        ensures
            r is Ok,
            final(self).allowances() == old(self).allowances().insert((caller, spender), amount),
            final(self).balances() == old(self).balances(),
    {
        self.allowances.set(caller, spender, amount);
        Ok(())
    }

    /// Moves `amount` from `from` to `to`, spent by the caller against the
    /// allowance `from` granted the caller. Succeeds exactly when that
    /// allowance and `from`'s balance both cover `amount` (and the
    /// recipient's balance does not overflow); the spent part of the
    /// allowance is consumed. A failed call leaves the state unchanged.
    pub fn transfer_from(
        &mut self,
        caller: Address,
        from: Address,
        to: Address,
        amount: u64,
    ) -> (r: Result<(), OrchestratorError>)
        ensures
            r is Ok <==> transfer_from_allowed(
                old(self).balances(),
                old(self).allowances(),
                caller,
                from,
                to,
                amount,
            ),
            r is Ok ==> final(self).balances() == transfer_effect(
                old(self).balances(),
                from,
                to,
                amount,
            ),
            r is Ok ==> final(self).allowances() == spend_allowance_effect(
                old(self).allowances(),
                caller,
                from,
                amount,
            ),
            r is Err ==> final(self).balances() == old(self).balances(),
            r is Err ==> final(self).allowances() == old(self).allowances(),
            r matches Err(e) ==> e == OrchestratorError::TransactionFailed,
    {
        let granted = self.allowances.get(from, caller);
        if granted < amount {
            return Err(OrchestratorError::TransactionFailed);
        }
        let from_bal = self.balances.get(from);
        if from_bal < amount {
            return Err(OrchestratorError::TransactionFailed);
        }
        if from == to {
            self.allowances.set(from, caller, granted - amount);
            return Ok(());
        }
        let to_bal = self.balances.get(to);
        if to_bal > u64::MAX - amount {
            return Err(OrchestratorError::TransactionFailed);
        }
        self.allowances.set(from, caller, granted - amount);
        self.balances.set(from, from_bal - amount);
        self.balances.set(to, to_bal + amount);
        Ok(())
    }
}

/// The deposit contract model: its deposit entry point pulls `amount` of
/// the given token from the caller to the contract's own address, spending
/// the allowance the caller must have granted it beforehand.
pub struct DepositContract {
    pub address: Address,
}

impl DepositContract {
    pub fn new(address: Address) -> (r: Self)
        ensures
            r.address == address,
    {
        DepositContract { address }
    }

    /// The deposit entry point, called by `caller` with the token and the
    /// amount. Succeeds exactly when the caller's confirmed approval and
    /// balance both cover `amount`.
    pub fn deposit(&self, token: &mut TokenContract, caller: Address, amount: u64) -> (r: Result<
        (),
        OrchestratorError,
    >)
        ensures
            r is Ok <==> transfer_from_allowed(
                old(token).balances(),
                old(token).allowances(),
                self.address,
                caller,
                self.address,
                amount,
            ),
            r is Ok ==> final(token).balances() == transfer_effect(
                old(token).balances(),
                caller,
                self.address,
                amount,
            ),
            r is Ok ==> final(token).allowances() == spend_allowance_effect(
                old(token).allowances(),
                self.address,
                caller,
                amount,
            ),
            r is Err ==> final(token).balances() == old(token).balances(),
            r is Err ==> final(token).allowances() == old(token).allowances(),
            r matches Err(e) ==> e == OrchestratorError::TransactionFailed,
    {
        token.transfer_from(self.address, caller, self.address, amount)
    }
}

/// End-to-end law: starting from a token whose whole supply sits with the
/// deployer and a deposit contract with no arguments, transferring `amount`
/// to the counterparty, the counterparty approving the deposit contract for
/// `amount`, and the counterparty depositing `amount` are all permitted in
/// that order, and afterwards the token balance recorded for the deposit
/// contract's address equals `amount` exactly.
pub proof fn lemma_end_to_end_balance(
    supply: u64,
    amount: u64,
    deployer: Address,
    counterparty: Address,
    deposit: Address,
)
    requires
        amount <= supply,
        deployer != counterparty,
        counterparty != deposit,
        deployer != deposit,
    ensures
        ({
            let b0 = Map::<Address, u64>::empty().insert(deployer, supply);
            let b1 = transfer_effect(b0, deployer, counterparty, amount);
            let al = Map::<(Address, Address), u64>::empty().insert((counterparty, deposit), amount);
            let b2 = transfer_effect(b1, counterparty, deposit, amount);
            &&& transfer_allowed(b0, deployer, counterparty, amount)
            &&& transfer_from_allowed(b1, al, deposit, counterparty, deposit, amount)
            &&& bal(b2, deposit) == amount
        }),
{
}

/// Ordering consequence: a deposit submitted before the approval is
/// confirmed finds an allowance below `amount`, and the allowance-spending
/// transfer is refused — it cannot succeed nondeterministically.
pub proof fn lemma_deposit_without_approval_fails(
    b: Map<Address, u64>,
    al: Map<(Address, Address), u64>,
    spender: Address,
    from: Address,
    to: Address,
    amount: u64,
)
    requires
        allowance_of(al, from, spender) < amount,
    ensures
        !transfer_from_allowed(b, al, spender, from, to, amount),
{
}

} // verus!
