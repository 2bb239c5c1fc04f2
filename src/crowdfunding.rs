use crate::address::{authorized, is_authorized, Address};
use crate::ledger::{after_transfer, holding, transfer_ok, valid_holdings, TokenLedger};
use vstd::prelude::*;

verus! {

/// The two configuration keys of the escrow's storage.
#[derive(Clone, Copy, Debug, PartialEq, Eq, Structural)]
pub enum DataKey {
    /// The token accepted as donations.
    AcceptedToken,
    /// The principal that receives the donations.
    DonationsRecipient,
}

/// How an escrow operation failed. A failed operation changes nothing.
#[derive(Clone, Copy, Debug, PartialEq, Eq, Structural)]
pub enum EscrowError {
    AlreadyInitialized,
    NotInitialized,
    Unauthorized,
    TransferFailed,
    InvalidAmount,
}

/// A pooled-donation escrow for one token. Its configuration is set once;
/// the funds it holds are the accepted token's ledger balance of `address`.
pub struct CrowdfundingContract {
    address: Address,
    accepted_token: Option<Address>,
    donations_recipient: Option<Address>,
}

/// `post` is what `initialize(recipient, token)` leaves of `pre`: a
/// configured escrow stays as it was, an unconfigured one takes both keys.
pub open spec fn initialize_step(
    pre: CrowdfundingContract,
    post: CrowdfundingContract,
    recipient: Address,
    token: Address,
) -> bool {
    &&& post.self_address() == pre.self_address()
    &&& pre.is_initialized() ==> post == pre
    &&& !pre.is_initialized() ==> post.token_key() == Some(token) && post.recipient_key() == Some(
        recipient,
    )
}

impl CrowdfundingContract {
    /// The principal under which the escrow holds its funds.
    pub closed spec fn self_address(&self) -> Address {
        self.address
    }

    /// The configured token, if any.
    pub closed spec fn token_key(&self) -> Option<Address> {
        self.accepted_token
    }

    /// The configured recipient, if any.
    pub closed spec fn recipient_key(&self) -> Option<Address> {
        self.donations_recipient
    }

    /// Both configuration keys are set, or neither is.
    pub open spec fn wf(&self) -> bool {
        self.token_key() is Some == self.recipient_key() is Some
    }

    pub open spec fn is_initialized(&self) -> bool {
        self.token_key() is Some
    }

    /// The accepted token, as `token` reports it.
    pub open spec fn token_spec(&self) -> Result<Address, EscrowError> {
        match self.token_key() {
            Some(t) => Ok(t),
            None => Err(EscrowError::NotInitialized),
        }
    }

    /// The recipient, as `recipient` reports it.
    pub open spec fn recipient_spec(&self) -> Result<Address, EscrowError> {
        match self.recipient_key() {
            Some(r) => Ok(r),
            None => Err(EscrowError::NotInitialized),
        }
    }

    /// The escrow balance on holdings `m`, as `contract_balance` reports it.
    pub open spec fn balance_spec(&self, m: Map<u64, i128>) -> Result<int, EscrowError> {
        if self.is_initialized() {
            Ok(holding(m, self.self_address()))
        } else {
            Err(EscrowError::NotInitialized)
        }
    }

    /// What `initialize(recipient, token)` returns.
    pub open spec fn initialize_outcome(&self) -> Result<(), EscrowError> {
        if self.is_initialized() {
            Err(EscrowError::AlreadyInitialized)
        } else {
            Ok(())
        }
    }

    /// What `donate(donor, amount)` returns on holdings `m`.
    pub open spec fn donate_outcome(
        &self,
        m: Map<u64, i128>,
        auths: Seq<Address>,
        donor: Address,
        amount: int,
    ) -> Result<(), EscrowError> {
        if !self.is_initialized() {
            Err(EscrowError::NotInitialized)
        } else if !authorized(auths, donor) {
            Err(EscrowError::Unauthorized)
        } else if amount <= 0 {
            Err(EscrowError::InvalidAmount)
        } else if !transfer_ok(m, donor, self.self_address(), amount) {
            Err(EscrowError::TransferFailed)
        } else {
            Ok(())
        }
    }

    /// The holdings after `donate(donor, amount)` on holdings `m`.
    pub open spec fn after_donate(
        &self,
        m: Map<u64, i128>,
        auths: Seq<Address>,
        donor: Address,
        amount: int,
    ) -> Map<u64, i128> {
        if self.donate_outcome(m, auths, donor, amount) is Ok {
            after_transfer(m, donor, self.self_address(), amount)
        } else {
            m
        }
    }

    /// What `withdraw()` returns on holdings `m`.
    pub open spec fn withdraw_outcome(&self, m: Map<u64, i128>) -> Result<(), EscrowError> {
        match self.recipient_key() {
            None => Err(EscrowError::NotInitialized),
            Some(r) => if transfer_ok(
                m,
                self.self_address(),
                r,
                holding(m, self.self_address()),
            ) {
                Ok(())
            } else {
                Err(EscrowError::TransferFailed)
            },
        }
    }

    /// The holdings after `withdraw()` on holdings `m`: the whole escrow
    /// balance has gone to the recipient.
    pub open spec fn after_withdraw(&self, m: Map<u64, i128>) -> Map<u64, i128> {
        match self.recipient_key() {
            Some(r) if self.withdraw_outcome(m) is Ok => after_transfer(
                m,
                self.self_address(),
                r,
                holding(m, self.self_address()),
            ),
            _ => m,
        }
    }

    /// An escrow holding its funds under `address`, not yet configured.
    pub fn new(address: Address) -> (r: CrowdfundingContract)
        ensures
            r.wf(),
            !r.is_initialized(),
            r.self_address() == address,
    {
        CrowdfundingContract { address, accepted_token: None, donations_recipient: None }
    }

    /// Whether `key` is set.
    pub fn has(&self, key: DataKey) -> (r: bool)
        ensures
            r == (match key {
                DataKey::AcceptedToken => self.token_key() is Some,
                DataKey::DonationsRecipient => self.recipient_key() is Some,
            }),
    {
        match key {
            DataKey::AcceptedToken => self.accepted_token.is_some(),
            DataKey::DonationsRecipient => self.donations_recipient.is_some(),
        }
    }

    fn put_token_address(&mut self, token: Address)
        ensures
            final(self).token_key() == Some(token),
            final(self).recipient_key() == old(self).recipient_key(),
            final(self).self_address() == old(self).self_address(),
    {
        self.accepted_token = Some(token);
    }

    fn put_donations_recipient(&mut self, recipient: Address)
        ensures
            final(self).recipient_key() == Some(recipient),
            final(self).token_key() == old(self).token_key(),
            final(self).self_address() == old(self).self_address(),
    {
        self.donations_recipient = Some(recipient);
    }

    fn get_token_address(&self) -> (r: Result<Address, EscrowError>)
        ensures
            r == self.token_spec(),
    {
        match self.accepted_token {
            Some(t) => Ok(t),
            None => Err(EscrowError::NotInitialized),
        }
    }

    fn get_donations_recipient(&self) -> (r: Result<Address, EscrowError>)
        ensures
            r == self.recipient_spec(),
    {
        match self.donations_recipient {
            Some(t) => Ok(t),
            None => Err(EscrowError::NotInitialized),
        }
    }

    /// Sets the recipient and the accepted token, once. A second call fails
    /// with `AlreadyInitialized` and leaves the configuration as it was.
    pub fn initialize(&mut self, recipient: Address, token: Address) -> (r: Result<
        (),
        EscrowError,
    >)
        requires
            old(self).wf(),
        ensures
            final(self).wf(),
            r == old(self).initialize_outcome(),
            initialize_step(*old(self), *final(self), recipient, token),
    {
        if self.has(DataKey::AcceptedToken) {
            return Err(EscrowError::AlreadyInitialized);
        }
        self.put_token_address(token);
        self.put_donations_recipient(recipient);
        Ok(())
    }

    /// The escrow's balance on `ledger`.
    fn get_balance(&self, ledger: &TokenLedger) -> (r: i128)
        ensures
            r == ledger.balance(self.self_address()),
    {
        ledger.balance_of(self.address)
    }

    /// Moves `amount` from the escrow to `to` on `ledger`.
    fn transfer(&self, ledger: &mut TokenLedger, to: Address, amount: i128) -> (r: Result<
        (),
        EscrowError,
    >)
        requires
            old(ledger).wf(),
        ensures
            final(ledger).wf(),
            r == (if transfer_ok(old(ledger)@, self.self_address(), to, amount as int) {
                Ok::<(), EscrowError>(())
            } else {
                Err(EscrowError::TransferFailed)
            }),
            r is Ok ==> final(ledger)@ == after_transfer(
                old(ledger)@,
                self.self_address(),
                to,
                amount as int,
            ),
            r is Err ==> final(ledger)@ == old(ledger)@,
    {
        match ledger.transfer(self.address, to, amount) {
            Ok(()) => Ok(()),
            Err(_) => Err(EscrowError::TransferFailed),
        }
    }

    /// Moves `amount` units of the accepted token from `donor` to the escrow.
    /// `ledger` is the accepted token's ledger and `auths` the principals whose
    /// authorization this invocation carries.
    pub fn donate(
        &self,
        ledger: &mut TokenLedger,
        auths: &Vec<Address>,
        donor: Address,
        amount: i128,
    ) -> (r: Result<(), EscrowError>)
        requires
            old(ledger).wf(),
        ensures
            final(ledger).wf(),
            r == self.donate_outcome(old(ledger)@, auths@, donor, amount as int),
            final(ledger)@ == self.after_donate(old(ledger)@, auths@, donor, amount as int),
    {
        let token = self.get_token_address();
        if token.is_err() {
            return Err(EscrowError::NotInitialized);
        }
        if !is_authorized(auths, donor) {
            return Err(EscrowError::Unauthorized);
        }
        if amount <= 0 {
            return Err(EscrowError::InvalidAmount);
        }
        match ledger.transfer(donor, self.address, amount) {
            Ok(()) => Ok(()),
            Err(_) => Err(EscrowError::TransferFailed),
        }
    }

    /// Sends the escrow's whole balance to the recipient. Anyone may call it.
    pub fn withdraw(&self, ledger: &mut TokenLedger) -> (r: Result<(), EscrowError>)
        requires
            old(ledger).wf(),
            self.wf(),
        ensures
            final(ledger).wf(),
            r == self.withdraw_outcome(old(ledger)@),
            final(ledger)@ == self.after_withdraw(old(ledger)@),
    {
        let recipient = match self.get_donations_recipient() {
            Ok(a) => a,
            Err(e) => return Err(e),
        };
        let amount = self.get_balance(ledger);
        self.transfer(ledger, recipient, amount)
    }

    /// The accepted token.
    pub fn token(&self) -> (r: Result<Address, EscrowError>)
        ensures
            r == self.token_spec(),
    {
        self.get_token_address()
    }

    /// The donations recipient.
    pub fn recipient(&self) -> (r: Result<Address, EscrowError>)
        ensures
            r == self.recipient_spec(),
    {
        self.get_donations_recipient()
    }

    /// The funds the escrow holds on `ledger`.
    pub fn contract_balance(&self, ledger: &TokenLedger) -> (r: Result<i128, EscrowError>)
        ensures
            match r {
                Ok(b) => self.balance_spec(ledger@) == Ok::<int, EscrowError>(b as int),
                Err(e) => self.balance_spec(ledger@) == Err::<int, EscrowError>(e),
            },
    {
        if self.get_token_address().is_err() {
            return Err(EscrowError::NotInitialized);
        }
        Ok(self.get_balance(ledger))
    }
}

/// `initialize` succeeds at most once: after any `initialize`, a further
/// one fails with `AlreadyInitialized` and changes nothing.
pub proof fn lemma_initialize_at_most_once(
    s0: CrowdfundingContract,
    s1: CrowdfundingContract,
    s2: CrowdfundingContract,
    r1: Address,
    t1: Address,
    r2: Address,
    t2: Address,
)
    requires
        s0.wf(),
        initialize_step(s0, s1, r1, t1),
        initialize_step(s1, s2, r2, t2),
    ensures
        s1.is_initialized(),
        s1.initialize_outcome() == Err::<(), EscrowError>(EscrowError::AlreadyInitialized),
        s2 == s1,
{
}

/// Before the first successful `initialize`, every other operation fails
/// with `NotInitialized` and moves no value.
pub proof fn lemma_uninitialized_fails(
    s: CrowdfundingContract,
    m: Map<u64, i128>,
    auths: Seq<Address>,
    donor: Address,
    amount: int,
)
    requires
        s.wf(),
        !s.is_initialized(),
    ensures
        s.donate_outcome(m, auths, donor, amount) == Err::<(), EscrowError>(
            EscrowError::NotInitialized,
        ),
        s.after_donate(m, auths, donor, amount) == m,
        s.withdraw_outcome(m) == Err::<(), EscrowError>(EscrowError::NotInitialized),
        s.after_withdraw(m) == m,
        s.token_spec() == Err::<Address, EscrowError>(EscrowError::NotInitialized),
        s.recipient_spec() == Err::<Address, EscrowError>(EscrowError::NotInitialized),
        s.balance_spec(m) == Err::<int, EscrowError>(EscrowError::NotInitialized),
{
}

/// After `initialize(recipient, token)` on a fresh escrow, `token` reports
/// `token` and `recipient` reports `recipient`, and any later `initialize`
/// keeps them so.
pub proof fn lemma_configuration_is_kept(
    s0: CrowdfundingContract,
    s1: CrowdfundingContract,
    s2: CrowdfundingContract,
    recipient: Address,
    token: Address,
    r2: Address,
    t2: Address,
)
    requires
        s0.wf(),
        !s0.is_initialized(),
        initialize_step(s0, s1, recipient, token),
        initialize_step(s1, s2, r2, t2),
    ensures
        s1.token_spec() == Ok::<Address, EscrowError>(token),
        s1.recipient_spec() == Ok::<Address, EscrowError>(recipient),
        s2.token_spec() == Ok::<Address, EscrowError>(token),
        s2.recipient_spec() == Ok::<Address, EscrowError>(recipient),
{
}

/// On a configured escrow, `donate` without the donor's authorization fails
/// with `Unauthorized` and leaves every balance as it was.
pub proof fn lemma_donate_needs_authorization(
    s: CrowdfundingContract,
    m: Map<u64, i128>,
    auths: Seq<Address>,
    donor: Address,
    amount: int,
)
    requires
        s.wf(),
        s.is_initialized(),
        !authorized(auths, donor),
    ensures
        s.donate_outcome(m, auths, donor, amount) == Err::<(), EscrowError>(
            EscrowError::Unauthorized,
        ),
        s.after_donate(m, auths, donor, amount) == m,
        holding(s.after_donate(m, auths, donor, amount), donor) == holding(m, donor),
        s.balance_spec(s.after_donate(m, auths, donor, amount)) == s.balance_spec(m),
{
}

/// An authorized donation that the donor can cover raises the escrow
/// balance by exactly the amount.
pub proof fn lemma_donate_adds_amount(
    s: CrowdfundingContract,
    m: Map<u64, i128>,
    auths: Seq<Address>,
    donor: Address,
    amount: int,
)
    requires
        s.wf(),
        s.is_initialized(),
        authorized(auths, donor),
        0 < amount <= holding(m, donor),
        donor != s.self_address(),
        holding(m, s.self_address()) + amount <= i128::MAX,
    ensures
        s.donate_outcome(m, auths, donor, amount) is Ok,
        s.balance_spec(s.after_donate(m, auths, donor, amount)) == Ok::<int, EscrowError>(
            holding(m, s.self_address()) + amount,
        ),
{
}

/// `withdraw` moves the whole escrow balance to the recipient; a second
/// `withdraw` right after succeeds and changes no balance.
pub proof fn lemma_withdraw_sweeps(s: CrowdfundingContract, m: Map<u64, i128>)
    requires
        s.wf(),
        s.is_initialized(),
        valid_holdings(m),
        s.recipient_spec() != Ok::<Address, EscrowError>(s.self_address()),
        holding(m, s.self_address()) + holding(m, s.recipient_spec()->Ok_0) <= i128::MAX,
    ensures
        ({
            let me = s.self_address();
            let r = s.recipient_spec()->Ok_0;
            let m1 = s.after_withdraw(m);
            &&& s.withdraw_outcome(m) is Ok
            &&& holding(m1, me) == 0
            &&& holding(m1, r) == holding(m, r) + holding(m, me)
            &&& s.withdraw_outcome(m1) is Ok
            &&& s.after_withdraw(m1) == m1
        }),
{
    let m1 = s.after_withdraw(m);
    assert(s.after_withdraw(m1) =~= m1);
}

} // verus!
