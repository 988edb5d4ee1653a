//! Creating a transaction with contracts: the form's state, and what the
//! create button does with the typed amount.
use vstd::prelude::*;

use crate::text::string_equals;

verus! {

/// Whether this wallet pays (debit) or receives (credit) in the contract.
#[derive(Clone, Copy, Debug, PartialEq, Eq, Structural)]
pub enum ContributionChoice {
    Credit,
    Debit,
}

/// The contract to set up once the form is accepted.
#[derive(Clone, Copy, Debug, PartialEq, Eq, Structural)]
pub struct ContractPlan {
    /// The wallet's change in balance.
    pub net_change: i64,
    /// How many parties sign.
    pub num_participants: u8,
    /// Whether the wallet's own address is attached as the sender's.
    pub attach_sender_address: bool,
    /// Whether the contract is a send to this same wallet.
    pub self_send: bool,
}

/// The form for a new contract transaction.
pub struct StateContainer {
    pub recipient_address_value: String,
    pub amount_value: String,
    pub contribution_choice: ContributionChoice,
    pub is_self_send: bool,
    pub amount_error: bool,
    pub slatepack_address_error: bool,
}

/// The plan for the typed amount (`None` when it does not parse), or
/// `None` when the amount is refused: a missing or zero amount is refused
/// unless sending to self, and one above the largest signed 64-bit value
/// always.
pub open spec fn contract_plan(
    parsed_amount: Option<u64>,
    is_self_send: bool,
    choice: ContributionChoice,
) -> Option<ContractPlan> {
    let refused = match parsed_amount {
        None => !is_self_send,
        Some(a) => if a == 0 { !is_self_send } else { a > i64::MAX },
    };
    if refused {
        None
    } else {
        let amount: int = match parsed_amount {
            Some(a) => if is_self_send { 0 } else { a as int },
            None => 0,
        };
        Some(
            ContractPlan {
                net_change: if is_self_send {
                    0
                } else {
                    match choice {
                        ContributionChoice::Credit => amount as i64,
                        ContributionChoice::Debit => (-amount) as i64,
                    }
                },
                num_participants: if is_self_send { 1 } else { 2 },
                attach_sender_address: choice == ContributionChoice::Credit || is_self_send,
                self_send: is_self_send,
            },
        )
    }
}

impl Default for StateContainer {
    /// An empty form that debits the wallet, not a self send, with no error.
    fn default() -> (s: StateContainer)
        ensures
            s.recipient_address_value@.len() == 0,
            s.amount_value@.len() == 0,
            s.contribution_choice == ContributionChoice::Debit,
            !s.is_self_send,
            !s.amount_error,
            !s.slatepack_address_error,
    {
        StateContainer {
            recipient_address_value: String::new(),
            amount_value: String::new(),
            contribution_choice: ContributionChoice::Debit,
            is_self_send: false,
            amount_error: false,
            slatepack_address_error: false,
        }
    }
}

impl StateContainer {
    /// Takes a typed recipient address; the transaction is a self send
    /// exactly when it is the wallet's own address.
    pub fn set_recipient_address(&mut self, address: String, own_address: &Option<String>)
        ensures
            final(self).recipient_address_value@ == address@,
            final(self).is_self_send == (match own_address {
                Some(a) => a@ == address@,
                None => false,
            }),
            final(self).amount_value == old(self).amount_value,
            final(self).contribution_choice == old(self).contribution_choice,
            final(self).amount_error == old(self).amount_error,
            final(self).slatepack_address_error == old(self).slatepack_address_error,
    {
        let same = match own_address {
            Some(a) => string_equals(a, &address),
            None => false,
        };
        self.recipient_address_value = address;
        self.is_self_send = same;
    }

    /// Takes the self-send checkbox; the wallet's own address, when known,
    /// becomes the recipient.
    pub fn select_self_send(&mut self, self_send: bool, own_address: &Option<String>)
        ensures
            final(self).is_self_send == self_send,
            final(self).recipient_address_value@ == (match own_address {
                Some(a) => a@,
                None => old(self).recipient_address_value@,
            }),
            final(self).amount_value == old(self).amount_value,
            final(self).contribution_choice == old(self).contribution_choice,
            final(self).amount_error == old(self).amount_error,
            final(self).slatepack_address_error == old(self).slatepack_address_error,
    {
        self.is_self_send = self_send;
        match own_address {
            Some(a) => {
                self.recipient_address_value = a.clone();
            },
            None => {},
        }
    }

    /// Records that the recipient's slatepack address was refused.
    pub fn set_slatepack_address_error(&mut self)
        ensures
            final(self).slatepack_address_error,
            final(self).amount_error == old(self).amount_error,
            final(self).is_self_send == old(self).is_self_send,
            final(self).contribution_choice == old(self).contribution_choice,
    {
        self.slatepack_address_error = true;
    }

    /// Accepts the form with the typed amount parsed (`None` when it does
    /// not parse): clears earlier errors, then either marks the amount as
    /// refused or returns the contract to set up.
    pub fn begin_create(&mut self, parsed_amount: Option<u64>) -> (plan: Option<ContractPlan>)
        ensures
            plan == contract_plan(parsed_amount, old(self).is_self_send, old(self).contribution_choice),
            final(self).amount_error == (plan is None),
            !final(self).slatepack_address_error,
            final(self).is_self_send == old(self).is_self_send,
            final(self).contribution_choice == old(self).contribution_choice,
            final(self).recipient_address_value == old(self).recipient_address_value,
            final(self).amount_value == old(self).amount_value,
    {
        self.amount_error = false;
        self.slatepack_address_error = false;
        let amount: i64 = match parsed_amount {
            None => {
                if !self.is_self_send {
                    self.amount_error = true;
                    return None;
                }
                0
            },
            Some(a) => {
                if a == 0 {
                    if !self.is_self_send {
                        self.amount_error = true;
                        return None;
                    }
                    0
                } else if a > i64::MAX as u64 {
                    self.amount_error = true;
                    return None;
                } else if self.is_self_send {
                    0
                } else {
                    a as i64
                }
            },
        };
        let net_change = if self.is_self_send {
            0
        } else {
            match self.contribution_choice {
                ContributionChoice::Credit => amount,
                ContributionChoice::Debit => -amount,
            }
        };
        Some(
            ContractPlan {
                net_change,
                num_participants: if self.is_self_send { 1 } else { 2 },
                attach_sender_address: self.contribution_choice == ContributionChoice::Credit
                    || self.is_self_send,
                self_send: self.is_self_send,
            },
        )
    }
}

/// Crediting and debiting the same accepted amount change the balance by
/// opposite amounts.
pub proof fn lemma_credit_debit_opposite(a: u64)
    requires
        0 < a <= i64::MAX,
    ensures
        contract_plan(Some(a), false, ContributionChoice::Credit) matches Some(c)
            && contract_plan(Some(a), false, ContributionChoice::Debit) matches Some(d)
            && c.net_change == a && d.net_change == -a,
{
}

/// When a contract is refused, and what an accepted one holds: a missing
/// or zero amount is refused unless sending to self, an amount above the
/// largest signed 64-bit value always; a send to self changes nothing, has
/// one party and attaches the wallet's address; otherwise two parties
/// sign, crediting adds the amount, debiting takes it away, and only a
/// credit attaches the wallet's address.
pub proof fn lemma_contract_plan_rules(
    parsed_amount: Option<u64>,
    is_self_send: bool,
    choice: ContributionChoice,
)
    ensures
        contract_plan(parsed_amount, is_self_send, choice) is None <==> ((!is_self_send && (
        parsed_amount is None || parsed_amount == Some(0u64))) || (parsed_amount matches Some(a)
            && a > i64::MAX)),
        contract_plan(parsed_amount, is_self_send, choice) matches Some(c) ==> c.self_send
            == is_self_send,
        is_self_send ==> (contract_plan(parsed_amount, is_self_send, choice) matches Some(c)
            ==> c.net_change == 0 && c.num_participants == 1 && c.attach_sender_address),
        !is_self_send ==> (contract_plan(parsed_amount, is_self_send, choice) matches Some(c)
            ==> c.num_participants == 2 && c.attach_sender_address == (choice
            == ContributionChoice::Credit)),
        !is_self_send ==> (contract_plan(parsed_amount, is_self_send, choice) matches Some(c)
            ==> (parsed_amount matches Some(a) && (choice == ContributionChoice::Credit
            ==> c.net_change == a) && (choice == ContributionChoice::Debit ==> c.net_change
            == -a))),
{
}

} // verus!
