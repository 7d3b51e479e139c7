use vstd::prelude::*;
use vstd::string::StringExecFns;

use crate::error::{ContractError, ErrorV};
use crate::msg::{Coin, CoinV, TokenInfo, TokenInfoV};
use crate::numerals::{dec_str, u128_to_string};
use crate::state::{status_label, AgreementStatus};

verus! {

// ---------------------------------------------------------------------------
// Authorization
// ---------------------------------------------------------------------------
/// The label naming the two parties allowed to settle or cancel, as it
/// appears in an `Unauthorized` error.
pub open spec fn authorized_label(initiator: Seq<char>, counterparty: Seq<char>) -> Seq<char> {
    initiator + " or "@ + counterparty
}

/// Fails with `Unauthorized` unless the sender is exactly the counterparty.
pub fn assert_sender_matches_counterparty(sender: &String, counterparty: &String) -> (r: Result<
    (),
    ContractError,
>)
    ensures
        r is Ok <==> sender@ == counterparty@,
        r matches Err(e) ==> e@ == (ErrorV::Unauthorized {
            expected: counterparty@,
            found: sender@,
        }),
{
    if *sender != *counterparty {
        return Err(
            ContractError::Unauthorized { expected: counterparty.clone(), found: sender.clone() },
        );
    }
    Ok(())
}

/// Fails with `InvalidCounterparty` when the sender names itself as the
/// counterparty: an agreement binds two distinct identities.
pub fn assert_sender_is_different_from_counterparty(sender: &String, counterparty: &String) -> (r:
    Result<(), ContractError>)
    ensures
        r is Ok <==> sender@ != counterparty@,
        r matches Err(e) ==> e@ == (ErrorV::InvalidCounterparty {
            initiator: sender@,
            counterparty: counterparty@,
        }),
{
    if *sender == *counterparty {
        return Err(
            ContractError::InvalidCounterparty {
                initiator: sender.clone(),
                counterparty: counterparty.clone(),
            },
        );
    }
    Ok(())
}

/// Fails with `Unauthorized` unless the sender is one of the two parties to
/// the agreement.
pub fn assert_sender_authorized(sender: &String, initiator: &String, counterparty: &String) -> (r:
    Result<(), ContractError>)
    ensures
        r is Ok <==> (sender@ == initiator@ || sender@ == counterparty@),
        r matches Err(e) ==> e@ == (ErrorV::Unauthorized {
            expected: authorized_label(initiator@, counterparty@),
            found: sender@,
        }),
{
    if *sender != *initiator && *sender != *counterparty {
        let mut expected = initiator.clone();
        expected.append(" or ");
        expected.append(counterparty.as_str());
        return Err(ContractError::Unauthorized { expected, found: sender.clone() });
    }
    Ok(())
}

// ---------------------------------------------------------------------------
// Status gate
// ---------------------------------------------------------------------------
/// The label naming a list of permitted statuses, comma-separated, as it
/// appears in an `InvalidAgreementStatus` error.
pub open spec fn status_list_label(statuses: Seq<AgreementStatus>) -> Seq<char>
    decreases statuses.len(),
{
    if statuses.len() == 0 {
        Seq::<char>::empty()
    } else if statuses.len() == 1 {
        status_label(statuses[0])
    } else {
        status_list_label(statuses.drop_last()) + ", "@ + status_label(statuses.last())
    }
}

/// Fails with `InvalidAgreementStatus` unless the agreement's status is among
/// the allowed ones.
pub fn assert_agreement_has_status(status: AgreementStatus, allowed: &[AgreementStatus]) -> (r:
    Result<(), ContractError>)
    ensures
        r is Ok <==> allowed@.contains(status),
        r matches Err(e) ==> e@ == (ErrorV::InvalidAgreementStatus {
            expected: status_list_label(allowed@),
            found: status_label(status),
        }),
{
    let n = allowed.len();
    let mut i: usize = 0;
    while i < n
        invariant
            n == allowed@.len(),
            0 <= i <= n,
            forall|j: int| 0 <= j < i ==> allowed@[j] != status,
        decreases n - i,
    {
        if allowed[i] == status {
            return Ok(());
        }
        i += 1;
    }
    let mut expected = String::new();
    let mut i: usize = 0;
    while i < n
        invariant
            n == allowed@.len(),
            0 <= i <= n,
            expected@ == status_list_label(allowed@.take(i as int)),
        decreases n - i,
    {
        if i > 0 {
            expected.append(", ");
        }
        let label = allowed[i].label();
        expected.append(label.as_str());
        proof {
            assert(allowed@.take(i + 1).drop_last() =~= allowed@.take(i as int));
            assert(allowed@.take(i + 1).last() == allowed@[i as int]);
            if i == 0 {
                assert(expected@ =~= status_list_label(allowed@.take(i + 1)));
            }
        }
        i += 1;
    }
    proof {
        assert(allowed@.take(n as int) =~= allowed@);
    }
    Err(ContractError::InvalidAgreementStatus { expected, found: status.label() })
}

// ---------------------------------------------------------------------------
// Attached funds
// ---------------------------------------------------------------------------
/// The first attached-funds entry whose asset differs from `addr`, in call
/// order, if any.
pub open spec fn first_unexpected(funds: Seq<CoinV>, addr: Seq<char>) -> Option<CoinV>
    decreases funds.len(),
{
    if funds.len() == 0 {
        None
    } else if funds.first().denom != addr {
        Some(funds.first())
    } else {
        first_unexpected(funds.drop_first(), addr)
    }
}

/// What checking attached funds against a required token yields: `None` when
/// the funds are exactly one asset matching the token in kind and amount,
/// otherwise the error describing the first violation found.  A foreign asset
/// is reported before any amount comparison; absence of any entry is a
/// distinct error from a wrong amount.
pub open spec fn spec_check_funds(funds: Seq<CoinV>, token: TokenInfoV) -> Option<ErrorV> {
    match first_unexpected(funds, token.address) {
        Some(c) => Some(ErrorV::UnexpectedFunds { expected: token.address, found: c.denom }),
        None => {
            if funds.len() == 0 {
                Some(ErrorV::InsufficientFunds)
            } else if funds.first().amount == token.amount {
                None
            } else {
                Some(
                    ErrorV::IncorrectFundsAmount {
                        expected: dec_str(token.amount as nat),
                        found: dec_str(funds.first().amount as nat),
                    },
                )
            }
        },
    }
}

/// Fails unless the attached funds match the required token exactly: every
/// entry must name the token's asset, at least one entry must be present, and
/// the (first) matching entry must carry exactly the required amount.
pub fn assert_funds_match_token_amount(funds: &Vec<Coin>, token: &TokenInfo) -> (r: Result<
    (),
    ContractError,
>)
    ensures
        r is Ok <==> spec_check_funds(funds.deep_view(), token@) is None,
        r matches Err(e) ==> Some(e@) == spec_check_funds(funds.deep_view(), token@),
{
    let ghost fv = funds.deep_view();
    proof {
        assert(fv.skip(0) =~= fv);
    }
    let n = funds.len();
    let mut i: usize = 0;
    while i < n
        invariant
            fv == funds.deep_view(),
            n == funds@.len(),
            0 <= i <= n,
            fv.len() == n,
            forall|j: int| 0 <= j < i ==> (#[trigger] fv[j]).denom == token@.address,
            first_unexpected(fv, token@.address) == first_unexpected(
                fv.skip(i as int),
                token@.address,
            ),
        decreases n - i,
    {
        let c = &funds[i];
        proof {
            assert(fv.skip(i as int).first() == fv[i as int]);
            assert(fv.skip(i as int).drop_first() =~= fv.skip(i + 1));
        }
        if c.denom != token.address {
            return Err(
                ContractError::UnexpectedFunds {
                    expected: token.address.clone(),
                    found: c.denom.clone(),
                },
            );
        }
        i += 1;
    }
    proof {
        assert(fv.skip(n as int) =~= Seq::<CoinV>::empty());
    }
    if n == 0 {
        return Err(ContractError::InsufficientFunds);
    }
    let sent = &funds[0];
    proof {
        assert(fv.first() == fv[0]);
    }
    if sent.amount == token.amount {
        Ok(())
    } else {
        Err(
            ContractError::IncorrectFundsAmount {
                expected: u128_to_string(token.amount),
                found: u128_to_string(sent.amount),
            },
        )
    }
}

// ---------------------------------------------------------------------------
// Contract-held balances
// ---------------------------------------------------------------------------
/// The contract's held amount of `denom` according to the balance listing:
/// the amount of the first entry for that asset, or zero when none is listed.
pub open spec fn balance_of(balances: Seq<CoinV>, denom: Seq<char>) -> u128
    decreases balances.len(),
{
    if balances.len() == 0 {
        0
    } else if balances.first().denom == denom {
        balances.first().amount
    } else {
        balance_of(balances.drop_first(), denom)
    }
}

/// Fails with `InsufficientContractFunds` unless the listed contract-held
/// balance of the token's asset covers the token's amount.
pub fn assert_contract_has_sufficient_funds(balances: &Vec<Coin>, token: &TokenInfo) -> (r: Result<
    (),
    ContractError,
>)
    ensures
        r is Ok <==> balance_of(balances.deep_view(), token@.address) >= token.amount,
        r matches Err(e) ==> e@ == (ErrorV::InsufficientContractFunds {
            expected: dec_str(token.amount as nat),
            found: dec_str(balance_of(balances.deep_view(), token@.address) as nat),
        }),
{
    let ghost bv = balances.deep_view();
    proof {
        assert(bv.skip(0) =~= bv);
    }
    let n = balances.len();
    let mut i: usize = 0;
    let mut held: u128 = 0;
    let mut found = false;
    while i < n && !found
        invariant
            bv == balances.deep_view(),
            n == balances@.len(),
            0 <= i <= n,
            bv.len() == n,
            !found ==> held == 0,
            !found ==> balance_of(bv, token@.address) == balance_of(bv.skip(i as int), token@.address),
            found ==> held == balance_of(bv, token@.address),
        decreases n - i,
    {
        proof {
            assert(bv.skip(i as int).first() == bv[i as int]);
            assert(bv.skip(i as int).drop_first() =~= bv.skip(i + 1));
        }
        if balances[i].denom == token.address {
            held = balances[i].amount;
            found = true;
        }
        i += 1;
    }
    proof {
        if !found {
            assert(bv.skip(n as int) =~= Seq::<CoinV>::empty());
        }
    }
    if held < token.amount {
        return Err(
            ContractError::InsufficientContractFunds {
                expected: u128_to_string(token.amount),
                found: u128_to_string(held),
            },
        );
    }
    Ok(())
}

} // verus!
