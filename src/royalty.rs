use vstd::prelude::*;

use mpl_token_metadata::accounts::Metadata;

use crate::account::AccountView;
use crate::action::{lemma_outflow_concat, lemma_outflow_single, outflow, Action};
use crate::address::{assert_keys_equal, Address};
use crate::error::AuctionHouseError;
use crate::token::{assert_is_ata, ata_error};

verus! {

/// A creator named by an asset's metadata, with its share of royalties in percent.
#[derive(Clone, Copy, Debug)]
pub struct Creator {
    pub address: Address,
    pub verified: bool,
    pub share: u8,
}

/// What an asset's metadata says of royalties: the basis points owed to its
/// creators on every sale, and the creators.
#[derive(Clone, Debug)]
pub struct RoyaltyTerms {
    pub seller_fee_basis_points: u16,
    pub creators: Option<Vec<Creator>>,
}

pub open spec fn creators_view(cs: Seq<Creator>) -> Seq<(Seq<u8>, bool, u8)> {
    cs.map_values(|c: Creator| (c.address@, c.verified, c.share))
}

pub open spec fn terms_view(t: Option<RoyaltyTerms>) -> Option<(u16, Option<Seq<(Seq<u8>, bool, u8)>>)> {
    match t {
        Some(m) => Some(
            (
                m.seller_fee_basis_points,
                match m.creators {
                    Some(cs) => Some(creators_view(cs@)),
                    None => None,
                },
            ),
        ),
        None => None,
    }
}

/// The royalty basis points and creators (identity, verified, share) that a
/// metadata record's bytes decode to; none where they do not decode.
pub uninterp spec fn metadata_royalties(data: Seq<u8>) -> Option<(u16, Option<Seq<(Seq<u8>, bool, u8)>>)>;

/// Relies on mpl-token-metadata's `Metadata::safe_deserialize`: the decoded
/// record is a function of the bytes alone, and empty data does not decode.
#[verifier::external_body]
pub(crate) fn decode_metadata(data: &Vec<u8>) -> (r: Option<RoyaltyTerms>)
    ensures
        terms_view(r) == metadata_royalties(data@),
        data@.len() == 0 ==> r is None,
{
    let m = Metadata::safe_deserialize(data.as_slice()).ok()?;
    let creators = m.creators.map(|cs| cs.into_iter().map(|c| Creator {
        address: Address { bytes: c.address.to_bytes() },
        verified: c.verified,
        share: c.share,
    }).collect());
    Some(RoyaltyTerms { seller_fee_basis_points: m.seller_fee_basis_points, creators })
}

/// `floor(bps * size / 10000)`.
pub open spec fn basis_points_of(bps: int, size: int) -> int {
    bps * size / 10000
}

/// `floor(share * total / 100)`.
pub open spec fn share_of(share: int, total: int) -> int {
    share * total / 100
}

/// The fixed inputs of a royalty payout: the escrow paying out, the authority
/// over escrowed tokens, who pays for new token accounts, the settlement mint,
/// the token program, whether settlement is in native value, and the royalty
/// total.
#[derive(Clone, Copy, Debug)]
pub struct PayoutContext {
    pub escrow: Address,
    pub payment_authority: Address,
    pub fee_payer: Address,
    pub treasury_mint: Address,
    pub token_program: Address,
    pub is_native: bool,
    pub total_fee: u64,
}

/// Progress through the creators: effects so far, the next account to read,
/// what is left of the royalty total, and what has been paid.
pub struct PayoutState {
    pub actions: Seq<Action>,
    pub next: int,
    pub remaining_fee: int,
    pub paid: int,
}

/// Paying one creator `c`, reading its account (and, in token settlement, its
/// token account) from `accounts` at `s.next`. In native settlement a payment
/// that would leave the creator's account below its rent-exempt minimum is
/// skipped, and its amount stays with the remainder.
pub open spec fn payout_step(
    ctx: PayoutContext,
    accounts: Seq<AccountView>,
    c: (Seq<u8>, bool, u8),
    s: PayoutState,
) -> Result<PayoutState, AuctionHouseError> {
    let fee = share_of(c.2 as int, ctx.total_fee as int);
    if fee > u64::MAX {
        Err(AuctionHouseError::NumericalOverflow)
    } else if s.next >= accounts.len() {
        Err(AuctionHouseError::NotEnoughAccountKeys)
    } else if ctx.is_native && fee + accounts[s.next].lamports < accounts[s.next].rent_minimum {
        Ok(PayoutState { next: s.next + 1, ..s })
    } else if fee > s.remaining_fee {
        Err(AuctionHouseError::NumericalOverflow)
    } else if c.0 != accounts[s.next].key@ {
        Err(AuctionHouseError::PublicKeyMismatch)
    } else if ctx.is_native {
        let pay = if fee > 0 {
            seq![Action::Transfer { from: ctx.escrow, to: accounts[s.next].key, amount: fee as u64 }]
        } else {
            Seq::empty()
        };
        Ok(
            PayoutState {
                actions: s.actions + pay,
                next: s.next + 1,
                remaining_fee: s.remaining_fee - fee,
                paid: s.paid + fee,
            },
        )
    } else if s.next + 1 >= accounts.len() {
        Err(AuctionHouseError::NotEnoughAccountKeys)
    } else {
        let ta = accounts[s.next + 1];
        let create = ta.data@.len() == 0;
        if !create && ata_error(ta, c.0, ctx.treasury_mint@, ctx.token_program@) is Some {
            Err(ata_error(ta, c.0, ctx.treasury_mint@, ctx.token_program@)->Some_0)
        } else {
            let made = if create {
                seq![
                    Action::CreateAssociatedTokenAccount {
                        account: ta.key,
                        wallet: accounts[s.next].key,
                        mint: ctx.treasury_mint,
                        payer: ctx.fee_payer,
                    },
                ]
            } else {
                Seq::empty()
            };
            let pay = if fee > 0 {
                seq![
                    Action::TokenTransfer {
                        from: ctx.escrow,
                        to: ta.key,
                        authority: ctx.payment_authority,
                        amount: fee as u64,
                    },
                ]
            } else {
                Seq::empty()
            };
            Ok(
                PayoutState {
                    actions: s.actions + made + pay,
                    next: s.next + 2,
                    remaining_fee: s.remaining_fee - fee,
                    paid: s.paid + fee,
                },
            )
        }
    }
}

/// The outcome of paying the first `n` creators, in order.
pub open spec fn payouts_upto(
    ctx: PayoutContext,
    accounts: Seq<AccountView>,
    creators: Seq<(Seq<u8>, bool, u8)>,
    n: int,
) -> Result<PayoutState, AuctionHouseError>
    decreases n,
{
    if n <= 0 {
        Ok(PayoutState { actions: Seq::empty(), next: 0, remaining_fee: ctx.total_fee as int, paid: 0 })
    } else {
        match payouts_upto(ctx, accounts, creators, n - 1) {
            Err(e) => Err(e),
            Ok(s) => payout_step(ctx, accounts, creators[n - 1], s),
        }
    }
}

/// What the first `n` creators are paid stays within the royalty total, and
/// is exactly what the payout effects move out of the escrow.
pub proof fn lemma_payouts_bounded(ctx: PayoutContext, accounts: Seq<AccountView>, creators: Seq<(Seq<u8>, bool, u8)>, n: int)
    requires
        0 <= n,
    ensures
        payouts_upto(ctx, accounts, creators, n) is Ok ==> {
            let s = payouts_upto(ctx, accounts, creators, n)->Ok_0;
            &&& 0 <= s.remaining_fee
            &&& 0 <= s.paid
            &&& s.remaining_fee + s.paid == ctx.total_fee
            &&& 0 <= s.next <= accounts.len()
            &&& outflow(s.actions, ctx.escrow@) == s.paid
        },
    decreases n,
{
    if n > 0 {
        lemma_payouts_bounded(ctx, accounts, creators, n - 1);
        if let Ok(s) = payouts_upto(ctx, accounts, creators, n - 1) {
            let c = creators[n - 1];
            let fee = share_of(c.2 as int, ctx.total_fee as int);
            if payout_step(ctx, accounts, c, s) is Ok && !(ctx.is_native && fee + accounts[s.next].lamports
                < accounts[s.next].rent_minimum) {
                if ctx.is_native {
                    let pay = if fee > 0 {
                        seq![Action::Transfer { from: ctx.escrow, to: accounts[s.next].key, amount: fee as u64 }]
                    } else {
                        Seq::empty()
                    };
                    lemma_outflow_concat(s.actions, pay, ctx.escrow@);
                    if fee > 0 {
                        lemma_outflow_single(pay[0], ctx.escrow@);
                    }
                } else {
                    let ta = accounts[s.next + 1];
                    let made = if ta.data@.len() == 0 {
                        seq![
                            Action::CreateAssociatedTokenAccount {
                                account: ta.key,
                                wallet: accounts[s.next].key,
                                mint: ctx.treasury_mint,
                                payer: ctx.fee_payer,
                            },
                        ]
                    } else {
                        Seq::empty()
                    };
                    let pay = if fee > 0 {
                        seq![
                            Action::TokenTransfer {
                                from: ctx.escrow,
                                to: ta.key,
                                authority: ctx.payment_authority,
                                amount: fee as u64,
                            },
                        ]
                    } else {
                        Seq::empty()
                    };
                    lemma_outflow_concat(s.actions, made, ctx.escrow@);
                    lemma_outflow_concat(s.actions + made, pay, ctx.escrow@);
                    if ta.data@.len() == 0 {
                        lemma_outflow_single(made[0], ctx.escrow@);
                    }
                    if fee > 0 {
                        lemma_outflow_single(pay[0], ctx.escrow@);
                    }
                }
            }
        }
    }
}

proof fn lemma_payouts_err_persists(
    ctx: PayoutContext,
    accounts: Seq<AccountView>,
    creators: Seq<(Seq<u8>, bool, u8)>,
    n: int,
    m: int,
)
    requires
        0 <= n <= m,
        payouts_upto(ctx, accounts, creators, n) is Err,
    ensures
        payouts_upto(ctx, accounts, creators, m) == payouts_upto(ctx, accounts, creators, n),
    decreases m - n,
{
    if m > n {
        lemma_payouts_err_persists(ctx, accounts, creators, n, m - 1);
    }
}

proof fn lemma_fails_at(
    ctx: PayoutContext,
    accounts: Seq<AccountView>,
    terms: RoyaltyTerms,
    creators: Seq<(Seq<u8>, bool, u8)>,
    size: u64,
    i: int,
    e: AuctionHouseError,
)
    requires
        0 <= i < creators.len(),
        basis_points_of(terms.seller_fee_basis_points as int, size as int) <= size,
        creators_seq(terms) == Some(creators),
        payouts_upto(
            PayoutContext { total_fee: basis_points_of(terms.seller_fee_basis_points as int, size as int) as u64, ..ctx },
            accounts,
            creators,
            i + 1,
        ) == Err::<PayoutState, AuctionHouseError>(e),
    ensures
        creator_fees(ctx, accounts, terms.seller_fee_basis_points, creators_seq(terms), size) == Err::<
            (Seq<Action>, int),
            AuctionHouseError,
        >(e),
{
    let c2 = PayoutContext { total_fee: basis_points_of(terms.seller_fee_basis_points as int, size as int) as u64, ..ctx };
    lemma_payouts_err_persists(c2, accounts, creators, i + 1, creators.len() as int);
}

/// What a creator is paid in native settlement: its share of the royalty
/// total, or nothing where that would leave its account below rent.
pub open spec fn native_share(total: int, account: AccountView, c: (Seq<u8>, bool, u8)) -> int {
    let fee = share_of(c.2 as int, total);
    if fee + account.lamports < account.rent_minimum {
        0
    } else {
        fee
    }
}

/// The total paid to the first `n` creators in native settlement, the
/// `i`-th creator being read from the `i`-th account.
pub open spec fn native_paid(total: int, accounts: Seq<AccountView>, creators: Seq<(Seq<u8>, bool, u8)>, n: int) -> int
    decreases n,
{
    if n <= 0 {
        0
    } else {
        native_paid(total, accounts, creators, n - 1) + native_share(total, accounts[n - 1], creators[n - 1])
    }
}

proof fn lemma_native_payouts(ctx: PayoutContext, accounts: Seq<AccountView>, creators: Seq<(Seq<u8>, bool, u8)>, n: int)
    requires
        0 <= n,
        ctx.is_native,
    ensures
        payouts_upto(ctx, accounts, creators, n) is Ok ==> {
            let s = payouts_upto(ctx, accounts, creators, n)->Ok_0;
            &&& s.next == n
            &&& s.paid == native_paid(ctx.total_fee as int, accounts, creators, n)
        },
    decreases n,
{
    if n > 0 {
        lemma_native_payouts(ctx, accounts, creators, n - 1);
    }
}

/// The total paid to the first `n` creators in token settlement, where no
/// creator is skipped.
pub open spec fn token_paid(total: int, creators: Seq<(Seq<u8>, bool, u8)>, n: int) -> int
    decreases n,
{
    if n <= 0 {
        0
    } else {
        token_paid(total, creators, n - 1) + share_of(creators[n - 1].2 as int, total)
    }
}

proof fn lemma_token_payouts(ctx: PayoutContext, accounts: Seq<AccountView>, creators: Seq<(Seq<u8>, bool, u8)>, n: int)
    requires
        0 <= n,
        !ctx.is_native,
    ensures
        payouts_upto(ctx, accounts, creators, n) is Ok ==> {
            let s = payouts_upto(ctx, accounts, creators, n)->Ok_0;
            &&& s.next == 2 * n
            &&& s.paid == token_paid(ctx.total_fee as int, creators, n)
        },
    decreases n,
{
    if n > 0 {
        lemma_token_payouts(ctx, accounts, creators, n - 1);
    }
}

/// The total paid to `creators` in a settlement that succeeds: in native
/// value each creator is paid `floor(share * total / 100)` unless that would
/// leave its account below rent; in tokens each one is paid that share.
pub open spec fn royalties_paid(
    is_native: bool,
    total: int,
    accounts: Seq<AccountView>,
    creators: Option<Seq<(Seq<u8>, bool, u8)>>,
) -> int {
    match creators {
        Some(cs) => if is_native {
            native_paid(total, accounts, cs, cs.len() as int)
        } else {
            token_paid(total, cs, cs.len() as int)
        },
        None => 0,
    }
}

/// Royalties have a closed form: where the payout succeeds, the royalty
/// total is `floor(size * bps / 10000)`, the creators are paid as
/// `royalties_paid` says, what is left of the sale is the size less those
/// payments, and exactly those payments leave the escrow.
pub proof fn lemma_royalties_closed_form(
    ctx: PayoutContext,
    accounts: Seq<AccountView>,
    royalty_bps: u16,
    creators: Option<Seq<(Seq<u8>, bool, u8)>>,
    size: u64,
)
    requires
        creator_fees(ctx, accounts, royalty_bps, creators, size) is Ok,
    ensures
        ({
            let r = creator_fees(ctx, accounts, royalty_bps, creators, size)->Ok_0;
            let total = basis_points_of(royalty_bps as int, size as int);
            let paid = royalties_paid(ctx.is_native, total, accounts, creators);
            &&& total <= size
            &&& 0 <= paid <= total
            &&& r.1 == size - paid
            &&& outflow(r.0, ctx.escrow@) == paid
        }),
{
    let total = basis_points_of(royalty_bps as int, size as int);
    match creators {
        None => {
            assert(outflow(Seq::<Action>::empty(), ctx.escrow@) == 0);
        },
        Some(cs) => {
            let c2 = PayoutContext { total_fee: total as u64, ..ctx };
            if ctx.is_native {
                lemma_native_payouts(c2, accounts, cs, cs.len() as int);
            } else {
                lemma_token_payouts(c2, accounts, cs, cs.len() as int);
            }
            lemma_payouts_bounded(c2, accounts, cs, cs.len() as int);
        },
    }
}

/// Royalties owed on a sale of `size` under `terms`, with the effects that pay
/// them and what is left of `size` afterwards.
pub open spec fn creator_fees(
    ctx: PayoutContext,
    accounts: Seq<AccountView>,
    royalty_bps: u16,
    creators: Option<Seq<(Seq<u8>, bool, u8)>>,
    size: u64,
) -> Result<(Seq<Action>, int), AuctionHouseError> {
    let total = basis_points_of(royalty_bps as int, size as int);
    if total > size {
        Err(AuctionHouseError::NumericalOverflow)
    } else {
        match creators {
            None => Ok((Seq::empty(), size as int)),
            Some(cs) => {
                let c2 = PayoutContext { total_fee: total as u64, ..ctx };
                match payouts_upto(c2, accounts, cs, cs.len() as int) {
                    Err(e) => Err(e),
                    Ok(s) => Ok((s.actions, size - s.paid)),
                }
            },
        }
    }
}

/// The payout inputs before the royalty total is known.
pub open spec fn payout_context(
    escrow: Address,
    payment_authority: Address,
    fee_payer: Address,
    treasury_mint: Address,
    token_program: Address,
    is_native: bool,
) -> PayoutContext {
    PayoutContext { escrow, payment_authority, fee_payer, treasury_mint, token_program, is_native, total_fee: 0 }
}

/// `r` is the outcome `expected`: the same effects and remainder, or the same error.
pub open spec fn payout_matches(
    r: Result<(Vec<Action>, u64), AuctionHouseError>,
    expected: Result<(Seq<Action>, int), AuctionHouseError>,
) -> bool {
    match expected {
        Ok(p) => r is Ok && r->Ok_0.0@ == p.0 && r->Ok_0.1 == p.1,
        Err(e) => r == Err::<(Vec<Action>, u64), AuctionHouseError>(e),
    }
}

pub open spec fn creators_seq(terms: RoyaltyTerms) -> Option<Seq<(Seq<u8>, bool, u8)>> {
    match terms.creators {
        Some(cs) => Some(creators_view(cs@)),
        None => None,
    }
}

/// Pays the creators of an asset their royalties on a sale of `size`: the
/// royalty total is `floor(size * bps / 10000)`, each creator's part
/// `floor(total * share / 100)`. Returns the effects and what is left of
/// `size` for the marketplace and the seller, skipped and rounded-off parts
/// included.
pub fn pay_creator_fees(
    accounts: &Vec<AccountView>,
    terms: &RoyaltyTerms,
    escrow: &Address,
    payment_authority: &Address,
    fee_payer: &Address,
    treasury_mint: &Address,
    token_program: &Address,
    size: u64,
    is_native: bool,
) -> (r: Result<(Vec<Action>, u64), AuctionHouseError>)
    ensures
        payout_matches(
            r,
            creator_fees(
                payout_context(*escrow, *payment_authority, *fee_payer, *treasury_mint, *token_program, is_native),
                accounts@,
                terms.seller_fee_basis_points,
                creators_seq(*terms),
                size,
            ),
        ),
{
    proof {
        assert((terms.seller_fee_basis_points as int) * (size as int) <= 65535 * 18446744073709551615)
            by (nonlinear_arith)
            requires terms.seller_fee_basis_points <= 65535, size <= 18446744073709551615u64;
    }
    let total: u128 = (terms.seller_fee_basis_points as u128) * (size as u128) / 10000;
    if total > size as u128 {
        return Err(AuctionHouseError::NumericalOverflow);
    }
    let total_fee = total as u64;
    let ghost ctx = payout_context(*escrow, *payment_authority, *fee_payer, *treasury_mint, *token_program, is_native);
    let ctx2 = PayoutContext {
        escrow: *escrow,
        payment_authority: *payment_authority,
        fee_payer: *fee_payer,
        treasury_mint: *treasury_mint,
        token_program: *token_program,
        is_native,
        total_fee,
    };
    assert(ctx2 == PayoutContext { total_fee: total as u64, ..ctx });
    let creators = match &terms.creators {
        None => {
            return Ok((Vec::new(), size));
        },
        Some(cs) => cs,
    };
    let mut actions: Vec<Action> = Vec::new();
    let mut next: usize = 0;
    let mut remaining_fee: u64 = total_fee;
    let mut paid: u64 = 0;
    let mut i: usize = 0;
    while i < creators.len()
        invariant
            ctx == payout_context(*escrow, *payment_authority, *fee_payer, *treasury_mint, *token_program, is_native),
            ctx2.total_fee == total_fee,
            ctx2 == (PayoutContext { total_fee: basis_points_of(terms.seller_fee_basis_points as int, size as int) as u64, ..ctx }),
            basis_points_of(terms.seller_fee_basis_points as int, size as int) <= size,
            creators_seq(*terms) == Some(creators_view(creators@)),
            total_fee <= size,
            i <= creators@.len(),
            creators_view(creators@).len() == creators@.len(),
            payouts_upto(ctx2, accounts@, creators_view(creators@), i as int) == Ok::<PayoutState, AuctionHouseError>(
                PayoutState { actions: actions@, next: next as int, remaining_fee: remaining_fee as int, paid: paid as int },
            ),
        decreases creators@.len() - i,
    {
        proof {
            lemma_payouts_bounded(ctx2, accounts@, creators_view(creators@), i as int);
        }
        let c = creators[i];
        assert(creators_view(creators@)[i as int] == (c.address@, c.verified, c.share));
        proof {
            assert((c.share as int) * (total_fee as int) <= 255 * 18446744073709551615) by (nonlinear_arith)
                requires c.share <= 255, total_fee <= 18446744073709551615u64;
        }
        let fee128: u128 = (c.share as u128) * (total_fee as u128) / 100;
        if fee128 > u64::MAX as u128 {
            proof {
                assert(payouts_upto(ctx2, accounts@, creators_view(creators@), i + 1) == Err::<PayoutState, AuctionHouseError>(AuctionHouseError::NumericalOverflow));
                lemma_fails_at(ctx, accounts@, *terms, creators_view(creators@), size, i as int, AuctionHouseError::NumericalOverflow);
            }
            return Err(AuctionHouseError::NumericalOverflow);
        }
        let fee = fee128 as u64;
        assert(fee as int == share_of(c.share as int, ctx2.total_fee as int));

        if next >= accounts.len() {
            proof {
                assert(payouts_upto(ctx2, accounts@, creators_view(creators@), i + 1) == Err::<PayoutState, AuctionHouseError>(AuctionHouseError::NotEnoughAccountKeys));
                lemma_fails_at(ctx, accounts@, *terms, creators_view(creators@), size, i as int, AuctionHouseError::NotEnoughAccountKeys);
            }
            return Err(AuctionHouseError::NotEnoughAccountKeys);
        }
        let acct = &accounts[next];
        if is_native && (fee as u128) + (acct.lamports as u128) < acct.rent_minimum as u128 {
            next = next + 1;
            i = i + 1;
            continue;
        }
        if fee > remaining_fee {
            proof {
                assert(payouts_upto(ctx2, accounts@, creators_view(creators@), i + 1) == Err::<PayoutState, AuctionHouseError>(AuctionHouseError::NumericalOverflow));
                lemma_fails_at(ctx, accounts@, *terms, creators_view(creators@), size, i as int, AuctionHouseError::NumericalOverflow);
            }
            return Err(AuctionHouseError::NumericalOverflow);
        }
        if let Err(e) = assert_keys_equal(&c.address, &acct.key) {
            proof {
                assert(payouts_upto(ctx2, accounts@, creators_view(creators@), i + 1) == Err::<PayoutState, AuctionHouseError>(e));
                lemma_fails_at(ctx, accounts@, *terms, creators_view(creators@), size, i as int, e);
            }
            return Err(e);
        }
        if is_native {
            let ghost before = actions@;
            if fee > 0 {
                actions.push(Action::Transfer { from: *escrow, to: acct.key, amount: fee });
            }
            proof {
                let pay = if fee > 0 {
                    seq![Action::Transfer { from: ctx2.escrow, to: accounts@[next as int].key, amount: fee }]
                } else {
                    Seq::<Action>::empty()
                };
                assert(actions@ =~= before + pay);
            }
            next = next + 1;
        } else {
            if next + 1 >= accounts.len() {
                proof {
                    assert(payouts_upto(ctx2, accounts@, creators_view(creators@), i + 1) == Err::<PayoutState, AuctionHouseError>(AuctionHouseError::NotEnoughAccountKeys));
                    lemma_fails_at(ctx, accounts@, *terms, creators_view(creators@), size, i as int, AuctionHouseError::NotEnoughAccountKeys);
                }
                return Err(AuctionHouseError::NotEnoughAccountKeys);
            }
            let ta = &accounts[next + 1];
            let create = ta.data_is_empty();
            if !create {
                if let Err(e) = assert_is_ata(ta, &c.address, treasury_mint, token_program) {
                    proof {
                        assert(payouts_upto(ctx2, accounts@, creators_view(creators@), i + 1) == Err::<PayoutState, AuctionHouseError>(e));
                        lemma_fails_at(ctx, accounts@, *terms, creators_view(creators@), size, i as int, e);
                    }
                    return Err(e);
                }
            }
            let ghost before = actions@;
            if create {
                actions.push(
                    Action::CreateAssociatedTokenAccount {
                        account: ta.key,
                        wallet: acct.key,
                        mint: *treasury_mint,
                        payer: *fee_payer,
                    },
                );
            }
            let ghost mid = actions@;
            if fee > 0 {
                actions.push(
                    Action::TokenTransfer {
                        from: *escrow,
                        to: ta.key,
                        authority: *payment_authority,
                        amount: fee,
                    },
                );
            }
            proof {
                let made = if create {
                    seq![
                        Action::CreateAssociatedTokenAccount {
                            account: ta.key,
                            wallet: accounts@[next as int].key,
                            mint: ctx2.treasury_mint,
                            payer: ctx2.fee_payer,
                        },
                    ]
                } else {
                    Seq::<Action>::empty()
                };
                let pay = if fee > 0 {
                    seq![
                        Action::TokenTransfer {
                            from: ctx2.escrow,
                            to: ta.key,
                            authority: ctx2.payment_authority,
                            amount: fee,
                        },
                    ]
                } else {
                    Seq::<Action>::empty()
                };
                assert(mid =~= before + made);
                assert(actions@ =~= before + made + pay);
            }
            next = next + 2;
        }
        remaining_fee = remaining_fee - fee;
        paid = paid + fee;
        i = i + 1;
    }
    proof {
        lemma_payouts_bounded(ctx2, accounts@, creators_view(creators@), i as int);
    }
    Ok((actions, size - paid))
}

/// `floor(size * bps / 10000)`, the marketplace's fee on a sale of `size`.
pub fn auction_house_fee(seller_fee_basis_points: u16, size: u64) -> (r: u64)
    requires
        seller_fee_basis_points <= 10000,
    ensures
        r == basis_points_of(seller_fee_basis_points as int, size as int),
        r <= size,
{
    proof {
        assert((seller_fee_basis_points as int) * (size as int) <= 65535 * 18446744073709551615)
            by (nonlinear_arith)
            requires seller_fee_basis_points <= 65535, size <= 18446744073709551615u64;
    }
    let fee: u128 = (seller_fee_basis_points as u128) * (size as u128) / 10000;
    proof {
        assert((seller_fee_basis_points as int) * (size as int) <= 10000 * (size as int)) by (nonlinear_arith)
            requires seller_fee_basis_points <= 10000;
        assert(basis_points_of(seller_fee_basis_points as int, size as int) <= size) by (nonlinear_arith)
            requires (seller_fee_basis_points as int) * (size as int) <= 10000 * (size as int), size >= 0;
    }
    fee as u64
}

/// Pays the marketplace its fee on a sale of `size` from the escrow to its
/// treasury: in native value, or in tokens under the marketplace's authority.
pub fn pay_auction_house_fees(
    seller_fee_basis_points: u16,
    auction_house: &Address,
    treasury: &Address,
    escrow: &Address,
    size: u64,
    is_native: bool,
) -> (r: (Action, u64))
    requires
        seller_fee_basis_points <= 10000,
    ensures
        r.1 == basis_points_of(seller_fee_basis_points as int, size as int),
        r.0 == (if is_native {
            Action::Transfer { from: *escrow, to: *treasury, amount: r.1 }
        } else {
            Action::TokenTransfer { from: *escrow, to: *treasury, authority: *auction_house, amount: r.1 }
        }),
{
    let total_fee = auction_house_fee(seller_fee_basis_points, size);
    if is_native {
        (Action::Transfer { from: *escrow, to: *treasury, amount: total_fee }, total_fee)
    } else {
        (Action::TokenTransfer { from: *escrow, to: *treasury, authority: *auction_house, amount: total_fee }, total_fee)
    }
}

} // verus!
