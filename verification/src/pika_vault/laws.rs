//! Properties that span several instructions of the Pika Vault program.
use vstd::prelude::*;

use crate::address::Address;
use crate::cpi::system_transfer_instruction;
use crate::pika_vault::error::{InstructionError, ListingError};
use crate::pika_vault::instructions::delist::{Delist, DelistEffects};
use crate::pika_vault::instructions::list::{List, ListBumps};
use crate::pika_vault::instructions::purchase::Purchase;
use crate::pika_vault::instructions::refund::Refund;
use crate::pika_vault::instructions::register_user::{RegisterUser, RegisterUserBumps};
use crate::pika_vault::state::{
    listing_strings_fit, Escrow, ListingAccount, ListingStatus, UserAccount,
};

verus! {

/// The refund that the buyer of a purchase asks for: the same buyer, user
/// accounts, listing and escrow.
pub open spec fn refund_of(p: Purchase) -> Refund {
    Refund {
        buyer: p.buyer,
        buyer_account: p.buyer_account,
        seller_account: p.seller_account,
        listing: p.listing,
        escrow_address: p.escrow_address,
        escrow: p.escrow,
    }
}

/// A refund undoes a purchase: right after a purchase, the buyer's refund
/// passes the refund's constraints; it asks for the transfer back from the
/// escrow to the buyer of exactly the price that the purchase paid into it,
/// empties the escrow, makes the listing active again and returns both user
/// accounts to what they were before the purchase. (A card listed at price
/// zero leaves nothing in the escrow, and its refund is refused.)
///
/// This holds of the program's decisions. On chain the refund goes no
/// further: a purchase leaves the escrow's recorded bump at zero, so the
/// refund's seed check of the escrow account fails unless zero is its bump,
/// and the System program does not let the refund's transfer debit the
/// program-owned escrow.
pub proof fn lemma_refund_undoes_purchase(p: Purchase, now: i64)
    requires
        p.constraints_hold(),
        p.counters_allow(),
        p.listing.listing_price > 0,
    ensures
        refund_of(p.purchased(now)).constraint_error() is None,
        refund_of(p.purchased(now)).counters_allow(),
        refund_of(p.purchased(now)).refunded().buyer_account == p.buyer_account,
        refund_of(p.purchased(now)).refunded().seller_account == p.seller_account,
        refund_of(p.purchased(now)).refunded().listing == p.listing,
        refund_of(p.purchased(now)).refunded().escrow.locked_amount == 0,
        system_transfer_instruction(
            refund_of(p.purchased(now)).escrow_address,
            refund_of(p.purchased(now)).escrow.buyer,
            refund_of(p.purchased(now)).escrow.locked_amount,
        ) == system_transfer_instruction(p.escrow_address, p.buyer, p.listing.listing_price),
{
    let q = p.purchased(now);
    let r = refund_of(q);
    assert(r.refunded().listing =~= p.listing);
}

/// A purchase at time `now` locks the listing's price in the escrow, for
/// every price: the escrow records the listing's owner as seller, the buyer,
/// the NFT, the price as both the sale amount and the locked amount, and the
/// time. The listing is sold and keeps everything else; the buyer has bought
/// exactly one card more and the seller sold exactly one more and lists
/// exactly one less, each keeping everything else.
pub proof fn lemma_purchase_records_sale(p: Purchase, now: i64)
    requires
        p.counters_allow(),
    ensures
        ({
            let q = p.purchased(now);
            &&& q.escrow.seller == p.listing.owner
            &&& q.escrow.buyer == p.buyer
            &&& q.escrow.nft_mint == p.nft_mint
            &&& q.escrow.sale_amount == p.listing.listing_price
            &&& q.escrow.locked_amount == p.listing.listing_price
            &&& q.escrow.timestamp == now
            &&& q.escrow.bump == p.escrow.bump
            &&& q.listing.status == ListingStatus::Sold
            &&& q.listing.owner == p.listing.owner
            &&& q.listing.nft_address == p.listing.nft_address
            &&& q.listing.listing_price == p.listing.listing_price
            &&& q.listing.card_metadata == p.listing.card_metadata
            &&& q.listing.image_url == p.listing.image_url
            &&& q.listing.created_at == p.listing.created_at
            &&& q.listing.bump == p.listing.bump
            &&& q.buyer_account.nft_bought == p.buyer_account.nft_bought + 1
            &&& q.buyer_account.nft_sold == p.buyer_account.nft_sold
            &&& q.buyer_account.nft_listed == p.buyer_account.nft_listed
            &&& q.buyer_account.authority == p.buyer_account.authority
            &&& q.seller_account.nft_sold == p.seller_account.nft_sold + 1
            &&& q.seller_account.nft_listed == p.seller_account.nft_listed - 1
            &&& q.seller_account.nft_bought == p.seller_account.nft_bought
            &&& q.seller_account.authority == p.seller_account.authority
            &&& q.buyer == p.buyer
            &&& q.escrow_address == p.escrow_address
        }),
{
}

/// A refund empties the escrow and keeps the rest of it; the listing is
/// active again and keeps everything else; the buyer has bought exactly one
/// card less and the seller sold exactly one less and lists exactly one more.
pub proof fn lemma_refund_records_return(r: Refund)
    requires
        r.counters_allow(),
    ensures
        ({
            let q = r.refunded();
            &&& q.escrow.locked_amount == 0
            &&& q.escrow.sale_amount == r.escrow.sale_amount
            &&& q.escrow.buyer == r.escrow.buyer
            &&& q.escrow.seller == r.escrow.seller
            &&& q.escrow.nft_mint == r.escrow.nft_mint
            &&& q.escrow.timestamp == r.escrow.timestamp
            &&& q.listing.status == ListingStatus::Active
            &&& q.listing.owner == r.listing.owner
            &&& q.listing.listing_price == r.listing.listing_price
            &&& q.listing.nft_address == r.listing.nft_address
            &&& q.buyer_account.nft_bought == r.buyer_account.nft_bought - 1
            &&& q.buyer_account.nft_listed == r.buyer_account.nft_listed
            &&& q.buyer_account.nft_sold == r.buyer_account.nft_sold
            &&& q.seller_account.nft_sold == r.seller_account.nft_sold - 1
            &&& q.seller_account.nft_listed == r.seller_account.nft_listed + 1
            &&& q.seller_account.nft_bought == r.seller_account.nft_bought
        }),
{
}

/// Delisting takes exactly one card off the owner's listed count and
/// changes nothing else of the owner's account.
pub proof fn lemma_delist_records(d: Delist)
    requires
        d.user_account.nft_listed > 0,
    ensures
        d.delisted().user_account.nft_listed == d.user_account.nft_listed - 1,
        d.delisted().user_account.nft_sold == d.user_account.nft_sold,
        d.delisted().user_account.nft_bought == d.user_account.nft_bought,
        d.delisted().user_account.authority == d.user_account.authority,
        d.delisted().listing == d.listing,
{
}

/// A new user account belongs to the user who registers, starts with
/// nothing listed, sold or bought, and records the time of registration.
pub proof fn lemma_register_records(r: RegisterUser, bumps: RegisterUserBumps, now: i64)
    ensures
        r.registered(bumps, now).authority == r.user,
        r.registered(bumps, now).nft_listed == 0,
        r.registered(bumps, now).nft_sold == 0,
        r.registered(bumps, now).nft_bought == 0,
        r.registered(bumps, now).created_at == now,
        r.registered(bumps, now).bump == bumps.user_account,
{
}

/// A sold listing cannot be bought again: after a purchase, every purchase
/// of the same listing is refused.
pub proof fn lemma_sold_listing_not_purchasable(p: Purchase, now: i64, again: Purchase)
    requires
        p.constraints_hold(),
        again.listing == p.purchased(now).listing,
    ensures
        !again.constraints_hold(),
{
}

/// A purchase cannot be refunded twice: after a refund, a second refund of
/// the same listing and escrow is refused because the listing is no longer
/// sold.
pub proof fn lemma_no_double_refund(r: Refund, again: Refund)
    requires
        r.constraint_error() is None,
        again.listing == r.refunded().listing,
        again.escrow == r.refunded().escrow,
    ensures
        again.constraint_error() == Some(InstructionError::Listing(ListingError::ListingNotSold)),
{
}

/// Only the buyer recorded in the escrow can have a purchase refunded.
pub proof fn lemma_only_buyer_refunds(r: Refund)
    requires
        r.constraint_error() is None,
    ensures
        r.buyer@ == r.escrow.buyer@,
        r.escrow.locked_amount > 0,
        r.listing.status == ListingStatus::Sold,
{
}

/// A purchase moves a listed card of the seller to the sold ones, and a
/// refund moves it back: the seller's listed and sold cards together stay the
/// same.
pub proof fn lemma_seller_cards_conserved(p: Purchase, now: i64, r: Refund)
    requires
        p.constraints_hold(),
        p.counters_allow(),
        r.constraint_error() is None,
        r.counters_allow(),
    ensures
        p.purchased(now).seller_account.nft_listed + p.purchased(now).seller_account.nft_sold
            == p.seller_account.nft_listed + p.seller_account.nft_sold,
        r.refunded().seller_account.nft_listed + r.refunded().seller_account.nft_sold
            == r.seller_account.nft_listed + r.seller_account.nft_sold,
{
}

/// The delisting of a card that its maker just listed.
pub open spec fn delist_of(
    l: List,
    marketplace_address: Address,
    owner_ata: Address,
    listing_address: Address,
    listing: ListingAccount,
) -> Delist {
    Delist {
        owner: l.maker,
        user_account: l.user_account,
        marketplace_address,
        nft_mint: l.nft_mint,
        nft_decimals: l.nft_decimals,
        owner_ata,
        vault: l.vault,
        listing_address,
        listing,
    }
}

/// Delisting undoes listing: right after a card is listed, its maker may
/// delist it, and that returns the maker's count of listed cards to what it
/// was before; the NFT goes back from the vault that the listing deposited
/// it in to the maker's account that it came from.
pub proof fn lemma_delist_undoes_list(
    l: List,
    listing_price: u64,
    card_metadata: String,
    image_url: String,
    bumps: ListBumps,
    now: i64,
    marketplace_address: Address,
    listing_address: Address,
)
    requires
        listing_strings_fit(card_metadata, image_url),
        l.user_account.nft_listed < u64::MAX,
    ensures
        ({
            let after = l.listed(listing_price, card_metadata, image_url, bumps, now);
            let d = delist_of(after, marketplace_address, l.maker_ata, listing_address, after.listing);
            &&& d.constraints_hold()
            &&& d.user_account.nft_listed > 0
            &&& (d.user_account.nft_listed - 1) as u64 == l.user_account.nft_listed
            &&& d.vault == l.vault
            &&& d.owner_ata == l.maker_ata
        }),
{
}

/// The addresses of the listings in `listings` that `owner` owns and that
/// have the given status.
pub open spec fn owned_with(
    listings: Map<Seq<u8>, ListingAccount>,
    owner: Seq<u8>,
    status: ListingStatus,
) -> Set<Seq<u8>> {
    listings.dom().filter(|k: Seq<u8>| listings[k].owner@ == owner && listings[k].status == status)
}

/// The addresses of the sold listings in `listings` whose escrow, in
/// `escrows` (keyed by the listing's address, from which the escrow's
/// address derives), records `buyer` as the buyer.
pub open spec fn bought_by(
    listings: Map<Seq<u8>, ListingAccount>,
    escrows: Map<Seq<u8>, Escrow>,
    buyer: Seq<u8>,
) -> Set<Seq<u8>> {
    listings.dom().filter(
        |k: Seq<u8>|
            listings[k].status == ListingStatus::Sold && escrows.dom().contains(k)
                && escrows[k].buyer@ == buyer,
    )
}

/// Each user's counts of listed, sold and bought cards are the numbers of
/// that user's active listings, of that user's sold listings, and of the
/// sold listings whose escrow names that user as buyer. `listings` maps
/// listing account addresses to listings (finitely many), `escrows` maps a
/// listing's address to its escrow, and `users` maps users to their user
/// accounts.
pub open spec fn counters_match(
    listings: Map<Seq<u8>, ListingAccount>,
    escrows: Map<Seq<u8>, Escrow>,
    users: Map<Seq<u8>, UserAccount>,
) -> bool {
    forall|u: Seq<u8>| #[trigger]
        users.dom().contains(u) ==> {
            &&& users[u].nft_listed == owned_with(listings, u, ListingStatus::Active).len()
            &&& users[u].nft_sold == owned_with(listings, u, ListingStatus::Sold).len()
            &&& users[u].nft_bought == bought_by(listings, escrows, u).len()
        }
}

/// Every listing belongs to a registered user, and every sold listing's
/// escrow names a registered buyer.
pub open spec fn participants_registered(
    listings: Map<Seq<u8>, ListingAccount>,
    escrows: Map<Seq<u8>, Escrow>,
    users: Map<Seq<u8>, UserAccount>,
) -> bool {
    &&& forall|k: Seq<u8>| #[trigger]
        listings.dom().contains(k) ==> users.dom().contains(listings[k].owner@)
    &&& forall|k: Seq<u8>| #[trigger]
        listings.dom().contains(k) && listings[k].status == ListingStatus::Sold
            && escrows.dom().contains(k) ==> users.dom().contains(escrows[k].buyer@)
}

/// A new marketplace, with no user, no listing and no escrow, has its
/// counters right and everyone in it registered.
pub proof fn lemma_empty_counters_match()
    ensures
        counters_match(Map::empty(), Map::empty(), Map::empty()),
        participants_registered(Map::empty(), Map::empty(), Map::empty()),
{
}

proof fn lemma_counted_finite(listings: Map<Seq<u8>, ListingAccount>, escrows: Map<Seq<u8>, Escrow>, u: Seq<u8>)
    requires
        listings.dom().finite(),
    ensures
        owned_with(listings, u, ListingStatus::Active).finite(),
        owned_with(listings, u, ListingStatus::Sold).finite(),
        bought_by(listings, escrows, u).finite(),
{
    listings.dom().lemma_len_filter(
        |k: Seq<u8>| listings[k].owner@ == u && listings[k].status == ListingStatus::Active,
    );
    listings.dom().lemma_len_filter(
        |k: Seq<u8>| listings[k].owner@ == u && listings[k].status == ListingStatus::Sold,
    );
    listings.dom().lemma_len_filter(
        |k: Seq<u8>|
            listings[k].status == ListingStatus::Sold && escrows.dom().contains(k)
                && escrows[k].buyer@ == u,
    );
}

/// The length of `s` after adding or taking out `k`.
proof fn lemma_len_after(s: Set<Seq<u8>>, k: Seq<u8>, add: bool)
    requires
        s.finite(),
    ensures
        add ==> s.insert(k).len() == s.len() + (if s.contains(k) { 0int } else { 1 }),
        !add ==> s.remove(k).len() == s.len() - (if s.contains(k) { 1int } else { 0 }),
{
    vstd::set::axiom_set_insert_len(s, k);
    vstd::set::axiom_set_remove_len(s, k);
}

/// How the counted sets change when the listing at `k` is written as `v`
/// and the escrows change at most at `k`.
proof fn lemma_counted_after_insert(
    listings: Map<Seq<u8>, ListingAccount>,
    escrows: Map<Seq<u8>, Escrow>,
    escrows2: Map<Seq<u8>, Escrow>,
    k: Seq<u8>,
    v: ListingAccount,
    u: Seq<u8>,
)
    requires
        listings.dom().finite(),
        forall|j: Seq<u8>|
            j != k ==> (#[trigger] escrows2.dom().contains(j) == escrows.dom().contains(j)),
        forall|j: Seq<u8>| j != k && escrows.dom().contains(j) ==> #[trigger] escrows2[j] == escrows[j],
    ensures
        owned_with(listings.insert(k, v), u, ListingStatus::Active).len() == owned_with(
            listings,
            u,
            ListingStatus::Active,
        ).len() + (if v.owner@ == u && v.status == ListingStatus::Active {
            1int
        } else {
            0
        }) - (if listings.dom().contains(k) && listings[k].owner@ == u && listings[k].status
            == ListingStatus::Active {
            1int
        } else {
            0
        }),
        owned_with(listings.insert(k, v), u, ListingStatus::Sold).len() == owned_with(
            listings,
            u,
            ListingStatus::Sold,
        ).len() + (if v.owner@ == u && v.status == ListingStatus::Sold {
            1int
        } else {
            0
        }) - (if listings.dom().contains(k) && listings[k].owner@ == u && listings[k].status
            == ListingStatus::Sold {
            1int
        } else {
            0
        }),
        bought_by(listings.insert(k, v), escrows2, u).len() == bought_by(listings, escrows, u).len()
            + (if v.status == ListingStatus::Sold && escrows2.dom().contains(k) && escrows2[k].buyer@
            == u {
            1int
        } else {
            0
        }) - (if listings.dom().contains(k) && listings[k].status == ListingStatus::Sold
            && escrows.dom().contains(k) && escrows[k].buyer@ == u {
            1int
        } else {
            0
        }),
{
    lemma_counted_finite(listings, escrows, u);
    let l2 = listings.insert(k, v);
    let active = owned_with(listings, u, ListingStatus::Active);
    let sold = owned_with(listings, u, ListingStatus::Sold);
    let bought = bought_by(listings, escrows, u);
    let add_active = v.owner@ == u && v.status == ListingStatus::Active;
    let add_sold = v.owner@ == u && v.status == ListingStatus::Sold;
    let add_bought = v.status == ListingStatus::Sold && escrows2.dom().contains(k)
        && escrows2[k].buyer@ == u;
    if add_active {
        assert(owned_with(l2, u, ListingStatus::Active) =~= active.insert(k));
    } else {
        assert(owned_with(l2, u, ListingStatus::Active) =~= active.remove(k));
    }
    if add_sold {
        assert(owned_with(l2, u, ListingStatus::Sold) =~= sold.insert(k));
    } else {
        assert(owned_with(l2, u, ListingStatus::Sold) =~= sold.remove(k));
    }
    if add_bought {
        assert(bought_by(l2, escrows2, u) =~= bought.insert(k));
    } else {
        assert(bought_by(l2, escrows2, u) =~= bought.remove(k));
    }
    lemma_len_after(active, k, add_active);
    lemma_len_after(sold, k, add_sold);
    lemma_len_after(bought, k, add_bought);
}

/// How the counted sets change when the listing at `k` is removed.
proof fn lemma_counted_after_remove(
    listings: Map<Seq<u8>, ListingAccount>,
    escrows: Map<Seq<u8>, Escrow>,
    k: Seq<u8>,
    u: Seq<u8>,
)
    requires
        listings.dom().finite(),
    ensures
        owned_with(listings.remove(k), u, ListingStatus::Active).len() == owned_with(
            listings,
            u,
            ListingStatus::Active,
        ).len() - (if listings.dom().contains(k) && listings[k].owner@ == u && listings[k].status
            == ListingStatus::Active {
            1int
        } else {
            0
        }),
        owned_with(listings.remove(k), u, ListingStatus::Sold).len() == owned_with(
            listings,
            u,
            ListingStatus::Sold,
        ).len() - (if listings.dom().contains(k) && listings[k].owner@ == u && listings[k].status
            == ListingStatus::Sold {
            1int
        } else {
            0
        }),
        bought_by(listings.remove(k), escrows, u).len() == bought_by(listings, escrows, u).len() - (
        if listings.dom().contains(k) && listings[k].status == ListingStatus::Sold
            && escrows.dom().contains(k) && escrows[k].buyer@ == u {
            1int
        } else {
            0
        }),
{
    lemma_counted_finite(listings, escrows, u);
    let l2 = listings.remove(k);
    let active = owned_with(listings, u, ListingStatus::Active);
    let sold = owned_with(listings, u, ListingStatus::Sold);
    let bought = bought_by(listings, escrows, u);
    assert(owned_with(l2, u, ListingStatus::Active) =~= active.remove(k));
    assert(owned_with(l2, u, ListingStatus::Sold) =~= sold.remove(k));
    assert(bought_by(l2, escrows, u) =~= bought.remove(k));
    lemma_len_after(active, k, false);
    lemma_len_after(sold, k, false);
    lemma_len_after(bought, k, false);
}

/// Registering keeps the counters right: a user who was not registered owns
/// no listing and is named by no sold listing's escrow (everyone in the
/// marketplace is registered), and starts with nothing listed, sold or
/// bought.
pub proof fn lemma_register_keeps_counters(
    listings: Map<Seq<u8>, ListingAccount>,
    escrows: Map<Seq<u8>, Escrow>,
    users: Map<Seq<u8>, UserAccount>,
    r: RegisterUser,
    bumps: RegisterUserBumps,
    now: i64,
)
    requires
        counters_match(listings, escrows, users),
        participants_registered(listings, escrows, users),
        !users.dom().contains(r.user@),
    ensures
        counters_match(listings, escrows, users.insert(r.user@, r.registered(bumps, now))),
        participants_registered(listings, escrows, users.insert(r.user@, r.registered(bumps, now))),
{
    let users2 = users.insert(r.user@, r.registered(bumps, now));
    assert forall|u: Seq<u8>| #[trigger] users2.dom().contains(u) implies {
        &&& users2[u].nft_listed == owned_with(listings, u, ListingStatus::Active).len()
        &&& users2[u].nft_sold == owned_with(listings, u, ListingStatus::Sold).len()
        &&& users2[u].nft_bought == bought_by(listings, escrows, u).len()
    } by {
        if u == r.user@ {
            assert(owned_with(listings, u, ListingStatus::Active) =~= Set::empty());
            assert(owned_with(listings, u, ListingStatus::Sold) =~= Set::empty());
            assert(bought_by(listings, escrows, u) =~= Set::empty());
        }
    }
}

/// Listing a card keeps the counters right: the new active listing is the
/// maker's, and the maker's count of listed cards grows by one.
pub proof fn lemma_list_keeps_counters(
    listings: Map<Seq<u8>, ListingAccount>,
    escrows: Map<Seq<u8>, Escrow>,
    users: Map<Seq<u8>, UserAccount>,
    l: List,
    listing_address: Seq<u8>,
    listing_price: u64,
    card_metadata: String,
    image_url: String,
    bumps: ListBumps,
    now: i64,
)
    requires
        listings.dom().finite(),
        counters_match(listings, escrows, users),
        users.dom().contains(l.maker@),
        users[l.maker@] == l.user_account,
        !listings.dom().contains(listing_address),
        l.user_account.nft_listed < u64::MAX,
    ensures
        ({
            let after = l.listed(listing_price, card_metadata, image_url, bumps, now);
            let listings2 = listings.insert(listing_address, after.listing);
            let users2 = users.insert(l.maker@, after.user_account);
            &&& counters_match(listings2, escrows, users2)
            &&& participants_registered(listings, escrows, users) ==> participants_registered(
                listings2,
                escrows,
                users2,
            )
        }),
{
    let after = l.listed(listing_price, card_metadata, image_url, bumps, now);
    let listings2 = listings.insert(listing_address, after.listing);
    let users2 = users.insert(l.maker@, after.user_account);
    assert forall|u: Seq<u8>| #[trigger] users2.dom().contains(u) implies {
        &&& users2[u].nft_listed == owned_with(listings2, u, ListingStatus::Active).len()
        &&& users2[u].nft_sold == owned_with(listings2, u, ListingStatus::Sold).len()
        &&& users2[u].nft_bought == bought_by(listings2, escrows, u).len()
    } by {
        lemma_counted_after_insert(listings, escrows, escrows, listing_address, after.listing, u);
    }
    if participants_registered(listings, escrows, users) {
        assert forall|k: Seq<u8>| #[trigger]
            listings2.dom().contains(k) implies users2.dom().contains(listings2[k].owner@) by {
            if k != listing_address {
                assert(listings.dom().contains(k));
            }
        }
        assert forall|k: Seq<u8>| #[trigger]
            listings2.dom().contains(k) && listings2[k].status == ListingStatus::Sold
                && escrows.dom().contains(k) implies users2.dom().contains(escrows[k].buyer@) by {
            assert(listings.dom().contains(k));
        }
    }
}

/// Delisting keeps the counters right: the owner's active listing goes
/// away, and so does one of the owner's listed cards. The counters also
/// show that the owner has a listed card to take away.
pub proof fn lemma_delist_keeps_counters(
    listings: Map<Seq<u8>, ListingAccount>,
    escrows: Map<Seq<u8>, Escrow>,
    users: Map<Seq<u8>, UserAccount>,
    d: Delist,
)
    requires
        listings.dom().finite(),
        counters_match(listings, escrows, users),
        listings.dom().contains(d.listing_address@),
        listings[d.listing_address@] == d.listing,
        users.dom().contains(d.owner@),
        users[d.owner@] == d.user_account,
        d.constraints_hold(),
    ensures
        d.user_account.nft_listed > 0,
        ({
            let listings2 = listings.remove(d.listing_address@);
            let users2 = users.insert(d.owner@, d.delisted().user_account);
            &&& counters_match(listings2, escrows, users2)
            &&& participants_registered(listings, escrows, users) ==> participants_registered(
                listings2,
                escrows,
                users2,
            )
        }),
{
    let k = d.listing_address@;
    let listings2 = listings.remove(k);
    let users2 = users.insert(d.owner@, d.delisted().user_account);
    lemma_counted_after_remove(listings, escrows, k, d.owner@);
    assert forall|u: Seq<u8>| #[trigger] users2.dom().contains(u) implies {
        &&& users2[u].nft_listed == owned_with(listings2, u, ListingStatus::Active).len()
        &&& users2[u].nft_sold == owned_with(listings2, u, ListingStatus::Sold).len()
        &&& users2[u].nft_bought == bought_by(listings2, escrows, u).len()
    } by {
        lemma_counted_after_remove(listings, escrows, k, u);
    }
    if participants_registered(listings, escrows, users) {
        assert forall|j: Seq<u8>| #[trigger]
            listings2.dom().contains(j) implies users2.dom().contains(listings2[j].owner@) by {
            assert(listings.dom().contains(j));
        }
        assert forall|j: Seq<u8>| #[trigger]
            listings2.dom().contains(j) && listings2[j].status == ListingStatus::Sold
                && escrows.dom().contains(j) implies users2.dom().contains(escrows[j].buyer@) by {
            assert(listings.dom().contains(j));
        }
    }
}

/// A delisted card cannot be bought: delisting asks for its listing account
/// to be closed, which leaves no listing at the delisted address, while a
/// purchase needs the listing at its address (see
/// `lemma_purchase_keeps_counters`).
pub proof fn lemma_delisted_listing_gone(
    listings: Map<Seq<u8>, ListingAccount>,
    d: Delist,
    eff: DelistEffects,
)
    requires
        eff.close_listing == (crate::cpi::AccountClose {
            account: d.listing_address,
            destination: d.owner,
        }),
    ensures
        !listings.remove(eff.close_listing.account@).dom().contains(d.listing_address@),
{
}

/// A purchase keeps the counters right: if they were right before, then
/// after a successful purchase the seller's listing has turned from active
/// to sold and the seller's counts have followed, the listing's escrow names
/// the buyer and the buyer's count of bought cards has followed, while the
/// buyer's counts of listed and sold cards and the seller's count of bought
/// cards have not changed. (A refused purchase changes no account, by
/// `purchase`'s contract.) The counters also show that the seller has a
/// listed card to take away.
pub proof fn lemma_purchase_keeps_counters(
    listings: Map<Seq<u8>, ListingAccount>,
    escrows: Map<Seq<u8>, Escrow>,
    users: Map<Seq<u8>, UserAccount>,
    p: Purchase,
    listing_address: Seq<u8>,
    now: i64,
)
    requires
        listings.dom().finite(),
        counters_match(listings, escrows, users),
        listings.dom().contains(listing_address),
        listings[listing_address] == p.listing,
        users.dom().contains(p.buyer@),
        users[p.buyer@] == p.buyer_account,
        users.dom().contains(p.listing.owner@),
        users[p.listing.owner@] == p.seller_account,
        p.constraints_hold(),
        p.buyer_account.nft_bought < u64::MAX,
        p.seller_account.nft_sold < u64::MAX,
    ensures
        p.seller_account.nft_listed > 0,
        ({
            let q = p.purchased(now);
            let listings2 = listings.insert(listing_address, q.listing);
            let escrows2 = escrows.insert(listing_address, q.escrow);
            let users2 = users.insert(p.buyer@, q.buyer_account).insert(
                p.listing.owner@,
                q.seller_account,
            );
            &&& counters_match(listings2, escrows2, users2)
            &&& participants_registered(listings, escrows, users) ==> participants_registered(
                listings2,
                escrows2,
                users2,
            )
        }),
{
    let q = p.purchased(now);
    let owner = p.listing.owner@;
    let listings2 = listings.insert(listing_address, q.listing);
    let escrows2 = escrows.insert(listing_address, q.escrow);
    let users2 = users.insert(p.buyer@, q.buyer_account).insert(owner, q.seller_account);
    lemma_counted_after_insert(listings, escrows, escrows2, listing_address, q.listing, owner);
    assert forall|u: Seq<u8>| #[trigger] users2.dom().contains(u) implies {
        &&& users2[u].nft_listed == owned_with(listings2, u, ListingStatus::Active).len()
        &&& users2[u].nft_sold == owned_with(listings2, u, ListingStatus::Sold).len()
        &&& users2[u].nft_bought == bought_by(listings2, escrows2, u).len()
    } by {
        lemma_counted_after_insert(listings, escrows, escrows2, listing_address, q.listing, u);
    }
    if participants_registered(listings, escrows, users) {
        assert forall|k: Seq<u8>| #[trigger]
            listings2.dom().contains(k) implies users2.dom().contains(listings2[k].owner@) by {
            if k != listing_address {
                assert(listings.dom().contains(k));
            }
        }
        assert forall|k: Seq<u8>| #[trigger]
            listings2.dom().contains(k) && listings2[k].status == ListingStatus::Sold
                && escrows2.dom().contains(k) implies users2.dom().contains(escrows2[k].buyer@) by {
            if k != listing_address {
                assert(listings.dom().contains(k));
                assert(escrows.dom().contains(k));
            }
        }
    }
}

/// A refund keeps the counters right: the seller's listing turns from sold
/// back to active, and the seller's counts follow; the buyer's count of
/// bought cards follows, and the buyer's counts of listed and sold cards do
/// not change. The counters also show that the seller has a sold card and
/// the buyer a bought card to take away. (The buyer must not be the seller:
/// a purchase rules that out.)
pub proof fn lemma_refund_keeps_counters(
    listings: Map<Seq<u8>, ListingAccount>,
    escrows: Map<Seq<u8>, Escrow>,
    users: Map<Seq<u8>, UserAccount>,
    r: Refund,
    listing_address: Seq<u8>,
)
    requires
        listings.dom().finite(),
        counters_match(listings, escrows, users),
        listings.dom().contains(listing_address),
        listings[listing_address] == r.listing,
        escrows.dom().contains(listing_address),
        escrows[listing_address] == r.escrow,
        users.dom().contains(r.buyer@),
        users[r.buyer@] == r.buyer_account,
        users.dom().contains(r.listing.owner@),
        users[r.listing.owner@] == r.seller_account,
        r.buyer@ != r.listing.owner@,
        r.constraint_error() is None,
        r.seller_account.nft_listed < u64::MAX,
    ensures
        r.seller_account.nft_sold > 0,
        r.buyer_account.nft_bought > 0,
        ({
            let q = r.refunded();
            let listings2 = listings.insert(listing_address, q.listing);
            let escrows2 = escrows.insert(listing_address, q.escrow);
            let users2 = users.insert(r.buyer@, q.buyer_account).insert(
                r.listing.owner@,
                q.seller_account,
            );
            &&& counters_match(listings2, escrows2, users2)
            &&& participants_registered(listings, escrows, users) ==> participants_registered(
                listings2,
                escrows2,
                users2,
            )
        }),
{
    let q = r.refunded();
    let owner = r.listing.owner@;
    let listings2 = listings.insert(listing_address, q.listing);
    let escrows2 = escrows.insert(listing_address, q.escrow);
    let users2 = users.insert(r.buyer@, q.buyer_account).insert(owner, q.seller_account);
    lemma_counted_after_insert(listings, escrows, escrows2, listing_address, q.listing, owner);
    lemma_counted_after_insert(listings, escrows, escrows2, listing_address, q.listing, r.buyer@);
    assert forall|u: Seq<u8>| #[trigger] users2.dom().contains(u) implies {
        &&& users2[u].nft_listed == owned_with(listings2, u, ListingStatus::Active).len()
        &&& users2[u].nft_sold == owned_with(listings2, u, ListingStatus::Sold).len()
        &&& users2[u].nft_bought == bought_by(listings2, escrows2, u).len()
    } by {
        lemma_counted_after_insert(listings, escrows, escrows2, listing_address, q.listing, u);
    }
    if participants_registered(listings, escrows, users) {
        assert forall|k: Seq<u8>| #[trigger]
            listings2.dom().contains(k) implies users2.dom().contains(listings2[k].owner@) by {
            if k != listing_address {
                assert(listings.dom().contains(k));
            }
        }
        assert forall|k: Seq<u8>| #[trigger]
            listings2.dom().contains(k) && listings2[k].status == ListingStatus::Sold
                && escrows2.dom().contains(k) implies users2.dom().contains(escrows2[k].buyer@) by {
            assert(k != listing_address);
            assert(listings.dom().contains(k));
            assert(escrows.dom().contains(k));
        }
    }
}

} // verus!
