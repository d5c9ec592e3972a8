use vstd::prelude::*;

use crate::auth::may_manage;
use crate::error::{ErrorCode, MintError};
use crate::instructions::{issued, redeemed, registered, ticket_request, updated};
use crate::state::{
    concert_text_fits, ticket_text_fits, ConcertView, TicketView, MAX_DATE_LEN, MAX_NAME_LEN,
    MAX_VENUE_LEN,
};

verus! {

/// Every successful operation leaves a concert with no more tickets sold
/// than it has: registration starts at zero, issuing stops at capacity, and
/// an update never lowers the capacity below the sold count. Redemption and
/// deletion write no concert.
pub proof fn lemma_success_keeps_capacity()
    ensures
        forall|a: Seq<u8>, n: Seq<char>, v: Seq<char>, d: Seq<char>, t: u16|
            #[trigger] registered(a, n, v, d, t) is Ok ==> registered(a, n, v, d, t)->Ok_0.within_capacity(),
        forall|
            c: ConcertView,
            k: Seq<u8>,
            b: Seq<u8>,
            m: Seq<u8>,
            ty: Seq<char>,
            s: Option<Seq<char>>,
            minted: Result<(), MintError>,
        |
            #[trigger] issued(c, k, b, m, ty, s, minted) is Ok ==> issued(c, k, b, m, ty, s, minted)->Ok_0.0.within_capacity(),
        forall|c: ConcertView, q: Seq<u8>, a: Seq<u8>, n: Seq<char>, v: Seq<char>, d: Seq<char>, t: u16|
            #[trigger] updated(c, q, a, n, v, d, t) is Ok ==> updated(c, q, a, n, v, d, t)->Ok_0.within_capacity(),
{
}

/// Issuing a ticket of a sold-out concert fails with `SoldOut`, whatever the
/// token issuer would report, and so sells nothing more.
pub proof fn lemma_sold_out_refused(
    concert: ConcertView,
    concert_key: Seq<u8>,
    buyer: Seq<u8>,
    mint: Seq<u8>,
    ticket_type: Seq<char>,
    seat_number: Option<Seq<char>>,
    minted: Result<(), MintError>,
)
    requires
        concert.tickets_sold == concert.total_tickets,
        ticket_text_fits(ticket_type, seat_number),
    ensures
        ticket_request(concert, ticket_type, seat_number) == Err::<u16, ErrorCode>(ErrorCode::SoldOut),
        issued(concert, concert_key, buyer, mint, ticket_type, seat_number, minted)
            == Err::<(ConcertView, TicketView), ErrorCode>(ErrorCode::SoldOut),
{
}

/// Redeeming an unused ticket succeeds and marks it used; redeeming it again
/// fails with `AlreadyUsed`.
pub proof fn lemma_redeem_twice(ticket: TicketView, requester: Seq<u8>)
    requires
        requester == ticket.owner,
        !ticket.used,
    ensures
        redeemed(ticket, requester) is Ok,
        redeemed(ticket, requester)->Ok_0.used,
        redeemed(redeemed(ticket, requester)->Ok_0, requester)
            == Err::<TicketView, ErrorCode>(ErrorCode::AlreadyUsed),
{
}

/// An update with valid text by someone who is neither the owner nor the
/// global admin fails with `Unauthorized`.
pub proof fn lemma_stranger_cannot_update(
    concert: ConcertView,
    requester: Seq<u8>,
    admin: Seq<u8>,
    name: Seq<char>,
    venue: Seq<char>,
    date: Seq<char>,
    total_tickets: u16,
)
    requires
        requester != concert.authority,
        requester != admin,
        concert_text_fits(name, venue, date),
    ensures
        updated(concert, requester, admin, name, venue, date, total_tickets)
            == Err::<ConcertView, ErrorCode>(ErrorCode::Unauthorized),
{
}

/// An authorized update with valid text that would set the capacity below
/// the tickets already sold fails with `CapacityBelowSold`.
pub proof fn lemma_capacity_below_sold_refused(
    concert: ConcertView,
    requester: Seq<u8>,
    admin: Seq<u8>,
    name: Seq<char>,
    venue: Seq<char>,
    date: Seq<char>,
    total_tickets: u16,
)
    requires
        may_manage(concert.authority, requester, admin),
        concert_text_fits(name, venue, date),
        total_tickets < concert.tickets_sold,
    ensures
        updated(concert, requester, admin, name, venue, date, total_tickets)
            == Err::<ConcertView, ErrorCode>(ErrorCode::CapacityBelowSold),
{
}

/// A name, venue or date over its bound is refused with `InvalidInput`,
/// both when registering and when updating, before anything else is
/// looked at.
pub proof fn lemma_oversized_text_refused(
    authority: Seq<u8>,
    concert: ConcertView,
    requester: Seq<u8>,
    admin: Seq<u8>,
    name: Seq<char>,
    venue: Seq<char>,
    date: Seq<char>,
    total_tickets: u16,
)
    requires
        name.len() > MAX_NAME_LEN || venue.len() > MAX_VENUE_LEN || date.len() > MAX_DATE_LEN,
    ensures
        registered(authority, name, venue, date, total_tickets)
            == Err::<ConcertView, ErrorCode>(ErrorCode::InvalidInput),
        updated(concert, requester, admin, name, venue, date, total_tickets)
            == Err::<ConcertView, ErrorCode>(ErrorCode::InvalidInput),
{
}

} // verus!
