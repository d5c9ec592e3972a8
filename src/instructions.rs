use vstd::prelude::*;

use crate::auth::{is_authorized, may_manage};
use crate::error::{ErrorCode, MintError};
use crate::identity::Pubkey;
use crate::state::{
    check_concert_text, check_ticket_text, concert_text_fits, opt_text, ticket_text_fits, Concert,
    ConcertView, Ticket, TicketView,
};

verus! {

/// A request to register a concert, made by `authority`.
#[derive(Clone, Copy, Debug)]
pub struct InitializeConcert {
    pub authority: Pubkey,
}

/// The outcome of registering a concert: the new record, or the error.
pub open spec fn registered(
    authority: Seq<u8>,
    name: Seq<char>,
    venue: Seq<char>,
    date: Seq<char>,
    total_tickets: u16,
) -> Result<ConcertView, ErrorCode> {
    if !concert_text_fits(name, venue, date) {
        Err(ErrorCode::InvalidInput)
    } else {
        Ok(ConcertView { authority, name, venue, date, total_tickets, tickets_sold: 0 })
    }
}

/// The value of a concert operation's result.
pub open spec fn concert_outcome(r: Result<Concert, ErrorCode>) -> Result<ConcertView, ErrorCode> {
    match r {
        Ok(c) => Ok(c@),
        Err(e) => Err(e),
    }
}

/// Registers a new concert owned by the requester, with no ticket sold.
pub fn initialize_concert(
    ctx: &InitializeConcert,
    name: String,
    venue: String,
    date: String,
    total_tickets: u16,
) -> (r: Result<Concert, ErrorCode>)
    ensures
        concert_outcome(r) == registered(ctx.authority@, name@, venue@, date@, total_tickets),
        r is Ok ==> r->Ok_0@.within_capacity(),
{
    if !check_concert_text(&name, &venue, &date) {
        return Err(ErrorCode::InvalidInput);
    }
    Ok(Concert { authority: ctx.authority, name, venue, date, total_tickets, tickets_sold: 0 })
}

/// A request to issue a ticket of the concert stored at `concert_key` to
/// `buyer`, backed by the token `mint` that `authority` mints into
/// `token_account`.
#[derive(Clone, Debug)]
pub struct CreateTicket {
    pub authority: Pubkey,
    pub buyer: Pubkey,
    pub concert_key: Pubkey,
    pub concert: Concert,
    pub mint: Pubkey,
    pub token_account: Pubkey,
}

/// The sold count after one more ticket, or why no ticket may be issued.
pub open spec fn ticket_request(
    concert: ConcertView,
    ticket_type: Seq<char>,
    seat_number: Option<Seq<char>>,
) -> Result<u16, ErrorCode> {
    if !ticket_text_fits(ticket_type, seat_number) {
        Err(ErrorCode::InvalidInput)
    } else if concert.tickets_sold >= concert.total_tickets {
        Err(ErrorCode::SoldOut)
    } else if concert.tickets_sold + 1 > u16::MAX {
        Err(ErrorCode::ArithmeticOverflow)
    } else {
        Ok((concert.tickets_sold + 1) as u16)
    }
}

/// The ticket record written for `buyer`.
pub open spec fn new_ticket(
    buyer: Seq<u8>,
    mint: Seq<u8>,
    concert_key: Seq<u8>,
    ticket_type: Seq<char>,
    seat_number: Option<Seq<char>>,
) -> TicketView {
    TicketView { owner: buyer, mint, concert: concert_key, ticket_type, seat_number, used: false }
}

/// The outcome of issuing a ticket, given what the token issuer reported:
/// the concert with one more ticket sold and the new ticket, or the error.
pub open spec fn issued(
    concert: ConcertView,
    concert_key: Seq<u8>,
    buyer: Seq<u8>,
    mint: Seq<u8>,
    ticket_type: Seq<char>,
    seat_number: Option<Seq<char>>,
    minted: Result<(), MintError>,
) -> Result<(ConcertView, TicketView), ErrorCode> {
    match ticket_request(concert, ticket_type, seat_number) {
        Err(e) => Err(e),
        Ok(sold) => if minted is Err {
            Err(ErrorCode::MintFailed)
        } else {
            Ok(
                (
                    ConcertView { tickets_sold: sold, ..concert },
                    new_ticket(buyer, mint, concert_key, ticket_type, seat_number),
                ),
            )
        },
    }
}

/// Checks a ticket request against the text bounds and the concert's
/// capacity, and gives the sold count after it. A token is minted for the
/// request only where this returns `Ok`.
pub fn validate_ticket_request(
    concert: &Concert,
    ticket_type: &String,
    seat_number: &Option<String>,
) -> (r: Result<u16, ErrorCode>)
    ensures
        r == ticket_request(concert@, ticket_type@, opt_text(*seat_number)),
{
    if !check_ticket_text(ticket_type, seat_number) {
        return Err(ErrorCode::InvalidInput);
    }
    if concert.tickets_sold >= concert.total_tickets {
        return Err(ErrorCode::SoldOut);
    }
    match concert.tickets_sold.checked_add(1) {
        Some(sold) => Ok(sold),
        None => Err(ErrorCode::ArithmeticOverflow),
    }
}

/// The one mint that issuing a ticket asks of the token issuer: `amount`
/// units of the token `mint`, deposited into `to`, signed by `authority`.
#[derive(Clone, Copy, Debug)]
pub struct MintOrder {
    pub mint: Pubkey,
    pub to: Pubkey,
    pub authority: Pubkey,
    pub amount: u64,
}

/// Decides whether a ticket request may go ahead and, if so, what must be
/// minted for it: exactly one unit of the request's token into the buyer's
/// token account. Where this returns an error no token is to be minted.
pub fn plan_ticket_mint(
    ctx: &CreateTicket,
    ticket_type: &String,
    seat_number: &Option<String>,
) -> (r: Result<MintOrder, ErrorCode>)
    ensures
        match ticket_request(ctx.concert@, ticket_type@, opt_text(*seat_number)) {
            Ok(_) => r is Ok && r->Ok_0.mint == ctx.mint && r->Ok_0.to == ctx.token_account
                && r->Ok_0.authority == ctx.authority && r->Ok_0.amount == 1,
            Err(e) => r == Err::<MintOrder, ErrorCode>(e),
        },
{
    match validate_ticket_request(&ctx.concert, ticket_type, seat_number) {
        Ok(_) => Ok(MintOrder { mint: ctx.mint, to: ctx.token_account, authority: ctx.authority, amount: 1 }),
        Err(e) => Err(e),
    }
}

/// Writes the record of a freshly issued, unused ticket.
pub fn save_ticket_data(
    buyer: &Pubkey,
    mint: &Pubkey,
    concert_key: &Pubkey,
    ticket_type: String,
    seat_number: Option<String>,
) -> (r: Ticket)
    ensures
        r@ == new_ticket(buyer@, mint@, concert_key@, ticket_type@, opt_text(seat_number)),
{
    Ticket {
        owner: *buyer,
        mint: *mint,
        concert: *concert_key,
        ticket_type,
        seat_number,
        used: false,
    }
}

/// Issues one ticket of the concert to the buyer. `minted` is what the
/// token issuer reported for the order that [`plan_ticket_mint`] gave. On
/// success the concert counts one more ticket sold and the new ticket is
/// returned; on any error nothing changes.
pub fn create_ticket(
    ctx: &mut CreateTicket,
    ticket_type: String,
    seat_number: Option<String>,
    minted: Result<(), MintError>,
) -> (r: Result<Ticket, ErrorCode>)
    ensures
        final(ctx).authority == old(ctx).authority,
        final(ctx).buyer == old(ctx).buyer,
        final(ctx).concert_key == old(ctx).concert_key,
        final(ctx).mint == old(ctx).mint,
        final(ctx).token_account == old(ctx).token_account,
        match issued(
            old(ctx).concert@,
            old(ctx).concert_key@,
            old(ctx).buyer@,
            old(ctx).mint@,
            ticket_type@,
            opt_text(seat_number),
            minted,
        ) {
            Ok((c, t)) => r is Ok && r->Ok_0@ == t && final(ctx).concert@ == c,
            Err(e) => r == Err::<Ticket, ErrorCode>(e) && final(ctx).concert == old(ctx).concert,
        },
        r is Ok ==> final(ctx).concert@.within_capacity(),
{
    let sold = match validate_ticket_request(&ctx.concert, &ticket_type, &seat_number) {
        Ok(sold) => sold,
        Err(e) => return Err(e),
    };
    if minted.is_err() {
        return Err(ErrorCode::MintFailed);
    }
    ctx.concert.tickets_sold = sold;
    let ticket = save_ticket_data(&ctx.buyer, &ctx.mint, &ctx.concert_key, ticket_type, seat_number);
    Ok(ticket)
}

/// A request by `authority` to redeem `ticket`.
#[derive(Clone, Debug)]
pub struct UseTicket {
    pub authority: Pubkey,
    pub ticket: Ticket,
}

/// The outcome of redeeming a ticket: the ticket marked used, or the error.
pub open spec fn redeemed(ticket: TicketView, requester: Seq<u8>) -> Result<TicketView, ErrorCode> {
    if requester != ticket.owner {
        Err(ErrorCode::Unauthorized)
    } else if ticket.used {
        Err(ErrorCode::AlreadyUsed)
    } else {
        Ok(TicketView { used: true, ..ticket })
    }
}

/// Redeems the ticket for its owner, once: a second redemption is an error.
pub fn use_ticket(ctx: &mut UseTicket) -> (r: Result<(), ErrorCode>)
    ensures
        final(ctx).authority == old(ctx).authority,
        match redeemed(old(ctx).ticket@, old(ctx).authority@) {
            Ok(t) => r is Ok && final(ctx).ticket@ == t,
            Err(e) => r == Err::<(), ErrorCode>(e) && final(ctx).ticket == old(ctx).ticket,
        },
{
    if !ctx.authority.eq(&ctx.ticket.owner) {
        return Err(ErrorCode::Unauthorized);
    }
    if ctx.ticket.used {
        return Err(ErrorCode::AlreadyUsed);
    }
    ctx.ticket.used = true;
    Ok(())
}

/// A request by `authority` to delete `concert`.
#[derive(Clone, Debug)]
pub struct DeleteConcert {
    pub authority: Pubkey,
    pub concert: Concert,
}

/// The outcome of deleting a concert: the identity that the record's
/// storage stake is returned to, or the error.
pub open spec fn deletion(concert: ConcertView, requester: Seq<u8>, admin: Seq<u8>) -> Result<Seq<u8>, ErrorCode> {
    if may_manage(concert.authority, requester, admin) {
        Ok(requester)
    } else {
        Err(ErrorCode::Unauthorized)
    }
}

/// Authorizes the deletion of a concert by its owner or the global admin
/// `admin`, and names the identity that its storage stake goes back to.
/// Tickets of the concert are left as they are.
pub fn delete_concert(ctx: &DeleteConcert, admin: &Pubkey) -> (r: Result<Pubkey, ErrorCode>)
    ensures
        match deletion(ctx.concert@, ctx.authority@, admin@) {
            Ok(k) => r is Ok && r->Ok_0@ == k,
            Err(e) => r == Err::<Pubkey, ErrorCode>(e),
        },
{
    if !is_authorized(&ctx.concert.authority, &ctx.authority, admin) {
        return Err(ErrorCode::Unauthorized);
    }
    Ok(ctx.authority)
}

/// A request by `authority` to change `concert`.
#[derive(Clone, Debug)]
pub struct UpdateConcert {
    pub authority: Pubkey,
    pub concert: Concert,
}

/// The outcome of updating a concert: the record with its four mutable
/// fields replaced, or the error.
pub open spec fn updated(
    concert: ConcertView,
    requester: Seq<u8>,
    admin: Seq<u8>,
    name: Seq<char>,
    venue: Seq<char>,
    date: Seq<char>,
    total_tickets: u16,
) -> Result<ConcertView, ErrorCode> {
    if !concert_text_fits(name, venue, date) {
        Err(ErrorCode::InvalidInput)
    } else if !may_manage(concert.authority, requester, admin) {
        Err(ErrorCode::Unauthorized)
    } else if total_tickets < concert.tickets_sold {
        Err(ErrorCode::CapacityBelowSold)
    } else {
        Ok(ConcertView { name, venue, date, total_tickets, ..concert })
    }
}

/// Replaces the name, venue, date and capacity of a concert, for its owner
/// or the global admin `admin`. On any error nothing changes.
pub fn update_concert(
    ctx: &mut UpdateConcert,
    admin: &Pubkey,
    name: String,
    venue: String,
    date: String,
    total_tickets: u16,
) -> (r: Result<(), ErrorCode>)
    ensures
        final(ctx).authority == old(ctx).authority,
        match updated(old(ctx).concert@, old(ctx).authority@, admin@, name@, venue@, date@, total_tickets) {
            Ok(c) => r is Ok && final(ctx).concert@ == c,
            Err(e) => r == Err::<(), ErrorCode>(e) && final(ctx).concert == old(ctx).concert,
        },
        r is Ok ==> final(ctx).concert@.within_capacity(),
{
    if !check_concert_text(&name, &venue, &date) {
        return Err(ErrorCode::InvalidInput);
    }
    if !is_authorized(&ctx.concert.authority, &ctx.authority, admin) {
        return Err(ErrorCode::Unauthorized);
    }
    if total_tickets < ctx.concert.tickets_sold {
        return Err(ErrorCode::CapacityBelowSold);
    }
    ctx.concert.name = name;
    ctx.concert.venue = venue;
    ctx.concert.date = date;
    ctx.concert.total_tickets = total_tickets;
    Ok(())
}

} // verus!
