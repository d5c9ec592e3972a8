use vstd::prelude::*;

use crate::identity::Pubkey;

verus! {

/// Largest number of characters in a concert's name.
pub const MAX_NAME_LEN: usize = 50;

/// Largest number of characters in a concert's venue.
pub const MAX_VENUE_LEN: usize = 50;

/// Largest number of characters in a concert's date.
pub const MAX_DATE_LEN: usize = 10;

/// Largest number of characters in a ticket's type.
pub const MAX_TYPE_LEN: usize = 20;

/// Largest number of characters in a ticket's seat number.
pub const MAX_SEAT_LEN: usize = 10;

/// An event with a ticket capacity, owned by the identity that registered it.
#[derive(Clone, Debug)]
pub struct Concert {
    pub authority: Pubkey,
    pub name: String,
    pub venue: String,
    pub date: String,
    pub total_tickets: u16,
    pub tickets_sold: u16,
}

/// The value of a [`Concert`] record.
pub struct ConcertView {
    pub authority: Seq<u8>,
    pub name: Seq<char>,
    pub venue: Seq<char>,
    pub date: Seq<char>,
    pub total_tickets: u16,
    pub tickets_sold: u16,
}

impl View for Concert {
    type V = ConcertView;

    open spec fn view(&self) -> ConcertView {
        ConcertView {
            authority: self.authority@,
            name: self.name@,
            venue: self.venue@,
            date: self.date@,
            total_tickets: self.total_tickets,
            tickets_sold: self.tickets_sold,
        }
    }
}

/// One issued entry credential, backed by its own minted token.
#[derive(Clone, Debug)]
pub struct Ticket {
    pub owner: Pubkey,
    pub mint: Pubkey,
    pub concert: Pubkey,
    pub ticket_type: String,
    pub seat_number: Option<String>,
    pub used: bool,
}

/// The value of a [`Ticket`] record.
pub struct TicketView {
    pub owner: Seq<u8>,
    pub mint: Seq<u8>,
    pub concert: Seq<u8>,
    pub ticket_type: Seq<char>,
    pub seat_number: Option<Seq<char>>,
    pub used: bool,
}

/// The characters of an optional text.
pub open spec fn opt_text(s: Option<String>) -> Option<Seq<char>> {
    match s {
        Some(t) => Some(t@),
        None => None,
    }
}

impl View for Ticket {
    type V = TicketView;

    open spec fn view(&self) -> TicketView {
        TicketView {
            owner: self.owner@,
            mint: self.mint@,
            concert: self.concert@,
            ticket_type: self.ticket_type@,
            seat_number: opt_text(self.seat_number),
            used: self.used,
        }
    }
}

impl ConcertView {
    /// The capacity invariant: never more tickets sold than exist.
    pub open spec fn within_capacity(self) -> bool {
        self.tickets_sold <= self.total_tickets
    }
}

/// Name, venue and date are each within their bounds.
pub open spec fn concert_text_fits(name: Seq<char>, venue: Seq<char>, date: Seq<char>) -> bool {
    &&& name.len() <= MAX_NAME_LEN
    &&& venue.len() <= MAX_VENUE_LEN
    &&& date.len() <= MAX_DATE_LEN
}

/// The ticket type, and the seat number where there is one, are within their bounds.
pub open spec fn ticket_text_fits(ticket_type: Seq<char>, seat_number: Option<Seq<char>>) -> bool {
    &&& ticket_type.len() <= MAX_TYPE_LEN
    &&& match seat_number {
        Some(s) => s.len() <= MAX_SEAT_LEN,
        None => true,
    }
}

/// Whether `text` has at most `max` characters.
pub fn text_fits(text: &String, max: usize) -> (r: bool)
    ensures
        r == (text@.len() <= max),
{
    text.as_str().unicode_len() <= max
}

/// Whether name, venue and date are each within their bounds.
pub fn check_concert_text(name: &String, venue: &String, date: &String) -> (r: bool)
    ensures
        r == concert_text_fits(name@, venue@, date@),
{
    text_fits(name, MAX_NAME_LEN) && text_fits(venue, MAX_VENUE_LEN) && text_fits(date, MAX_DATE_LEN)
}

/// Whether the ticket type and the seat number, if any, are within their bounds.
pub fn check_ticket_text(ticket_type: &String, seat_number: &Option<String>) -> (r: bool)
    ensures
        r == ticket_text_fits(ticket_type@, opt_text(*seat_number)),
{
    let seat_ok = match seat_number {
        Some(s) => text_fits(s, MAX_SEAT_LEN),
        None => true,
    };
    text_fits(ticket_type, MAX_TYPE_LEN) && seat_ok
}

} // verus!
