use concert_nft_tickets::error::{ErrorCode, MintError};
use concert_nft_tickets::identity::Pubkey;
use concert_nft_tickets::instructions::{
    create_ticket, delete_concert, plan_ticket_mint, initialize_concert, save_ticket_data, update_concert,
    use_ticket, validate_ticket_request, CreateTicket, DeleteConcert, InitializeConcert,
    UpdateConcert, UseTicket,
};
use concert_nft_tickets::state::{text_fits, Concert, Ticket};

fn key(b: u8) -> Pubkey {
    Pubkey::new_from_array([b; 32])
}

fn owner() -> Pubkey {
    key(1)
}

fn admin() -> Pubkey {
    key(9)
}

fn stranger() -> Pubkey {
    key(7)
}

fn s(text: &str) -> String {
    String::from(text)
}

fn register(total: u16) -> Concert {
    let ctx = InitializeConcert { authority: owner() };
    initialize_concert(&ctx, s("Show"), s("Hall"), s("2025-01-01"), total).unwrap()
}

fn issue_ctx(concert: Concert, mint: u8) -> CreateTicket {
    CreateTicket {
        authority: owner(),
        buyer: key(3),
        concert_key: key(4),
        concert,
        mint: key(mint),
        token_account: key(mint.wrapping_add(100)),
    }
}

fn unused_ticket(holder: Pubkey) -> Ticket {
    save_ticket_data(&holder, &key(20), &key(4), s("VIP"), Some(s("A1")))
}

#[test]
fn register_then_issue_five() {
    let concert = register(100);
    assert_eq!(concert.tickets_sold, 0);
    assert_eq!(concert.total_tickets, 100);
    assert_eq!(concert.name, "Show");
    assert_eq!(concert.venue, "Hall");
    assert_eq!(concert.date, "2025-01-01");
    assert!(concert.authority == owner());

    let mut current = concert;
    let mut tickets: Vec<Ticket> = Vec::new();
    for i in 0..5u8 {
        let mut ctx = issue_ctx(current, 50 + i);
        let t = create_ticket(&mut ctx, s("VIP"), Some(s("A1")), Ok(())).unwrap();
        tickets.push(t);
        current = ctx.concert;
    }
    assert_eq!(current.tickets_sold, 5);
    assert_eq!(tickets.len(), 5);
    for (i, t) in tickets.iter().enumerate() {
        assert!(!t.used);
        assert!(t.owner == key(3));
        assert!(t.concert == key(4));
        assert_eq!(t.ticket_type, "VIP");
        assert_eq!(t.seat_number, Some(s("A1")));
        for u in tickets.iter().skip(i + 1) {
            assert!(t.mint != u.mint);
        }
    }
}

#[test]
fn register_rejects_long_name() {
    let ctx = InitializeConcert { authority: owner() };
    let r = initialize_concert(&ctx, "n".repeat(51), s("Hall"), s("2025-01-01"), 10);
    assert_eq!(r.unwrap_err(), ErrorCode::InvalidInput);
}

#[test]
fn register_rejects_long_venue() {
    let ctx = InitializeConcert { authority: owner() };
    let r = initialize_concert(&ctx, s("Show"), "v".repeat(51), s("2025-01-01"), 10);
    assert_eq!(r.unwrap_err(), ErrorCode::InvalidInput);
}

#[test]
fn register_rejects_long_date() {
    let ctx = InitializeConcert { authority: owner() };
    let r = initialize_concert(&ctx, s("Show"), s("Hall"), s("2025-01-011"), 10);
    assert_eq!(r.unwrap_err(), ErrorCode::InvalidInput);
}

#[test]
fn register_accepts_text_at_bounds() {
    let ctx = InitializeConcert { authority: owner() };
    let c = initialize_concert(&ctx, "n".repeat(50), "v".repeat(50), "d".repeat(10), 65535)
        .unwrap();
    assert_eq!(c.name.len(), 50);
    assert_eq!(c.total_tickets, 65535);
    assert_eq!(c.tickets_sold, 0);
}

#[test]
fn bounds_count_characters() {
    let name = "é".repeat(50);
    assert!(text_fits(&name, 50));
    assert!(!text_fits(&"é".repeat(51), 50));
    let ctx = InitializeConcert { authority: owner() };
    let c = initialize_concert(&ctx, name, s("Hall"), s("2025-01-01"), 1).unwrap();
    assert_eq!(c.name.chars().count(), 50);
}

#[test]
fn register_with_zero_capacity_is_sold_out() {
    let concert = register(0);
    let mut ctx = issue_ctx(concert, 50);
    let r = create_ticket(&mut ctx, s("VIP"), None, Ok(()));
    assert_eq!(r.unwrap_err(), ErrorCode::SoldOut);
    assert_eq!(ctx.concert.tickets_sold, 0);
}

#[test]
fn issue_when_sold_out_fails() {
    let mut concert = register(2);
    concert.tickets_sold = 2;
    let mut ctx = issue_ctx(concert, 50);
    let r = create_ticket(&mut ctx, s("VIP"), Some(s("A1")), Ok(()));
    assert_eq!(r.unwrap_err(), ErrorCode::SoldOut);
    assert_eq!(ctx.concert.tickets_sold, 2);
    assert_eq!(ctx.concert.total_tickets, 2);
}

#[test]
fn issue_last_ticket_then_sold_out() {
    let concert = register(1);
    let mut ctx = issue_ctx(concert, 50);
    assert!(create_ticket(&mut ctx, s("Regular"), None, Ok(())).is_ok());
    assert_eq!(ctx.concert.tickets_sold, 1);
    let r = create_ticket(&mut ctx, s("Regular"), None, Ok(()));
    assert_eq!(r.unwrap_err(), ErrorCode::SoldOut);
    assert_eq!(ctx.concert.tickets_sold, 1);
}

#[test]
fn issue_rejects_long_type() {
    let mut ctx = issue_ctx(register(10), 50);
    let r = create_ticket(&mut ctx, "t".repeat(21), None, Ok(()));
    assert_eq!(r.unwrap_err(), ErrorCode::InvalidInput);
    assert_eq!(ctx.concert.tickets_sold, 0);
}

#[test]
fn issue_rejects_long_seat() {
    let mut ctx = issue_ctx(register(10), 50);
    let r = create_ticket(&mut ctx, s("VIP"), Some("s".repeat(11)), Ok(()));
    assert_eq!(r.unwrap_err(), ErrorCode::InvalidInput);
    assert_eq!(ctx.concert.tickets_sold, 0);
}

#[test]
fn issue_accepts_text_at_bounds() {
    let mut ctx = issue_ctx(register(10), 50);
    let t = create_ticket(&mut ctx, "t".repeat(20), Some("s".repeat(10)), Ok(())).unwrap();
    assert_eq!(t.ticket_type.len(), 20);
    assert_eq!(ctx.concert.tickets_sold, 1);
}

#[test]
fn invalid_text_wins_over_sold_out() {
    let mut ctx = issue_ctx(register(0), 50);
    let r = create_ticket(&mut ctx, "t".repeat(21), None, Ok(()));
    assert_eq!(r.unwrap_err(), ErrorCode::InvalidInput);
}

#[test]
fn mint_failure_changes_nothing() {
    let mut ctx = issue_ctx(register(10), 50);
    let r = create_ticket(&mut ctx, s("VIP"), None, Err(MintError { code: 6000 }));
    assert_eq!(r.unwrap_err(), ErrorCode::MintFailed);
    assert_eq!(ctx.concert.tickets_sold, 0);
}

#[test]
fn validate_gives_next_count() {
    let mut concert = register(10);
    concert.tickets_sold = 4;
    assert_eq!(validate_ticket_request(&concert, &s("VIP"), &None), Ok(5));
    concert.tickets_sold = 10;
    assert_eq!(
        validate_ticket_request(&concert, &s("VIP"), &None),
        Err(ErrorCode::SoldOut)
    );
}

#[test]
fn redeem_twice() {
    let mut ctx = UseTicket { authority: key(3), ticket: unused_ticket(key(3)) };
    assert_eq!(use_ticket(&mut ctx), Ok(()));
    assert!(ctx.ticket.used);
    assert_eq!(use_ticket(&mut ctx), Err(ErrorCode::AlreadyUsed));
    assert!(ctx.ticket.used);
}

#[test]
fn redeem_by_other_identity_fails() {
    let mut ctx = UseTicket { authority: stranger(), ticket: unused_ticket(key(3)) };
    assert_eq!(use_ticket(&mut ctx), Err(ErrorCode::Unauthorized));
    assert!(!ctx.ticket.used);
}

#[test]
fn update_by_owner() {
    let mut ctx = UpdateConcert { authority: owner(), concert: register(100) };
    let r = update_concert(&mut ctx, &admin(), s("Encore"), s("Arena"), s("2025-02-02"), 200);
    assert_eq!(r, Ok(()));
    assert_eq!(ctx.concert.name, "Encore");
    assert_eq!(ctx.concert.venue, "Arena");
    assert_eq!(ctx.concert.date, "2025-02-02");
    assert_eq!(ctx.concert.total_tickets, 200);
    assert_eq!(ctx.concert.tickets_sold, 0);
    assert!(ctx.concert.authority == owner());
}

#[test]
fn update_by_admin() {
    let mut ctx = UpdateConcert { authority: admin(), concert: register(100) };
    let r = update_concert(&mut ctx, &admin(), s("Encore"), s("Hall"), s("2025-01-01"), 50);
    assert_eq!(r, Ok(()));
    assert_eq!(ctx.concert.total_tickets, 50);
    assert!(ctx.concert.authority == owner());
}

#[test]
fn update_by_stranger_fails() {
    let mut ctx = UpdateConcert { authority: stranger(), concert: register(100) };
    let r = update_concert(&mut ctx, &admin(), s("Mine"), s("Here"), s("2030-01-01"), 5);
    assert_eq!(r, Err(ErrorCode::Unauthorized));
    assert_eq!(ctx.concert.name, "Show");
    assert_eq!(ctx.concert.venue, "Hall");
    assert_eq!(ctx.concert.date, "2025-01-01");
    assert_eq!(ctx.concert.total_tickets, 100);
}

#[test]
fn update_below_sold_fails() {
    let mut concert = register(100);
    concert.tickets_sold = 10;
    let mut ctx = UpdateConcert { authority: owner(), concert };
    let r = update_concert(&mut ctx, &admin(), s("Show"), s("Hall"), s("2025-01-01"), 9);
    assert_eq!(r, Err(ErrorCode::CapacityBelowSold));
    assert_eq!(ctx.concert.total_tickets, 100);
    let r = update_concert(&mut ctx, &admin(), s("Show"), s("Hall"), s("2025-01-01"), 10);
    assert_eq!(r, Ok(()));
    assert_eq!(ctx.concert.total_tickets, 10);
}

#[test]
fn update_rejects_long_text() {
    let mut ctx = UpdateConcert { authority: owner(), concert: register(100) };
    let r = update_concert(&mut ctx, &admin(), "n".repeat(51), s("Hall"), s("2025-01-01"), 100);
    assert_eq!(r, Err(ErrorCode::InvalidInput));
    assert_eq!(ctx.concert.name, "Show");
}

#[test]
fn delete_by_owner_refunds_owner() {
    let ctx = DeleteConcert { authority: owner(), concert: register(100) };
    assert!(delete_concert(&ctx, &admin()).unwrap() == owner());
}

#[test]
fn delete_by_admin_refunds_admin() {
    let ctx = DeleteConcert { authority: admin(), concert: register(100) };
    assert!(delete_concert(&ctx, &admin()).unwrap() == admin());
}

#[test]
fn delete_by_stranger_fails() {
    let ctx = DeleteConcert { authority: stranger(), concert: register(100) };
    assert_eq!(delete_concert(&ctx, &admin()).unwrap_err(), ErrorCode::Unauthorized);
}

#[test]
fn keys_compare_by_every_byte() {
    let mut b = [5u8; 32];
    let a = Pubkey::new_from_array(b);
    b[31] = 6;
    let c = Pubkey::new_from_array(b);
    assert!(a != c);
    assert!(a == Pubkey::new_from_array([5u8; 32]));
    assert_eq!(c.to_bytes()[31], 6);
}

#[test]
fn plan_mints_one_unit_into_buyer_account() {
    let ctx = issue_ctx(register(10), 50);
    let order = plan_ticket_mint(&ctx, &s("VIP"), &Some(s("A1"))).unwrap();
    assert_eq!(order.amount, 1);
    assert!(order.mint == key(50));
    assert!(order.to == key(150));
    assert!(order.authority == owner());
}

#[test]
fn plan_refuses_sold_out_and_long_text() {
    let ctx = issue_ctx(register(0), 50);
    assert_eq!(plan_ticket_mint(&ctx, &s("VIP"), &None).unwrap_err(), ErrorCode::SoldOut);
    let ctx = issue_ctx(register(10), 50);
    assert_eq!(
        plan_ticket_mint(&ctx, &s("VIP"), &Some("s".repeat(11))).unwrap_err(),
        ErrorCode::InvalidInput
    );
}
