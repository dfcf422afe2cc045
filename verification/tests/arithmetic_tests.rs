use escrow_contract::errors::EscrowError;
use escrow_contract::escrow::EscrowContract;
use escrow_contract::rent::ContractStorage;
use escrow_contract::types::RecurringInterval;

#[test]
fn rent_reserve_is_thirty_periods_per_entry() {
    assert_eq!(ContractStorage::reserve_for_entries(1), 30);
    assert_eq!(ContractStorage::reserve_for_entries(3), 90);
}

#[test]
fn rent_per_period_counts_every_entry() {
    // header + 2 milestones + 1 optional entry
    assert_eq!(ContractStorage::rent_due_per_period(2, 1), 4);
    assert_eq!(ContractStorage::rent_due_per_period(0, 0), 1);
}

#[test]
fn rent_expiry_and_collection() {
    // 30 units at 1 per period, checkpoint 0: expires after the 31st period starts.
    assert_eq!(ContractStorage::rent_expires_at(30, 0, 1), 31 * 86_400);
    assert!(!ContractStorage::rent_has_expired(30, 0, 30 * 86_400, 1));
    assert!(ContractStorage::rent_has_expired(30, 0, 31 * 86_400, 1));
    // three periods due: 3 collected, 27 left, checkpoint moved three periods
    assert_eq!(ContractStorage::collect_amounts(30, 0, 3 * 86_400 + 5, 1), (3, 27, 3 * 86_400));
    assert_eq!(ContractStorage::collect_amounts(30, 0, 100, 1), (0, 30, 0));
}

#[test]
fn next_schedule_time_adds_one_interval() {
    assert_eq!(EscrowContract::next_schedule_time(0, RecurringInterval::Daily), Ok(86_400));
    assert_eq!(EscrowContract::next_schedule_time(10, RecurringInterval::Weekly), Ok(10 + 604_800));
    assert_eq!(EscrowContract::next_schedule_time(0, RecurringInterval::Monthly), Ok(2_592_000));
    assert_eq!(
        EscrowContract::next_schedule_time(u64::MAX - 10, RecurringInterval::Daily),
        Err(EscrowError::InvalidRecurringSchedule)
    );
}

#[test]
fn total_payments_from_end_date_or_count() {
    let day = 86_400u64;
    // start, start + 1 day, start + 2 days all fit before the end date
    assert_eq!(EscrowContract::resolve_total_payments(100, RecurringInterval::Daily, Some(100 + 2 * day), None), Ok(3));
    assert_eq!(EscrowContract::resolve_total_payments(100, RecurringInterval::Daily, Some(100 + 2 * day - 1), None), Ok(2));
    assert_eq!(EscrowContract::resolve_total_payments(100, RecurringInterval::Daily, Some(100 + 5 * day), Some(2)), Ok(2));
    assert_eq!(EscrowContract::resolve_total_payments(100, RecurringInterval::Daily, None, Some(4)), Ok(4));
    assert_eq!(
        EscrowContract::resolve_total_payments(100, RecurringInterval::Daily, None, None),
        Err(EscrowError::InvalidRecurringSchedule)
    );
    assert_eq!(
        EscrowContract::resolve_total_payments(100, RecurringInterval::Daily, None, Some(0)),
        Err(EscrowError::InvalidRecurringSchedule)
    );
    assert_eq!(
        EscrowContract::resolve_total_payments(100, RecurringInterval::Daily, Some(99), None),
        Err(EscrowError::InvalidRecurringSchedule)
    );
}

#[test]
fn slash_is_a_tenth_rounded_toward_zero() {
    assert_eq!(EscrowContract::calculate_slash_amount(100), 10);
    assert_eq!(EscrowContract::calculate_slash_amount(205), 20);
    assert_eq!(EscrowContract::calculate_slash_amount(9), 0);
    assert_eq!(EscrowContract::calculate_slash_amount(-15), -1);
}
