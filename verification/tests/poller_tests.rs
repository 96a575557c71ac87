use acme_order::poll_order;
use acme_order::poll_until_ready;
use acme_order::AcmeError;
use acme_order::OrderStatus;
use acme_order::PollAction;
use acme_order::Poller;

fn padded(prefix: &[OrderStatus], len: usize) -> Vec<OrderStatus> {
    let mut v: Vec<OrderStatus> = prefix.to_vec();
    while v.len() < len {
        v.push(OrderStatus::Ready);
    }
    v
}

#[test]
fn backoff_doubles_after_each_unready_answer() {
    // Pending three times, then Ready: four queries, the first immediate,
    // with sleeps of 250, 500 and 1000 ms between them.
    let statuses = padded(
        &[
            OrderStatus::Pending,
            OrderStatus::Pending,
            OrderStatus::Pending,
            OrderStatus::Ready,
        ],
        5,
    );
    let r = poll_until_ready(&statuses, 5, 250);
    assert_eq!(r.outcome, Ok(()));
    assert_eq!(r.queries, 4);
    assert_eq!(r.delays_ms, vec![0, 250, 500, 1000]);
}

#[test]
fn invalid_on_first_query_fails_immediately() {
    let statuses = padded(&[OrderStatus::Invalid], 5);
    let r = poll_until_ready(&statuses, 5, 250);
    assert_eq!(r.outcome, Err(AcmeError::OrderInvalid));
    assert_eq!(r.queries, 1);
    assert_eq!(r.delays_ms, vec![0]);
}

#[test]
fn exhausted_budget_times_out_after_exactly_five_queries() {
    let statuses = vec![OrderStatus::Pending; 5];
    let r = poll_until_ready(&statuses, 5, 250);
    assert_eq!(r.outcome, Err(AcmeError::PollTimeout));
    assert_eq!(r.queries, 5);
    assert_eq!(r.delays_ms, vec![0, 250, 500, 1000, 2000]);
}

#[test]
fn repolling_after_ready_reconfirms_in_one_query() {
    let first = padded(&[OrderStatus::Pending, OrderStatus::Ready], 5);
    let r1 = poll_until_ready(&first, 5, 250);
    assert_eq!(r1.outcome, Ok(()));
    // The order is now ready at the authority; polling again simply
    // reconfirms it with a single fresh query.
    let again = vec![OrderStatus::Ready; 5];
    let r2 = poll_until_ready(&again, 5, 250);
    assert_eq!(r2.outcome, Ok(()));
    assert_eq!(r2.queries, 1);
    let r3 = poll_until_ready(&again, 5, 250);
    assert_eq!(r3.outcome, Ok(()));
    assert_eq!(r3.queries, 1);
}

#[test]
fn poller_machine_queries_at_once_then_backs_off() {
    let mut p = Poller::new(OrderStatus::Ready, 5, 250);
    assert_eq!(p.next_action(), PollAction::Query { delay_ms: 0 });
    p.observe(OrderStatus::Pending);
    assert_eq!(p.next_action(), PollAction::Query { delay_ms: 250 });
    p.observe(OrderStatus::Processing);
    assert_eq!(p.next_action(), PollAction::Query { delay_ms: 500 });
    p.observe(OrderStatus::Pending);
    assert_eq!(p.next_action(), PollAction::Query { delay_ms: 1000 });
    p.observe(OrderStatus::Ready);
    assert_eq!(p.outcome, Some(Ok(())));
    assert_eq!(p.next_action(), PollAction::Stop);
}

#[test]
fn poller_machine_rejects_on_invalid() {
    let mut p = Poller::new(OrderStatus::Ready, 5, 250);
    p.observe(OrderStatus::Invalid);
    assert_eq!(p.outcome, Some(Err(AcmeError::OrderInvalid)));
    assert_eq!(p.next_action(), PollAction::Stop);
}

#[test]
fn poller_machine_times_out_on_last_attempt() {
    let mut p = Poller::new(OrderStatus::Ready, 2, 250);
    p.observe(OrderStatus::Pending);
    assert_eq!(p.outcome, None);
    p.observe(OrderStatus::Pending);
    assert_eq!(p.outcome, Some(Err(AcmeError::PollTimeout)));
    assert_eq!(p.next_action(), PollAction::Stop);
}

#[test]
fn post_finalization_poll_waits_for_valid() {
    let statuses = padded(
        &[OrderStatus::Processing, OrderStatus::Valid],
        5,
    );
    let r = poll_order(&statuses, OrderStatus::Valid, 5, 250);
    assert_eq!(r.outcome, Ok(()));
    assert_eq!(r.queries, 2);
}

#[test]
fn post_finalization_poll_reports_issuance_failure() {
    let statuses = padded(&[OrderStatus::Invalid], 5);
    let r = poll_order(&statuses, OrderStatus::Valid, 5, 250);
    assert_eq!(r.outcome, Err(AcmeError::IssuanceFailed));
    assert_eq!(r.queries, 1);
}
