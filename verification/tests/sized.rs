use std::io::Cursor;
use std::io::Read;
use std::time::Duration;
use transfer_progress::sized::SizedTransfer;
use transfer_progress::transfer::TransferError;
use transfer_progress::transfer::WorkerExit;

fn zeros(len: usize) -> Cursor<Vec<u8>> {
    Cursor::new(vec![0u8; len])
}

#[test]
fn sized_transfer_before_the_first_byte() {
    let (transfer, _worker) = SizedTransfer::new(zeros(1024), Vec::<u8>::new(), 1024);
    assert_eq!(transfer.size(), 1024);
    assert!(transfer.eta().is_none());
    let done = transfer.fraction_transferred();
    assert_eq!(done.numerator() as f64 / done.denominator() as f64, 0.0);
    assert_eq!(transfer.remaining(), 1024);
}

#[test]
fn sized_transfer_when_all_is_moved() {
    let (transfer, worker) = SizedTransfer::new(zeros(1024), Vec::<u8>::new(), 1024);
    worker.run().unwrap();
    assert_eq!(transfer.transferred(), 1024);
    let done = transfer.fraction_transferred();
    assert_eq!(done.numerator() as f64 / done.denominator() as f64, 1.0);
    assert_eq!(transfer.remaining(), 0);
    assert_eq!(transfer.eta(), Some(Duration::ZERO));
}

#[test]
fn sized_transfer_of_size_zero_has_a_defined_fraction() {
    let (transfer, worker) = SizedTransfer::new(std::io::empty(), Vec::<u8>::new(), 0);
    let before = transfer.fraction_transferred();
    assert_eq!((before.numerator(), before.denominator()), (0, 1));
    assert_eq!(transfer.remaining(), 0);
    assert!(transfer.eta().is_none());
    worker.run().unwrap();
    assert!(transfer.is_complete());
    let after = transfer.fraction_transferred();
    let value = after.numerator() as f64 / after.denominator() as f64;
    assert!(value.is_finite());
    assert_eq!(value, 1.0);
}

#[test]
fn sized_transfer_past_its_declared_size() {
    let (transfer, worker) = SizedTransfer::new(zeros(3000), Vec::<u8>::new(), 1000);
    worker.run().unwrap();
    assert_eq!(transfer.transferred(), 3000);
    assert_eq!(transfer.size(), 1000);
    assert_eq!(transfer.remaining(), 0);
    assert_eq!(transfer.eta(), Some(Duration::ZERO));
    let done = transfer.fraction_transferred();
    assert_eq!(done.numerator() as f64 / done.denominator() as f64, 3.0);
}

#[test]
fn sized_transfer_half_way_estimates_the_time_so_far() {
    // the source holds half of what was declared
    let (transfer, worker) = SizedTransfer::new(zeros(4096).take(4096), Vec::<u8>::new(), 8192);
    worker.run().unwrap();
    while transfer.running_time() < Duration::from_millis(2) {}
    assert_eq!(transfer.remaining(), 4096);
    let before = transfer.running_time();
    let eta = transfer.eta().unwrap();
    let after = transfer.running_time();
    // as much is left as was moved: what is left takes as long as what was done
    assert!(before <= eta);
    assert!(eta <= after);
    assert!(eta >= Duration::from_millis(2));
}

#[test]
fn sized_transfer_passes_the_plain_queries_through() {
    let (transfer, worker) = SizedTransfer::new(zeros(500), Vec::<u8>::new(), 500);
    assert!(!transfer.is_complete());
    assert_eq!(transfer.transferred(), 0);
    assert_eq!(transfer.speed(), 0);
    let ran = worker.run();
    assert!(transfer.is_complete());
    assert_eq!(transfer.transferred(), 500);
    assert!(transfer.running_time() >= Duration::ZERO);
    let (source, sink) = transfer.finish(WorkerExit::Returned(ran)).unwrap();
    assert_eq!(source.position(), 500);
    assert_eq!(sink, vec![0u8; 500]);
}

#[test]
fn sized_transfer_reports_a_lost_worker() {
    let (transfer, worker) = SizedTransfer::new(zeros(8), Vec::<u8>::new(), 8);
    drop(worker);
    let outcome = transfer.finish(WorkerExit::<Cursor<Vec<u8>>, Vec<u8>>::Aborted);
    assert!(matches!(outcome, Err(TransferError::WorkerAborted)));
}
