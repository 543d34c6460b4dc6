use algo_trader::backtest::{apply_long_only, Legs, QuoteBook};
use algo_trader::strategy::Signal;

#[test]
fn quote_book_keeps_latest_per_symbol() {
    let mut book: QuoteBook<(f64, f64)> = QuoteBook::new();
    assert_eq!(book.len(), 0);
    assert!(book.get(&"AAPL".to_string()).is_none());
    book.insert("AAPL".to_string(), (1.0, 2.0));
    assert_eq!(book.len(), 1);
    book.insert("AAPL".to_string(), (3.0, 4.0));
    assert_eq!(book.len(), 1);
    assert_eq!(book.get(&"AAPL".to_string()), Some(&(3.0, 4.0)));
    book.insert("MSFT".to_string(), (5.0, 6.0));
    assert_eq!(book.len(), 2);
    assert_eq!(book.get(&"MSFT".to_string()), Some(&(5.0, 6.0)));
    assert_eq!(book.get(&"AAPL".to_string()), Some(&(3.0, 4.0)));
    assert!(book.get(&"NVDA".to_string()).is_none());
}

#[test]
fn long_only_positions() {
    assert_eq!(apply_long_only(None, Signal::Buy, 10.0f64), (Some(10.0), None));
    assert_eq!(apply_long_only(Some(10.0), Signal::Buy, 12.0f64), (Some(10.0), None));
    assert_eq!(apply_long_only(Some(10.0), Signal::Hold, 12.0f64), (Some(10.0), None));
    assert_eq!(apply_long_only(Some(10.0), Signal::Sell, 12.0f64), (None, Some(10.0)));
    assert_eq!(apply_long_only(None, Signal::Sell, 12.0f64), (None, None));
}

#[test]
fn legs_wait_then_pair() {
    let aapl = "AAPL".to_string();
    let msft = "MSFT".to_string();
    let mut book: QuoteBook<i32> = QuoteBook::new();
    assert!(matches!(book.legs(&aapl, &msft), Legs::Waiting));
    book.insert(aapl.clone(), 1);
    book.insert(aapl.clone(), 2);
    assert!(matches!(book.legs(&aapl, &msft), Legs::Waiting));
    book.insert("NVDA".to_string(), 3);
    assert!(matches!(book.legs(&aapl, &msft), Legs::Missing));
    book.insert(msft.clone(), 4);
    assert!(matches!(book.legs(&aapl, &msft), Legs::Ready(&2, &4)));
}
