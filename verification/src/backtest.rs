use vstd::prelude::*;

use crate::strategy::Signal;

verus! {

/// The latest quote seen for each symbol, in the order the symbols first
/// appeared.
pub struct QuoteBook<Q> {
    entries: Vec<(String, Q)>,
}

/// The map from symbol to quote that a list of entries denotes, later
/// entries taking precedence.
pub open spec fn entries_map<Q>(s: Seq<(String, Q)>) -> Map<Seq<char>, Q>
    decreases s.len(),
{
    if s.len() == 0 {
        Map::empty()
    } else {
        entries_map(s.drop_last()).insert(s.last().0@, s.last().1)
    }
}

/// No symbol occurs twice.
pub open spec fn symbols_unique<Q>(s: Seq<(String, Q)>) -> bool {
    forall|i: int, j: int| 0 <= i < j < s.len() ==> s[i].0@ != s[j].0@
}

proof fn lemma_entries_map_dom<Q>(s: Seq<(String, Q)>, k: Seq<char>)
    ensures
        entries_map(s).contains_key(k) <==> exists|i: int| 0 <= i < s.len() && s[i].0@ == k,
    decreases s.len(),
{
    if s.len() > 0 {
        lemma_entries_map_dom(s.drop_last(), k);
        if entries_map(s).contains_key(k) && s.last().0@ != k {
            let i = choose|i: int| 0 <= i < s.len() - 1 && s.drop_last()[i].0@ == k;
            assert(s[i].0@ == k);
        }
        if exists|i: int| 0 <= i < s.len() && s[i].0@ == k {
            let i = choose|i: int| 0 <= i < s.len() && s[i].0@ == k;
            if i < s.len() - 1 {
                assert(s.drop_last()[i].0@ == k);
            }
        }
    }
}

proof fn lemma_entries_map_value<Q>(s: Seq<(String, Q)>, i: int)
    requires
        symbols_unique(s),
        0 <= i < s.len(),
    ensures
        entries_map(s).contains_key(s[i].0@),
        entries_map(s)[s[i].0@] == s[i].1,
    decreases s.len(),
{
    if i < s.len() - 1 {
        lemma_entries_map_value(s.drop_last(), i);
        assert(s.drop_last()[i] == s[i]);
    }
}

proof fn lemma_entries_map_len<Q>(s: Seq<(String, Q)>)
    requires
        symbols_unique(s),
    ensures
        entries_map(s).dom().finite(),
        entries_map(s).len() == s.len(),
    decreases s.len(),
{
    if s.len() > 0 {
        let t = s.drop_last();
        assert(symbols_unique(t));
        lemma_entries_map_len(t);
        lemma_entries_map_dom(t, s.last().0@);
        if entries_map(t).contains_key(s.last().0@) {
            let i = choose|i: int| 0 <= i < t.len() && t[i].0@ == s.last().0@;
            assert(s[i].0@ == s[s.len() - 1].0@);
        }
    }
}

proof fn lemma_entries_map_update<Q>(s: Seq<(String, Q)>, i: int, e: (String, Q))
    requires
        symbols_unique(s),
        0 <= i < s.len(),
        s[i].0@ == e.0@,
    ensures
        entries_map(s.update(i, e)) == entries_map(s).insert(e.0@, e.1),
    decreases s.len(),
{
    let u = s.update(i, e);
    if i == s.len() - 1 {
        assert(u.drop_last() =~= s.drop_last());
        assert(entries_map(u) =~= entries_map(s).insert(e.0@, e.1));
    } else {
        let t = s.drop_last();
        assert(symbols_unique(t));
        assert(u.drop_last() =~= t.update(i, e));
        lemma_entries_map_update(t, i, e);
        assert(s.last().0@ != e.0@);
        assert(u.last() == s.last());
        assert(entries_map(u) =~= entries_map(s).insert(e.0@, e.1));
    }
}

/// The two legs of a pair as the book holds them.
pub enum Legs<'a, Q> {
    /// Fewer than two symbols have been seen.
    Waiting,
    /// Both legs have a latest quote.
    Ready(&'a Q, &'a Q),
    /// Two or more symbols have been seen, but one of the legs is not among
    /// them.
    Missing,
}

impl<Q> QuoteBook<Q> {
    #[verifier::type_invariant]
    spec fn well_formed(self) -> bool {
        symbols_unique(self.entries@)
    }

    /// The latest quote of each symbol seen so far.
    pub closed spec fn view(&self) -> Map<Seq<char>, Q> {
        entries_map(self.entries@)
    }

    /// An empty book.
    pub fn new() -> (b: Self)
        ensures
            b.view() == Map::<Seq<char>, Q>::empty(),
    {
        QuoteBook { entries: Vec::new() }
    }

    /// The number of distinct symbols seen.
    pub fn len(&self) -> (n: usize)
        ensures
            self.view().dom().finite(),
            n == self.view().len(),
    {
        proof {
            use_type_invariant(self);
            lemma_entries_map_len(self.entries@);
        }
        self.entries.len()
    }

    /// The latest quote of `symbol`, if one was seen.
    pub fn get(&self, symbol: &String) -> (r: Option<&Q>)
        ensures
            match r {
                Some(q) => self.view().contains_key(symbol@) && *q == self.view()[symbol@],
                None => !self.view().contains_key(symbol@),
            },
    {
        proof {
            use_type_invariant(self);
        }
        let mut i: usize = 0;
        while i < self.entries.len()
            invariant
                i <= self.entries.len(),
                symbols_unique(self.entries@),
                forall|j: int| 0 <= j < i ==> self.entries@[j].0@ != symbol@,
            decreases self.entries.len() - i,
        {
            if self.entries[i].0 == *symbol {
                proof {
                    lemma_entries_map_value(self.entries@, i as int);
                }
                return Some(&self.entries[i].1);
            }
            i = i + 1;
        }
        proof {
            lemma_entries_map_dom(self.entries@, symbol@);
        }
        None
    }

    /// The latest quotes of the legs `a` and `b`, once at least two symbols
    /// have been seen.
    pub fn legs(&self, a: &String, b: &String) -> (r: Legs<'_, Q>)
        ensures
            r is Waiting <==> self.view().len() < 2,
            r is Missing <==> self.view().len() >= 2 && !(self.view().contains_key(a@)
                && self.view().contains_key(b@)),
            match r {
                Legs::Ready(qa, qb) => self.view().contains_key(a@) && self.view().contains_key(b@)
                    && *qa == self.view()[a@] && *qb == self.view()[b@],
                _ => true,
            },
    {
        if self.len() < 2 {
            return Legs::Waiting;
        }
        match (self.get(a), self.get(b)) {
            (Some(qa), Some(qb)) => Legs::Ready(qa, qb),
            _ => Legs::Missing,
        }
    }

    /// Records `quote` as the latest quote of `symbol`, replacing any earlier
    /// one.
    pub fn insert(&mut self, symbol: String, quote: Q)
        ensures
            final(self).view() == old(self).view().insert(symbol@, quote),
    {
        proof {
            use_type_invariant(&*self);
        }
        let mut entries: Vec<(String, Q)> = Vec::new();
        std::mem::swap(&mut entries, &mut self.entries);
        let ghost before = entries@;
        assert(before == old(self).entries@);
        let mut i: usize = 0;
        while i < entries.len()
            invariant
                i <= entries.len(),
                entries@ == before,
                before == old(self).entries@,
                symbols_unique(before),
                forall|j: int| 0 <= j < i ==> before[j].0@ != symbol@,
            decreases entries.len() - i,
        {
            if entries[i].0 == symbol {
                proof {
                    lemma_entries_map_update(before, i as int, (symbol, quote));
                    assert(symbols_unique(before.update(i as int, (symbol, quote))));
                }
                entries.set(i, (symbol, quote));
                self.entries = entries;
                return;
            }
            i = i + 1;
        }
        proof {
            assert(symbols_unique(before.push((symbol, quote))));
            assert(before.push((symbol, quote)).drop_last() =~= before);
        }
        entries.push((symbol, quote));
        self.entries = entries;
    }
}

/// Reading a symbol back after recording a quote for it gives that quote,
/// and every other symbol keeps what it had.
pub proof fn lemma_latest_quote_wins<Q>(book: Map<Seq<char>, Q>, symbol: Seq<char>, quote: Q, other: Seq<char>)
    ensures
        book.insert(symbol, quote).contains_key(symbol),
        book.insert(symbol, quote)[symbol] == quote,
        other != symbol ==> (book.insert(symbol, quote).contains_key(other) <==> book.contains_key(other)),
        other != symbol && book.contains_key(other) ==> book.insert(symbol, quote)[other] == book[other],
{
}

/// Recording a quote adds one to the number of symbols exactly when the
/// symbol had not been seen.
pub proof fn lemma_symbol_count<Q>(book: Map<Seq<char>, Q>, symbol: Seq<char>, quote: Q)
    requires
        book.dom().finite(),
    ensures
        book.insert(symbol, quote).len() == if book.contains_key(symbol) {
            book.len()
        } else {
            book.len() + 1
        },
{
    if book.contains_key(symbol) {
        assert(book.insert(symbol, quote).dom() =~= book.dom());
    }
}

/// A long-only position driven by signals: `Buy` opens at the current price
/// when nothing is open, `Sell` closes an open position and reports its
/// entry price, anything else changes nothing.
pub open spec fn spec_apply_long_only<P>(open: Option<P>, signal: Signal, price: P) -> (Option<P>, Option<P>) {
    match signal {
        Signal::Buy => if open is None {
            (Some(price), None)
        } else {
            (open, None)
        },
        Signal::Sell => match open {
            Some(entry) => (None, Some(entry)),
            None => (None, None),
        },
        Signal::Hold => (open, None),
    }
}

/// Applies a signal to a long-only position; the second component is the
/// entry price of a position closed by this signal.
pub fn apply_long_only<P: Copy>(open: Option<P>, signal: Signal, price: P) -> (r: (Option<P>, Option<P>))
    ensures
        r == spec_apply_long_only(open, signal, price),
        signal == Signal::Hold ==> r == (open, None::<P>),
        signal == Signal::Buy ==> r == (if open is None {
            Some(price)
        } else {
            open
        }, None::<P>),
        signal == Signal::Sell ==> r == (None::<P>, open),
{
    match signal {
        Signal::Buy => {
            if open.is_none() {
                (Some(price), None)
            } else {
                (open, None)
            }
        },
        Signal::Sell => match open {
            Some(entry) => (None, Some(entry)),
            None => (None, None),
        },
        Signal::Hold => (open, None),
    }
}

/// A position bought at `entry` and later sold reports `entry` on the sale,
/// whatever the price then.
pub proof fn lemma_sale_reports_purchase<P>(entry: P, later: P)
    ensures
        ({
            let (opened, _) = spec_apply_long_only(None, Signal::Buy, entry);
            spec_apply_long_only(opened, Signal::Sell, later) == (None::<P>, Some(entry))
        }),
{
}

/// `Hold` never opens or closes a position; `Buy` opens at the current price
/// only when nothing is open; `Sell` always leaves nothing open and reports
/// exactly the entry of what was open.
pub proof fn lemma_long_only_rules<P>(open: Option<P>, signal: Signal, price: P)
    ensures
        ({
            let (next, closed) = spec_apply_long_only(open, signal, price);
            &&& signal == Signal::Hold ==> next == open && closed == None::<P>
            &&& signal == Signal::Buy && open is None ==> next == Some(price) && closed == None::<P>
            &&& signal == Signal::Buy && open is Some ==> next == open && closed == None::<P>
            &&& signal == Signal::Sell ==> next == None::<P> && closed == open
            &&& next != open ==> (signal == Signal::Buy && open is None) || signal == Signal::Sell
        }),
{
}

} // verus!
