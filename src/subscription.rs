//! Subscriptions to event kinds, their wire tokens, and normalisation of
//! overlapping subscription sets.

use vstd::prelude::*;

verus! {

/// The kind of event that a subscription asks for.
#[derive(Clone, Copy, Debug, PartialEq, Eq, Hash, Structural)]
pub enum Kind {
    /// Second aggregates.
    SecondAggregates,
    /// Minute aggregates.
    MinuteAggregates,
    /// Trades.
    Trades,
    /// Quotes.
    Quotes,
}

/// Possible subscriptions for a stock.
#[derive(Clone, Debug, Eq, Hash)]
pub enum Stock {
    /// Subscribe to the stock with the given symbol.
    Symbol(String),
    /// Subscribe to an event type for all available stocks.
    All,
}

/// An enum describing a subscription.
#[derive(Clone, Debug, Eq, Hash)]
pub enum Subscription {
    /// A type representing second aggregates for the given stock.
    SecondAggregates(Stock),
    /// A type representing minute aggregates for the given stock.
    MinuteAggregates(Stock),
    /// A type representing trades for the given stock.
    Trades(Stock),
    /// A type representing quotes for the given stock.
    Quotes(Stock),
}

/// The mathematical value of a subscription: its kind and its symbol,
/// `None` standing for the wildcard.
pub struct SubscriptionModel {
    /// The kind of event.
    pub kind: Kind,
    /// The symbol, or `None` for all symbols.
    pub symbol: Option<Seq<char>>,
}

impl View for Stock {
    type V = Option<Seq<char>>;

    open spec fn view(&self) -> Option<Seq<char>> {
        match self {
            Stock::Symbol(s) => Some(s@),
            Stock::All => None,
        }
    }
}

impl Subscription {
    /// The kind of event this subscription asks for.
    pub open spec fn spec_kind(&self) -> Kind {
        match self {
            Subscription::SecondAggregates(_) => Kind::SecondAggregates,
            Subscription::MinuteAggregates(_) => Kind::MinuteAggregates,
            Subscription::Trades(_) => Kind::Trades,
            Subscription::Quotes(_) => Kind::Quotes,
        }
    }

    /// The symbol selector of this subscription.
    pub open spec fn spec_stock(&self) -> Stock {
        match self {
            Subscription::SecondAggregates(s) => *s,
            Subscription::MinuteAggregates(s) => *s,
            Subscription::Trades(s) => *s,
            Subscription::Quotes(s) => *s,
        }
    }

    /// Retrieve the `Stock` object common to all variants in a
    /// `Subscription`.
    pub fn stock(&self) -> (r: &Stock)
        ensures
            *r == self.spec_stock(),
    {
        match self {
            Subscription::SecondAggregates(stock) => stock,
            Subscription::MinuteAggregates(stock) => stock,
            Subscription::Trades(stock) => stock,
            Subscription::Quotes(stock) => stock,
        }
    }

    /// The kind of event this subscription asks for.
    pub fn kind(&self) -> (r: Kind)
        ensures
            r == self.spec_kind(),
    {
        match self {
            Subscription::SecondAggregates(_) => Kind::SecondAggregates,
            Subscription::MinuteAggregates(_) => Kind::MinuteAggregates,
            Subscription::Trades(_) => Kind::Trades,
            Subscription::Quotes(_) => Kind::Quotes,
        }
    }
}

impl View for Subscription {
    type V = SubscriptionModel;

    open spec fn view(&self) -> SubscriptionModel {
        SubscriptionModel { kind: self.spec_kind(), symbol: self.spec_stock()@ }
    }
}

impl PartialEq for Stock {
    fn eq(&self, other: &Stock) -> (r: bool)
        ensures
            r == (self@ == other@),
    {
        match self {
            Stock::Symbol(a) => match other {
                Stock::Symbol(b) => a.eq(b),
                Stock::All => false,
            },
            Stock::All => match other {
                Stock::Symbol(_) => false,
                Stock::All => true,
            },
        }
    }
}

impl vstd::std_specs::cmp::PartialEqSpecImpl for Stock {
    open spec fn obeys_eq_spec() -> bool {
        true
    }

    open spec fn eq_spec(&self, other: &Stock) -> bool {
        self@ == other@
    }
}

impl PartialEq for Subscription {
    fn eq(&self, other: &Subscription) -> (r: bool)
        ensures
            r == (self@ == other@),
    {
        self.kind() == other.kind() && self.stock() == other.stock()
    }
}

impl vstd::std_specs::cmp::PartialEqSpecImpl for Subscription {
    open spec fn obeys_eq_spec() -> bool {
        true
    }

    open spec fn eq_spec(&self, other: &Subscription) -> bool {
        self@ == other@
    }
}

/// The wire prefix of an event kind.
pub open spec fn kind_prefix(k: Kind) -> Seq<char> {
    match k {
        Kind::SecondAggregates => seq!['A'],
        Kind::MinuteAggregates => seq!['A', 'M'],
        Kind::Trades => seq!['T'],
        Kind::Quotes => seq!['Q'],
    }
}

/// The wire form of a symbol selector: the symbol itself, or `*`.
pub open spec fn selector_token(s: Option<Seq<char>>) -> Seq<char> {
    match s {
        Some(sym) => sym,
        None => seq!['*'],
    }
}

/// The wire token of a subscription: `<prefix>.<symbol-or-*>`.
pub open spec fn wire_token(m: SubscriptionModel) -> Seq<char> {
    kind_prefix(m.kind) + seq!['.'] + selector_token(m.symbol)
}

impl Stock {
    /// The wire form of this selector: the symbol, or `*` for all.
    pub fn to_string(&self) -> (r: String)
        ensures
            r@ == selector_token(self@),
    {
        match self {
            Stock::Symbol(symbol) => symbol.clone(),
            Stock::All => {
                proof {
                    reveal_strlit("*");
                }
                String::from_str("*")
            },
        }
    }
}

impl Subscription {
    /// The wire token of this subscription, such as `T.MSFT` or `Q.*`.
    pub fn to_string(&self) -> (r: String)
        ensures
            r@ == wire_token(self@),
    {
        proof {
            reveal_strlit("A.");
            reveal_strlit("AM.");
            reveal_strlit("T.");
            reveal_strlit("Q.");
        }
        let prefix = match self {
            Subscription::SecondAggregates(_) => String::from_str("A."),
            Subscription::MinuteAggregates(_) => String::from_str("AM."),
            Subscription::Trades(_) => String::from_str("T."),
            Subscription::Quotes(_) => String::from_str("Q."),
        };
        let stock = self.stock().to_string();
        let r = prefix.concat(stock.as_str());
        assert(r@ =~= wire_token(self@));
        r
    }
}

/// The wildcard subscription of kind `k`.
pub open spec fn wildcard(k: Kind) -> SubscriptionModel {
    SubscriptionModel { kind: k, symbol: None }
}

/// The set of subscriptions that `s` stands for.
pub open spec fn model_set(s: Seq<Subscription>) -> Set<SubscriptionModel> {
    s.map_values(|x: Subscription| x@).to_set()
}

/// Normalisation of a subscription set: within each kind, a wildcard
/// absorbs every subscription to a single symbol.
pub open spec fn normalized(s: Set<SubscriptionModel>) -> Set<SubscriptionModel> {
    s.filter(|m: SubscriptionModel| m.symbol is None || !s.contains(wildcard(m.kind)))
}

/// Normalising a set twice gives what normalising it once gives.
pub proof fn lemma_normalize_idempotent(s: Set<SubscriptionModel>)
    ensures
        normalized(normalized(s)) == normalized(s),
{
    assert(normalized(normalized(s)) =~= normalized(s));
}

/// Where a set holds the wildcard of kind `k`, its normalisation holds
/// exactly one subscription of kind `k`: that wildcard.
pub proof fn lemma_normalize_wildcard_dominates(s: Set<SubscriptionModel>, k: Kind)
    requires
        s.contains(wildcard(k)),
    ensures
        normalized(s).contains(wildcard(k)),
        forall|m: SubscriptionModel| #[trigger]
            normalized(s).contains(m) && m.kind == k ==> m == wildcard(k),
{
}

/// Whether `v` holds a subscription whose value is `m`.
fn holds(v: &Vec<Subscription>, m: &Subscription) -> (r: bool)
    ensures
        r == v@.map_values(|x: Subscription| x@).contains(m@),
{
    let mut i: usize = 0;
    while i < v.len()
        invariant
            i <= v.len(),
            forall|j: int| 0 <= j < i ==> v@[j]@ != m@,
        decreases v.len() - i,
    {
        if v[i] == *m {
            assert(v@.map_values(|x: Subscription| x@)[i as int] == m@);
            return true;
        }
        i = i + 1;
    }
    proof {
        let mv = v@.map_values(|x: Subscription| x@);
        if mv.contains(m@) {
            let j = choose|j: int| 0 <= j < mv.len() && mv[j] == m@;
            assert(v@[j]@ == m@);
        }
    }
    false
}

/// Whether `v` holds the wildcard subscription of kind `k`.
fn holds_wildcard(v: &Vec<Subscription>, k: Kind) -> (r: bool)
    ensures
        r == model_set(v@).contains(wildcard(k)),
{
    let mut i: usize = 0;
    while i < v.len()
        invariant
            i <= v.len(),
            forall|j: int| 0 <= j < i ==> v@[j]@ != wildcard(k),
        decreases v.len() - i,
    {
        let s = &v[i];
        if s.kind() == k {
            match s.stock() {
                Stock::All => {
                    assert(v@.map_values(|x: Subscription| x@)[i as int] == wildcard(k));
                    return true;
                },
                Stock::Symbol(_) => {},
            }
        }
        i = i + 1;
    }
    proof {
        let mv = v@.map_values(|x: Subscription| x@);
        if mv.contains(wildcard(k)) {
            let j = choose|j: int| 0 <= j < mv.len() && mv[j] == wildcard(k);
            assert(v@[j]@ == wildcard(k));
        }
    }
    false
}

/// A copy of `s` with the same value.
fn copy_of(s: &Subscription) -> (r: Subscription)
    ensures
        r@ == s@,
{
    let stock = match s.stock() {
        Stock::Symbol(symbol) => Stock::Symbol(symbol.clone()),
        Stock::All => Stock::All,
    };
    match s.kind() {
        Kind::SecondAggregates => Subscription::SecondAggregates(stock),
        Kind::MinuteAggregates => Subscription::MinuteAggregates(stock),
        Kind::Trades => Subscription::Trades(stock),
        Kind::Quotes => Subscription::Quotes(stock),
    }
}

/// Whether normalisation of `input` keeps the subscription `m`.
pub open spec fn kept(input: Set<SubscriptionModel>, m: SubscriptionModel) -> bool {
    m.symbol is None || !input.contains(wildcard(m.kind))
}

proof fn lemma_model_set_push(s: Seq<Subscription>, x: Subscription)
    ensures
        model_set(s.push(x)) == model_set(s).insert(x@),
        s.push(x).map_values(|y: Subscription| y@) == s.map_values(|y: Subscription| y@).push(x@),
{
    let a = s.push(x).map_values(|y: Subscription| y@);
    let b = s.map_values(|y: Subscription| y@);
    assert(a =~= b.push(x@));
    assert forall|m: SubscriptionModel| a.to_set().contains(m) <==> b.to_set().insert(x@).contains(m) by {
        if a.to_set().contains(m) {
            let j = choose|j: int| 0 <= j < a.len() && a[j] == m;
            if j < b.len() {
                assert(b[j] == m);
            }
        }
        if b.to_set().contains(m) && m != x@ {
            let j = choose|j: int| 0 <= j < b.len() && b[j] == m;
            assert(a[j] == m);
        }
        if m == x@ {
            assert(a[b.len() as int] == m);
        }
    }
    assert(a.to_set() =~= b.to_set().insert(x@));
}

/// Normalize a list of subscriptions, removing duplicates and overlaps.
///
/// If a subscription applies to all stocks of a certain kind (e.g.,
/// `Subscription::Trades(Stock::All)`) then more specific subscriptions of
/// that kind are removed (e.g., `Subscription::Trades(Stock::Symbol("SPY"))`).
/// The result holds each remaining subscription once, in the order of its
/// first occurrence.
pub fn normalize(subscriptions: Vec<Subscription>) -> (r: Vec<Subscription>)
    ensures
        model_set(r@) == normalized(model_set(subscriptions@)),
        r@.map_values(|x: Subscription| x@).no_duplicates(),
{
    let ghost input = model_set(subscriptions@);
    let all_second = holds_wildcard(&subscriptions, Kind::SecondAggregates);
    let all_minute = holds_wildcard(&subscriptions, Kind::MinuteAggregates);
    let all_trades = holds_wildcard(&subscriptions, Kind::Trades);
    let all_quotes = holds_wildcard(&subscriptions, Kind::Quotes);
    let mut out: Vec<Subscription> = Vec::new();
    let mut i: usize = 0;
    proof {
        assert(subscriptions@.subrange(0, 0) =~= Seq::<Subscription>::empty());
        assert(model_set(out@) =~= model_set(subscriptions@.subrange(0, 0)).filter(
            |m: SubscriptionModel| kept(input, m),
        ));
    }
    while i < subscriptions.len()
        invariant
            i <= subscriptions.len(),
            input == model_set(subscriptions@),
            all_second == input.contains(wildcard(Kind::SecondAggregates)),
            all_minute == input.contains(wildcard(Kind::MinuteAggregates)),
            all_trades == input.contains(wildcard(Kind::Trades)),
            all_quotes == input.contains(wildcard(Kind::Quotes)),
            out@.map_values(|x: Subscription| x@).no_duplicates(),
            model_set(out@) == model_set(subscriptions@.subrange(0, i as int)).filter(
                |m: SubscriptionModel| kept(input, m),
            ),
        decreases subscriptions.len() - i,
    {
        let s = &subscriptions[i];
        let absorbed = match s.stock() {
            Stock::All => false,
            Stock::Symbol(_) => match s.kind() {
                Kind::SecondAggregates => all_second,
                Kind::MinuteAggregates => all_minute,
                Kind::Trades => all_trades,
                Kind::Quotes => all_quotes,
            },
        };
        assert(absorbed == !kept(input, s@));
        let ghost prev = subscriptions@.subrange(0, i as int);
        proof {
            assert(subscriptions@.subrange(0, i + 1) =~= prev.push(*s));
            lemma_model_set_push(prev, *s);
        }
        let ghost old_out = out@;
        if !absorbed && !holds(&out, s) {
            let c = copy_of(s);
            out.push(c);
            proof {
                lemma_model_set_push(old_out, c);
                let a = out@.map_values(|x: Subscription| x@);
                let b = old_out.map_values(|x: Subscription| x@);
                assert forall|p: int, q: int| 0 <= p < q < a.len() implies a[p] != a[q] by {
                    if q == b.len() {
                        assert(b.contains(a[p]));
                    } else {
                        assert(b[p] == a[p] && b[q] == a[q]);
                    }
                }
            }
        }
        proof {
            assert(model_set(out@) =~= model_set(prev.push(*s)).filter(
                |m: SubscriptionModel| kept(input, m),
            ));
        }
        i = i + 1;
    }
    assert(subscriptions@.subrange(0, subscriptions.len() as int) =~= subscriptions@);
    assert(model_set(out@) =~= normalized(input));
    out
}

} // verus!
