//! The bounded window over a stream of transactions: an optional stop
//! condition on the logical time, then a cap on the number of items.

use vstd::prelude::*;
use vstd::string::*;
use crate::number::{parse_i64, signed_decimal};

verus! {

/// Whether an item of logical time `lt` passes the stop condition: with a
/// floor, only a logical time strictly above it does.
pub open spec fn passes(floor: Option<i64>, lt: i64) -> bool {
    match floor {
        Some(f) => lt > f,
        None => true,
    }
}

/// The length of the longest prefix of `lts` whose items all pass.
pub open spec fn admitted_len(lts: Seq<i64>, floor: Option<i64>) -> nat
    decreases lts.len(),
{
    if lts.len() == 0 || !passes(floor, lts[0]) {
        0
    } else {
        1 + admitted_len(lts.skip(1), floor)
    }
}

/// The number of items that the window lets through: the admitted prefix,
/// cut at the cap where there is one.
pub open spec fn window_len(lts: Seq<i64>, floor: Option<i64>, cap: Option<usize>) -> nat {
    let admitted = admitted_len(lts, floor);
    match cap {
        Some(c) => if (c as nat) < admitted { c as nat } else { admitted },
        None => admitted,
    }
}

/// The window itself: a prefix of the source, in the source's order.
pub open spec fn window(lts: Seq<i64>, floor: Option<i64>, cap: Option<usize>) -> Seq<i64> {
    lts.take(window_len(lts, floor, cap) as int)
}

/// Where the first `n` items pass, the admitted prefix has at least `n`
/// items; where moreover item `n` exists and fails, it has exactly `n`.
pub proof fn lemma_admitted_prefix(lts: Seq<i64>, floor: Option<i64>, n: int)
    requires
        0 <= n <= lts.len(),
        forall|j: int| 0 <= j < n ==> passes(floor, #[trigger] lts[j]),
    ensures
        n <= admitted_len(lts, floor) <= lts.len(),
        n < lts.len() && !passes(floor, lts[n]) ==> admitted_len(lts, floor) == n,
    decreases lts.len(),
{
    if lts.len() == 0 {
    } else if n == 0 {
        if passes(floor, lts[0]) {
            lemma_admitted_prefix(lts.skip(1), floor, 0);
        }
    } else {
        let rest = lts.skip(1);
        assert(passes(floor, lts[0]));
        assert forall|j: int| 0 <= j < n - 1 implies passes(floor, #[trigger] rest[j]) by {
            assert(rest[j] == lts[j + 1]);
        }
        if n < lts.len() {
            assert(rest[n - 1] == lts[n]);
        }
        lemma_admitted_prefix(rest, floor, n - 1);
    }
}

/// Every item of the window passes the stop condition, the window is no
/// longer than the cap, and the item that follows an uncapped window, if
/// there is one, fails.
pub proof fn lemma_window_sound(lts: Seq<i64>, floor: Option<i64>, cap: Option<usize>)
    ensures
        window_len(lts, floor, cap) <= lts.len(),
        cap matches Some(c) ==> window_len(lts, floor, cap) <= c,
        forall|j: int| 0 <= j < window_len(lts, floor, cap) ==> passes(floor, #[trigger] lts[j]),
        cap is None && window_len(lts, floor, cap) < lts.len() ==> !passes(
            floor,
            lts[window_len(lts, floor, cap) as int],
        ),
    decreases lts.len(),
{
    lemma_admitted_prefix(lts, floor, 0);
    if lts.len() > 0 && passes(floor, lts[0]) {
        let rest = lts.skip(1);
        lemma_window_sound(rest, floor, None);
        lemma_admitted_prefix(rest, floor, 0);
        assert forall|j: int| 0 <= j < admitted_len(lts, floor) implies passes(
            floor,
            #[trigger] lts[j],
        ) by {
            if j > 0 {
                assert(rest[j - 1] == lts[j]);
            }
        }
        if admitted_len(lts, floor) < lts.len() {
            assert(rest[admitted_len(rest, floor) as int] == lts[admitted_len(lts, floor) as int]);
        }
    }
}

/// What the engine says of one offered item.
#[derive(Clone, Copy, Debug, PartialEq, Eq, Structural)]
pub enum Verdict {
    /// The item belongs to the result.
    Take,
    /// The item does not belong to the result, and nothing after it does.
    Stop,
    /// The logical time of the item could not be read, so the stop condition
    /// cannot be decided.
    Malformed,
}

/// The message that the response carries where an item was malformed.
pub open spec fn malformed_message() -> Seq<char> {
    "logical time of a transaction is not a signed 64-bit decimal integer"@
}

/// The message that the response carries for an answer of the engine: one
/// where the item was malformed, and none otherwise.
pub open spec fn verdict_message(verdict: Verdict) -> Option<Seq<char>> {
    match verdict {
        Verdict::Malformed => Some(malformed_message()),
        _ => None,
    }
}

impl Verdict {
    /// The message of the failure that this answer reports, if it reports
    /// one.
    pub fn failure_message(&self) -> (text: Option<String>)
        ensures
            text is Some <==> *self == Verdict::Malformed,
            match text {
                Some(t) => Some(t@) == verdict_message(*self),
                None => verdict_message(*self) is None,
            },
    {
        match self {
            Verdict::Malformed => Some(
                String::from_str(
                    "logical time of a transaction is not a signed 64-bit decimal integer",
                ),
            ),
            _ => None,
        }
    }
}

/// The state of one aggregation: the stop condition, how many items may
/// still be taken, and whether the stop condition has failed.
#[derive(Clone, Copy, Debug, PartialEq, Eq)]
pub struct Aggregator {
    /// Items pass only with a logical time strictly above this.
    pub floor: Option<i64>,
    /// How many more items may be taken; `None` without a cap.
    pub remaining: Option<usize>,
    /// Whether an offered item has failed the stop condition.
    pub stopped: bool,
}

impl Aggregator {
    /// Whether the engine still takes items: it has not stopped and the cap
    /// is not used up.
    pub open spec fn open(&self) -> bool {
        !self.stopped && self.remaining != Some(0usize)
    }

    /// The state after taking one item.
    pub open spec fn after_take(&self) -> Aggregator {
        Aggregator {
            floor: self.floor,
            remaining: match self.remaining {
                Some(r) => Some((r - 1) as usize),
                None => None,
            },
            stopped: false,
        }
    }

    /// The state after an item that ended the aggregation.
    pub open spec fn after_stop(&self) -> Aggregator {
        Aggregator { floor: self.floor, remaining: self.remaining, stopped: true }
    }

    /// Whether an item of logical time `lt`, offered in this state, is taken.
    pub open spec fn takes(&self, lt: i64) -> bool {
        self.open() && passes(self.floor, lt)
    }

    /// The state after an item of logical time `lt` was offered: a closed
    /// engine stays as it is, an item that is taken uses up one of the cap,
    /// and an item that fails closes the engine.
    pub open spec fn after_offer(&self, lt: i64) -> Aggregator {
        if !self.open() {
            *self
        } else if passes(self.floor, lt) {
            self.after_take()
        } else {
            self.after_stop()
        }
    }

    /// How many of `lts` are taken when they are offered one after another,
    /// starting in this state.
    pub open spec fn taken_of(&self, lts: Seq<i64>) -> nat
        decreases lts.len(),
    {
        if lts.len() == 0 {
            0
        } else {
            (if self.takes(lts[0]) { 1nat } else { 0nat }) + self.after_offer(lts[0]).taken_of(
                lts.skip(1),
            )
        }
    }

    /// An engine that has taken nothing yet.
    pub fn new(floor: Option<i64>, cap: Option<usize>) -> (engine: Aggregator)
        ensures
            engine == (Aggregator { floor, remaining: cap, stopped: false }),
    {
        Aggregator { floor, remaining: cap, stopped: false }
    }

    /// Whether another item should be pulled from the source. Once this is
    /// false it stays false.
    pub fn wants_more(&self) -> (more: bool)
        ensures
            more == self.open(),
    {
        if self.stopped {
            false
        } else {
            match self.remaining {
                Some(r) => r != 0,
                None => true,
            }
        }
    }

    fn take_one(&mut self)
        requires
            old(self).open(),
        ensures
            *final(self) == old(self).after_take(),
    {
        match self.remaining {
            Some(r) => {
                self.remaining = Some(r - 1);
            },
            None => {},
        }
    }

    /// Offers the next item of the source by its logical time. The item is
    /// taken exactly where the engine is open and the item passes; an item
    /// that fails closes the engine for good; a closed engine takes nothing
    /// and does not change.
    pub fn offer(&mut self, lt: i64) -> (taken: bool)
        ensures
            taken == old(self).takes(lt),
            *final(self) == old(self).after_offer(lt),
    {
        if !self.wants_more() {
            return false;
        }
        let pass = match self.floor {
            Some(f) => lt > f,
            None => true,
        };
        if pass {
            self.take_one();
        } else {
            self.stopped = true;
        }
        pass
    }

    /// What `offer_text` answers in a given state to a given text.
    pub open spec fn verdict_on(&self, lt: Seq<char>) -> Verdict {
        if !self.open() {
            Verdict::Stop
        } else if self.floor is None {
            Verdict::Take
        } else {
            match signed_decimal(lt) {
                Some(v) => if passes(self.floor, v) { Verdict::Take } else { Verdict::Stop },
                None => Verdict::Malformed,
            }
        }
    }

    /// Offers the next item of the source by the decimal text of its logical
    /// time. Without a stop condition the text is not read. With one, text
    /// that is no signed 64-bit decimal is reported as malformed and closes
    /// the engine.
    pub fn offer_text(&mut self, lt: &str) -> (verdict: Verdict)
        ensures
            verdict == old(self).verdict_on(lt@),
            *final(self) == if !old(self).open() {
                *old(self)
            } else if verdict == Verdict::Take {
                old(self).after_take()
            } else {
                old(self).after_stop()
            },
    {
        if !self.wants_more() {
            return Verdict::Stop;
        }
        if self.floor.is_none() {
            self.take_one();
            return Verdict::Take;
        }
        match parse_i64(lt) {
            Some(v) => if self.offer(v) { Verdict::Take } else { Verdict::Stop },
            None => {
                self.stopped = true;
                Verdict::Malformed
            },
        }
    }
}

/// A closed engine takes nothing, whatever is offered.
pub proof fn lemma_closed_takes_nothing(engine: Aggregator, lts: Seq<i64>)
    requires
        !engine.open(),
    ensures
        engine.taken_of(lts) == 0,
    decreases lts.len(),
{
    if lts.len() > 0 {
        lemma_closed_takes_nothing(engine, lts.skip(1));
    }
}

/// Offering a source item by item takes as many items as the window over
/// the whole source holds, for the stop condition of the engine and what is
/// left of its cap; and where the first item is not taken, none is, so that
/// the items taken are a prefix of the source.
pub proof fn lemma_engine_takes_window(engine: Aggregator, lts: Seq<i64>)
    requires
        !engine.stopped,
    ensures
        engine.taken_of(lts) == window_len(lts, engine.floor, engine.remaining),
        lts.len() > 0 && !engine.takes(lts[0]) ==> engine.taken_of(lts) == 0,
    decreases lts.len(),
{
    if lts.len() > 0 {
        let rest = lts.skip(1);
        let next = engine.after_offer(lts[0]);
        lemma_admitted_prefix(rest, engine.floor, 0);
        if engine.takes(lts[0]) {
            lemma_engine_takes_window(next, rest);
        } else {
            lemma_closed_takes_nothing(next, rest);
        }
    }
}

/// Runs the engine over a whole source held in memory and returns the items
/// taken: the longest prefix whose logical times all pass the stop
/// condition, cut at the cap. Items behind the first that fails are never
/// looked at.
pub fn aggregate(lts: &Vec<i64>, floor: Option<i64>, cap: Option<usize>) -> (taken: Vec<i64>)
    ensures
        taken@ == window(lts@, floor, cap),
        taken@.len() <= lts@.len(),
        cap matches Some(c) ==> taken@.len() <= c,
        forall|j: int| 0 <= j < taken@.len() ==> passes(floor, #[trigger] taken@[j]),
{
    let mut engine = Aggregator::new(floor, cap);
    let mut taken: Vec<i64> = Vec::new();
    let mut i: usize = 0;
    while i < lts.len() && engine.wants_more()
        invariant
            i <= lts.len(),
            engine.floor == floor,
            taken@ == lts@.take(i as int),
            forall|j: int| 0 <= j < i ==> passes(floor, #[trigger] lts@[j]),
            engine.stopped ==> i < lts.len() && !passes(floor, lts@[i as int]),
            match cap {
                Some(c) => i <= c && engine.remaining == Some((c - i) as usize),
                None => engine.remaining is None,
            },
        decreases lts.len() - i + (if engine.stopped { 0int } else { 1int }),
    {
        let lt = lts[i];
        if engine.offer(lt) {
            taken.push(lt);
            assert(lts@.take(i as int).push(lt) =~= lts@.take(i + 1));
            i += 1;
        }
    }
    proof {
        lemma_admitted_prefix(lts@, floor, i as int);
    }
    taken
}

} // verus!
