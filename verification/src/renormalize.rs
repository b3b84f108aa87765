//! Re-normalization of historical checks when the preferred currency
//! changes: which checks are copied, converted or cleared, and the tally.
//! The conversion itself uses exchange rates and is made by the caller.

use vstd::prelude::*;
use crate::json::opt_view;
use crate::text::{eq_ignore_ascii_case, eq_ignore_ascii_case_spec};

verus! {

/// What happens to one check's normalized price.
#[derive(Debug, Clone, Copy, PartialEq, Eq, Structural)]
pub enum RenormalizeAction {
    /// The check is already in the preferred currency: copy its price.
    SameCurrency,
    /// A rate is known: convert the price.
    Convert,
    /// No rate is known: clear the stale normalized price.
    Clear,
}

/// The view of an optional string slice.
pub open spec fn opt_text(o: Option<&str>) -> Option<Seq<char>> {
    match o {
        Some(s) => Some(s@),
        None => None,
    }
}

/// The action for a check: none without a price and a currency; a copy
/// for the preferred currency (ignoring ASCII case); a conversion when a
/// rate is known; else clearing.
pub open spec fn action_spec(
    price_minor_units: Option<i64>,
    price_currency: Option<Seq<char>>,
    preferred: Seq<char>,
    rate_known: bool,
) -> Option<RenormalizeAction> {
    if price_minor_units is None || price_currency is None {
        None
    } else if eq_ignore_ascii_case_spec(price_currency->0, preferred) {
        Some(RenormalizeAction::SameCurrency)
    } else if rate_known {
        Some(RenormalizeAction::Convert)
    } else {
        Some(RenormalizeAction::Clear)
    }
}

/// Decide what happens to one check's normalized price.
pub fn renormalize_action(
    price_minor_units: Option<i64>,
    price_currency: Option<&str>,
    preferred: &str,
    rate_known: bool,
) -> (r: Option<RenormalizeAction>)
    ensures
        r == action_spec(price_minor_units, opt_text(price_currency), preferred@, rate_known),
{
    if price_minor_units.is_none() {
        return None;
    }
    match price_currency {
        None => None,
        Some(c) => {
            if eq_ignore_ascii_case(c, preferred) {
                Some(RenormalizeAction::SameCurrency)
            } else if rate_known {
                Some(RenormalizeAction::Convert)
            } else {
                Some(RenormalizeAction::Clear)
            }
        },
    }
}

/// Summary of a re-normalization run.
#[derive(Debug, Clone, Copy)]
pub struct RenormalizeSummary {
    pub total: usize,
    pub converted: usize,
    pub same_currency: usize,
    pub cleared: usize,
}

/// The number of checks a summary has recorded an action for.
pub open spec fn recorded(s: RenormalizeSummary) -> int {
    s.converted + s.same_currency + s.cleared
}

impl RenormalizeSummary {
    /// A summary of `total` checks with nothing recorded yet.
    pub fn new(total: usize) -> (r: RenormalizeSummary)
        ensures
            r.total == total,
            r.converted == 0,
            r.same_currency == 0,
            r.cleared == 0,
    {
        RenormalizeSummary { total, converted: 0, same_currency: 0, cleared: 0 }
    }

    /// Record the action taken for one more check.
    pub fn record(&mut self, action: RenormalizeAction)
        requires
            recorded(*old(self)) < old(self).total,
        ensures
            final(self).total == old(self).total,
            recorded(*final(self)) == recorded(*old(self)) + 1,
            final(self).converted == old(self).converted + if action == RenormalizeAction::Convert { 1int } else { 0 },
            final(self).same_currency == old(self).same_currency + if action == RenormalizeAction::SameCurrency { 1int } else { 0 },
            final(self).cleared == old(self).cleared + if action == RenormalizeAction::Clear { 1int } else { 0 },
    {
        match action {
            RenormalizeAction::SameCurrency => self.same_currency = self.same_currency + 1,
            RenormalizeAction::Convert => self.converted = self.converted + 1,
            RenormalizeAction::Clear => self.cleared = self.cleared + 1,
        }
    }
}

// ---------------------------------------------------------------------------
// Values written and a whole pass
// ---------------------------------------------------------------------------

/// The normalized price and currency a check gets for an action: its own
/// price in the preferred currency for a copy; the converted price in the
/// preferred currency for a conversion; nothing for clearing.
pub open spec fn values_spec(
    action: RenormalizeAction,
    price: i64,
    converted: i64,
    preferred: Seq<char>,
) -> (Option<i64>, Option<Seq<char>>) {
    match action {
        RenormalizeAction::SameCurrency => (Some(price), Some(preferred)),
        RenormalizeAction::Convert => (Some(converted), Some(preferred)),
        RenormalizeAction::Clear => (None, None),
    }
}

/// The normalized (price, currency) a check is given for an action. The
/// converted amount comes from the exchange-rate conversion, made by the
/// caller; it is read only for a conversion.
pub fn normalized_values(
    action: RenormalizeAction,
    price: i64,
    converted: i64,
    preferred: &str,
) -> (r: (Option<i64>, Option<String>))
    ensures
        (r.0, opt_view(r.1)) == values_spec(action, price, converted, preferred@),
{
    match action {
        RenormalizeAction::SameCurrency => (Some(price), Some(preferred.to_string())),
        RenormalizeAction::Convert => (Some(converted), Some(preferred.to_string())),
        RenormalizeAction::Clear => (None, None),
    }
}

/// A stored check as a re-normalization pass reads it: its original price
/// and currency, and its price converted to the preferred currency when an
/// exchange rate for its currency is known (`None` when none is).
#[derive(Debug, Clone)]
pub struct PriceCheck {
    pub price_minor_units: Option<i64>,
    pub price_currency: Option<String>,
    pub converted_minor_units: Option<i64>,
}

/// The action for a check in a pass to `preferred`.
pub open spec fn check_action(c: PriceCheck, preferred: Seq<char>) -> Option<RenormalizeAction> {
    action_spec(c.price_minor_units, opt_view(c.price_currency), preferred, c.converted_minor_units is Some)
}

/// What a pass writes for a check: nothing for a check without price data,
/// else its new normalized price and currency.
pub open spec fn update_spec(c: PriceCheck, preferred: Seq<char>) -> Option<(Option<i64>, Option<Seq<char>>)> {
    match check_action(c, preferred) {
        None => None,
        Some(a) => Some(values_spec(
            a,
            c.price_minor_units.unwrap(),
            c.converted_minor_units.unwrap_or(0),
            preferred,
        )),
    }
}

/// The view of a pass's write for one check.
pub open spec fn update_view(u: Option<(Option<i64>, Option<String>)>) -> Option<(Option<i64>, Option<Seq<char>>)> {
    match u {
        Some((p, c)) => Some((p, opt_view(c))),
        None => None,
    }
}

/// How many checks get each action: (converted, same currency, cleared).
pub open spec fn action_counts(checks: Seq<PriceCheck>, preferred: Seq<char>) -> (int, int, int)
    decreases checks.len(),
{
    if checks.len() == 0 {
        (0, 0, 0)
    } else {
        let (c, s, x) = action_counts(checks.drop_last(), preferred);
        match check_action(checks.last(), preferred) {
            Some(RenormalizeAction::Convert) => (c + 1, s, x),
            Some(RenormalizeAction::SameCurrency) => (c, s + 1, x),
            Some(RenormalizeAction::Clear) => (c, s, x + 1),
            None => (c, s, x),
        }
    }
}

/// How many checks have both a price and a currency.
pub open spec fn priced_count(checks: Seq<PriceCheck>) -> int
    decreases checks.len(),
{
    if checks.len() == 0 {
        0
    } else {
        priced_count(checks.drop_last()) + if checks.last().price_minor_units is Some
            && checks.last().price_currency is Some { 1int } else { 0 }
    }
}

/// Every priced check gets exactly one action and no other check gets any.
pub proof fn lemma_action_counts(checks: Seq<PriceCheck>, preferred: Seq<char>)
    ensures
        action_counts(checks, preferred).0 + action_counts(checks, preferred).1
            + action_counts(checks, preferred).2 == priced_count(checks),
        0 <= action_counts(checks, preferred).0,
        0 <= action_counts(checks, preferred).1,
        0 <= action_counts(checks, preferred).2,
        0 <= priced_count(checks) <= checks.len(),
    decreases checks.len(),
{
    if checks.len() > 0 {
        lemma_action_counts(checks.drop_last(), preferred);
    }
}

/// Re-normalize a whole set of checks to `preferred`: for each check what
/// it is to be given (nothing for a check without price data), and the
/// summary of the pass.
pub fn renormalize_pass(checks: &[PriceCheck], preferred: &str) -> (r: (RenormalizeSummary, Vec<Option<(Option<i64>, Option<String>)>>))
    ensures
        r.0.total == checks@.len(),
        r.0.converted == action_counts(checks@, preferred@).0,
        r.0.same_currency == action_counts(checks@, preferred@).1,
        r.0.cleared == action_counts(checks@, preferred@).2,
        r.1@.len() == checks@.len(),
        forall|i: int| 0 <= i < checks@.len() ==> update_view(#[trigger] r.1@[i]) == update_spec(checks@[i], preferred@),
{
    let mut summary = RenormalizeSummary::new(checks.len());
    let mut updates: Vec<Option<(Option<i64>, Option<String>)>> = Vec::new();
    let mut i: usize = 0;
    while i < checks.len()
        invariant
            i <= checks@.len(),
            summary.total == checks@.len(),
            (summary.converted as int, summary.same_currency as int, summary.cleared as int)
                == action_counts(checks@.take(i as int), preferred@),
            recorded(summary) == priced_count(checks@.take(i as int)),
            priced_count(checks@.take(i as int)) <= i,
            updates@.len() == i,
            forall|k: int| 0 <= k < i ==> update_view(#[trigger] updates@[k]) == update_spec(checks@[k], preferred@),
        decreases checks.len() - i,
    {
        let c = &checks[i];
        proof {
            assert(checks@.take(i + 1).drop_last() =~= checks@.take(i as int));
            lemma_action_counts(checks@.take(i as int), preferred@);
        }
        let currency: Option<&str> = match &c.price_currency {
            Some(x) => Some(x.as_str()),
            None => None,
        };
        let action = renormalize_action(c.price_minor_units, currency, preferred, c.converted_minor_units.is_some());
        match action {
            Some(a) => {
                summary.record(a);
                let price = match c.price_minor_units {
                    Some(p) => p,
                    None => 0,
                };
                let converted = match c.converted_minor_units {
                    Some(v) => v,
                    None => 0,
                };
                updates.push(Some(normalized_values(a, price, converted, preferred)));
            },
            None => {
                updates.push(None);
            },
        }
        i = i + 1;
    }
    proof {
        assert(checks@.take(checks@.len() as int) =~= checks@);
    }
    (summary, updates)
}

} // verus!
