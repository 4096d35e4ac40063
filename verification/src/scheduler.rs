//! The recurring-task scheduler: run the collection once at start, then
//! whenever the cron schedule's next fire time has elapsed, forever. The
//! next fire time comes from the `cron` crate behind a trusted
//! declaration; the firing decision is verified.

use vstd::prelude::*;

use core::str::FromStr;

verus! {

/// The first occurrence of a cron schedule strictly after an instant, or
/// nothing when the expression does not parse (or the instant lies outside
/// the representable range); a function of the expression and the instant
/// alone.
pub uninterp spec fn cron_next_of(expr: Seq<char>, after: int) -> Option<int>;

/// Relies on cron's `Schedule::from_str` and `Schedule::after`: the first
/// occurrence is strictly after the given instant. The search starts one
/// second past the instant, and adding that second to a datetime at the
/// top of chrono's range would panic, so an instant whose successor is
/// not representable yields nothing instead of being searched.
#[verifier::external_body]
fn cron_next_occurrence(expr: &str, after_secs: i64) -> (r: Option<i64>)
    ensures
        r is Some <==> cron_next_of(expr@, after_secs as int) is Some,
        r is Some ==> r->0 as int == cron_next_of(expr@, after_secs as int)->0,
        r is Some ==> r->0 > after_secs,
{
    let schedule = match cron::Schedule::from_str(expr) {
        Ok(s) => s,
        Err(_) => return None,
    };
    let successor = after_secs.checked_add(1)?;
    chrono::DateTime::from_timestamp(successor, 0)?;
    let after = chrono::DateTime::from_timestamp(after_secs, 0)?;
    schedule.after(&after).next().map(|d| d.timestamp())
}

/// The scheduler for one agent. The driver runs the collection once
/// immediately, then polls `should_fire` at a short fixed interval; an
/// unparseable schedule leaves the scheduler inert and the agent never
/// fires again — a fatal configuration error, not retried.
pub struct Scheduler {
    pub expr: String,
    pub next_due: Option<i64>,
}

impl Scheduler {
    /// Start a schedule at the given instant. The first due time is the
    /// schedule's first occurrence after now; an unparseable expression
    /// yields an inert scheduler.
    pub fn new(expr: String, now_epoch_secs: i64) -> (r: Scheduler)
        ensures
            r.expr == expr,
            r.next_due is Some <==> cron_next_of(expr@, now_epoch_secs as int) is Some,
            r.next_due is Some ==> r.next_due->0 as int == cron_next_of(
                expr@,
                now_epoch_secs as int,
            )->0,
            r.next_due is Some ==> r.next_due->0 > now_epoch_secs,
    {
        let next_due = cron_next_occurrence(expr.as_str(), now_epoch_secs);
        Scheduler { expr, next_due }
    }

    /// Whether the scheduler can ever fire again.
    pub fn is_inert(&self) -> (r: bool)
        ensures
            r == (self.next_due is None),
    {
        self.next_due.is_none()
    }

    /// Decide whether the action fires at this poll: it does exactly when
    /// a due time exists and has elapsed, and the next due time is then
    /// the schedule's first occurrence after now.
    pub fn should_fire(&mut self, now_epoch_secs: i64) -> (r: bool)
        ensures
            final(self).expr == old(self).expr,
            r == (old(self).next_due matches Some(t) && now_epoch_secs >= t),
            !r ==> final(self).next_due == old(self).next_due,
            r ==> (final(self).next_due is Some <==> cron_next_of(
                old(self).expr@,
                now_epoch_secs as int,
            ) is Some),
            r ==> (final(self).next_due is Some ==> final(self).next_due->0 as int == cron_next_of(
                old(self).expr@,
                now_epoch_secs as int,
            )->0),
            r ==> (final(self).next_due is Some ==> final(self).next_due->0 > now_epoch_secs),
    {
        let due = match self.next_due {
            Some(t) => {
                if now_epoch_secs >= t {
                    true
                } else {
                    false
                }
            },
            None => false,
        };
        if due {
            let next = cron_next_occurrence(self.expr.as_str(), now_epoch_secs);
            self.next_due = next;
        }
        due
    }
}

} // verus!
