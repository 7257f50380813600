//! The message log: the most recent status messages, oldest first.

use vstd::prelude::*;

verus! {

/// How many messages the log keeps.
pub const LOG_CAPACITY: usize = 5;

/// The texts of the log's messages, oldest first.
pub open spec fn log_view(v: Seq<String>) -> Seq<Seq<char>> {
    v.map_values(|s: String| s@)
}

/// The log `s` after `m` is appended: `m` goes to the end and, if that makes
/// more than `LOG_CAPACITY` entries, the oldest one is dropped.
pub open spec fn log_append(s: Seq<Seq<char>>, m: Seq<char>) -> Seq<Seq<char>> {
    if s.len() + 1 > LOG_CAPACITY {
        s.push(m).drop_first()
    } else {
        s.push(m)
    }
}

/// Appends `msg` to `log`, dropping the oldest entry once over capacity.
pub fn push_message(log: &mut Vec<String>, msg: String)
    ensures
        log_view(final(log)@) == log_append(log_view(old(log)@), msg@),
        old(log)@.len() <= LOG_CAPACITY ==> final(log)@.len() <= LOG_CAPACITY,
{
    log.push(msg);
    if log.len() > LOG_CAPACITY {
        log.remove(0);
    }
    assert(log_view(log@) =~= log_append(log_view(old(log)@), msg@));
}

/// The log never holds more than `LOG_CAPACITY` messages; once full, an
/// append drops exactly the oldest message and keeps the others in order.
pub proof fn lemma_log_bounded(s: Seq<Seq<char>>, m: Seq<char>)
    requires
        s.len() <= LOG_CAPACITY,
    ensures
        log_append(s, m).len() <= LOG_CAPACITY,
        log_append(s, m).last() == m,
        s.len() == LOG_CAPACITY ==> log_append(s, m) == s.subrange(1, s.len() as int).push(m),
        s.len() < LOG_CAPACITY ==> log_append(s, m) == s.push(m),
{
    if s.len() == LOG_CAPACITY {
        assert(s.push(m).drop_first() =~= s.subrange(1, s.len() as int).push(m));
    }
}

} // verus!
